use rnp::callbacks::{key_request, password_buffer, PasswordProvider, RequestedKeyType};
use rnp::key::KeyIdentifier;

#[test]
fn requested_key_type_round_trips() {
    for k in [RequestedKeyType::Keyid, RequestedKeyType::Fingerprint, RequestedKeyType::Grip] {
        assert_eq!(RequestedKeyType::parse(k.as_str()), k);
    }
    assert_eq!(RequestedKeyType::parse("unknown"), RequestedKeyType::Keyid);
    assert_eq!(RequestedKeyType::parse(""), RequestedKeyType::Keyid);
}

#[test]
fn password_buffer_needs_room_for_terminator() {
    assert_eq!(password_buffer(Some("abc"), 4), Some(b"abc\0".to_vec()));
    assert_eq!(password_buffer(Some("abc"), 3), None);
    assert_eq!(password_buffer(Some("abc"), 100), Some(b"abc\0".to_vec()));
    assert_eq!(password_buffer(None, 100), None);
    assert_eq!(password_buffer(Some(""), 1), Some(vec![0]));
    assert_eq!(password_buffer(Some(""), 0), None);
    // multi-byte UTF-8 counts bytes, not chars
    assert_eq!(password_buffer(Some("é"), 2), None);
    assert_eq!(password_buffer(Some("é"), 3), Some(vec![0xc3, 0xa9, 0]));
}

#[test]
fn key_request_names_the_identifier_by_kind() {
    let (id, kind) = key_request(Some("fingerprint"), "ABCD");
    assert_eq!(kind, RequestedKeyType::Fingerprint);
    assert!(matches!(id, KeyIdentifier::Fingerprint("ABCD")));
    let (id, kind) = key_request(Some("grip"), "G");
    assert_eq!(kind, RequestedKeyType::Grip);
    assert!(matches!(id, KeyIdentifier::Grip("G")));
    let (id, kind) = key_request(None, "0123");
    assert_eq!(kind, RequestedKeyType::Keyid);
    assert!(matches!(id, KeyIdentifier::Keyid("0123")));
    let (id, _) = key_request(Some("whatever"), "x");
    assert!(matches!(id, KeyIdentifier::Keyid("x")));
}

struct Fixed;

impl PasswordProvider<u32> for Fixed {
    fn get_password(&self, key: Option<&u32>, context: &str) -> Option<String> {
        match key {
            Some(k) => Some(format!("{context}-{k}")),
            None => None,
        }
    }
}

#[test]
fn password_provider_sees_the_key() {
    assert_eq!(Fixed.get_password(Some(&7), "decrypt").as_deref(), Some("decrypt-7"));
    assert_eq!(password_buffer(Fixed.get_password(None, "x").as_deref(), 10), None);
}
