use rnp::armor::{ArmorType, ContentType};
use rnp::context::KeyringFormat;
use rnp::error::Error;
use rnp::key::mutation::{cipher_name_or_default, hash_name_or_default};
use rnp::key::{AddUidOptions, KeyIdentifier, ProtectOptions, RevocationCode, RevocationReason};
use rnp::keyring::IdentifierKind;
use rnp::Cipher;

#[test]
fn revocation_codes_and_args() {
    assert_eq!(RevocationCode::NoReason.as_str(), "no");
    assert_eq!(RevocationCode::Superseded.as_str(), "superseded");
    assert_eq!(RevocationCode::Compromised.as_str(), "compromised");
    assert_eq!(RevocationCode::Retired.as_str(), "retired");
    assert_eq!(RevocationCode::default(), RevocationCode::NoReason);
    let r = RevocationReason::new(RevocationCode::Superseded).with_reason("new key");
    assert_eq!(r.code_str(), "superseded");
    let a = r.revocation_args(rnp::algorithm::Hash::Sha512).unwrap();
    assert_eq!(a.code, "superseded");
    assert_eq!(a.hash, "SHA512");
    assert_eq!(a.reason.as_deref(), Some("new key"));
    let plain = RevocationReason::new(RevocationCode::NoReason).revocation_args(rnp::algorithm::Hash::Sha256).unwrap();
    assert_eq!(plain.reason, None);
    let bad = RevocationReason::new(RevocationCode::Retired).with_reason("a\0b");
    assert!(matches!(bad.revocation_args(rnp::algorithm::Hash::Sha256), Err(Error::NulByte)));
}

#[test]
fn protect_args_defaults_and_errors() {
    assert!(matches!(ProtectOptions::new().protect_args(), Err(Error::NullPointer)));
    assert!(matches!(ProtectOptions::new().password("a\0").protect_args(), Err(Error::NulByte)));
    let a = ProtectOptions::new().password("pw").protect_args().unwrap();
    assert_eq!(a.password, "pw");
    assert_eq!(a.cipher, "AES256");
    assert_eq!(a.mode, "CFB");
    assert_eq!(a.hash, "SHA256");
    assert_eq!(a.iterations, 0);
    let b = ProtectOptions::new()
        .password("pw")
        .cipher(Cipher::Camellia128)
        .mode("OCB")
        .hash(rnp::algorithm::Hash::Sha3_512)
        .iterations(1000)
        .protect_args()
        .unwrap();
    assert_eq!((b.cipher, b.mode.as_str(), b.hash, b.iterations), ("CAMELLIA128", "OCB", "SHA3-512", 1000));
    assert!(ProtectOptions::new().password("pw").mode("x\0").mode_unpassable());
    assert!(!ProtectOptions::new().password("p\0w").mode("x\0").mode_unpassable());
    assert!(!ProtectOptions::new().mode("x\0").mode_unpassable());
    assert_eq!(cipher_name_or_default(None), "AES256");
    assert_eq!(hash_name_or_default(Some(rnp::algorithm::Hash::Md5)), "MD5");
}

#[test]
fn add_uid_args() {
    let a = AddUidOptions::new().add_uid_args("bob").unwrap();
    assert_eq!(a.uid, "bob");
    assert_eq!(a.hash, "SHA256");
    assert_eq!(a.expiration, 0);
    assert_eq!(a.key_flags, 0);
    assert!(!a.primary);
    let b = AddUidOptions::new()
        .hash(rnp::algorithm::Hash::Sha384)
        .key_flags(0x103)
        .key_expiration(60)
        .primary(true)
        .add_uid_args("carol")
        .unwrap();
    assert_eq!((b.hash, b.expiration, b.key_flags, b.primary), ("SHA384", 60, 3, true));
    assert!(matches!(AddUidOptions::new().add_uid_args("x\0"), Err(Error::NulByte)));
}

#[test]
fn identifier_and_format_names() {
    let id = KeyIdentifier::Fingerprint("ABC");
    assert_eq!(id.type_str(), "fingerprint");
    assert_eq!(id.value_str(), "ABC");
    assert_eq!(KeyIdentifier::Userid("u").type_str(), "userid");
    assert_eq!(KeyIdentifier::Keyid("k").type_str(), "keyid");
    assert_eq!(KeyIdentifier::Grip("g").type_str(), "grip");
    assert_eq!(IdentifierKind::Userid.as_str(), "userid");
    assert_eq!(IdentifierKind::Fingerprint.as_str(), "fingerprint");
    assert_eq!(KeyringFormat::Gpg.as_str(), "GPG");
    assert_eq!(KeyringFormat::Kbx.as_str(), "KBX");
    assert_eq!(KeyringFormat::G10.as_str(), "G10");
    assert_eq!(KeyringFormat::Json.as_str(), "JSON");
    let (p, s) = KeyringFormat::default_pair();
    assert_eq!((p.as_str(), s.as_str()), ("GPG", "GPG"));
}

#[test]
fn armor_names_read_back_as_content_types() {
    let pairs = [
        (ArmorType::Message, ContentType::Message),
        (ArmorType::PublicKey, ContentType::PublicKey),
        (ArmorType::SecretKey, ContentType::SecretKey),
        (ArmorType::Signature, ContentType::Signature),
        (ArmorType::Cleartext, ContentType::Cleartext),
    ];
    for (a, c) in pairs {
        assert_eq!(ContentType::from_cstr(a.as_str()), c);
    }
    assert_eq!(ContentType::from_cstr("cleartext signed message"), ContentType::Cleartext);
    assert_eq!(ContentType::from_cstr("garbage"), ContentType::Unknown);
    assert_eq!(ContentType::from_guess(None), ContentType::Unknown);
    assert_eq!(ContentType::from_guess(Some("public key")), ContentType::PublicKey);
}

#[test]
fn identifier_iteration_stops_on_failure() {
    assert_eq!(rnp::keyring::identifier_next(0, Some("ABCD".to_string())), Some("ABCD".to_string()));
    assert_eq!(rnp::keyring::identifier_next(0, None), None);
    assert_eq!(rnp::keyring::identifier_next(0x1000_0008, Some("x".to_string())), None);
}
