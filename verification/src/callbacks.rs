//! The password and key providers librnp calls back into, and what those
//! callbacks decide: the bytes a password fills librnp's buffer with, and
//! which identifier a key request names.

use vstd::prelude::*;
use crate::key::identifier::KeyIdentifier;
use vstd::string::StringSliceAdditionalSpecFns;

verus! {

/// Why the key-provider is being called: the kind of identifier librnp
/// looks a key up by.
#[derive(Clone, Copy, Debug, PartialEq, Eq, Structural)]
pub enum RequestedKeyType {
    Keyid,
    Fingerprint,
    Grip,
}

/// The librnp name of a requested identifier kind.
pub open spec fn requested_key_type_name(k: RequestedKeyType) -> Seq<char> {
    match k {
        RequestedKeyType::Keyid => "keyid"@,
        RequestedKeyType::Fingerprint => "fingerprint"@,
        RequestedKeyType::Grip => "grip"@,
    }
}

/// The identifier kind librnp names `s`; an unknown name is read as a keyid.
pub open spec fn parsed_key_type(s: Seq<char>) -> RequestedKeyType {
    if s == "keyid"@ {
        RequestedKeyType::Keyid
    } else if s == "fingerprint"@ {
        RequestedKeyType::Fingerprint
    } else if s == "grip"@ {
        RequestedKeyType::Grip
    } else {
        RequestedKeyType::Keyid
    }
}

impl RequestedKeyType {
    pub fn as_str(self) -> (s: &'static str)
        ensures
            s@ == requested_key_type_name(self),
    {
        match self {
            RequestedKeyType::Keyid => "keyid",
            RequestedKeyType::Fingerprint => "fingerprint",
            RequestedKeyType::Grip => "grip",
        }
    }

    pub fn parse(s: &str) -> (r: RequestedKeyType)
        ensures
            r == parsed_key_type(s@),
    {
        if crate::text::str_eq(s, "keyid") {
            RequestedKeyType::Keyid
        } else if crate::text::str_eq(s, "fingerprint") {
            RequestedKeyType::Fingerprint
        } else if crate::text::str_eq(s, "grip") {
            RequestedKeyType::Grip
        } else {
            RequestedKeyType::Keyid
        }
    }
}

/// Parsing the name of a requested identifier kind gives that kind back.
pub proof fn law_requested_key_type_round_trip(k: RequestedKeyType)
    ensures
        parsed_key_type(requested_key_type_name(k)) == k,
{
    reveal_strlit("keyid");
    reveal_strlit("fingerprint");
    reveal_strlit("grip");
    assert("keyid"@.len() == 5);
    assert("fingerprint"@.len() == 11);
    assert("grip"@.len() == 4);
}

/// What the key-provider returned.
#[derive(Clone, Copy, Debug, PartialEq, Eq, Structural)]
pub enum KeyRequestOutcome {
    /// The key was loaded into the keyring inside the callback.
    Found,
    /// The callback couldn't find the key; librnp tries the next
    /// identifier.
    NotFound,
}

// ---------------------------------------------------------------------------
// Providers
// ---------------------------------------------------------------------------

/// What the library calls when it needs a passphrase to unlock a secret
/// key. `key` is the key being unlocked where it is known, `context` is
/// librnp's reason for asking (such as `"decrypt"`); `None` declines.
pub trait PasswordProvider<K> {
    fn get_password(&self, key: Option<&K>, context: &str) -> Option<String>;
}

/// Implemented by the consumer to feed keys into librnp on demand, during
/// verify or decrypt, when the keyring lacks a key the operation needs. The
/// implementation inspects `id` and `kind`, fetches the key from some
/// store, loads it into `ctx` (the keyring librnp asks for), and reports
/// whether it did.
pub trait KeyProvider<C> {
    fn on_key_request(&self, ctx: &C, id: KeyIdentifier<'_>, kind: RequestedKeyType) -> KeyRequestOutcome;
}

/// The bytes a password callback writes into librnp's buffer of
/// `buf_len` bytes: the password followed by a terminating NUL.
pub open spec fn password_fill(password: Option<Seq<u8>>, buf_len: usize) -> Option<Seq<u8>> {
    match password {
        None => None,
        Some(b) => if b.len() + 1 > buf_len {
            None
        } else {
            Some(b.push(0u8))
        },
    }
}

/// The UTF-8 bytes of an optional password.
pub open spec fn password_bytes(password: Option<&str>) -> Option<Seq<u8>> {
    match password {
        Some(p) => Some(p.spec_bytes()),
        None => None,
    }
}

/// The view of an optional byte buffer.
pub open spec fn bytes_view(b: Option<Vec<u8>>) -> Option<Seq<u8>> {
    match b {
        Some(v) => Some(v@),
        None => None,
    }
}

/// The answer of librnp's password callback, given what the provider
/// returned: the bytes to copy into librnp's `buf_len`-byte buffer, or
/// `None` (the callback returns `false`) when the provider declined or
/// the password and its terminating NUL do not fit.
pub fn password_buffer(password: Option<&str>, buf_len: usize) -> (r: Option<Vec<u8>>)
    ensures
        bytes_view(r) == password_fill(password_bytes(password), buf_len),
{
    let p = match password {
        Some(p) => p,
        None => return None,
    };
    let bytes = p.as_bytes();
    if bytes.len() >= buf_len {
        return None;
    }
    let mut out = vstd::slice::slice_to_vec(bytes);
    out.push(0u8);
    Some(out)
}

/// The identifier a key request names: librnp's identifier kind (a null
/// kind reads as the empty name, so as a keyid) and its value.
pub open spec fn requested_identifier(kind: RequestedKeyType, id: KeyIdentifier) -> bool {
    match kind {
        RequestedKeyType::Keyid => id is Keyid,
        RequestedKeyType::Fingerprint => id is Fingerprint,
        RequestedKeyType::Grip => id is Grip,
    }
}

/// What librnp's key-provider callback hands the provider for a request
/// with identifier kind `identifier_type` (`None` for a null pointer) and
/// identifier `identifier`: the kind as parsed, and the identifier as that
/// kind.
pub fn key_request<'a>(identifier_type: Option<&str>, identifier: &'a str) -> (r: (
    KeyIdentifier<'a>,
    RequestedKeyType,
))
    ensures
        r.1 == parsed_key_type(
            match identifier_type {
                Some(t) => t@,
                None => Seq::<char>::empty(),
            },
        ),
        requested_identifier(r.1, r.0),
        crate::key::identifier::identifier_value(r.0) == identifier@,
{
    proof {
        reveal_strlit("");
        assert(""@ =~= Seq::<char>::empty());
    }
    let kind = match identifier_type {
        Some(t) => RequestedKeyType::parse(t),
        None => RequestedKeyType::parse(""),
    };
    let id = match kind {
        RequestedKeyType::Keyid => KeyIdentifier::Keyid(identifier),
        RequestedKeyType::Fingerprint => KeyIdentifier::Fingerprint(identifier),
        RequestedKeyType::Grip => KeyIdentifier::Grip(identifier),
    };
    (id, kind)
}

} // verus!
