//! Key identifier: how to locate a key in the keyring.

use vstd::prelude::*;

verus! {

/// How to locate a key within a keyring.
#[derive(Clone, Copy, Debug)]
pub enum KeyIdentifier<'a> {
    Userid(&'a str),
    Keyid(&'a str),
    Fingerprint(&'a str),
    Grip(&'a str),
}

/// The librnp name of the identifier kind (`rnp_locate_key`'s
/// `identifier_type`).
pub open spec fn identifier_type_name(id: KeyIdentifier) -> Seq<char> {
    match id {
        KeyIdentifier::Userid(_) => "userid"@,
        KeyIdentifier::Keyid(_) => "keyid"@,
        KeyIdentifier::Fingerprint(_) => "fingerprint"@,
        KeyIdentifier::Grip(_) => "grip"@,
    }
}

/// The identifier's value text.
pub open spec fn identifier_value(id: KeyIdentifier) -> Seq<char> {
    match id {
        KeyIdentifier::Userid(s) => s@,
        KeyIdentifier::Keyid(s) => s@,
        KeyIdentifier::Fingerprint(s) => s@,
        KeyIdentifier::Grip(s) => s@,
    }
}

impl<'a> KeyIdentifier<'a> {
    pub fn type_str(self) -> (r: &'static str)
        ensures
            r@ == identifier_type_name(self),
    {
        match self {
            KeyIdentifier::Userid(_) => "userid",
            KeyIdentifier::Keyid(_) => "keyid",
            KeyIdentifier::Fingerprint(_) => "fingerprint",
            KeyIdentifier::Grip(_) => "grip",
        }
    }

    pub fn value_str(self) -> (r: &'a str)
        ensures
            r@ == identifier_value(self),
    {
        match self {
            KeyIdentifier::Userid(s) => s,
            KeyIdentifier::Keyid(s) => s,
            KeyIdentifier::Fingerprint(s) => s,
            KeyIdentifier::Grip(s) => s,
        }
    }
}

} // verus!
