//! Keyring identifier enumeration: the kinds of identifier librnp lists,
//! and what one step of its identifier iterator yields.

use vstd::prelude::*;
use crate::callbacks::{requested_key_type_name, RequestedKeyType};
use crate::key::identifier::{identifier_type_name, KeyIdentifier};

verus! {

/// Which identifier to enumerate over a keyring.
#[derive(Clone, Copy, Debug, PartialEq, Eq, Structural)]
pub enum IdentifierKind {
    Userid,
    Keyid,
    Grip,
    Fingerprint,
}

/// The librnp name of an identifier kind.
pub open spec fn identifier_kind_name(k: IdentifierKind) -> Seq<char> {
    match k {
        IdentifierKind::Userid => "userid"@,
        IdentifierKind::Keyid => "keyid"@,
        IdentifierKind::Grip => "grip"@,
        IdentifierKind::Fingerprint => "fingerprint"@,
    }
}

impl IdentifierKind {
    pub fn as_str(self) -> (s: &'static str)
        ensures
            s@ == identifier_kind_name(self),
    {
        match self {
            IdentifierKind::Userid => "userid",
            IdentifierKind::Keyid => "keyid",
            IdentifierKind::Grip => "grip",
            IdentifierKind::Fingerprint => "fingerprint",
        }
    }
}

/// The next identifier of an identifier iterator, given the result code of
/// `rnp_identifier_iterator_next` and the identifier it wrote (`None` for a
/// null pointer): the identifier on success, otherwise the end of the
/// iteration.
pub fn identifier_next(code: u32, identifier: Option<String>) -> (r: Option<String>)
    ensures
        code == crate::error::RNP_SUCCESS ==> r == identifier,
        code != crate::error::RNP_SUCCESS ==> r is None,
{
    if code == crate::error::RNP_SUCCESS {
        identifier
    } else {
        None
    }
}

/// The lookup identifier of the same kind as `k`, with value `v`.
pub open spec fn identifier_of_kind<'a>(k: IdentifierKind, v: &'a str) -> KeyIdentifier<'a> {
    match k {
        IdentifierKind::Userid => KeyIdentifier::Userid(v),
        IdentifierKind::Keyid => KeyIdentifier::Keyid(v),
        IdentifierKind::Grip => KeyIdentifier::Grip(v),
        IdentifierKind::Fingerprint => KeyIdentifier::Fingerprint(v),
    }
}

/// Enumerating identifiers of a kind and looking a key up by an identifier
/// of that kind name the kind alike, and the kinds a key provider can be
/// asked for carry the same names; distinct kinds have distinct names.
pub proof fn law_identifier_kind_names_agree(k: IdentifierKind, j: IdentifierKind, v: &str)
    ensures
        identifier_kind_name(k) == identifier_type_name(identifier_of_kind(k, v)),
        identifier_kind_name(IdentifierKind::Keyid) == requested_key_type_name(RequestedKeyType::Keyid),
        identifier_kind_name(IdentifierKind::Grip) == requested_key_type_name(RequestedKeyType::Grip),
        identifier_kind_name(IdentifierKind::Fingerprint) == requested_key_type_name(
            RequestedKeyType::Fingerprint,
        ),
        k != j ==> identifier_kind_name(k) != identifier_kind_name(j),
{
    reveal_strlit("userid");
    reveal_strlit("keyid");
    reveal_strlit("grip");
    reveal_strlit("fingerprint");
    if k != j {
        let a = identifier_kind_name(k);
        let b = identifier_kind_name(j);
        if a.len() == b.len() {
            assert(a[0] != b[0]);
        }
    }
}

} // verus!
