//! ASCII armor kinds and content-type sniffing: the names `rnp_enarmor`
//! takes and the meaning of librnp's `rnp_guess_contents` answer.

use vstd::prelude::*;

verus! {

/// The armor header `rnp_enarmor` writes (`-----BEGIN PGP MESSAGE-----`
/// and kin).
#[derive(Debug, Clone, Copy, PartialEq, Eq, Structural)]
pub enum ArmorType {
    Message,
    PublicKey,
    SecretKey,
    Signature,
    Cleartext,
}

/// The librnp name of an armor kind.
pub open spec fn armor_type_name(t: ArmorType) -> Seq<char> {
    match t {
        ArmorType::Message => "message"@,
        ArmorType::PublicKey => "public key"@,
        ArmorType::SecretKey => "secret key"@,
        ArmorType::Signature => "signature"@,
        ArmorType::Cleartext => "cleartext"@,
    }
}

impl ArmorType {
    pub fn as_str(self) -> (s: &'static str)
        ensures
            s@ == armor_type_name(self),
    {
        match self {
            ArmorType::Message => "message",
            ArmorType::PublicKey => "public key",
            ArmorType::SecretKey => "secret key",
            ArmorType::Signature => "signature",
            ArmorType::Cleartext => "cleartext",
        }
    }
}

/// Armoring as a kind and reading back the guess gives the same kind of
/// content: each armor name is understood by [`ContentType::from_cstr`].
pub proof fn law_armor_names_are_content_names(t: ArmorType)
    ensures
        content_type_named(armor_type_name(t)) == match t {
            ArmorType::Message => ContentType::Message,
            ArmorType::PublicKey => ContentType::PublicKey,
            ArmorType::SecretKey => ContentType::SecretKey,
            ArmorType::Signature => ContentType::Signature,
            ArmorType::Cleartext => ContentType::Cleartext,
        },
{
    reveal_strlit("message");
    reveal_strlit("public key");
    reveal_strlit("secret key");
    reveal_strlit("signature");
    reveal_strlit("cleartext");
    reveal_strlit("cleartext signed message");
    let n = armor_type_name(t);
    match t {
        ArmorType::Message => {},
        ArmorType::PublicKey => {
            assert(n.len() != "message"@.len());
        },
        ArmorType::SecretKey => {
            assert(n.len() != "message"@.len());
            assert(n[0] != "public key"@[0]);
        },
        ArmorType::Signature => {
            assert(n.len() != "message"@.len());
            assert(n.len() != "public key"@.len());
            assert(n.len() != "secret key"@.len());
        },
        ArmorType::Cleartext => {
            assert(n.len() != "message"@.len());
            assert(n.len() != "public key"@.len());
            assert(n.len() != "secret key"@.len());
            assert(n[0] != "signature"@[0]);
            assert(n.len() != "cleartext signed message"@.len());
        },
    }
}

/// The kind of OpenPGP content a byte stream appears to be.
#[derive(Debug, Clone, Copy, PartialEq, Eq, Structural)]
pub enum ContentType {
    Message,
    PublicKey,
    SecretKey,
    Signature,
    Cleartext,
    /// librnp couldn't identify the stream.
    Unknown,
}

/// The content type librnp's guess `s` names.
pub open spec fn content_type_named(s: Seq<char>) -> ContentType {
    if s == "message"@ {
        ContentType::Message
    } else if s == "public key"@ {
        ContentType::PublicKey
    } else if s == "secret key"@ {
        ContentType::SecretKey
    } else if s == "signature"@ {
        ContentType::Signature
    } else if s == "cleartext signed message"@ || s == "cleartext"@ {
        ContentType::Cleartext
    } else {
        ContentType::Unknown
    }
}

impl ContentType {
    /// The content type librnp's guess `s` names; anything else is
    /// [`ContentType::Unknown`].
    pub fn from_cstr(s: &str) -> (r: ContentType)
        ensures
            r == content_type_named(s@),
    {
        if crate::text::str_eq(s, "message") {
            ContentType::Message
        } else if crate::text::str_eq(s, "public key") {
            ContentType::PublicKey
        } else if crate::text::str_eq(s, "secret key") {
            ContentType::SecretKey
        } else if crate::text::str_eq(s, "signature") {
            ContentType::Signature
        } else if crate::text::str_eq(s, "cleartext signed message") || crate::text::str_eq(
            s,
            "cleartext",
        ) {
            ContentType::Cleartext
        } else {
            ContentType::Unknown
        }
    }

    /// The content type of a `rnp_guess_contents` answer; no answer reads
    /// as the empty guess, which is [`ContentType::Unknown`].
    pub fn from_guess(guess: Option<&str>) -> (r: ContentType)
        ensures
            r == match guess {
                Some(s) => content_type_named(s@),
                None => ContentType::Unknown,
            },
    {
        match guess {
            Some(s) => Self::from_cstr(s),
            None => ContentType::Unknown,
        }
    }
}

} // verus!
