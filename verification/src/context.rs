//! Keyring container formats.

use vstd::prelude::*;

verus! {

/// Keyring container format passed to `rnp_ffi_create`.
#[derive(Clone, Copy, Debug, PartialEq, Eq, Structural)]
pub enum KeyringFormat {
    Gpg,
    Kbx,
    G10,
    Json,
}

/// The librnp name of a keyring format.
pub open spec fn keyring_format_name(f: KeyringFormat) -> Seq<char> {
    match f {
        KeyringFormat::Gpg => "GPG"@,
        KeyringFormat::Kbx => "KBX"@,
        KeyringFormat::G10 => "G10"@,
        KeyringFormat::Json => "JSON"@,
    }
}

impl KeyringFormat {
    pub fn as_str(self) -> (s: &'static str)
        ensures
            s@ == keyring_format_name(self),
    {
        match self {
            KeyringFormat::Gpg => "GPG",
            KeyringFormat::Kbx => "KBX",
            KeyringFormat::G10 => "G10",
            KeyringFormat::Json => "JSON",
        }
    }

    /// The public and secret keyring formats of a default context: GPG for
    /// both.
    pub fn default_pair() -> (r: (KeyringFormat, KeyringFormat))
        ensures
            r == (KeyringFormat::Gpg, KeyringFormat::Gpg),
    {
        (KeyringFormat::Gpg, KeyringFormat::Gpg)
    }
}

} // verus!
