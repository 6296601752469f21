//! Option types consumed by key mutation (protect, add-uid, revoke) and the
//! argument lists those operations hand to librnp.

use vstd::prelude::*;
use crate::algorithm::{cipher_name, hash_name, Cipher};
use crate::error::{Error, Result};
use crate::text::{contains_nul, has_nul, opt_view, owned};

verus! {

// ---------------------------------------------------------------------------
// Revocation reasons
// ---------------------------------------------------------------------------

/// Revocation reason code. Values 0..=3 per RFC 4880 §5.2.3.23.
///
/// Wire names are the librnp C-API identifiers (not the numeric values),
/// because `rnp_key_revoke` / `rnp_key_export_revocation` map by name.
#[derive(Clone, Copy, Debug, PartialEq, Eq, Structural)]
pub enum RevocationCode {
    /// `"no"` — no specific reason (default).
    NoReason,
    /// `"superseded"` — key superseded.
    Superseded,
    /// `"compromised"` — key material compromised.
    Compromised,
    /// `"retired"` — key retired.
    Retired,
}

/// The librnp name of a revocation code.
pub open spec fn revocation_code_name(c: RevocationCode) -> Seq<char> {
    match c {
        RevocationCode::NoReason => "no"@,
        RevocationCode::Superseded => "superseded"@,
        RevocationCode::Compromised => "compromised"@,
        RevocationCode::Retired => "retired"@,
    }
}

impl RevocationCode {
    pub fn as_str(self) -> (s: &'static str)
        ensures
            s@ == revocation_code_name(self),
    {
        match self {
            RevocationCode::NoReason => "no",
            RevocationCode::Superseded => "superseded",
            RevocationCode::Compromised => "compromised",
            RevocationCode::Retired => "retired",
        }
    }
}

/// Reason for revoking a key or UID.
#[derive(Clone, Debug)]
pub struct RevocationReason {
    pub code: RevocationCode,
    pub reason: Option<String>,
}

impl RevocationReason {
    pub fn new(code: RevocationCode) -> (r: RevocationReason)
        ensures
            r.code == code,
            r.reason is None,
    {
        RevocationReason { code, reason: None }
    }

    pub fn with_reason(self, reason: &str) -> (r: RevocationReason)
        ensures
            r.code == self.code,
            opt_view(r.reason) == Some(reason@),
    {
        RevocationReason { code: self.code, reason: Some(owned(reason)) }
    }

    pub fn code_str(&self) -> (s: &'static str)
        ensures
            s@ == revocation_code_name(self.code),
    {
        self.code.as_str()
    }

    /// The arguments of `rnp_key_revoke` / `rnp_key_export_revocation` for
    /// this reason and `hash`; a reason text holding a NUL is
    /// [`Error::NulByte`].
    pub fn revocation_args(&self, hash: crate::algorithm::Hash) -> (r: Result<RevocationArgs>)
        ensures
            (self.reason matches Some(t) && has_nul(t@)) <==> r is Err,
            r matches Err(e) ==> e is NulByte,
            r matches Ok(a) ==> {
                &&& a.code@ == revocation_code_name(self.code)
                &&& a.hash@ == hash_name(hash)
                &&& opt_view(a.reason) == opt_view(self.reason)
            },
    {
        let reason = match &self.reason {
            Some(s) => Some(crate::ffi_safe::c_string(s.as_str())?),
            None => None,
        };
        Ok(RevocationArgs { code: self.code_str(), hash: hash.as_str(), reason })
    }
}

/// What a revocation hands to librnp: reason code name, hash name and the
/// optional reason text (`None` is a null pointer).
pub struct RevocationArgs {
    pub code: &'static str,
    pub hash: &'static str,
    pub reason: Option<String>,
}

// ---------------------------------------------------------------------------
// Protection options
// ---------------------------------------------------------------------------

/// The settings of a [`ProtectOptions`] (or of a key builder's protection).
pub struct ProtectModel {
    pub password: Option<Seq<char>>,
    pub cipher: Option<Cipher>,
    pub mode: Option<Seq<char>>,
    pub hash: Option<crate::algorithm::Hash>,
    pub iterations: Option<usize>,
}

/// Options for protecting a key. Unset fields take librnp's defaults
/// (AES256 / CFB / SHA256 / iteration count chosen by librnp).
pub struct ProtectOptions {
    pub password: Option<String>,
    pub cipher: Option<Cipher>,
    pub mode: Option<String>,
    pub hash: Option<crate::algorithm::Hash>,
    pub iterations: Option<usize>,
}

impl View for ProtectOptions {
    type V = ProtectModel;

    open spec fn view(&self) -> ProtectModel {
        ProtectModel {
            password: opt_view(self.password),
            cipher: self.cipher,
            mode: opt_view(self.mode),
            hash: self.hash,
            iterations: self.iterations,
        }
    }
}

/// Whether protecting with these settings stops on an interior NUL in the
/// cipher mode, which cannot be passed to librnp (reached only once the
/// password has been accepted).
pub open spec fn protect_mode_unpassable(m: ProtectModel) -> bool {
    &&& m.password matches Some(p) && !has_nul(p)
    &&& m.mode matches Some(md) && has_nul(md)
}

/// The name passed for an optional cipher, defaulting to AES256.
pub open spec fn cipher_or_default(c: Option<Cipher>) -> Seq<char> {
    match c {
        Some(c) => cipher_name(c),
        None => "AES256"@,
    }
}

/// The name passed for an optional hash, defaulting to SHA256.
pub open spec fn hash_or_default(h: Option<crate::algorithm::Hash>) -> Seq<char> {
    match h {
        Some(h) => hash_name(h),
        None => "SHA256"@,
    }
}

/// What protecting a key hands to librnp (`rnp_key_protect`).
pub struct ProtectArgs {
    pub password: String,
    pub cipher: &'static str,
    pub mode: String,
    pub hash: &'static str,
    pub iterations: usize,
}

/// The cipher name for an optional cipher, defaulting to AES256.
pub fn cipher_name_or_default(c: Option<Cipher>) -> (s: &'static str)
    ensures
        s@ == cipher_or_default(c),
{
    match c {
        Some(c) => c.as_str(),
        None => "AES256",
    }
}

/// The hash name for an optional hash, defaulting to SHA256.
pub fn hash_name_or_default(h: Option<crate::algorithm::Hash>) -> (s: &'static str)
    ensures
        s@ == hash_or_default(h),
{
    match h {
        Some(h) => h.as_str(),
        None => "SHA256",
    }
}

impl ProtectOptions {
    pub fn new() -> (r: ProtectOptions)
        ensures
            r@ == (ProtectModel {
                password: None,
                cipher: None,
                mode: None,
                hash: None,
                iterations: None,
            }),
    {
        ProtectOptions { password: None, cipher: None, mode: None, hash: None, iterations: None }
    }

    pub fn password(self, p: &str) -> (r: ProtectOptions)
        ensures
            r@ == (ProtectModel { password: Some(p@), ..self@ }),
    {
        ProtectOptions { password: Some(owned(p)), ..self }
    }

    pub fn cipher(self, c: Cipher) -> (r: ProtectOptions)
        ensures
            r@ == (ProtectModel { cipher: Some(c), ..self@ }),
    {
        ProtectOptions { cipher: Some(c), ..self }
    }

    pub fn mode(self, m: &str) -> (r: ProtectOptions)
        ensures
            r@ == (ProtectModel { mode: Some(m@), ..self@ }),
    {
        ProtectOptions { mode: Some(owned(m)), ..self }
    }

    pub fn hash(self, h: crate::algorithm::Hash) -> (r: ProtectOptions)
        ensures
            r@ == (ProtectModel { hash: Some(h), ..self@ }),
    {
        ProtectOptions { hash: Some(h), ..self }
    }

    pub fn iterations(self, n: usize) -> (r: ProtectOptions)
        ensures
            r@ == (ProtectModel { iterations: Some(n), ..self@ }),
    {
        ProtectOptions { iterations: Some(n), ..self }
    }

    /// Whether protecting would stop on a cipher mode holding a NUL, which
    /// cannot be passed to librnp at all.
    pub fn mode_unpassable(&self) -> (r: bool)
        ensures
            r == protect_mode_unpassable(self@),
    {
        let password_ok = match &self.password {
            Some(p) => !contains_nul(p.as_str()),
            None => false,
        };
        let mode_bad = match &self.mode {
            Some(m) => contains_nul(m.as_str()),
            None => false,
        };
        password_ok && mode_bad
    }

    /// The arguments of `rnp_key_protect`. Without a password the result is
    /// [`Error::NullPointer`]; a password holding a NUL is
    /// [`Error::NulByte`]. Unset settings take the defaults AES256, CFB,
    /// SHA256 and iteration count 0 (librnp's choice).
    pub fn protect_args(&self) -> (r: Result<ProtectArgs>)
        requires
            !protect_mode_unpassable(self@),
        ensures
            self@.password is None <==> (r matches Err(e) && e is NullPointer),
            (self@.password matches Some(p) && has_nul(p)) <==> (r matches Err(e) && e is NulByte),
            (self@.password matches Some(p) && !has_nul(p)) <==> r is Ok,
            r matches Ok(a) ==> {
                &&& self@.password == Some(a.password@)
                &&& a.cipher@ == cipher_or_default(self@.cipher)
                &&& a.mode@ == match self@.mode {
                    Some(m) => m,
                    None => "CFB"@,
                }
                &&& a.hash@ == hash_or_default(self@.hash)
                &&& a.iterations == match self@.iterations {
                    Some(n) => n,
                    None => 0,
                }
            },
    {
        let pw = match &self.password {
            Some(p) => crate::ffi_safe::c_string(p.as_str())?,
            None => return Err(Error::NullPointer),
        };
        let cipher = cipher_name_or_default(self.cipher);
        let mode = match &self.mode {
            Some(m) => owned(m.as_str()),
            None => owned("CFB"),
        };
        let hash = hash_name_or_default(self.hash);
        let iterations = match self.iterations {
            Some(n) => n,
            None => 0,
        };
        Ok(ProtectArgs { password: pw, cipher, mode, hash, iterations })
    }
}

// ---------------------------------------------------------------------------
// Add-uid options
// ---------------------------------------------------------------------------

/// Options for adding a user ID to a key.
#[derive(Clone, Copy, Debug, PartialEq, Eq, Structural)]
pub struct AddUidOptions {
    pub hash: Option<crate::algorithm::Hash>,
    pub key_flags: Option<u32>,
    pub key_expiration: Option<u32>,
    pub primary: bool,
}

/// What adding a user ID hands to librnp (`rnp_key_add_uid`).
pub struct AddUidArgs {
    pub uid: String,
    pub hash: &'static str,
    pub expiration: u32,
    pub key_flags: u8,
    pub primary: bool,
}

impl AddUidOptions {
    pub fn new() -> (r: AddUidOptions)
        ensures
            r == (AddUidOptions { hash: None, key_flags: None, key_expiration: None, primary: false }),
    {
        AddUidOptions { hash: None, key_flags: None, key_expiration: None, primary: false }
    }

    pub fn hash(self, h: crate::algorithm::Hash) -> (r: AddUidOptions)
        ensures
            r == (AddUidOptions { hash: Some(h), ..self }),
    {
        AddUidOptions { hash: Some(h), ..self }
    }

    pub fn key_flags(self, flags: u32) -> (r: AddUidOptions)
        ensures
            r == (AddUidOptions { key_flags: Some(flags), ..self }),
    {
        AddUidOptions { key_flags: Some(flags), ..self }
    }

    pub fn key_expiration(self, seconds: u32) -> (r: AddUidOptions)
        ensures
            r == (AddUidOptions { key_expiration: Some(seconds), ..self }),
    {
        AddUidOptions { key_expiration: Some(seconds), ..self }
    }

    pub fn primary(self, p: bool) -> (r: AddUidOptions)
        ensures
            r == (AddUidOptions { primary: p, ..self }),
    {
        AddUidOptions { primary: p, ..self }
    }

    /// The arguments of `rnp_key_add_uid` for `uid`: a uid holding a NUL is
    /// [`Error::NulByte`]; the hash defaults to SHA256, expiration and key
    /// flags to 0, and the key flags are passed as their low byte.
    pub fn add_uid_args(&self, uid: &str) -> (r: Result<AddUidArgs>)
        ensures
            has_nul(uid@) <==> r is Err,
            r matches Err(e) ==> e is NulByte,
            r matches Ok(a) ==> {
                &&& a.uid@ == uid@
                &&& a.hash@ == hash_or_default(self.hash)
                &&& a.expiration == match self.key_expiration {
                    Some(s) => s,
                    None => 0u32,
                }
                &&& a.key_flags == (match self.key_flags {
                    Some(f) => f,
                    None => 0u32,
                }) as u8
                &&& a.primary == self.primary
            },
    {
        let uid_c = crate::ffi_safe::c_string(uid)?;
        let expiration = match self.key_expiration {
            Some(s) => s,
            None => 0,
        };
        let flags: u32 = match self.key_flags {
            Some(f) => f,
            None => 0,
        };
        Ok(AddUidArgs {
            uid: uid_c,
            hash: hash_name_or_default(self.hash),
            expiration,
            key_flags: flags as u8,
            primary: self.primary,
        })
    }
}

impl Default for RevocationCode {
    /// No specific reason.
    fn default() -> (r: RevocationCode)
        ensures
            r == RevocationCode::NoReason,
    {
        RevocationCode::NoReason
    }
}

impl Default for RevocationReason {
    /// No specific reason, without text.
    fn default() -> (r: RevocationReason)
        ensures
            r.code == RevocationCode::NoReason,
            r.reason is None,
    {
        RevocationReason::new(RevocationCode::NoReason)
    }
}

impl Default for ProtectOptions {
    /// No setting made: every default applies.
    fn default() -> (r: ProtectOptions)
        ensures
            r@ == (ProtectModel { password: None, cipher: None, mode: None, hash: None, iterations: None }),
    {
        ProtectOptions::new()
    }
}

impl Default for AddUidOptions {
    /// No setting made: every default applies.
    fn default() -> (r: AddUidOptions)
        ensures
            r == (AddUidOptions { hash: None, key_flags: None, key_expiration: None, primary: false }),
    {
        AddUidOptions::new()
    }
}

} // verus!
