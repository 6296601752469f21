//! Signature-creation builders: certification, direct and revocation
//! signatures.
//!
//! A builder names the signature to create (which librnp
//! `rnp_key_*_signature_create` call, with which keys); `configure` turns
//! it into a [`ConfiguredBuilder`], whose setter chain
//! ([`SignatureSetterOps`]) records the `rnp_key_signature_set_*` /
//! `_add_*` calls to make on the created signature, in the order they were
//! chained. The three builders share that one setter chain.
//!
//! Keys and user IDs are type parameters: the builders carry whatever
//! handles the caller uses for them.

use vstd::prelude::*;
use crate::algorithm::{Cipher, Compression};
use crate::key::mutation::{RevocationCode, RevocationReason};
use crate::text::{contains_nul, has_nul, opt_view, owned};

verus! {

// ---------------------------------------------------------------------------
// Setter calls
// ---------------------------------------------------------------------------

/// One setter call on a librnp signature handle.
pub enum SignatureCall<K> {
    /// `rnp_key_signature_set_hash`
    SetHash(crate::algorithm::Hash),
    /// `rnp_key_signature_set_creation`
    SetCreation(u32),
    /// `rnp_key_signature_set_key_flags`
    SetKeyFlags(u32),
    /// `rnp_key_signature_set_key_expiration`
    SetKeyExpiration(u32),
    /// `rnp_key_signature_set_features`
    SetFeatures(u32),
    /// `rnp_key_signature_add_preferred_alg`
    AddPreferredCipher(Cipher),
    /// `rnp_key_signature_add_preferred_hash`
    AddPreferredHash(crate::algorithm::Hash),
    /// `rnp_key_signature_add_preferred_zalg`
    AddPreferredCompression(Compression),
    /// `rnp_key_signature_set_primary_uid`
    SetPrimaryUid(bool),
    /// `rnp_key_signature_set_key_server`
    SetKeyServer(String),
    /// `rnp_key_signature_set_key_server_prefs`
    SetKeyServerPrefs(u32),
    /// `rnp_key_signature_set_revocation_reason`; a `None` text is a null
    /// pointer.
    SetRevocationReason(RevocationCode, Option<String>),
    /// `rnp_key_signature_set_revoker` (flags 0)
    SetRevoker(K),
    /// `rnp_key_signature_set_trust_level`
    SetTrustLevel(u8, u8),
}

/// A [`SignatureCall`] with its string arguments taken as text.
pub enum SignatureStep<K> {
    SetHash(crate::algorithm::Hash),
    SetCreation(u32),
    SetKeyFlags(u32),
    SetKeyExpiration(u32),
    SetFeatures(u32),
    AddPreferredCipher(Cipher),
    AddPreferredHash(crate::algorithm::Hash),
    AddPreferredCompression(Compression),
    SetPrimaryUid(bool),
    SetKeyServer(Seq<char>),
    SetKeyServerPrefs(u32),
    SetRevocationReason(RevocationCode, Option<Seq<char>>),
    SetRevoker(K),
    SetTrustLevel(u8, u8),
}

impl<K> View for SignatureCall<K> {
    type V = SignatureStep<K>;

    open spec fn view(&self) -> SignatureStep<K> {
        match self {
            SignatureCall::SetHash(h) => SignatureStep::SetHash(*h),
            SignatureCall::SetCreation(t) => SignatureStep::SetCreation(*t),
            SignatureCall::SetKeyFlags(f) => SignatureStep::SetKeyFlags(*f),
            SignatureCall::SetKeyExpiration(s) => SignatureStep::SetKeyExpiration(*s),
            SignatureCall::SetFeatures(b) => SignatureStep::SetFeatures(*b),
            SignatureCall::AddPreferredCipher(c) => SignatureStep::AddPreferredCipher(*c),
            SignatureCall::AddPreferredHash(h) => SignatureStep::AddPreferredHash(*h),
            SignatureCall::AddPreferredCompression(c) => SignatureStep::AddPreferredCompression(*c),
            SignatureCall::SetPrimaryUid(p) => SignatureStep::SetPrimaryUid(*p),
            SignatureCall::SetKeyServer(u) => SignatureStep::SetKeyServer(u@),
            SignatureCall::SetKeyServerPrefs(p) => SignatureStep::SetKeyServerPrefs(*p),
            SignatureCall::SetRevocationReason(c, t) => SignatureStep::SetRevocationReason(
                *c,
                opt_view(*t),
            ),
            SignatureCall::SetRevoker(k) => SignatureStep::SetRevoker(*k),
            SignatureCall::SetTrustLevel(l, a) => SignatureStep::SetTrustLevel(*l, *a),
        }
    }
}

/// The steps of a sequence of signature calls.
pub open spec fn signature_steps<K>(calls: Seq<SignatureCall<K>>) -> Seq<SignatureStep<K>> {
    calls.map_values(|c: SignatureCall<K>| c@)
}

/// The reason text handed to librnp: the text, or a null pointer where
/// there is none or it holds a NUL (no C string can carry it).
pub open spec fn passable_text(t: Option<Seq<char>>) -> Option<Seq<char>> {
    match t {
        Some(s) => if has_nul(s) {
            None
        } else {
            Some(s)
        },
        None => None,
    }
}

// ---------------------------------------------------------------------------
// Which signature to create
// ---------------------------------------------------------------------------

/// The librnp call that creates the signature handle the setters apply to.
pub enum SignatureRequest<K, U> {
    /// `rnp_key_certification_create(signer, uid, type)`; a `None` type is
    /// a null pointer (librnp's default certification type).
    Certification { signer: K, uid: U, cert_type: Option<String> },
    /// `rnp_key_direct_signature_create(signer, target)`; a `None` target
    /// is a self-signature.
    Direct { signer: K, target: Option<K> },
    /// `rnp_key_revocation_signature_create(signer, target)`; a `None`
    /// target is a self-revocation.
    Revocation { signer: K, target: Option<K> },
}

/// Build a certification signature binding a UID to a key.
pub struct CertificationBuilder<K, U> {
    pub signer: K,
    pub uid: U,
    pub cert_type: Option<String>,
}

impl<K, U> CertificationBuilder<K, U> {
    /// Begin a certification: `signer` issues it, `uid` is the UID being
    /// certified; librnp picks the certification type.
    pub fn new(signer: K, uid: U) -> (r: CertificationBuilder<K, U>)
        ensures
            r.signer == signer,
            r.uid == uid,
            r.cert_type is None,
    {
        CertificationBuilder { signer, uid, cert_type: None }
    }

    /// Like [`Self::new`] with an explicit certification type (`"generic"`,
    /// `"persona"`, `"casual"`, `"positive"`). The type must not hold a NUL.
    pub fn with_type_str(signer: K, uid: U, ty: &str) -> (r: CertificationBuilder<K, U>)
        requires
            !has_nul(ty@),
        ensures
            r.signer == signer,
            r.uid == uid,
            opt_view(r.cert_type) == Some(ty@),
    {
        CertificationBuilder { signer, uid, cert_type: Some(owned(ty)) }
    }

    /// Enter the shared setter chain, with no setter applied yet.
    pub fn configure(self) -> (r: ConfiguredBuilder<K, U>)
        ensures
            r.request == (SignatureRequest::Certification {
                signer: self.signer,
                uid: self.uid,
                cert_type: self.cert_type,
            }),
            r.calls@.len() == 0,
    {
        ConfiguredBuilder {
            request: SignatureRequest::Certification {
                signer: self.signer,
                uid: self.uid,
                cert_type: self.cert_type,
            },
            calls: Vec::new(),
        }
    }
}

/// Build a direct signature on a key (no UID binding).
pub struct DirectSignatureBuilder<K> {
    pub signer: K,
    pub target: Option<K>,
}

impl<K> DirectSignatureBuilder<K> {
    /// Begin a direct signature. A `target` of `None` means a
    /// self-signature.
    pub fn new(signer: K, target: Option<K>) -> (r: DirectSignatureBuilder<K>)
        ensures
            r.signer == signer,
            r.target == target,
    {
        DirectSignatureBuilder { signer, target }
    }

    /// Enter the shared setter chain, with no setter applied yet.
    pub fn configure<U>(self) -> (r: ConfiguredBuilder<K, U>)
        ensures
            r.request == (SignatureRequest::<K, U>::Direct {
                signer: self.signer,
                target: self.target,
            }),
            r.calls@.len() == 0,
    {
        ConfiguredBuilder {
            request: SignatureRequest::Direct { signer: self.signer, target: self.target },
            calls: Vec::new(),
        }
    }
}

/// Build a key-revocation signature.
pub struct RevocationSignatureBuilder<K> {
    pub signer: K,
    pub target: Option<K>,
}

impl<K> RevocationSignatureBuilder<K> {
    /// Begin a revocation signature. A `target` of `None` means a
    /// self-revocation.
    pub fn new(signer: K, target: Option<K>) -> (r: RevocationSignatureBuilder<K>)
        ensures
            r.signer == signer,
            r.target == target,
    {
        RevocationSignatureBuilder { signer, target }
    }

    /// Enter the shared setter chain, with no setter applied yet.
    pub fn configure<U>(self) -> (r: ConfiguredBuilder<K, U>)
        ensures
            r.request == (SignatureRequest::<K, U>::Revocation {
                signer: self.signer,
                target: self.target,
            }),
            r.calls@.len() == 0,
    {
        ConfiguredBuilder {
            request: SignatureRequest::Revocation { signer: self.signer, target: self.target },
            calls: Vec::new(),
        }
    }
}

// ---------------------------------------------------------------------------
// The shared setter chain
// ---------------------------------------------------------------------------

/// Shared setter surface of the signature builders. Each setter takes and
/// returns the builder and appends its call to the recorded calls, which
/// are made on the signature in the order they were chained.
pub trait SignatureSetterOps<K>: Sized {
    /// The setter calls recorded so far, in order.
    spec fn recorded(&self) -> Seq<SignatureStep<K>>;

    fn hash(self, h: crate::algorithm::Hash) -> (r: Self)
        ensures
            r.recorded() == self.recorded().push(SignatureStep::SetHash(h)),
    ;

    fn creation(self, t: u32) -> (r: Self)
        ensures
            r.recorded() == self.recorded().push(SignatureStep::SetCreation(t)),
    ;

    fn key_flags(self, flags: u32) -> (r: Self)
        ensures
            r.recorded() == self.recorded().push(SignatureStep::SetKeyFlags(flags)),
    ;

    fn key_expiration(self, seconds: u32) -> (r: Self)
        ensures
            r.recorded() == self.recorded().push(SignatureStep::SetKeyExpiration(seconds)),
    ;

    fn features(self, bits: u32) -> (r: Self)
        ensures
            r.recorded() == self.recorded().push(SignatureStep::SetFeatures(bits)),
    ;

    fn add_preferred_cipher(self, c: Cipher) -> (r: Self)
        ensures
            r.recorded() == self.recorded().push(SignatureStep::AddPreferredCipher(c)),
    ;

    fn add_preferred_hash(self, h: crate::algorithm::Hash) -> (r: Self)
        ensures
            r.recorded() == self.recorded().push(SignatureStep::AddPreferredHash(h)),
    ;

    fn add_preferred_compression(self, c: Compression) -> (r: Self)
        ensures
            r.recorded() == self.recorded().push(SignatureStep::AddPreferredCompression(c)),
    ;

    fn primary_uid(self, primary: bool) -> (r: Self)
        ensures
            r.recorded() == self.recorded().push(SignatureStep::SetPrimaryUid(primary)),
    ;

    /// A URL holding a NUL cannot be passed to librnp and is skipped.
    fn key_server(self, url: &str) -> (r: Self)
        ensures
            has_nul(url@) ==> r.recorded() == self.recorded(),
            !has_nul(url@) ==> r.recorded() == self.recorded().push(
                SignatureStep::SetKeyServer(url@),
            ),
    ;

    fn key_server_prefs(self, prefs: u8) -> (r: Self)
        ensures
            r.recorded() == self.recorded().push(SignatureStep::SetKeyServerPrefs(prefs as u32)),
    ;

    /// A reason text holding a NUL is passed as no text.
    fn revocation_reason(self, reason: RevocationReason) -> (r: Self)
        ensures
            r.recorded() == self.recorded().push(
                SignatureStep::SetRevocationReason(reason.code, passable_text(opt_view(reason.reason))),
            ),
    ;

    fn revoker(self, revoker: K) -> (r: Self)
        ensures
            r.recorded() == self.recorded().push(SignatureStep::SetRevoker(revoker)),
    ;

    fn trust_level(self, level: u8, amount: u8) -> (r: Self)
        ensures
            r.recorded() == self.recorded().push(SignatureStep::SetTrustLevel(level, amount)),
    ;
}

/// A signature builder after `configure`: the signature to create and the
/// setter calls to make on it, in order.
pub struct ConfiguredBuilder<K, U> {
    pub request: SignatureRequest<K, U>,
    pub calls: Vec<SignatureCall<K>>,
}

impl<K, U> ConfiguredBuilder<K, U> {
    /// Append `c` to the recorded calls.
    fn record(self, c: SignatureCall<K>) -> (r: ConfiguredBuilder<K, U>)
        ensures
            r.request == self.request,
            signature_steps(r.calls@) == signature_steps(self.calls@).push(c@),
    {
        let ConfiguredBuilder { request, calls } = self;
        let mut calls = calls;
        let ghost before = calls@;
        calls.push(c);
        assert(signature_steps(calls@) =~= signature_steps(before).push(c@));
        ConfiguredBuilder { request, calls }
    }
}

impl<K, U> SignatureSetterOps<K> for ConfiguredBuilder<K, U> {
    open spec fn recorded(&self) -> Seq<SignatureStep<K>> {
        signature_steps(self.calls@)
    }

    fn hash(self, h: crate::algorithm::Hash) -> (r: Self)
        ensures
            r.request == self.request,
    {
        self.record(SignatureCall::SetHash(h))
    }

    fn creation(self, t: u32) -> (r: Self)
        ensures
            r.request == self.request,
    {
        self.record(SignatureCall::SetCreation(t))
    }

    fn key_flags(self, flags: u32) -> (r: Self)
        ensures
            r.request == self.request,
    {
        self.record(SignatureCall::SetKeyFlags(flags))
    }

    fn key_expiration(self, seconds: u32) -> (r: Self)
        ensures
            r.request == self.request,
    {
        self.record(SignatureCall::SetKeyExpiration(seconds))
    }

    fn features(self, bits: u32) -> (r: Self)
        ensures
            r.request == self.request,
    {
        self.record(SignatureCall::SetFeatures(bits))
    }

    fn add_preferred_cipher(self, c: Cipher) -> (r: Self)
        ensures
            r.request == self.request,
    {
        self.record(SignatureCall::AddPreferredCipher(c))
    }

    fn add_preferred_hash(self, h: crate::algorithm::Hash) -> (r: Self)
        ensures
            r.request == self.request,
    {
        self.record(SignatureCall::AddPreferredHash(h))
    }

    fn add_preferred_compression(self, c: Compression) -> (r: Self)
        ensures
            r.request == self.request,
    {
        self.record(SignatureCall::AddPreferredCompression(c))
    }

    fn primary_uid(self, primary: bool) -> (r: Self)
        ensures
            r.request == self.request,
    {
        self.record(SignatureCall::SetPrimaryUid(primary))
    }

    fn key_server(self, url: &str) -> (r: Self)
        ensures
            r.request == self.request,
    {
        if contains_nul(url) {
            self
        } else {
            self.record(SignatureCall::SetKeyServer(owned(url)))
        }
    }

    fn key_server_prefs(self, prefs: u8) -> (r: Self)
        ensures
            r.request == self.request,
    {
        self.record(SignatureCall::SetKeyServerPrefs(prefs as u32))
    }

    fn revocation_reason(self, reason: RevocationReason) -> (r: Self)
        ensures
            r.request == self.request,
    {
        let RevocationReason { code, reason: text } = reason;
        let text = match text {
            Some(t) => if contains_nul(t.as_str()) {
                None
            } else {
                Some(t)
            },
            None => None,
        };
        self.record(SignatureCall::SetRevocationReason(code, text))
    }

    fn revoker(self, revoker: K) -> (r: Self)
        ensures
            r.request == self.request,
    {
        self.record(SignatureCall::SetRevoker(revoker))
    }

    fn trust_level(self, level: u8, amount: u8) -> (r: Self)
        ensures
            r.request == self.request,
    {
        self.record(SignatureCall::SetTrustLevel(level, amount))
    }
}

} // verus!
