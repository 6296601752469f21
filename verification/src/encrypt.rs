//! Encryption settings, the call plan an encryption hands to librnp, and
//! the decryption result.
//!
//! [`Encryptor`] records recipients, signers, passwords and op-level
//! options over key handles `K`; [`Encryptor::into_calls`] lists the
//! `rnp_op_encrypt_*` calls to make on the op, in order: recipients,
//! signers, passwords, then the options that were set.

use vstd::prelude::*;
use vstd::std_specs::ops::BitOrSpec;
use crate::algorithm::{Cipher, Compression};
use crate::key::mutation::{cipher_name_or_default, cipher_or_default, hash_name_or_default, hash_or_default};
use crate::text::{bytes_contain_nul, contains_nul, owned};

verus! {

broadcast use vstd::std_specs::vec::group_vec_axioms;

/// `RNP_ENCRYPT_NOWRAP`.
pub const RNP_ENCRYPT_NOWRAP: u32 = 1;

/// Flags for an encryption operation (`RNP_ENCRYPT_*`).
#[derive(Clone, Copy, Debug, PartialEq, Eq, Structural)]
pub struct EncryptFlags(pub u32);

impl EncryptFlags {
    /// Don't wrap plaintext in a literal-data packet (`RNP_ENCRYPT_NOWRAP`).
    pub fn nowrap() -> (r: EncryptFlags)
        ensures
            r.0 == RNP_ENCRYPT_NOWRAP,
    {
        EncryptFlags(RNP_ENCRYPT_NOWRAP)
    }

    pub fn bits(self) -> (r: u32)
        ensures
            r == self.0,
    {
        self.0
    }
}

impl std::ops::BitOr for EncryptFlags {
    type Output = EncryptFlags;

    fn bitor(self, rhs: EncryptFlags) -> (r: EncryptFlags) {
        EncryptFlags(self.0 | rhs.0)
    }
}

impl vstd::std_specs::ops::BitOrSpecImpl for EncryptFlags {
    open spec fn obeys_bitor_spec() -> bool {
        true
    }

    open spec fn bitor_req(self, rhs: EncryptFlags) -> bool {
        true
    }

    open spec fn bitor_spec(self, rhs: EncryptFlags) -> EncryptFlags {
        EncryptFlags(self.0 | rhs.0)
    }
}

/// Combining `EncryptFlags` with `|` is commutative, associative and idempotent,
/// and the bits of a combination are the bitwise or of the parts.
pub proof fn law_encrypt_flags_union(a: EncryptFlags, b: EncryptFlags, c: EncryptFlags)
    ensures
        a.bitor_spec(b) == b.bitor_spec(a),
        a.bitor_spec(b).bitor_spec(c) == a.bitor_spec(b.bitor_spec(c)),
        a.bitor_spec(a) == a,
        a.bitor_spec(b).0 == a.0 | b.0,
{
    crate::flags::lemma_or_laws(a.0, b.0, c.0);
}

/// AEAD algorithm.
#[derive(Clone, Copy, Debug, PartialEq, Eq, Structural)]
#[non_exhaustive]
pub enum AeadType {
    Ocb,
    Eax,
    Gcm,
}

/// The librnp name of an AEAD algorithm.
pub open spec fn aead_name(a: AeadType) -> Seq<char> {
    match a {
        AeadType::Ocb => "OCB"@,
        AeadType::Eax => "EAX"@,
        AeadType::Gcm => "GCM"@,
    }
}

impl AeadType {
    pub fn as_str(self) -> (s: &'static str)
        ensures
            s@ == aead_name(self),
    {
        match self {
            AeadType::Ocb => "OCB",
            AeadType::Eax => "EAX",
            AeadType::Gcm => "GCM",
        }
    }
}

/// S2K / encryption settings for a password added to an encryption.
/// Unset fields take the defaults SHA256, iteration count 0 (librnp's
/// choice) and AES256.
#[derive(Clone, Copy, Debug, PartialEq, Eq, Structural)]
pub struct AddPasswordOptions {
    pub hash: Option<crate::algorithm::Hash>,
    pub iterations: Option<usize>,
    pub cipher: Option<Cipher>,
}

impl AddPasswordOptions {
    pub fn hash(self, h: crate::algorithm::Hash) -> (r: AddPasswordOptions)
        ensures
            r == (AddPasswordOptions { hash: Some(h), ..self }),
    {
        AddPasswordOptions { hash: Some(h), ..self }
    }

    pub fn iterations(self, n: usize) -> (r: AddPasswordOptions)
        ensures
            r == (AddPasswordOptions { iterations: Some(n), ..self }),
    {
        AddPasswordOptions { iterations: Some(n), ..self }
    }

    pub fn cipher(self, c: Cipher) -> (r: AddPasswordOptions)
        ensures
            r == (AddPasswordOptions { cipher: Some(c), ..self }),
    {
        AddPasswordOptions { cipher: Some(c), ..self }
    }
}

// ---------------------------------------------------------------------------
// Encryption calls
// ---------------------------------------------------------------------------

/// One call on a librnp encryption op, over key handles `K`.
pub enum EncryptCall<K> {
    /// `rnp_op_encrypt_add_recipient`
    AddRecipient(K),
    /// `rnp_op_encrypt_add_signature`
    AddSignature(K),
    /// `rnp_op_encrypt_add_password`
    AddPassword { password: Vec<u8>, hash: &'static str, iterations: usize, cipher: &'static str },
    /// `rnp_op_encrypt_set_armor(op, true)`
    SetArmor,
    /// `rnp_op_encrypt_set_cipher`
    SetCipher(Cipher),
    /// `rnp_op_encrypt_set_hash`
    SetHash(crate::algorithm::Hash),
    /// `rnp_op_encrypt_set_compression`
    SetCompression(Compression, i32),
    /// `rnp_op_encrypt_set_aead`
    SetAead(AeadType),
    /// `rnp_op_encrypt_set_aead_bits`
    SetAeadBits(i32),
    /// `rnp_op_encrypt_set_file_name`
    SetFileName(String),
    /// `rnp_op_encrypt_set_file_mtime`
    SetFileMtime(u32),
    /// `rnp_op_encrypt_set_creation_time`
    SetCreationTime(u32),
    /// `rnp_op_encrypt_set_expiration_time`
    SetExpirationTime(u32),
    /// `rnp_op_encrypt_set_flags`
    SetFlags(u32),
    /// `rnp_op_encrypt_prefer_pqc_enc_subkey`
    PreferPqcEncSubkey,
    /// `rnp_op_encrypt_enable_pkesk_v6`
    EnablePkeskV6,
    /// `rnp_op_encrypt_enable_skesk_v6`
    EnableSkeskV6,
}

/// An [`EncryptCall`] with its byte and string arguments taken as values.
pub enum EncryptStep<K> {
    AddRecipient(K),
    AddSignature(K),
    AddPassword { password: Seq<u8>, hash: Seq<char>, iterations: usize, cipher: Seq<char> },
    SetArmor,
    SetCipher(Cipher),
    SetHash(crate::algorithm::Hash),
    SetCompression(Compression, i32),
    SetAead(AeadType),
    SetAeadBits(i32),
    SetFileName(Seq<char>),
    SetFileMtime(u32),
    SetCreationTime(u32),
    SetExpirationTime(u32),
    SetFlags(u32),
    PreferPqcEncSubkey,
    EnablePkeskV6,
    EnableSkeskV6,
}

impl<K> View for EncryptCall<K> {
    type V = EncryptStep<K>;

    open spec fn view(&self) -> EncryptStep<K> {
        match self {
            EncryptCall::AddRecipient(k) => EncryptStep::AddRecipient(*k),
            EncryptCall::AddSignature(k) => EncryptStep::AddSignature(*k),
            EncryptCall::AddPassword { password, hash, iterations, cipher } => EncryptStep::AddPassword {
                password: password@,
                hash: hash@,
                iterations: *iterations,
                cipher: cipher@,
            },
            EncryptCall::SetArmor => EncryptStep::SetArmor,
            EncryptCall::SetCipher(c) => EncryptStep::SetCipher(*c),
            EncryptCall::SetHash(h) => EncryptStep::SetHash(*h),
            EncryptCall::SetCompression(c, l) => EncryptStep::SetCompression(*c, *l),
            EncryptCall::SetAead(a) => EncryptStep::SetAead(*a),
            EncryptCall::SetAeadBits(b) => EncryptStep::SetAeadBits(*b),
            EncryptCall::SetFileName(s) => EncryptStep::SetFileName(s@),
            EncryptCall::SetFileMtime(t) => EncryptStep::SetFileMtime(*t),
            EncryptCall::SetCreationTime(t) => EncryptStep::SetCreationTime(*t),
            EncryptCall::SetExpirationTime(t) => EncryptStep::SetExpirationTime(*t),
            EncryptCall::SetFlags(f) => EncryptStep::SetFlags(*f),
            EncryptCall::PreferPqcEncSubkey => EncryptStep::PreferPqcEncSubkey,
            EncryptCall::EnablePkeskV6 => EncryptStep::EnablePkeskV6,
            EncryptCall::EnableSkeskV6 => EncryptStep::EnableSkeskV6,
        }
    }
}

/// The steps of a sequence of encryption calls.
pub open spec fn encrypt_steps_of<K>(calls: Seq<EncryptCall<K>>) -> Seq<EncryptStep<K>> {
    calls.map_values(|c: EncryptCall<K>| c@)
}

/// The settings recorded by an [`Encryptor`].
pub struct EncryptModel<K> {
    pub recipients: Seq<K>,
    pub signatures: Seq<K>,
    pub passwords: Seq<(Seq<u8>, AddPasswordOptions)>,
    pub armor: bool,
    pub cipher: Option<Cipher>,
    pub hash: Option<crate::algorithm::Hash>,
    pub compression: Option<(Compression, u32)>,
    pub aead: Option<AeadType>,
    pub aead_bits: Option<i32>,
    pub file_name: Option<Seq<char>>,
    pub file_mtime: Option<u32>,
    pub creation_time: Option<u32>,
    pub expiration_time: Option<u32>,
    pub flags: EncryptFlags,
    pub prefer_pqc: bool,
    pub pkesk_v6: bool,
    pub skesk_v6: bool,
}

pub open spec fn recipient_steps<K>(ks: Seq<K>) -> Seq<EncryptStep<K>> {
    ks.map_values(|k: K| EncryptStep::AddRecipient(k))
}

pub open spec fn signature_steps<K>(ks: Seq<K>) -> Seq<EncryptStep<K>> {
    ks.map_values(|k: K| EncryptStep::AddSignature(k))
}

/// The call that adds one password, with the option defaults applied.
pub open spec fn password_step<K>(p: (Seq<u8>, AddPasswordOptions)) -> EncryptStep<K> {
    EncryptStep::AddPassword {
        password: p.0,
        hash: hash_or_default(p.1.hash),
        iterations: match p.1.iterations {
            Some(n) => n,
            None => 0,
        },
        cipher: cipher_or_default(p.1.cipher),
    }
}

pub open spec fn password_steps<K>(ps: Seq<(Seq<u8>, AddPasswordOptions)>) -> Seq<EncryptStep<K>> {
    ps.map_values(|p: (Seq<u8>, AddPasswordOptions)| password_step::<K>(p))
}

pub open spec fn one_step<K>(b: bool, s: EncryptStep<K>) -> Seq<EncryptStep<K>> {
    if b {
        seq![s]
    } else {
        Seq::empty()
    }
}

/// The op-level option calls, in order: armor, cipher, hash, compression
/// (level passed as `i32`), AEAD, AEAD bits, file name, file mtime,
/// creation time, expiration time, flags (only if non-zero), PQC
/// preference, v6 PKESK, v6 SKESK — each only if set.
pub open spec fn option_steps<K>(m: EncryptModel<K>) -> Seq<EncryptStep<K>> {
    one_step(m.armor, EncryptStep::SetArmor) + one_step(
        m.cipher is Some,
        EncryptStep::SetCipher(m.cipher->0),
    ) + one_step(m.hash is Some, EncryptStep::SetHash(m.hash->0)) + one_step(
        m.compression is Some,
        EncryptStep::SetCompression((m.compression->0).0, (m.compression->0).1 as i32),
    ) + one_step(m.aead is Some, EncryptStep::SetAead(m.aead->0)) + one_step(
        m.aead_bits is Some,
        EncryptStep::SetAeadBits(m.aead_bits->0),
    ) + one_step(m.file_name is Some, EncryptStep::SetFileName(m.file_name->0)) + one_step(
        m.file_mtime is Some,
        EncryptStep::SetFileMtime(m.file_mtime->0),
    ) + one_step(m.creation_time is Some, EncryptStep::SetCreationTime(m.creation_time->0))
        + one_step(m.expiration_time is Some, EncryptStep::SetExpirationTime(m.expiration_time->0))
        + one_step(m.flags.0 != 0, EncryptStep::SetFlags(m.flags.0)) + one_step(
        m.prefer_pqc,
        EncryptStep::PreferPqcEncSubkey,
    ) + one_step(m.pkesk_v6, EncryptStep::EnablePkeskV6) + one_step(
        m.skesk_v6,
        EncryptStep::EnableSkeskV6,
    )
}

/// Every call an encryption makes on its op: recipients, signers and
/// passwords in the order added, then the options.
pub open spec fn encrypt_steps<K>(m: EncryptModel<K>) -> Seq<EncryptStep<K>> {
    recipient_steps(m.recipients) + signature_steps(m.signatures) + password_steps(m.passwords)
        + option_steps(m)
}

/// The password bytes kept for an encryption: bytes with a zero byte
/// cannot form a C string and are replaced by the empty password.
pub open spec fn kept_password(p: Seq<u8>) -> Seq<u8> {
    if p.contains(0u8) {
        Seq::empty()
    } else {
        p
    }
}

/// The file name kept for an encryption: a name with a NUL is replaced by
/// the empty name.
pub open spec fn kept_file_name(s: Seq<char>) -> Seq<char> {
    if crate::text::has_nul(s) {
        Seq::empty()
    } else {
        s
    }
}

/// The settings of an encryption operation over key handles `K`; executed
/// by making the calls [`Encryptor::into_calls`] lists.
pub struct Encryptor<K> {
    pub recipients: Vec<K>,
    pub signatures: Vec<K>,
    pub passwords: Vec<(Vec<u8>, AddPasswordOptions)>,
    pub armor: bool,
    pub cipher: Option<Cipher>,
    pub hash: Option<crate::algorithm::Hash>,
    pub compression: Option<(Compression, u32)>,
    pub aead: Option<AeadType>,
    pub aead_bits: Option<i32>,
    pub file_name: Option<String>,
    pub file_mtime: Option<u32>,
    pub creation_time: Option<u32>,
    pub expiration_time: Option<u32>,
    pub flags: EncryptFlags,
    pub prefer_pqc: bool,
    pub pkesk_v6: bool,
    pub skesk_v6: bool,
}

pub open spec fn password_entries(ps: Seq<(Vec<u8>, AddPasswordOptions)>) -> Seq<(Seq<u8>, AddPasswordOptions)> {
    ps.map_values(|p: (Vec<u8>, AddPasswordOptions)| (p.0@, p.1))
}

impl<K> View for Encryptor<K> {
    type V = EncryptModel<K>;

    open spec fn view(&self) -> EncryptModel<K> {
        EncryptModel {
            recipients: self.recipients@,
            signatures: self.signatures@,
            passwords: password_entries(self.passwords@),
            armor: self.armor,
            cipher: self.cipher,
            hash: self.hash,
            compression: self.compression,
            aead: self.aead,
            aead_bits: self.aead_bits,
            file_name: crate::text::opt_view(self.file_name),
            file_mtime: self.file_mtime,
            creation_time: self.creation_time,
            expiration_time: self.expiration_time,
            flags: self.flags,
            prefer_pqc: self.prefer_pqc,
            pkesk_v6: self.pkesk_v6,
            skesk_v6: self.skesk_v6,
        }
    }
}

/// The settings of a fresh encryption.
pub open spec fn fresh_encryption<K>() -> EncryptModel<K> {
    EncryptModel {
        recipients: Seq::empty(),
        signatures: Seq::empty(),
        passwords: Seq::empty(),
        armor: false,
        cipher: None,
        hash: None,
        compression: None,
        aead: None,
        aead_bits: None,
        file_name: None,
        file_mtime: None,
        creation_time: None,
        expiration_time: None,
        flags: EncryptFlags(0),
        prefer_pqc: false,
        pkesk_v6: false,
        skesk_v6: false,
    }
}

fn push_step<K>(calls: &mut Vec<EncryptCall<K>>, c: EncryptCall<K>)
    ensures
        encrypt_steps_of(final(calls)@) == encrypt_steps_of(old(calls)@).push(c@),
{
    let ghost before = calls@;
    calls.push(c);
    assert(encrypt_steps_of(calls@) =~= encrypt_steps_of(before).push(c@));
}

impl<K> Encryptor<K> {
    pub fn new() -> (r: Encryptor<K>)
        ensures
            r@ == fresh_encryption::<K>(),
    {
        let r = Encryptor {
            recipients: Vec::new(),
            signatures: Vec::new(),
            passwords: Vec::new(),
            armor: false,
            cipher: None,
            hash: None,
            compression: None,
            aead: None,
            aead_bits: None,
            file_name: None,
            file_mtime: None,
            creation_time: None,
            expiration_time: None,
            flags: EncryptFlags(0),
            prefer_pqc: false,
            pkesk_v6: false,
            skesk_v6: false,
        };
        assert(password_entries(r.passwords@) =~= Seq::<(Seq<u8>, AddPasswordOptions)>::empty());
        r
    }

    /// Add a recipient's public key. May be called multiple times.
    pub fn add_recipient(self, key: K) -> (r: Encryptor<K>)
        ensures
            r@ == (EncryptModel { recipients: self@.recipients.push(key), ..self@ }),
    {
        let mut e = self;
        e.recipients.push(key);
        e
    }

    /// Add a signature key (sign-and-encrypt in one op).
    pub fn add_signature(self, key: K) -> (r: Encryptor<K>)
        ensures
            r@ == (EncryptModel { signatures: self@.signatures.push(key), ..self@ }),
    {
        let mut e = self;
        e.signatures.push(key);
        e
    }

    /// Add a password-encrypted session key; any one of the passwords
    /// decrypts. A password with a zero byte is kept as the empty password.
    pub fn add_password(self, password: &[u8], options: AddPasswordOptions) -> (r: Encryptor<K>)
        ensures
            r@ == (EncryptModel {
                passwords: self@.passwords.push((kept_password(password@), options)),
                ..self@
            }),
    {
        let kept: Vec<u8> = if bytes_contain_nul(password) {
            Vec::new()
        } else {
            vstd::slice::slice_to_vec(password)
        };
        let mut e = self;
        let ghost before = e.passwords@;
        e.passwords.push((kept, options));
        assert(password_entries(e.passwords@) =~= password_entries(before).push(
            (kept_password(password@), options),
        ));
        e
    }

    pub fn armor(self, armored: bool) -> (r: Encryptor<K>)
        ensures
            r@ == (EncryptModel { armor: armored, ..self@ }),
    {
        Encryptor { armor: armored, ..self }
    }

    pub fn cipher(self, c: Cipher) -> (r: Encryptor<K>)
        ensures
            r@ == (EncryptModel { cipher: Some(c), ..self@ }),
    {
        Encryptor { cipher: Some(c), ..self }
    }

    pub fn hash(self, h: crate::algorithm::Hash) -> (r: Encryptor<K>)
        ensures
            r@ == (EncryptModel { hash: Some(h), ..self@ }),
    {
        Encryptor { hash: Some(h), ..self }
    }

    pub fn compression(self, alg: Compression, level: u32) -> (r: Encryptor<K>)
        ensures
            r@ == (EncryptModel { compression: Some((alg, level)), ..self@ }),
    {
        Encryptor { compression: Some((alg, level)), ..self }
    }

    pub fn aead(self, alg: AeadType) -> (r: Encryptor<K>)
        ensures
            r@ == (EncryptModel { aead: Some(alg), ..self@ }),
    {
        Encryptor { aead: Some(alg), ..self }
    }

    /// AEAD chunk size in bits (0..=16 per the OpenPGP spec; librnp checks).
    pub fn aead_bits(self, bits: i32) -> (r: Encryptor<K>)
        ensures
            r@ == (EncryptModel { aead_bits: Some(bits), ..self@ }),
    {
        Encryptor { aead_bits: Some(bits), ..self }
    }

    /// The literal-data file name; a name with a NUL is kept as the empty
    /// name.
    pub fn file_name(self, name: &str) -> (r: Encryptor<K>)
        ensures
            r@ == (EncryptModel { file_name: Some(kept_file_name(name@)), ..self@ }),
    {
        let kept = if contains_nul(name) {
            String::new()
        } else {
            owned(name)
        };
        Encryptor { file_name: Some(kept), ..self }
    }

    pub fn file_mtime(self, mtime: u32) -> (r: Encryptor<K>)
        ensures
            r@ == (EncryptModel { file_mtime: Some(mtime), ..self@ }),
    {
        Encryptor { file_mtime: Some(mtime), ..self }
    }

    pub fn creation_time(self, t: u32) -> (r: Encryptor<K>)
        ensures
            r@ == (EncryptModel { creation_time: Some(t), ..self@ }),
    {
        Encryptor { creation_time: Some(t), ..self }
    }

    pub fn expiration_time(self, t: u32) -> (r: Encryptor<K>)
        ensures
            r@ == (EncryptModel { expiration_time: Some(t), ..self@ }),
    {
        Encryptor { expiration_time: Some(t), ..self }
    }

    pub fn flags(self, flags: EncryptFlags) -> (r: Encryptor<K>)
        ensures
            r@ == (EncryptModel { flags, ..self@ }),
    {
        Encryptor { flags, ..self }
    }

    /// Prefer PQC-encryption subkeys when choosing recipients.
    pub fn prefer_pqc_enc_subkey(self) -> (r: Encryptor<K>)
        ensures
            r@ == (EncryptModel { prefer_pqc: true, ..self@ }),
    {
        Encryptor { prefer_pqc: true, ..self }
    }

    /// Emit v6 PKESK packets.
    pub fn enable_pkesk_v6(self) -> (r: Encryptor<K>)
        ensures
            r@ == (EncryptModel { pkesk_v6: true, ..self@ }),
    {
        Encryptor { pkesk_v6: true, ..self }
    }

    /// Emit v6 SKESK packets.
    pub fn enable_skesk_v6(self) -> (r: Encryptor<K>)
        ensures
            r@ == (EncryptModel { skesk_v6: true, ..self@ }),
    {
        Encryptor { skesk_v6: true, ..self }
    }

    /// The calls to make on the encryption op, in order.
    pub fn into_calls(self) -> (r: Vec<EncryptCall<K>>)
        ensures
            encrypt_steps_of(r@) == encrypt_steps(self@),
    {
        let ghost m = self@;
        let mut options = option_calls(&self);
        let mut calls = recipient_calls(self.recipients);
        let mut signers = signature_calls(self.signatures);
        let mut passwords = password_calls(self.passwords);
        let ghost a = calls@;
        let ghost b = signers@;
        let ghost c = passwords@;
        let ghost d = options@;
        calls.append(&mut signers);
        calls.append(&mut passwords);
        calls.append(&mut options);
        assert(calls@ =~= a + b + c + d);
        assert(encrypt_steps_of(a + b + c + d) =~= encrypt_steps_of(a) + encrypt_steps_of(b)
            + encrypt_steps_of(c) + encrypt_steps_of(d));
        calls
    }
}

fn recipient_calls<K>(ks: Vec<K>) -> (r: Vec<EncryptCall<K>>)
    ensures
        encrypt_steps_of(r@) == recipient_steps(ks@),
{
    let mut calls: Vec<EncryptCall<K>> = Vec::new();
    assert(encrypt_steps_of(calls@) =~= Seq::<EncryptStep<K>>::empty());
    let ghost all = ks@;
    for k in it: ks.into_iter()
        invariant
            it.seq() == all,
            encrypt_steps_of(calls@) == recipient_steps(all.take(it.index() as int)),
    {
        let ghost i = it.index();
        push_step(&mut calls, EncryptCall::AddRecipient(k));
        assert(recipient_steps(all.take(i + 1)) =~= recipient_steps(all.take(i as int)).push(
            EncryptStep::AddRecipient(all[i as int]),
        ));
    }
    assert(all.take(all.len() as int) =~= all);
    calls
}

fn signature_calls<K>(ks: Vec<K>) -> (r: Vec<EncryptCall<K>>)
    ensures
        encrypt_steps_of(r@) == signature_steps(ks@),
{
    let mut calls: Vec<EncryptCall<K>> = Vec::new();
    assert(encrypt_steps_of(calls@) =~= Seq::<EncryptStep<K>>::empty());
    let ghost all = ks@;
    for k in it: ks.into_iter()
        invariant
            it.seq() == all,
            encrypt_steps_of(calls@) == signature_steps(all.take(it.index() as int)),
    {
        let ghost i = it.index();
        push_step(&mut calls, EncryptCall::AddSignature(k));
        assert(signature_steps(all.take(i + 1)) =~= signature_steps(all.take(i as int)).push(
            EncryptStep::AddSignature(all[i as int]),
        ));
    }
    assert(all.take(all.len() as int) =~= all);
    calls
}

fn password_calls<K>(ps: Vec<(Vec<u8>, AddPasswordOptions)>) -> (r: Vec<EncryptCall<K>>)
    ensures
        encrypt_steps_of(r@) == password_steps::<K>(password_entries(ps@)),
{
    let mut calls: Vec<EncryptCall<K>> = Vec::new();
    assert(encrypt_steps_of(calls@) =~= Seq::<EncryptStep<K>>::empty());
    let ghost all = ps@;
    assert(password_steps::<K>(password_entries(all.take(0))) =~= Seq::<EncryptStep<K>>::empty());
    for p in it: ps.into_iter()
        invariant
            it.seq() == all,
            encrypt_steps_of(calls@) == password_steps::<K>(password_entries(all.take(it.index() as int))),
    {
        let ghost i = it.index();
        let (pw, opts) = p;
        let ghost entry = (pw@, opts);
        push_step(
            &mut calls,
            EncryptCall::AddPassword {
                password: pw,
                hash: hash_name_or_default(opts.hash),
                iterations: match opts.iterations {
                    Some(n) => n,
                    None => 0,
                },
                cipher: cipher_name_or_default(opts.cipher),
            },
        );
        assert(password_entries(all.take(i + 1)) =~= password_entries(all.take(i as int)).push(
            entry,
        ));
        assert(password_steps::<K>(password_entries(all.take(i + 1))) =~= password_steps::<K>(
            password_entries(all.take(i as int)),
        ).push(password_step::<K>(entry)));
    }
    assert(all.take(all.len() as int) =~= all);
    calls
}

/// The steps of an optional encryption call.
pub open spec fn maybe_encrypt_steps<K>(c: Option<EncryptCall<K>>) -> Seq<EncryptStep<K>> {
    match c {
        Some(x) => seq![x@],
        None => Seq::empty(),
    }
}

fn push_maybe_call<K>(calls: &mut Vec<EncryptCall<K>>, c: Option<EncryptCall<K>>)
    ensures
        encrypt_steps_of(final(calls)@) == encrypt_steps_of(old(calls)@) + maybe_encrypt_steps(c),
{
    let ghost before = encrypt_steps_of(calls@);
    match c {
        Some(x) => {
            let ghost xv = x@;
            push_step(calls, x);
            assert(before.push(xv) =~= before + seq![xv]);
        },
        None => {
            assert(before + Seq::<EncryptStep<K>>::empty() =~= before);
        },
    }
}

fn flag_call<K>(b: bool, c: EncryptCall<K>) -> (r: Option<EncryptCall<K>>)
    ensures
        maybe_encrypt_steps(r) == one_step(b, c@),
{
    if b {
        Some(c)
    } else {
        None
    }
}

fn compression_call<K>(o: Option<(Compression, u32)>) -> (r: Option<EncryptCall<K>>)
    ensures
        maybe_encrypt_steps(r) == one_step(
            o is Some,
            EncryptStep::<K>::SetCompression((o->0).0, (o->0).1 as i32),
        ),
{
    match o {
        Some((c, l)) => Some(EncryptCall::SetCompression(c, l as i32)),
        None => None,
    }
}

fn file_name_call<K>(o: &Option<String>) -> (r: Option<EncryptCall<K>>)
    ensures
        maybe_encrypt_steps(r) == one_step(
            o is Some,
            EncryptStep::<K>::SetFileName(crate::text::opt_view(*o)->0),
        ),
{
    match o {
        Some(x) => Some(EncryptCall::SetFileName(x.clone())),
        None => None,
    }
}

fn cipher_call<K>(o: Option<Cipher>) -> (r: Option<EncryptCall<K>>)
    ensures
        maybe_encrypt_steps(r) == one_step(o is Some, EncryptStep::<K>::SetCipher(o->0)),
{
    match o {
        Some(x) => Some(EncryptCall::SetCipher(x)),
        None => None,
    }
}

fn hash_call<K>(o: Option<crate::algorithm::Hash>) -> (r: Option<EncryptCall<K>>)
    ensures
        maybe_encrypt_steps(r) == one_step(o is Some, EncryptStep::<K>::SetHash(o->0)),
{
    match o {
        Some(x) => Some(EncryptCall::SetHash(x)),
        None => None,
    }
}

fn aead_call<K>(o: Option<AeadType>) -> (r: Option<EncryptCall<K>>)
    ensures
        maybe_encrypt_steps(r) == one_step(o is Some, EncryptStep::<K>::SetAead(o->0)),
{
    match o {
        Some(x) => Some(EncryptCall::SetAead(x)),
        None => None,
    }
}

fn aead_bits_call<K>(o: Option<i32>) -> (r: Option<EncryptCall<K>>)
    ensures
        maybe_encrypt_steps(r) == one_step(o is Some, EncryptStep::<K>::SetAeadBits(o->0)),
{
    match o {
        Some(x) => Some(EncryptCall::SetAeadBits(x)),
        None => None,
    }
}

fn file_mtime_call<K>(o: Option<u32>) -> (r: Option<EncryptCall<K>>)
    ensures
        maybe_encrypt_steps(r) == one_step(o is Some, EncryptStep::<K>::SetFileMtime(o->0)),
{
    match o {
        Some(x) => Some(EncryptCall::SetFileMtime(x)),
        None => None,
    }
}

fn creation_time_call<K>(o: Option<u32>) -> (r: Option<EncryptCall<K>>)
    ensures
        maybe_encrypt_steps(r) == one_step(o is Some, EncryptStep::<K>::SetCreationTime(o->0)),
{
    match o {
        Some(x) => Some(EncryptCall::SetCreationTime(x)),
        None => None,
    }
}

fn expiration_time_call<K>(o: Option<u32>) -> (r: Option<EncryptCall<K>>)
    ensures
        maybe_encrypt_steps(r) == one_step(o is Some, EncryptStep::<K>::SetExpirationTime(o->0)),
{
    match o {
        Some(x) => Some(EncryptCall::SetExpirationTime(x)),
        None => None,
    }
}

fn option_calls<K>(e: &Encryptor<K>) -> (r: Vec<EncryptCall<K>>)
    ensures
        encrypt_steps_of(r@) == option_steps(e@),
{
    let mut calls: Vec<EncryptCall<K>> = Vec::new();
    assert(encrypt_steps_of(calls@) =~= Seq::<EncryptStep<K>>::empty());
    push_maybe_call(&mut calls, flag_call(e.armor, EncryptCall::SetArmor));
    assert(Seq::<EncryptStep<K>>::empty() + one_step(e.armor, EncryptStep::<K>::SetArmor)
        =~= one_step(e.armor, EncryptStep::<K>::SetArmor));
    push_maybe_call(&mut calls, cipher_call(e.cipher));
    push_maybe_call(&mut calls, hash_call(e.hash));
    push_maybe_call(&mut calls, compression_call(e.compression));
    push_maybe_call(&mut calls, aead_call(e.aead));
    push_maybe_call(&mut calls, aead_bits_call(e.aead_bits));
    push_maybe_call(&mut calls, file_name_call(&e.file_name));
    push_maybe_call(&mut calls, file_mtime_call(e.file_mtime));
    push_maybe_call(&mut calls, creation_time_call(e.creation_time));
    push_maybe_call(&mut calls, expiration_time_call(e.expiration_time));
    push_maybe_call(&mut calls, flag_call(e.flags.bits() != 0, EncryptCall::SetFlags(e.flags.bits())));
    push_maybe_call(&mut calls, flag_call(e.prefer_pqc, EncryptCall::PreferPqcEncSubkey));
    push_maybe_call(&mut calls, flag_call(e.pkesk_v6, EncryptCall::EnablePkeskV6));
    push_maybe_call(&mut calls, flag_call(e.skesk_v6, EncryptCall::EnableSkeskV6));
    calls
}

// ---------------------------------------------------------------------------
// Decryption
// ---------------------------------------------------------------------------

/// Settings of a decryption over a context `C`: the context and the
/// ciphertext.
pub struct Decryptor<'a, C> {
    pub ctx: C,
    pub ciphertext: &'a [u8],
}

impl<'a, C> Decryptor<'a, C> {
    pub fn new(ctx: C, ciphertext: &'a [u8]) -> (r: Decryptor<'a, C>)
        ensures
            r.ctx == ctx,
            r.ciphertext@ == ciphertext@,
    {
        Decryptor { ctx, ciphertext }
    }
}

/// Result of a decryption: the plaintext and the metadata `V` librnp
/// reported for the message.
pub struct DecryptResult<V> {
    pub verify_result: V,
    pub plaintext: Vec<u8>,
}

impl<V> DecryptResult<V> {
    /// The decrypted plaintext bytes.
    pub fn plaintext(&self) -> (r: &[u8])
        ensures
            r@ == self.plaintext@,
    {
        self.plaintext.as_slice()
    }

    /// Consume the result and return the owned plaintext bytes.
    pub fn into_plaintext(self) -> (r: Vec<u8>)
        ensures
            r@ == self.plaintext@,
    {
        self.plaintext
    }

    /// The metadata of the message.
    pub fn verify_result(&self) -> (r: &V)
        ensures
            *r == self.verify_result,
    {
        &self.verify_result
    }
}

impl Default for EncryptFlags {
    /// No flag set.
    fn default() -> (r: EncryptFlags)
        ensures
            r.0 == 0,
    {
        EncryptFlags(0)
    }
}
impl Default for AddPasswordOptions {
    /// No setting made: every default applies.
    fn default() -> (r: AddPasswordOptions)
        ensures
            r == (AddPasswordOptions { hash: None, iterations: None, cipher: None }),
    {
        AddPasswordOptions { hash: None, iterations: None, cipher: None }
    }
}

} // verus!

verus! {

// ---------------------------------------------------------------------------
// Who an encryption is for and who signs it
// ---------------------------------------------------------------------------

/// The values carried by the steps that `pick` selects, in step order.
pub open spec fn encrypt_picked<K, T>(
    steps: Seq<EncryptStep<K>>,
    pick: spec_fn(EncryptStep<K>) -> Option<T>,
) -> Seq<T>
    decreases steps.len(),
{
    if steps.len() == 0 {
        Seq::empty()
    } else {
        let rest = encrypt_picked(steps.drop_last(), pick);
        match pick(steps.last()) {
            Some(x) => rest.push(x),
            None => rest,
        }
    }
}

/// Selects the key an `AddRecipient` step adds.
pub open spec fn recipient_pick<K>() -> spec_fn(EncryptStep<K>) -> Option<K> {
    |s: EncryptStep<K>|
        match s {
            EncryptStep::AddRecipient(k) => Some(k),
            _ => None,
        }
}

/// Selects the key an `AddSignature` step adds.
pub open spec fn signer_pick<K>() -> spec_fn(EncryptStep<K>) -> Option<K> {
    |s: EncryptStep<K>|
        match s {
            EncryptStep::AddSignature(k) => Some(k),
            _ => None,
        }
}

/// Selects the password an `AddPassword` step adds.
pub open spec fn password_pick<K>() -> spec_fn(EncryptStep<K>) -> Option<Seq<u8>> {
    |s: EncryptStep<K>|
        match s {
            EncryptStep::AddPassword { password, .. } => Some(password),
            _ => None,
        }
}

/// Whether a step adds a recipient, a signer or a password.
pub open spec fn adds_party<K>(s: EncryptStep<K>) -> bool {
    s is AddRecipient || s is AddSignature || s is AddPassword
}

proof fn lemma_encrypt_picked_append<K, T>(
    a: Seq<EncryptStep<K>>,
    b: Seq<EncryptStep<K>>,
    pick: spec_fn(EncryptStep<K>) -> Option<T>,
)
    ensures
        encrypt_picked(a + b, pick) == encrypt_picked(a, pick) + encrypt_picked(b, pick),
    decreases b.len(),
{
    if b.len() == 0 {
        assert(a + b =~= a);
        assert(encrypt_picked(a, pick) + encrypt_picked(b, pick) =~= encrypt_picked(a, pick));
    } else {
        lemma_encrypt_picked_append(a, b.drop_last(), pick);
        assert((a + b).drop_last() =~= a + b.drop_last());
        assert((a + b).last() == b.last());
        match pick(b.last()) {
            Some(x) => {
                assert(encrypt_picked(a, pick) + encrypt_picked(b.drop_last(), pick).push(x) =~= (
                encrypt_picked(a, pick) + encrypt_picked(b.drop_last(), pick)).push(x));
            },
            None => {},
        }
    }
}

proof fn lemma_encrypt_picked_none<K, T>(
    s: Seq<EncryptStep<K>>,
    pick: spec_fn(EncryptStep<K>) -> Option<T>,
)
    requires
        party_free(s),
        forall|x: EncryptStep<K>| !adds_party(x) ==> (#[trigger] pick(x)) is None,
    ensures
        encrypt_picked(s, pick) == Seq::<T>::empty(),
    decreases s.len(),
{
    reveal(party_free);
    if s.len() > 0 {
        assert(party_free(s.drop_last())) by {
            reveal(party_free);
            assert forall|i: int| 0 <= i < s.drop_last().len() implies !adds_party(
                #[trigger] s.drop_last()[i],
            ) by {
                assert(s.drop_last()[i] == s[i]);
            }
        }
        assert(!adds_party(s[s.len() - 1]));
        lemma_encrypt_picked_none(s.drop_last(), pick);
    }
}

/// Whether no step of `s` adds a recipient, a signer or a password.
#[verifier::opaque]
pub open spec fn party_free<K>(s: Seq<EncryptStep<K>>) -> bool {
    forall|i: int| 0 <= i < s.len() ==> !adds_party(#[trigger] s[i])
}

proof fn lemma_party_free_add<K>(a: Seq<EncryptStep<K>>, b: Seq<EncryptStep<K>>)
    requires
        party_free(a),
        party_free(b),
    ensures
        party_free(a + b),
{
    reveal(party_free);
    assert forall|i: int| 0 <= i < (a + b).len() implies !adds_party(#[trigger] (a + b)[i]) by {
        if i < a.len() {
            assert((a + b)[i] == a[i]);
        } else {
            assert((a + b)[i] == b[i - a.len()]);
        }
    }
}

proof fn lemma_one_step_party_free<K>(b: bool, x: EncryptStep<K>)
    requires
        !adds_party(x),
    ensures
        party_free(one_step(b, x)),
{
    reveal(party_free);
}

proof fn lemma_option_steps_party_free<K>(m: EncryptModel<K>)
    ensures
        party_free(option_steps(m)),
{
    let s1 = one_step(m.armor, EncryptStep::<K>::SetArmor);
    let s2 = one_step(m.cipher is Some, EncryptStep::<K>::SetCipher(m.cipher->0));
    let s3 = one_step(m.hash is Some, EncryptStep::<K>::SetHash(m.hash->0));
    let s4 = one_step(
        m.compression is Some,
        EncryptStep::<K>::SetCompression((m.compression->0).0, (m.compression->0).1 as i32),
    );
    let s5 = one_step(m.aead is Some, EncryptStep::<K>::SetAead(m.aead->0));
    let s6 = one_step(m.aead_bits is Some, EncryptStep::<K>::SetAeadBits(m.aead_bits->0));
    let s7 = one_step(m.file_name is Some, EncryptStep::<K>::SetFileName(m.file_name->0));
    let s8 = one_step(m.file_mtime is Some, EncryptStep::<K>::SetFileMtime(m.file_mtime->0));
    let s9 = one_step(m.creation_time is Some, EncryptStep::<K>::SetCreationTime(m.creation_time->0));
    let s10 = one_step(
        m.expiration_time is Some,
        EncryptStep::<K>::SetExpirationTime(m.expiration_time->0),
    );
    let s11 = one_step(m.flags.0 != 0, EncryptStep::<K>::SetFlags(m.flags.0));
    let s12 = one_step(m.prefer_pqc, EncryptStep::<K>::PreferPqcEncSubkey);
    let s13 = one_step(m.pkesk_v6, EncryptStep::<K>::EnablePkeskV6);
    let s14 = one_step(m.skesk_v6, EncryptStep::<K>::EnableSkeskV6);
    lemma_one_step_party_free(m.armor, EncryptStep::<K>::SetArmor);
    lemma_one_step_party_free(m.cipher is Some, EncryptStep::<K>::SetCipher(m.cipher->0));
    lemma_one_step_party_free(m.hash is Some, EncryptStep::<K>::SetHash(m.hash->0));
    lemma_one_step_party_free(
        m.compression is Some,
        EncryptStep::<K>::SetCompression((m.compression->0).0, (m.compression->0).1 as i32),
    );
    lemma_one_step_party_free(m.aead is Some, EncryptStep::<K>::SetAead(m.aead->0));
    lemma_one_step_party_free(m.aead_bits is Some, EncryptStep::<K>::SetAeadBits(m.aead_bits->0));
    lemma_one_step_party_free(m.file_name is Some, EncryptStep::<K>::SetFileName(m.file_name->0));
    lemma_one_step_party_free(m.file_mtime is Some, EncryptStep::<K>::SetFileMtime(m.file_mtime->0));
    lemma_one_step_party_free(
        m.creation_time is Some,
        EncryptStep::<K>::SetCreationTime(m.creation_time->0),
    );
    lemma_one_step_party_free(
        m.expiration_time is Some,
        EncryptStep::<K>::SetExpirationTime(m.expiration_time->0),
    );
    lemma_one_step_party_free(m.flags.0 != 0, EncryptStep::<K>::SetFlags(m.flags.0));
    lemma_one_step_party_free(m.prefer_pqc, EncryptStep::<K>::PreferPqcEncSubkey);
    lemma_one_step_party_free(m.pkesk_v6, EncryptStep::<K>::EnablePkeskV6);
    lemma_one_step_party_free(m.skesk_v6, EncryptStep::<K>::EnableSkeskV6);
    let t2 = s1 + s2;
    lemma_party_free_add(s1, s2);
    let t3 = t2 + s3;
    lemma_party_free_add(t2, s3);
    let t4 = t3 + s4;
    lemma_party_free_add(t3, s4);
    let t5 = t4 + s5;
    lemma_party_free_add(t4, s5);
    let t6 = t5 + s6;
    lemma_party_free_add(t5, s6);
    let t7 = t6 + s7;
    lemma_party_free_add(t6, s7);
    let t8 = t7 + s8;
    lemma_party_free_add(t7, s8);
    let t9 = t8 + s9;
    lemma_party_free_add(t8, s9);
    let t10 = t9 + s10;
    lemma_party_free_add(t9, s10);
    let t11 = t10 + s11;
    lemma_party_free_add(t10, s11);
    let t12 = t11 + s12;
    lemma_party_free_add(t11, s12);
    let t13 = t12 + s13;
    lemma_party_free_add(t12, s13);
    let t14 = t13 + s14;
    lemma_party_free_add(t13, s14);
}

proof fn lemma_recipient_steps_picked<K>(ks: Seq<K>)
    ensures
        encrypt_picked(recipient_steps(ks), recipient_pick()) == ks,
        encrypt_picked(recipient_steps(ks), signer_pick()) == Seq::<K>::empty(),
        encrypt_picked(recipient_steps(ks), password_pick::<K>()) == Seq::<Seq<u8>>::empty(),
    decreases ks.len(),
{
    if ks.len() > 0 {
        lemma_recipient_steps_picked(ks.drop_last());
        assert(recipient_steps(ks).drop_last() =~= recipient_steps(ks.drop_last()));
        assert(ks.drop_last().push(ks.last()) =~= ks);
    }
}

proof fn lemma_signature_steps_picked<K>(ks: Seq<K>)
    ensures
        encrypt_picked(signature_steps(ks), signer_pick()) == ks,
        encrypt_picked(signature_steps(ks), recipient_pick()) == Seq::<K>::empty(),
        encrypt_picked(signature_steps(ks), password_pick::<K>()) == Seq::<Seq<u8>>::empty(),
    decreases ks.len(),
{
    if ks.len() > 0 {
        lemma_signature_steps_picked(ks.drop_last());
        assert(signature_steps(ks).drop_last() =~= signature_steps(ks.drop_last()));
        assert(ks.drop_last().push(ks.last()) =~= ks);
    }
}

/// The password bytes of the entries, in order.
pub open spec fn password_bytes_of(ps: Seq<(Seq<u8>, AddPasswordOptions)>) -> Seq<Seq<u8>>
    decreases ps.len(),
{
    if ps.len() == 0 {
        Seq::empty()
    } else {
        password_bytes_of(ps.drop_last()).push(ps.last().0)
    }
}

proof fn lemma_password_steps_picked<K>(ps: Seq<(Seq<u8>, AddPasswordOptions)>)
    ensures
        encrypt_picked(password_steps::<K>(ps), password_pick::<K>()) == password_bytes_of(ps),
        encrypt_picked(password_steps::<K>(ps), recipient_pick()) == Seq::<K>::empty(),
        encrypt_picked(password_steps::<K>(ps), signer_pick()) == Seq::<K>::empty(),
    decreases ps.len(),
{
    if ps.len() > 0 {
        lemma_password_steps_picked::<K>(ps.drop_last());
        assert(password_steps::<K>(ps).drop_last() =~= password_steps::<K>(ps.drop_last()));
    }
}

/// An encryption makes exactly one `rnp_op_encrypt_add_recipient` call per
/// recipient, one `rnp_op_encrypt_add_signature` call per signer and one
/// `rnp_op_encrypt_add_password` call per password, each list in the
/// order it was added: every recipient can decrypt, every signer signs,
/// and any of the passwords decrypts.
pub proof fn law_encryption_adds_every_party<K>(m: EncryptModel<K>)
    ensures
        encrypt_picked(encrypt_steps(m), recipient_pick()) == m.recipients,
        encrypt_picked(encrypt_steps(m), signer_pick()) == m.signatures,
        encrypt_picked(encrypt_steps(m), password_pick::<K>()) == password_bytes_of(m.passwords),
{
    let a = recipient_steps(m.recipients);
    let b = signature_steps(m.signatures);
    let c = password_steps::<K>(m.passwords);
    let d = option_steps(m);
    lemma_recipient_steps_picked(m.recipients);
    lemma_signature_steps_picked(m.signatures);
    lemma_password_steps_picked::<K>(m.passwords);
    lemma_option_steps_party_free(m);
    lemma_encrypt_picked_none(d, recipient_pick::<K>());
    lemma_encrypt_picked_none(d, signer_pick::<K>());
    lemma_encrypt_picked_none(d, password_pick::<K>());
    assert(encrypt_steps(m) == a + b + c + d);
    lemma_encrypt_picked_append(a, b, recipient_pick::<K>());
    lemma_encrypt_picked_append(a + b, c, recipient_pick::<K>());
    lemma_encrypt_picked_append(a + b + c, d, recipient_pick::<K>());
    lemma_encrypt_picked_append(a, b, signer_pick::<K>());
    lemma_encrypt_picked_append(a + b, c, signer_pick::<K>());
    lemma_encrypt_picked_append(a + b + c, d, signer_pick::<K>());
    lemma_encrypt_picked_append(a, b, password_pick::<K>());
    lemma_encrypt_picked_append(a + b, c, password_pick::<K>());
    lemma_encrypt_picked_append(a + b + c, d, password_pick::<K>());
    assert(encrypt_picked(encrypt_steps(m), recipient_pick::<K>()) =~= m.recipients);
    assert(encrypt_picked(encrypt_steps(m), signer_pick::<K>()) =~= m.signatures);
    assert(encrypt_picked(encrypt_steps(m), password_pick::<K>()) =~= password_bytes_of(m.passwords));
}

} // verus!
