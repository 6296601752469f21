//! Key generation builders.
//!
//! [`KeyBuilder`] (primary keys) and [`SubkeyBuilder`] (subkeys) record
//! their settings and defer every librnp setter to build time. At build
//! time the builder's [`GeneratePlan`] lists the `rnp_op_generate_set_*` /
//! `_add_*` calls to make on the generation op, in order; the plan stops
//! where a string argument holds a NUL (which no C string can carry) and
//! then reports [`Error::NulByte`](crate::error::Error::NulByte) after the
//! calls before it.

use vstd::prelude::*;
use crate::algorithm::{
    algorithm_name, pqc_algorithm_name, Algorithm, Cipher, Compression, Curve, KeyUsage,
    PqcAlgorithm,
};
use crate::error::Error;
use crate::key::mutation::{ProtectModel, ProtectOptions};
use crate::text::{contains_nul, has_nul, opt_view, owned};

verus! {

// ---------------------------------------------------------------------------
// Protection settings shared by primary and subkey generation
// ---------------------------------------------------------------------------

/// Protection settings recorded by a builder; the same settings as
/// [`ProtectOptions`].
pub struct ProtectConfig {
    pub password: Option<String>,
    pub cipher: Option<Cipher>,
    pub mode: Option<String>,
    pub hash: Option<crate::algorithm::Hash>,
    pub iterations: Option<usize>,
}

impl View for ProtectConfig {
    type V = ProtectModel;

    open spec fn view(&self) -> ProtectModel {
        ProtectModel {
            password: opt_view(self.password),
            cipher: self.cipher,
            mode: opt_view(self.mode),
            hash: self.hash,
            iterations: self.iterations,
        }
    }
}

fn clone_opt_string(o: &Option<String>) -> (r: Option<String>)
    ensures
        r == *o,
{
    match o {
        Some(s) => Some(s.clone()),
        None => None,
    }
}

impl ProtectConfig {
    /// The settings of a user-supplied [`ProtectOptions`].
    pub fn from_options(opts: &ProtectOptions) -> (r: ProtectConfig)
        ensures
            r@ == opts@,
    {
        ProtectConfig {
            password: clone_opt_string(&opts.password),
            cipher: opts.cipher,
            mode: clone_opt_string(&opts.mode),
            hash: opts.hash,
            iterations: opts.iterations,
        }
    }
}

// ---------------------------------------------------------------------------
// Generation calls
// ---------------------------------------------------------------------------

/// One setter call on a librnp key-generation op.
pub enum GenerateCall {
    /// `rnp_op_generate_set_bits`
    SetBits(u32),
    /// `rnp_op_generate_set_hash`
    SetHash(crate::algorithm::Hash),
    /// `rnp_op_generate_set_dsa_qbits`
    SetDsaQbits(u32),
    /// `rnp_op_generate_set_curve`
    SetCurve(Curve),
    /// `rnp_op_generate_set_userid`
    SetUserid(String),
    /// `rnp_op_generate_set_expiration`
    SetExpiration(u32),
    /// `rnp_op_generate_add_usage`
    AddUsage(KeyUsage),
    /// `rnp_op_generate_add_pref_hash`
    AddPrefHash(crate::algorithm::Hash),
    /// `rnp_op_generate_add_pref_cipher`
    AddPrefCipher(Cipher),
    /// `rnp_op_generate_add_pref_compression`
    AddPrefCompression(Compression),
    /// `rnp_op_generate_set_pref_keyserver`
    SetPrefKeyserver(String),
    /// `rnp_op_generate_set_protection_password`
    SetProtectionPassword(String),
    /// `rnp_op_generate_set_protection_cipher`
    SetProtectionCipher(Cipher),
    /// `rnp_op_generate_set_protection_hash`
    SetProtectionHash(crate::algorithm::Hash),
    /// `rnp_op_generate_set_protection_mode`
    SetProtectionMode(String),
    /// `rnp_op_generate_set_protection_iterations`
    SetProtectionIterations(u32),
    /// `rnp_op_generate_set_request_password(op, true)`
    SetRequestPassword,
    /// `rnp_op_generate_set_v6_key`
    SetV6Key,
}

/// A [`GenerateCall`] with its string argument taken as text.
pub enum GenerateStep {
    SetBits(u32),
    SetHash(crate::algorithm::Hash),
    SetDsaQbits(u32),
    SetCurve(Curve),
    SetUserid(Seq<char>),
    SetExpiration(u32),
    AddUsage(KeyUsage),
    AddPrefHash(crate::algorithm::Hash),
    AddPrefCipher(Cipher),
    AddPrefCompression(Compression),
    SetPrefKeyserver(Seq<char>),
    SetProtectionPassword(Seq<char>),
    SetProtectionCipher(Cipher),
    SetProtectionHash(crate::algorithm::Hash),
    SetProtectionMode(Seq<char>),
    SetProtectionIterations(u32),
    SetRequestPassword,
    SetV6Key,
}

impl View for GenerateCall {
    type V = GenerateStep;

    open spec fn view(&self) -> GenerateStep {
        match self {
            GenerateCall::SetBits(n) => GenerateStep::SetBits(*n),
            GenerateCall::SetHash(h) => GenerateStep::SetHash(*h),
            GenerateCall::SetDsaQbits(n) => GenerateStep::SetDsaQbits(*n),
            GenerateCall::SetCurve(c) => GenerateStep::SetCurve(*c),
            GenerateCall::SetUserid(s) => GenerateStep::SetUserid(s@),
            GenerateCall::SetExpiration(n) => GenerateStep::SetExpiration(*n),
            GenerateCall::AddUsage(u) => GenerateStep::AddUsage(*u),
            GenerateCall::AddPrefHash(h) => GenerateStep::AddPrefHash(*h),
            GenerateCall::AddPrefCipher(c) => GenerateStep::AddPrefCipher(*c),
            GenerateCall::AddPrefCompression(c) => GenerateStep::AddPrefCompression(*c),
            GenerateCall::SetPrefKeyserver(s) => GenerateStep::SetPrefKeyserver(s@),
            GenerateCall::SetProtectionPassword(s) => GenerateStep::SetProtectionPassword(s@),
            GenerateCall::SetProtectionCipher(c) => GenerateStep::SetProtectionCipher(*c),
            GenerateCall::SetProtectionHash(h) => GenerateStep::SetProtectionHash(*h),
            GenerateCall::SetProtectionMode(s) => GenerateStep::SetProtectionMode(s@),
            GenerateCall::SetProtectionIterations(n) => GenerateStep::SetProtectionIterations(*n),
            GenerateCall::SetRequestPassword => GenerateStep::SetRequestPassword,
            GenerateCall::SetV6Key => GenerateStep::SetV6Key,
        }
    }
}

/// The steps of a sequence of calls.
pub open spec fn steps_of(calls: Seq<GenerateCall>) -> Seq<GenerateStep> {
    calls.map_values(|c: GenerateCall| c@)
}

/// Whether the step carries a string that holds a NUL.
pub open spec fn step_has_nul(s: GenerateStep) -> bool {
    match s {
        GenerateStep::SetUserid(t) => has_nul(t),
        GenerateStep::SetPrefKeyserver(t) => has_nul(t),
        GenerateStep::SetProtectionPassword(t) => has_nul(t),
        GenerateStep::SetProtectionMode(t) => has_nul(t),
        _ => false,
    }
}

/// Whether the first step that carries a NUL is a protection-mode step:
/// passing such a mode to librnp is not possible and is never attempted.
pub open spec fn stops_at_mode(steps: Seq<GenerateStep>) -> bool {
    exists|i: int|
        0 <= i < steps.len() && (forall|j: int| 0 <= j < i ==> !step_has_nul(#[trigger] steps[j]))
            && steps[i] is SetProtectionMode && step_has_nul(steps[i])
}

/// A plan of generation setter calls: make `calls` in order; if one fails,
/// that failure is the outcome; if all succeed, `failure` (if any) is the
/// outcome.
pub struct GeneratePlan {
    pub calls: Vec<GenerateCall>,
    pub failure: Option<Error>,
}

/// Whether `plan` is the passable prefix of `steps`: the calls up to the
/// first step that carries a NUL, then [`Error::NulByte`] if there is one.
pub open spec fn plan_follows(plan: GeneratePlan, steps: Seq<GenerateStep>) -> bool {
    let k = plan.calls@.len();
    &&& k <= steps.len()
    &&& steps_of(plan.calls@) == steps.take(k as int)
    &&& forall|i: int| 0 <= i < k ==> !step_has_nul(#[trigger] steps[i])
    &&& (k < steps.len() <==> plan.failure is Some)
    &&& k < steps.len() ==> step_has_nul(steps[k as int])
    &&& plan.failure matches Some(e) ==> e is NulByte
}

/// `usize` iteration count as `u32`, saturating at `u32::MAX`.
pub open spec fn saturate_u32(n: usize) -> u32 {
    if n <= u32::MAX {
        n as u32
    } else {
        u32::MAX
    }
}

pub open spec fn bits_step(o: Option<u32>) -> Seq<GenerateStep> {
    match o {
        Some(n) => seq![GenerateStep::SetBits(n)],
        None => Seq::empty(),
    }
}

pub open spec fn hash_step(o: Option<crate::algorithm::Hash>) -> Seq<GenerateStep> {
    match o {
        Some(h) => seq![GenerateStep::SetHash(h)],
        None => Seq::empty(),
    }
}

pub open spec fn dsa_qbits_step(o: Option<u32>) -> Seq<GenerateStep> {
    match o {
        Some(n) => seq![GenerateStep::SetDsaQbits(n)],
        None => Seq::empty(),
    }
}

pub open spec fn curve_step(o: Option<Curve>) -> Seq<GenerateStep> {
    match o {
        Some(c) => seq![GenerateStep::SetCurve(c)],
        None => Seq::empty(),
    }
}

pub open spec fn userid_step(o: Option<Seq<char>>) -> Seq<GenerateStep> {
    match o {
        Some(t) => seq![GenerateStep::SetUserid(t)],
        None => Seq::empty(),
    }
}

pub open spec fn expiration_step(o: Option<u32>) -> Seq<GenerateStep> {
    match o {
        Some(n) => seq![GenerateStep::SetExpiration(n)],
        None => Seq::empty(),
    }
}

pub open spec fn keyserver_step(o: Option<Seq<char>>) -> Seq<GenerateStep> {
    match o {
        Some(t) => seq![GenerateStep::SetPrefKeyserver(t)],
        None => Seq::empty(),
    }
}

pub open spec fn password_step(o: Option<Seq<char>>) -> Seq<GenerateStep> {
    match o {
        Some(t) => seq![GenerateStep::SetProtectionPassword(t)],
        None => Seq::empty(),
    }
}

pub open spec fn protection_cipher_step(o: Option<Cipher>) -> Seq<GenerateStep> {
    match o {
        Some(c) => seq![GenerateStep::SetProtectionCipher(c)],
        None => Seq::empty(),
    }
}

pub open spec fn protection_hash_step(o: Option<crate::algorithm::Hash>) -> Seq<GenerateStep> {
    match o {
        Some(h) => seq![GenerateStep::SetProtectionHash(h)],
        None => Seq::empty(),
    }
}

pub open spec fn mode_step(o: Option<Seq<char>>) -> Seq<GenerateStep> {
    match o {
        Some(t) => seq![GenerateStep::SetProtectionMode(t)],
        None => Seq::empty(),
    }
}

pub open spec fn iterations_step(o: Option<usize>) -> Seq<GenerateStep> {
    match o {
        Some(n) => seq![GenerateStep::SetProtectionIterations(saturate_u32(n))],
        None => Seq::empty(),
    }
}

/// A one-step sequence if `b` holds, empty otherwise.
pub open spec fn flag_step(b: bool, s: GenerateStep) -> Seq<GenerateStep> {
    if b {
        seq![s]
    } else {
        Seq::empty()
    }
}

/// The calls that apply protection settings: password, cipher, hash, mode,
/// iterations, each if set.
pub open spec fn protection_steps(p: Option<ProtectModel>) -> Seq<GenerateStep> {
    match p {
        None => Seq::empty(),
        Some(c) => password_step(c.password) + protection_cipher_step(c.cipher)
            + protection_hash_step(c.hash) + mode_step(c.mode) + iterations_step(c.iterations),
    }
}

pub open spec fn usage_steps(us: Seq<KeyUsage>) -> Seq<GenerateStep> {
    us.map_values(|u: KeyUsage| GenerateStep::AddUsage(u))
}

pub open spec fn pref_hash_steps(hs: Seq<crate::algorithm::Hash>) -> Seq<GenerateStep> {
    hs.map_values(|h: crate::algorithm::Hash| GenerateStep::AddPrefHash(h))
}

pub open spec fn pref_cipher_steps(cs: Seq<Cipher>) -> Seq<GenerateStep> {
    cs.map_values(|c: Cipher| GenerateStep::AddPrefCipher(c))
}

pub open spec fn pref_compression_steps(cs: Seq<Compression>) -> Seq<GenerateStep> {
    cs.map_values(|c: Compression| GenerateStep::AddPrefCompression(c))
}

proof fn lemma_steps_push(calls: Seq<GenerateCall>, c: GenerateCall)
    ensures
        steps_of(calls.push(c)) == steps_of(calls).push(c@),
{
    assert(steps_of(calls.push(c)) =~= steps_of(calls).push(c@));
}

fn push_call(calls: &mut Vec<GenerateCall>, c: GenerateCall)
    ensures
        steps_of(final(calls)@) == steps_of(old(calls)@).push(c@),
{
    proof {
        lemma_steps_push(calls@, c);
    }
    calls.push(c);
}

fn push_usages(calls: &mut Vec<GenerateCall>, us: &Vec<KeyUsage>)
    ensures
        steps_of(final(calls)@) == steps_of(old(calls)@) + usage_steps(us@),
{
    let ghost start = steps_of(calls@);
    let mut i: usize = 0;
    while i < us.len()
        invariant
            i <= us@.len(),
            steps_of(calls@) == start + usage_steps(us@.take(i as int)),
        decreases us.len() - i,
    {
        push_call(calls, GenerateCall::AddUsage(us[i]));
        assert(usage_steps(us@.take(i + 1)) =~= usage_steps(us@.take(i as int)).push(
            GenerateStep::AddUsage(us@[i as int]),
        ));
        i += 1;
    }
    assert(us@.take(us@.len() as int) =~= us@);
}

fn push_pref_hashes(calls: &mut Vec<GenerateCall>, hs: &Vec<crate::algorithm::Hash>)
    ensures
        steps_of(final(calls)@) == steps_of(old(calls)@) + pref_hash_steps(hs@),
{
    let ghost start = steps_of(calls@);
    let mut i: usize = 0;
    while i < hs.len()
        invariant
            i <= hs@.len(),
            steps_of(calls@) == start + pref_hash_steps(hs@.take(i as int)),
        decreases hs.len() - i,
    {
        push_call(calls, GenerateCall::AddPrefHash(hs[i]));
        assert(pref_hash_steps(hs@.take(i + 1)) =~= pref_hash_steps(hs@.take(i as int)).push(
            GenerateStep::AddPrefHash(hs@[i as int]),
        ));
        i += 1;
    }
    assert(hs@.take(hs@.len() as int) =~= hs@);
}

fn push_pref_ciphers(calls: &mut Vec<GenerateCall>, cs: &Vec<Cipher>)
    ensures
        steps_of(final(calls)@) == steps_of(old(calls)@) + pref_cipher_steps(cs@),
{
    let ghost start = steps_of(calls@);
    let mut i: usize = 0;
    while i < cs.len()
        invariant
            i <= cs@.len(),
            steps_of(calls@) == start + pref_cipher_steps(cs@.take(i as int)),
        decreases cs.len() - i,
    {
        push_call(calls, GenerateCall::AddPrefCipher(cs[i]));
        assert(pref_cipher_steps(cs@.take(i + 1)) =~= pref_cipher_steps(cs@.take(i as int)).push(
            GenerateStep::AddPrefCipher(cs@[i as int]),
        ));
        i += 1;
    }
    assert(cs@.take(cs@.len() as int) =~= cs@);
}

fn push_pref_compressions(calls: &mut Vec<GenerateCall>, cs: &Vec<Compression>)
    ensures
        steps_of(final(calls)@) == steps_of(old(calls)@) + pref_compression_steps(cs@),
{
    let ghost start = steps_of(calls@);
    let mut i: usize = 0;
    while i < cs.len()
        invariant
            i <= cs@.len(),
            steps_of(calls@) == start + pref_compression_steps(cs@.take(i as int)),
        decreases cs.len() - i,
    {
        push_call(calls, GenerateCall::AddPrefCompression(cs[i]));
        assert(pref_compression_steps(cs@.take(i + 1)) =~= pref_compression_steps(
            cs@.take(i as int),
        ).push(GenerateStep::AddPrefCompression(cs@[i as int])));
        i += 1;
    }
    assert(cs@.take(cs@.len() as int) =~= cs@);
}

/// The iteration count passed to librnp: the `usize` count as `u32`,
/// saturating at `u32::MAX`.
pub fn saturating_iterations(n: usize) -> (r: u32)
    ensures
        r == saturate_u32(n),
{
    if n <= u32::MAX as usize {
        n as u32
    } else {
        u32::MAX
    }
}

/// The steps of an optional call.
pub open spec fn maybe_steps(c: Option<GenerateCall>) -> Seq<GenerateStep> {
    match c {
        Some(x) => seq![x@],
        None => Seq::empty(),
    }
}

fn push_maybe(calls: &mut Vec<GenerateCall>, c: Option<GenerateCall>)
    ensures
        steps_of(final(calls)@) == steps_of(old(calls)@) + maybe_steps(c),
{
    let ghost before = steps_of(calls@);
    match c {
        Some(x) => {
            let ghost xv = x@;
            push_call(calls, x);
            assert(before.push(xv) =~= before + seq![xv]);
        },
        None => {
            assert(before + Seq::<GenerateStep>::empty() =~= before);
        },
    }
}

fn bits_call(o: Option<u32>) -> (r: Option<GenerateCall>)
    ensures
        maybe_steps(r) == bits_step(o),
{
    match o {
        Some(n) => Some(GenerateCall::SetBits(n)),
        None => None,
    }
}

fn hash_call(o: Option<crate::algorithm::Hash>) -> (r: Option<GenerateCall>)
    ensures
        maybe_steps(r) == hash_step(o),
{
    match o {
        Some(h) => Some(GenerateCall::SetHash(h)),
        None => None,
    }
}

fn dsa_qbits_call(o: Option<u32>) -> (r: Option<GenerateCall>)
    ensures
        maybe_steps(r) == dsa_qbits_step(o),
{
    match o {
        Some(n) => Some(GenerateCall::SetDsaQbits(n)),
        None => None,
    }
}

fn curve_call(o: Option<Curve>) -> (r: Option<GenerateCall>)
    ensures
        maybe_steps(r) == curve_step(o),
{
    match o {
        Some(c) => Some(GenerateCall::SetCurve(c)),
        None => None,
    }
}

fn userid_call(o: &Option<String>) -> (r: Option<GenerateCall>)
    ensures
        maybe_steps(r) == userid_step(opt_view(*o)),
{
    match o {
        Some(t) => Some(GenerateCall::SetUserid(t.clone())),
        None => None,
    }
}

fn expiration_call(o: Option<u32>) -> (r: Option<GenerateCall>)
    ensures
        maybe_steps(r) == expiration_step(o),
{
    match o {
        Some(n) => Some(GenerateCall::SetExpiration(n)),
        None => None,
    }
}

fn keyserver_call(o: &Option<String>) -> (r: Option<GenerateCall>)
    ensures
        maybe_steps(r) == keyserver_step(opt_view(*o)),
{
    match o {
        Some(t) => Some(GenerateCall::SetPrefKeyserver(t.clone())),
        None => None,
    }
}

fn password_call(o: &Option<String>) -> (r: Option<GenerateCall>)
    ensures
        maybe_steps(r) == password_step(opt_view(*o)),
{
    match o {
        Some(t) => Some(GenerateCall::SetProtectionPassword(t.clone())),
        None => None,
    }
}

fn protection_cipher_call(o: Option<Cipher>) -> (r: Option<GenerateCall>)
    ensures
        maybe_steps(r) == protection_cipher_step(o),
{
    match o {
        Some(c) => Some(GenerateCall::SetProtectionCipher(c)),
        None => None,
    }
}

fn protection_hash_call(o: Option<crate::algorithm::Hash>) -> (r: Option<GenerateCall>)
    ensures
        maybe_steps(r) == protection_hash_step(o),
{
    match o {
        Some(h) => Some(GenerateCall::SetProtectionHash(h)),
        None => None,
    }
}

fn mode_call(o: &Option<String>) -> (r: Option<GenerateCall>)
    ensures
        maybe_steps(r) == mode_step(opt_view(*o)),
{
    match o {
        Some(t) => Some(GenerateCall::SetProtectionMode(t.clone())),
        None => None,
    }
}

fn iterations_call(o: Option<usize>) -> (r: Option<GenerateCall>)
    ensures
        maybe_steps(r) == iterations_step(o),
{
    match o {
        Some(n) => Some(GenerateCall::SetProtectionIterations(saturating_iterations(n))),
        None => None,
    }
}

fn flag_call(b: bool, c: GenerateCall) -> (r: Option<GenerateCall>)
    ensures
        maybe_steps(r) == flag_step(b, c@),
{
    if b {
        Some(c)
    } else {
        None
    }
}

/// The model of an optional protection configuration.
pub open spec fn protection_model(p: Option<ProtectConfig>) -> Option<ProtectModel> {
    match p {
        Some(c) => Some(c@),
        None => None,
    }
}

fn push_protection(calls: &mut Vec<GenerateCall>, p: &Option<ProtectConfig>)
    ensures
        steps_of(final(calls)@) == steps_of(old(calls)@) + protection_steps(protection_model(*p)),
{
    let ghost start = steps_of(calls@);
    match p {
        Some(cfg) => {
            push_maybe(calls, password_call(&cfg.password));
            push_maybe(calls, protection_cipher_call(cfg.cipher));
            push_maybe(calls, protection_hash_call(cfg.hash));
            push_maybe(calls, mode_call(&cfg.mode));
            push_maybe(calls, iterations_call(cfg.iterations));
            let ghost m = cfg@;
            assert(start + password_step(m.password) + protection_cipher_step(m.cipher)
                + protection_hash_step(m.hash) + mode_step(m.mode) + iterations_step(m.iterations)
                =~= start + protection_steps(Some(m)));
        },
        None => {
            assert(start + Seq::<GenerateStep>::empty() =~= start);
        },
    }
}

fn call_has_nul(c: &GenerateCall) -> (r: bool)
    ensures
        r == step_has_nul(c@),
{
    match c {
        GenerateCall::SetUserid(t) => contains_nul(t.as_str()),
        GenerateCall::SetPrefKeyserver(t) => contains_nul(t.as_str()),
        GenerateCall::SetProtectionPassword(t) => contains_nul(t.as_str()),
        GenerateCall::SetProtectionMode(t) => contains_nul(t.as_str()),
        _ => false,
    }
}

/// Whether the first call whose string argument holds a NUL is a
/// protection-mode call (see [`stops_at_mode`]).
pub fn first_nul_is_mode(calls: &Vec<GenerateCall>) -> (r: bool)
    ensures
        r == stops_at_mode(steps_of(calls@)),
{
    let ghost steps = steps_of(calls@);
    let mut i: usize = 0;
    while i < calls.len()
        invariant
            steps == steps_of(calls@),
            i <= calls@.len(),
            forall|j: int| 0 <= j < i ==> !step_has_nul(#[trigger] steps[j]),
        decreases calls.len() - i,
    {
        if call_has_nul(&calls[i]) {
            let r = match &calls[i] {
                GenerateCall::SetProtectionMode(_) => true,
                _ => false,
            };
            proof {
                assert(steps[i as int] == calls@[i as int]@);
                if !r {
                    assert forall|k: int|
                        0 <= k < steps.len() && (forall|j: int|
                            0 <= j < k ==> !step_has_nul(#[trigger] steps[j]))
                            && steps[k] is SetProtectionMode implies !step_has_nul(steps[k]) by {
                        if k > i {
                            assert(!step_has_nul(steps[i as int]));
                        }
                    }
                }
            }
            return r;
        }
        i += 1;
    }
    false
}

/// The plan that makes `calls` in order, stopping before the first call
/// whose string argument holds a NUL.
pub fn cut_at_nul(calls: Vec<GenerateCall>) -> (r: GeneratePlan)
    requires
        !stops_at_mode(steps_of(calls@)),
    ensures
        plan_follows(r, steps_of(calls@)),
{
    let ghost steps = steps_of(calls@);
    let mut kept = calls;
    let mut i: usize = 0;
    while i < kept.len()
        invariant
            steps == steps_of(kept@),
            steps == steps_of(calls@),
            i <= kept@.len(),
            forall|j: int| 0 <= j < i ==> !step_has_nul(#[trigger] steps[j]),
        decreases kept.len() - i,
    {
        if call_has_nul(&kept[i]) {
            assert(steps[i as int] == kept@[i as int]@);
            kept.truncate(i);
            assert(steps_of(kept@) =~= steps.take(i as int));
            return GeneratePlan { calls: kept, failure: Some(Error::NulByte) };
        }
        i += 1;
    }
    assert(steps.take(steps.len() as int) =~= steps);
    GeneratePlan { calls: kept, failure: None }
}

// ---------------------------------------------------------------------------
// Subkey builder
// ---------------------------------------------------------------------------

/// The settings recorded by a [`SubkeyBuilder`].
pub struct SubkeyModel {
    pub alg: Seq<char>,
    pub bits: Option<u32>,
    pub hash: Option<crate::algorithm::Hash>,
    pub dsa_qbits: Option<u32>,
    pub curve: Option<Curve>,
    pub expiration: Option<u32>,
    pub usages: Seq<KeyUsage>,
    pub protection: Option<ProtectModel>,
    pub request_password: bool,
}

/// The generation calls for a subkey: bits, hash, DSA q-bits, curve and
/// expiration if set, then the usages in order, the protection settings,
/// and the password request.
pub open spec fn subkey_steps(m: SubkeyModel) -> Seq<GenerateStep> {
    bits_step(m.bits) + hash_step(m.hash) + dsa_qbits_step(m.dsa_qbits) + curve_step(m.curve)
        + expiration_step(m.expiration) + usage_steps(m.usages) + protection_steps(m.protection)
        + flag_step(m.request_password, GenerateStep::SetRequestPassword)
}

/// Builder for generating a subkey off an existing primary key
/// (`rnp_op_generate_subkey_create`). Same setter surface as
/// [`KeyBuilder`] minus `userid` and `v6`.
pub struct SubkeyBuilder {
    pub alg_str: String,
    pub bits: Option<u32>,
    pub hash: Option<crate::algorithm::Hash>,
    pub dsa_qbits: Option<u32>,
    pub curve: Option<Curve>,
    pub expiration: Option<u32>,
    pub usages: Vec<KeyUsage>,
    pub protection: Option<ProtectConfig>,
    pub request_password: bool,
}

impl View for SubkeyBuilder {
    type V = SubkeyModel;

    open spec fn view(&self) -> SubkeyModel {
        SubkeyModel {
            alg: self.alg_str@,
            bits: self.bits,
            hash: self.hash,
            dsa_qbits: self.dsa_qbits,
            curve: self.curve,
            expiration: self.expiration,
            usages: self.usages@,
            protection: protection_model(self.protection),
            request_password: self.request_password,
        }
    }
}

/// A fresh subkey model for the algorithm named `alg`.
pub open spec fn fresh_subkey(alg: Seq<char>) -> SubkeyModel {
    SubkeyModel {
        alg,
        bits: None,
        hash: None,
        dsa_qbits: None,
        curve: None,
        expiration: None,
        usages: Seq::empty(),
        protection: None,
        request_password: false,
    }
}

impl SubkeyBuilder {
    pub fn new(alg: Algorithm) -> (r: SubkeyBuilder)
        ensures
            r@ == fresh_subkey(algorithm_name(alg)),
    {
        Self::new_str(alg.as_str())
    }

    /// A subkey builder from a raw algorithm name, for algorithms outside
    /// [`Algorithm`] (e.g. PQC composites).
    pub fn new_str(alg: &str) -> (r: SubkeyBuilder)
        ensures
            r@ == fresh_subkey(alg@),
    {
        SubkeyBuilder {
            alg_str: owned(alg),
            bits: None,
            hash: None,
            dsa_qbits: None,
            curve: None,
            expiration: None,
            usages: Vec::new(),
            protection: None,
            request_password: false,
        }
    }

    pub fn bits(self, n: u32) -> (r: SubkeyBuilder)
        ensures
            r@ == (SubkeyModel { bits: Some(n), ..self@ }),
    {
        SubkeyBuilder { bits: Some(n), ..self }
    }

    pub fn hash(self, h: crate::algorithm::Hash) -> (r: SubkeyBuilder)
        ensures
            r@ == (SubkeyModel { hash: Some(h), ..self@ }),
    {
        SubkeyBuilder { hash: Some(h), ..self }
    }

    pub fn dsa_qbits(self, n: u32) -> (r: SubkeyBuilder)
        ensures
            r@ == (SubkeyModel { dsa_qbits: Some(n), ..self@ }),
    {
        SubkeyBuilder { dsa_qbits: Some(n), ..self }
    }

    pub fn curve(self, c: Curve) -> (r: SubkeyBuilder)
        ensures
            r@ == (SubkeyModel { curve: Some(c), ..self@ }),
    {
        SubkeyBuilder { curve: Some(c), ..self }
    }

    pub fn expiration(self, seconds: u32) -> (r: SubkeyBuilder)
        ensures
            r@ == (SubkeyModel { expiration: Some(seconds), ..self@ }),
    {
        SubkeyBuilder { expiration: Some(seconds), ..self }
    }

    pub fn add_usage(self, u: KeyUsage) -> (r: SubkeyBuilder)
        ensures
            r@ == (SubkeyModel { usages: self@.usages.push(u), ..self@ }),
    {
        let mut b = self;
        b.usages.push(u);
        b
    }

    /// The algorithm name the subkey is generated with.
    pub fn alg_str(&self) -> (r: &str)
        ensures
            r@ == self@.alg,
    {
        self.alg_str.as_str()
    }

    /// Every generation call for this subkey, NUL or not.
    pub fn generate_calls(&self) -> (r: Vec<GenerateCall>)
        ensures
            steps_of(r@) == subkey_steps(self@),
    {
        let mut calls: Vec<GenerateCall> = Vec::new();
        assert(steps_of(calls@) =~= Seq::<GenerateStep>::empty());
        push_maybe(&mut calls, bits_call(self.bits));
        assert(Seq::<GenerateStep>::empty() + bits_step(self.bits) =~= bits_step(self.bits));
        push_maybe(&mut calls, hash_call(self.hash));
        push_maybe(&mut calls, dsa_qbits_call(self.dsa_qbits));
        push_maybe(&mut calls, curve_call(self.curve));
        push_maybe(&mut calls, expiration_call(self.expiration));
        push_usages(&mut calls, &self.usages);
        push_protection(&mut calls, &self.protection);
        push_maybe(&mut calls, flag_call(self.request_password, GenerateCall::SetRequestPassword));
        calls
    }

    /// The generation plan for this subkey.
    pub fn plan(&self) -> (r: GeneratePlan)
        requires
            !stops_at_mode(subkey_steps(self@)),
        ensures
            plan_follows(r, subkey_steps(self@)),
    {
        cut_at_nul(self.generate_calls())
    }

    /// Whether generation would stop on a protection mode holding a NUL,
    /// which cannot be passed to librnp at all.
    pub fn mode_unpassable(&self) -> (r: bool)
        ensures
            r == stops_at_mode(subkey_steps(self@)),
    {
        first_nul_is_mode(&self.generate_calls())
    }
}

// ---------------------------------------------------------------------------
// Primary key builder
// ---------------------------------------------------------------------------

/// The settings recorded by a [`KeyBuilder`].
pub struct KeyBuilderModel {
    pub alg: Algorithm,
    pub bits: Option<u32>,
    pub hash: Option<crate::algorithm::Hash>,
    pub dsa_qbits: Option<u32>,
    pub curve: Option<Curve>,
    pub userid: Option<Seq<char>>,
    pub expiration: Option<u32>,
    pub usages: Seq<KeyUsage>,
    pub pref_hashes: Seq<crate::algorithm::Hash>,
    pub pref_ciphers: Seq<Cipher>,
    pub pref_compressions: Seq<Compression>,
    pub pref_keyserver: Option<Seq<char>>,
    pub protection: Option<ProtectModel>,
    pub request_password: bool,
    pub subkeys: Seq<SubkeyModel>,
    pub v6: bool,
}

/// The generation calls for a primary key: bits, hash, DSA q-bits, curve,
/// user id and expiration if set, then usages, preferred hashes, ciphers
/// and compressions in order, the preferred keyserver, the protection
/// settings, the password request and the v6 switch.
pub open spec fn key_steps(m: KeyBuilderModel) -> Seq<GenerateStep> {
    bits_step(m.bits) + hash_step(m.hash) + dsa_qbits_step(m.dsa_qbits) + curve_step(m.curve)
        + userid_step(m.userid) + expiration_step(m.expiration) + usage_steps(m.usages)
        + pref_hash_steps(m.pref_hashes) + pref_cipher_steps(m.pref_ciphers)
        + pref_compression_steps(m.pref_compressions) + keyserver_step(m.pref_keyserver)
        + protection_steps(m.protection) + flag_step(m.request_password, GenerateStep::SetRequestPassword)
        + flag_step(m.v6, GenerateStep::SetV6Key)
}

/// Builder for primary keys over `rnp_op_generate_*`. Every setter is
/// deferred to build time.
pub struct KeyBuilder {
    pub alg: Algorithm,
    pub bits: Option<u32>,
    pub hash: Option<crate::algorithm::Hash>,
    pub dsa_qbits: Option<u32>,
    pub curve: Option<Curve>,
    pub userid: Option<String>,
    pub expiration: Option<u32>,
    pub usages: Vec<KeyUsage>,
    pub pref_hashes: Vec<crate::algorithm::Hash>,
    pub pref_ciphers: Vec<Cipher>,
    pub pref_compressions: Vec<Compression>,
    pub pref_keyserver: Option<String>,
    pub protection: Option<ProtectConfig>,
    pub request_password: bool,
    pub subkeys: Vec<SubkeyBuilder>,
    pub v6: bool,
}

/// The models of a sequence of subkey builders.
pub open spec fn subkey_models(s: Seq<SubkeyBuilder>) -> Seq<SubkeyModel> {
    s.map_values(|b: SubkeyBuilder| b@)
}

impl View for KeyBuilder {
    type V = KeyBuilderModel;

    open spec fn view(&self) -> KeyBuilderModel {
        KeyBuilderModel {
            alg: self.alg,
            bits: self.bits,
            hash: self.hash,
            dsa_qbits: self.dsa_qbits,
            curve: self.curve,
            userid: opt_view(self.userid),
            expiration: self.expiration,
            usages: self.usages@,
            pref_hashes: self.pref_hashes@,
            pref_ciphers: self.pref_ciphers@,
            pref_compressions: self.pref_compressions@,
            pref_keyserver: opt_view(self.pref_keyserver),
            protection: protection_model(self.protection),
            request_password: self.request_password,
            subkeys: subkey_models(self.subkeys@),
            v6: self.v6,
        }
    }
}

/// A fresh primary-key model for `alg`.
pub open spec fn fresh_key(alg: Algorithm) -> KeyBuilderModel {
    KeyBuilderModel {
        alg,
        bits: None,
        hash: None,
        dsa_qbits: None,
        curve: None,
        userid: None,
        expiration: None,
        usages: Seq::empty(),
        pref_hashes: Seq::empty(),
        pref_ciphers: Seq::empty(),
        pref_compressions: Seq::empty(),
        pref_keyserver: None,
        protection: None,
        request_password: false,
        subkeys: Seq::empty(),
        v6: false,
    }
}

impl KeyBuilder {
    pub fn new(alg: Algorithm) -> (r: KeyBuilder)
        ensures
            r@ == fresh_key(alg),
    {
        let r = KeyBuilder {
            alg,
            bits: None,
            hash: None,
            dsa_qbits: None,
            curve: None,
            userid: None,
            expiration: None,
            usages: Vec::new(),
            pref_hashes: Vec::new(),
            pref_ciphers: Vec::new(),
            pref_compressions: Vec::new(),
            pref_keyserver: None,
            protection: None,
            request_password: false,
            subkeys: Vec::new(),
            v6: false,
        };
        assert(subkey_models(r.subkeys@) =~= Seq::<SubkeyModel>::empty());
        r
    }

    pub fn bits(self, n: u32) -> (r: KeyBuilder)
        ensures
            r@ == (KeyBuilderModel { bits: Some(n), ..self@ }),
    {
        KeyBuilder { bits: Some(n), ..self }
    }

    pub fn hash(self, h: crate::algorithm::Hash) -> (r: KeyBuilder)
        ensures
            r@ == (KeyBuilderModel { hash: Some(h), ..self@ }),
    {
        KeyBuilder { hash: Some(h), ..self }
    }

    pub fn dsa_qbits(self, n: u32) -> (r: KeyBuilder)
        ensures
            r@ == (KeyBuilderModel { dsa_qbits: Some(n), ..self@ }),
    {
        KeyBuilder { dsa_qbits: Some(n), ..self }
    }

    pub fn curve(self, c: Curve) -> (r: KeyBuilder)
        ensures
            r@ == (KeyBuilderModel { curve: Some(c), ..self@ }),
    {
        KeyBuilder { curve: Some(c), ..self }
    }

    pub fn userid(self, uid: &str) -> (r: KeyBuilder)
        ensures
            r@ == (KeyBuilderModel { userid: Some(uid@), ..self@ }),
    {
        KeyBuilder { userid: Some(owned(uid)), ..self }
    }

    pub fn expiration(self, seconds: u32) -> (r: KeyBuilder)
        ensures
            r@ == (KeyBuilderModel { expiration: Some(seconds), ..self@ }),
    {
        KeyBuilder { expiration: Some(seconds), ..self }
    }

    pub fn add_usage(self, u: KeyUsage) -> (r: KeyBuilder)
        ensures
            r@ == (KeyBuilderModel { usages: self@.usages.push(u), ..self@ }),
    {
        let mut b = self;
        b.usages.push(u);
        b
    }

    pub fn add_pref_hash(self, h: crate::algorithm::Hash) -> (r: KeyBuilder)
        ensures
            r@ == (KeyBuilderModel { pref_hashes: self@.pref_hashes.push(h), ..self@ }),
    {
        let mut b = self;
        b.pref_hashes.push(h);
        b
    }

    pub fn add_pref_cipher(self, c: Cipher) -> (r: KeyBuilder)
        ensures
            r@ == (KeyBuilderModel { pref_ciphers: self@.pref_ciphers.push(c), ..self@ }),
    {
        let mut b = self;
        b.pref_ciphers.push(c);
        b
    }

    pub fn add_pref_compression(self, c: Compression) -> (r: KeyBuilder)
        ensures
            r@ == (KeyBuilderModel { pref_compressions: self@.pref_compressions.push(c), ..self@ }),
    {
        let mut b = self;
        b.pref_compressions.push(c);
        b
    }

    /// Clear all key usages: the equivalent of
    /// `rnp_op_generate_clear_usage`, since every setter is deferred.
    pub fn clear_usage(self) -> (r: KeyBuilder)
        ensures
            r@ == (KeyBuilderModel { usages: Seq::empty(), ..self@ }),
    {
        let mut b = self;
        b.usages.clear();
        b
    }

    /// Clear all preferred hashes (`rnp_op_generate_clear_pref_hash`).
    pub fn clear_pref_hash(self) -> (r: KeyBuilder)
        ensures
            r@ == (KeyBuilderModel { pref_hashes: Seq::empty(), ..self@ }),
    {
        let mut b = self;
        b.pref_hashes.clear();
        b
    }

    /// Clear all preferred ciphers (`rnp_op_generate_clear_pref_cipher`).
    pub fn clear_pref_cipher(self) -> (r: KeyBuilder)
        ensures
            r@ == (KeyBuilderModel { pref_ciphers: Seq::empty(), ..self@ }),
    {
        let mut b = self;
        b.pref_ciphers.clear();
        b
    }

    /// Clear all preferred compressions
    /// (`rnp_op_generate_clear_pref_compression`).
    pub fn clear_pref_compression(self) -> (r: KeyBuilder)
        ensures
            r@ == (KeyBuilderModel { pref_compressions: Seq::empty(), ..self@ }),
    {
        let mut b = self;
        b.pref_compressions.clear();
        b
    }

    pub fn pref_keyserver(self, s: &str) -> (r: KeyBuilder)
        ensures
            r@ == (KeyBuilderModel { pref_keyserver: Some(s@), ..self@ }),
    {
        KeyBuilder { pref_keyserver: Some(owned(s)), ..self }
    }

    /// Protect the secret material at generation time, with the same
    /// settings type as key protection.
    pub fn protection(self, opts: &ProtectOptions) -> (r: KeyBuilder)
        ensures
            r@ == (KeyBuilderModel { protection: Some(opts@), ..self@ }),
    {
        KeyBuilder { protection: Some(ProtectConfig::from_options(opts)), ..self }
    }

    /// Have librnp ask the password provider for the protection password
    /// at execution time.
    pub fn request_password(self) -> (r: KeyBuilder)
        ensures
            r@ == (KeyBuilderModel { request_password: true, ..self@ }),
    {
        KeyBuilder { request_password: true, ..self }
    }

    /// Generate a v6 (RFC 9580) primary key instead of v4.
    pub fn v6(self) -> (r: KeyBuilder)
        ensures
            r@ == (KeyBuilderModel { v6: true, ..self@ }),
    {
        KeyBuilder { v6: true, ..self }
    }

    /// Add a subkey to be generated, with a binding signature, after the
    /// primary key.
    pub fn add_subkey(self, sub: SubkeyBuilder) -> (r: KeyBuilder)
        ensures
            r@ == (KeyBuilderModel { subkeys: self@.subkeys.push(sub@), ..self@ }),
    {
        let mut b = self;
        let ghost before = b.subkeys@;
        b.subkeys.push(sub);
        assert(subkey_models(b.subkeys@) =~= subkey_models(before).push(sub@));
        b
    }

    /// Add a PQC encryption subkey (e.g. ML-KEM-768+X25519).
    pub fn add_pqc_encryption_subkey(self, alg: PqcAlgorithm) -> (r: KeyBuilder)
        ensures
            r@ == (KeyBuilderModel {
                subkeys: self@.subkeys.push(
                    SubkeyModel {
                        usages: seq![KeyUsage::EncryptComms],
                        ..fresh_subkey(pqc_algorithm_name(alg))
                    },
                ),
                ..self@
            }),
    {
        let sub = SubkeyBuilder::new_str(alg.as_str()).add_usage(KeyUsage::EncryptComms);
        assert(sub@.usages =~= seq![KeyUsage::EncryptComms]);
        self.add_subkey(sub)
    }

    /// Add a PQC signing subkey (e.g. ML-DSA-65+ED25519).
    pub fn add_pqc_signing_subkey(self, alg: PqcAlgorithm) -> (r: KeyBuilder)
        ensures
            r@ == (KeyBuilderModel {
                subkeys: self@.subkeys.push(
                    SubkeyModel { usages: seq![KeyUsage::Sign], ..fresh_subkey(pqc_algorithm_name(alg)) },
                ),
                ..self@
            }),
    {
        let sub = SubkeyBuilder::new_str(alg.as_str()).add_usage(KeyUsage::Sign);
        assert(sub@.usages =~= seq![KeyUsage::Sign]);
        self.add_subkey(sub)
    }

    /// The primary key's algorithm.
    pub fn alg(&self) -> (r: Algorithm)
        ensures
            r == self@.alg,
    {
        self.alg
    }

    /// The subkeys to generate after the primary, in order.
    pub fn into_subkeys(self) -> (r: Vec<SubkeyBuilder>)
        ensures
            subkey_models(r@) == self@.subkeys,
    {
        self.subkeys
    }

    /// Every generation call for the primary key, NUL or not.
    pub fn generate_calls(&self) -> (r: Vec<GenerateCall>)
        ensures
            steps_of(r@) == key_steps(self@),
    {
        let mut calls: Vec<GenerateCall> = Vec::new();
        assert(steps_of(calls@) =~= Seq::<GenerateStep>::empty());
        push_maybe(&mut calls, bits_call(self.bits));
        assert(Seq::<GenerateStep>::empty() + bits_step(self.bits) =~= bits_step(self.bits));
        push_maybe(&mut calls, hash_call(self.hash));
        push_maybe(&mut calls, dsa_qbits_call(self.dsa_qbits));
        push_maybe(&mut calls, curve_call(self.curve));
        push_maybe(&mut calls, userid_call(&self.userid));
        push_maybe(&mut calls, expiration_call(self.expiration));
        push_usages(&mut calls, &self.usages);
        push_pref_hashes(&mut calls, &self.pref_hashes);
        push_pref_ciphers(&mut calls, &self.pref_ciphers);
        push_pref_compressions(&mut calls, &self.pref_compressions);
        push_maybe(&mut calls, keyserver_call(&self.pref_keyserver));
        push_protection(&mut calls, &self.protection);
        push_maybe(&mut calls, flag_call(self.request_password, GenerateCall::SetRequestPassword));
        push_maybe(&mut calls, flag_call(self.v6, GenerateCall::SetV6Key));
        calls
    }

    /// The generation plan for the primary key.
    pub fn plan(&self) -> (r: GeneratePlan)
        requires
            !stops_at_mode(key_steps(self@)),
        ensures
            plan_follows(r, key_steps(self@)),
    {
        cut_at_nul(self.generate_calls())
    }

    /// Whether generation would stop on a protection mode holding a NUL,
    /// which cannot be passed to librnp at all.
    pub fn mode_unpassable(&self) -> (r: bool)
        ensures
            r == stops_at_mode(key_steps(self@)),
    {
        first_nul_is_mode(&self.generate_calls())
    }
}

} // verus!

verus! {

// ---------------------------------------------------------------------------
// What a plan adds
// ---------------------------------------------------------------------------

/// The values carried by the steps that `pick` selects, in step order.
pub open spec fn picked<T>(steps: Seq<GenerateStep>, pick: spec_fn(GenerateStep) -> Option<T>) -> Seq<T>
    decreases steps.len(),
{
    if steps.len() == 0 {
        Seq::empty()
    } else {
        let rest = picked(steps.drop_last(), pick);
        match pick(steps.last()) {
            Some(x) => rest.push(x),
            None => rest,
        }
    }
}

/// Selects the usage that an `AddUsage` step adds.
pub open spec fn usage_pick() -> spec_fn(GenerateStep) -> Option<KeyUsage> {
    |s: GenerateStep|
        match s {
            GenerateStep::AddUsage(u) => Some(u),
            _ => None,
        }
}

/// Selects the hash that an `AddPrefHash` step adds.
pub open spec fn pref_hash_pick() -> spec_fn(GenerateStep) -> Option<crate::algorithm::Hash> {
    |s: GenerateStep|
        match s {
            GenerateStep::AddPrefHash(h) => Some(h),
            _ => None,
        }
}

/// Selects the cipher that an `AddPrefCipher` step adds.
pub open spec fn pref_cipher_pick() -> spec_fn(GenerateStep) -> Option<Cipher> {
    |s: GenerateStep|
        match s {
            GenerateStep::AddPrefCipher(c) => Some(c),
            _ => None,
        }
}

/// Selects the compression that an `AddPrefCompression` step adds.
pub open spec fn pref_compression_pick() -> spec_fn(GenerateStep) -> Option<Compression> {
    |s: GenerateStep|
        match s {
            GenerateStep::AddPrefCompression(c) => Some(c),
            _ => None,
        }
}

proof fn lemma_picked_append<T>(
    a: Seq<GenerateStep>,
    b: Seq<GenerateStep>,
    pick: spec_fn(GenerateStep) -> Option<T>,
)
    ensures
        picked(a + b, pick) == picked(a, pick) + picked(b, pick),
    decreases b.len(),
{
    if b.len() == 0 {
        assert(a + b =~= a);
        assert(picked(a, pick) + picked(b, pick) =~= picked(a, pick));
    } else {
        lemma_picked_append(a, b.drop_last(), pick);
        assert((a + b).drop_last() =~= a + b.drop_last());
        assert((a + b).last() == b.last());
        match pick(b.last()) {
            Some(x) => {
                assert(picked(a, pick) + picked(b.drop_last(), pick).push(x) =~= (picked(a, pick)
                    + picked(b.drop_last(), pick)).push(x));
            },
            None => {},
        }
    }
}

proof fn lemma_picked_none<T>(s: Seq<GenerateStep>, pick: spec_fn(GenerateStep) -> Option<T>)
    requires
        forall|i: int| 0 <= i < s.len() ==> pick(#[trigger] s[i]) is None,
    ensures
        picked(s, pick) == Seq::<T>::empty(),
    decreases s.len(),
{
    if s.len() > 0 {
        assert(pick(s[s.len() - 1]) is None);
        lemma_picked_none(s.drop_last(), pick);
    }
}

proof fn lemma_usage_steps_picked(us: Seq<KeyUsage>)
    ensures
        picked(usage_steps(us), usage_pick()) == us,
        picked(usage_steps(us), pref_hash_pick()) == Seq::<crate::algorithm::Hash>::empty(),
        picked(usage_steps(us), pref_cipher_pick()) == Seq::<Cipher>::empty(),
        picked(usage_steps(us), pref_compression_pick()) == Seq::<Compression>::empty(),
    decreases us.len(),
{
    if us.len() > 0 {
        lemma_usage_steps_picked(us.drop_last());
        assert(usage_steps(us).drop_last() =~= usage_steps(us.drop_last()));
        assert(us.drop_last().push(us.last()) =~= us);
    }
}

proof fn lemma_pref_hash_steps_picked(hs: Seq<crate::algorithm::Hash>)
    ensures
        picked(pref_hash_steps(hs), pref_hash_pick()) == hs,
        picked(pref_hash_steps(hs), usage_pick()) == Seq::<KeyUsage>::empty(),
        picked(pref_hash_steps(hs), pref_cipher_pick()) == Seq::<Cipher>::empty(),
        picked(pref_hash_steps(hs), pref_compression_pick()) == Seq::<Compression>::empty(),
    decreases hs.len(),
{
    if hs.len() > 0 {
        lemma_pref_hash_steps_picked(hs.drop_last());
        assert(pref_hash_steps(hs).drop_last() =~= pref_hash_steps(hs.drop_last()));
        assert(hs.drop_last().push(hs.last()) =~= hs);
    }
}

proof fn lemma_pref_cipher_steps_picked(cs: Seq<Cipher>)
    ensures
        picked(pref_cipher_steps(cs), pref_cipher_pick()) == cs,
        picked(pref_cipher_steps(cs), usage_pick()) == Seq::<KeyUsage>::empty(),
        picked(pref_cipher_steps(cs), pref_hash_pick()) == Seq::<crate::algorithm::Hash>::empty(),
        picked(pref_cipher_steps(cs), pref_compression_pick()) == Seq::<Compression>::empty(),
    decreases cs.len(),
{
    if cs.len() > 0 {
        lemma_pref_cipher_steps_picked(cs.drop_last());
        assert(pref_cipher_steps(cs).drop_last() =~= pref_cipher_steps(cs.drop_last()));
        assert(cs.drop_last().push(cs.last()) =~= cs);
    }
}

proof fn lemma_pref_compression_steps_picked(cs: Seq<Compression>)
    ensures
        picked(pref_compression_steps(cs), pref_compression_pick()) == cs,
        picked(pref_compression_steps(cs), usage_pick()) == Seq::<KeyUsage>::empty(),
        picked(pref_compression_steps(cs), pref_hash_pick()) == Seq::<crate::algorithm::Hash>::empty(),
        picked(pref_compression_steps(cs), pref_cipher_pick()) == Seq::<Cipher>::empty(),
    decreases cs.len(),
{
    if cs.len() > 0 {
        lemma_pref_compression_steps_picked(cs.drop_last());
        assert(pref_compression_steps(cs).drop_last() =~= pref_compression_steps(cs.drop_last()));
        assert(cs.drop_last().push(cs.last()) =~= cs);
    }
}

/// Whether a step adds a usage or a preference.
pub open spec fn adds_list_item(s: GenerateStep) -> bool {
    s is AddUsage || s is AddPrefHash || s is AddPrefCipher || s is AddPrefCompression
}

proof fn lemma_no_list_items<T>(s: Seq<GenerateStep>, pick: spec_fn(GenerateStep) -> Option<T>)
    requires
        forall|i: int| 0 <= i < s.len() ==> !adds_list_item(#[trigger] s[i]),
        forall|x: GenerateStep| !adds_list_item(x) ==> (#[trigger] pick(x)) is None,
    ensures
        picked(s, pick) == Seq::<T>::empty(),
{
    assert forall|i: int| 0 <= i < s.len() implies pick(#[trigger] s[i]) is None by {
        assert(!adds_list_item(s[i]));
    }
    lemma_picked_none(s, pick);
}

proof fn lemma_protection_steps_plain(p: Option<ProtectModel>)
    ensures
        forall|i: int|
            0 <= i < protection_steps(p).len() ==> !adds_list_item(#[trigger] protection_steps(p)[i]),
{
    match p {
        None => {},
        Some(c) => {
            let a = password_step(c.password);
            let b = protection_cipher_step(c.cipher);
            let h = protection_hash_step(c.hash);
            let m = mode_step(c.mode);
            let n = iterations_step(c.iterations);
            assert forall|i: int| 0 <= i < (a + b + h + m + n).len() implies !adds_list_item(
                #[trigger] (a + b + h + m + n)[i],
            ) by {
                if i < a.len() {
                    assert((a + b + h + m + n)[i] == a[i]);
                } else if i < a.len() + b.len() {
                    assert((a + b + h + m + n)[i] == b[i - a.len()]);
                } else if i < a.len() + b.len() + h.len() {
                    assert((a + b + h + m + n)[i] == h[i - a.len() - b.len()]);
                } else if i < a.len() + b.len() + h.len() + m.len() {
                    assert((a + b + h + m + n)[i] == m[i - a.len() - b.len() - h.len()]);
                } else {
                    assert((a + b + h + m + n)[i] == n[i - a.len() - b.len() - h.len() - m.len()]);
                }
            }
        },
    }
}

/// What `pick` selects from a primary key's plan, segment by segment: only
/// the list segments can contribute.
proof fn lemma_key_steps_picked<T>(m: KeyBuilderModel, pick: spec_fn(GenerateStep) -> Option<T>)
    requires
        forall|x: GenerateStep| !adds_list_item(x) ==> (#[trigger] pick(x)) is None,
    ensures
        picked(key_steps(m), pick) == picked(usage_steps(m.usages), pick) + picked(
            pref_hash_steps(m.pref_hashes),
            pick,
        ) + picked(pref_cipher_steps(m.pref_ciphers), pick) + picked(
            pref_compression_steps(m.pref_compressions),
            pick,
        ),
{
    let s1 = bits_step(m.bits);
    let s2 = hash_step(m.hash);
    let s3 = dsa_qbits_step(m.dsa_qbits);
    let s4 = curve_step(m.curve);
    let s5 = userid_step(m.userid);
    let s6 = expiration_step(m.expiration);
    let s7 = usage_steps(m.usages);
    let s8 = pref_hash_steps(m.pref_hashes);
    let s9 = pref_cipher_steps(m.pref_ciphers);
    let s10 = pref_compression_steps(m.pref_compressions);
    let s11 = keyserver_step(m.pref_keyserver);
    let s12 = protection_steps(m.protection);
    let s13 = flag_step(m.request_password, GenerateStep::SetRequestPassword);
    let s14 = flag_step(m.v6, GenerateStep::SetV6Key);
    let head = s1 + s2 + s3 + s4 + s5 + s6;
    lemma_no_list_items(s1, pick);
    lemma_no_list_items(s2, pick);
    lemma_no_list_items(s3, pick);
    lemma_no_list_items(s4, pick);
    lemma_no_list_items(s5, pick);
    lemma_no_list_items(s6, pick);
    lemma_no_list_items(s11, pick);
    lemma_protection_steps_plain(m.protection);
    lemma_no_list_items(s12, pick);
    lemma_no_list_items(s13, pick);
    lemma_no_list_items(s14, pick);
    lemma_picked_append(s1, s2, pick);
    lemma_picked_append(s1 + s2, s3, pick);
    lemma_picked_append(s1 + s2 + s3, s4, pick);
    lemma_picked_append(s1 + s2 + s3 + s4, s5, pick);
    lemma_picked_append(s1 + s2 + s3 + s4 + s5, s6, pick);
    assert(picked(head, pick) =~= Seq::<T>::empty());
    lemma_picked_append(head, s7, pick);
    lemma_picked_append(head + s7, s8, pick);
    lemma_picked_append(head + s7 + s8, s9, pick);
    lemma_picked_append(head + s7 + s8 + s9, s10, pick);
    lemma_picked_append(head + s7 + s8 + s9 + s10, s11, pick);
    lemma_picked_append(head + s7 + s8 + s9 + s10 + s11, s12, pick);
    lemma_picked_append(head + s7 + s8 + s9 + s10 + s11 + s12, s13, pick);
    lemma_picked_append(head + s7 + s8 + s9 + s10 + s11 + s12 + s13, s14, pick);
    assert(key_steps(m) == head + s7 + s8 + s9 + s10 + s11 + s12 + s13 + s14);
    let mid = picked(s7, pick) + picked(s8, pick) + picked(s9, pick) + picked(s10, pick);
    assert(picked(key_steps(m), pick) =~= mid);
}

/// A primary key's generation plan adds exactly the builder's usages,
/// preferred hashes, preferred ciphers and preferred compressions, each
/// list in the order it was built. So clearing a list on the builder (as
/// `clear_usage` and the `clear_pref_*` setters do) is the same as
/// librnp's own clear on the generation op: nothing added before the clear
/// reaches librnp.
pub proof fn law_key_plan_adds_builder_lists(m: KeyBuilderModel)
    ensures
        picked(key_steps(m), usage_pick()) == m.usages,
        picked(key_steps(m), pref_hash_pick()) == m.pref_hashes,
        picked(key_steps(m), pref_cipher_pick()) == m.pref_ciphers,
        picked(key_steps(m), pref_compression_pick()) == m.pref_compressions,
{
    lemma_usage_steps_picked(m.usages);
    lemma_pref_hash_steps_picked(m.pref_hashes);
    lemma_pref_cipher_steps_picked(m.pref_ciphers);
    lemma_pref_compression_steps_picked(m.pref_compressions);
    lemma_key_steps_picked(m, usage_pick());
    lemma_key_steps_picked(m, pref_hash_pick());
    lemma_key_steps_picked(m, pref_cipher_pick());
    lemma_key_steps_picked(m, pref_compression_pick());
    assert(m.usages + Seq::<KeyUsage>::empty() + Seq::<KeyUsage>::empty() + Seq::<KeyUsage>::empty()
        =~= m.usages);
    assert(Seq::<crate::algorithm::Hash>::empty() + m.pref_hashes
        + Seq::<crate::algorithm::Hash>::empty() + Seq::<crate::algorithm::Hash>::empty()
        =~= m.pref_hashes);
    assert(Seq::<Cipher>::empty() + Seq::<Cipher>::empty() + m.pref_ciphers + Seq::<Cipher>::empty()
        =~= m.pref_ciphers);
    assert(Seq::<Compression>::empty() + Seq::<Compression>::empty() + Seq::<Compression>::empty()
        + m.pref_compressions =~= m.pref_compressions);
}

/// A subkey's generation plan adds exactly the builder's usages, in the
/// order they were added.
pub proof fn law_subkey_plan_adds_usages(m: SubkeyModel)
    ensures
        picked(subkey_steps(m), usage_pick()) == m.usages,
{
    let pick = usage_pick();
    let s1 = bits_step(m.bits);
    let s2 = hash_step(m.hash);
    let s3 = dsa_qbits_step(m.dsa_qbits);
    let s4 = curve_step(m.curve);
    let s5 = expiration_step(m.expiration);
    let s6 = usage_steps(m.usages);
    let s7 = protection_steps(m.protection);
    let s8 = flag_step(m.request_password, GenerateStep::SetRequestPassword);
    lemma_no_list_items(s1, pick);
    lemma_no_list_items(s2, pick);
    lemma_no_list_items(s3, pick);
    lemma_no_list_items(s4, pick);
    lemma_no_list_items(s5, pick);
    lemma_protection_steps_plain(m.protection);
    lemma_no_list_items(s7, pick);
    lemma_no_list_items(s8, pick);
    lemma_usage_steps_picked(m.usages);
    lemma_picked_append(s1, s2, pick);
    lemma_picked_append(s1 + s2, s3, pick);
    lemma_picked_append(s1 + s2 + s3, s4, pick);
    lemma_picked_append(s1 + s2 + s3 + s4, s5, pick);
    lemma_picked_append(s1 + s2 + s3 + s4 + s5, s6, pick);
    lemma_picked_append(s1 + s2 + s3 + s4 + s5 + s6, s7, pick);
    lemma_picked_append(s1 + s2 + s3 + s4 + s5 + s6 + s7, s8, pick);
    assert(subkey_steps(m) == s1 + s2 + s3 + s4 + s5 + s6 + s7 + s8);
    assert(picked(subkey_steps(m), pick) =~= m.usages);
}

} // verus!

verus! {

// ---------------------------------------------------------------------------
// One-call generation
// ---------------------------------------------------------------------------

/// What `rnp_generate_key_ex` is handed: algorithm and curve names (`None`
/// is a null pointer), key sizes and the user ID, each string checked to
/// hold no NUL.
pub struct GenerateExArgs {
    pub key_alg: Option<String>,
    pub key_bits: u32,
    pub key_curve: Option<String>,
    pub sub_alg: Option<String>,
    pub sub_bits: u32,
    pub sub_curve: Option<String>,
    pub userid: String,
}

/// Whether an optional name holds a NUL.
pub open spec fn opt_has_nul(s: Option<&str>) -> bool {
    s matches Some(v) && has_nul(v@)
}

/// The view of an optional borrowed name.
pub open spec fn opt_str_view(s: Option<&str>) -> Option<Seq<char>> {
    match s {
        Some(v) => Some(v@),
        None => None,
    }
}

/// The arguments of the generic one-call generator: [`Error::NulByte`] if
/// any name or the user ID holds a NUL, otherwise the names and sizes as
/// given.
pub fn generate_key_ex_args(
    key_alg: Option<&str>,
    key_bits: u32,
    key_curve: Option<&str>,
    sub_alg: Option<&str>,
    sub_bits: u32,
    sub_curve: Option<&str>,
    userid: &str,
) -> (r: Result<GenerateExArgs, Error>)
    ensures
        (opt_has_nul(key_alg) || opt_has_nul(key_curve) || opt_has_nul(sub_alg) || opt_has_nul(
            sub_curve,
        ) || has_nul(userid@)) <==> r is Err,
        r matches Err(e) ==> e is NulByte,
        r matches Ok(a) ==> {
            &&& opt_view(a.key_alg) == opt_str_view(key_alg)
            &&& a.key_bits == key_bits
            &&& opt_view(a.key_curve) == opt_str_view(key_curve)
            &&& opt_view(a.sub_alg) == opt_str_view(sub_alg)
            &&& a.sub_bits == sub_bits
            &&& opt_view(a.sub_curve) == opt_str_view(sub_curve)
            &&& a.userid@ == userid@
        },
{
    let key_alg = crate::ffi_safe::optional_c_string(key_alg)?;
    let key_curve = crate::ffi_safe::optional_c_string(key_curve)?;
    let sub_alg = crate::ffi_safe::optional_c_string(sub_alg)?;
    let sub_curve = crate::ffi_safe::optional_c_string(sub_curve)?;
    let userid = crate::ffi_safe::c_string(userid)?;
    Ok(GenerateExArgs { key_alg, key_bits, key_curve, sub_alg, sub_bits, sub_curve, userid })
}

} // verus!

verus! {

// ---------------------------------------------------------------------------
// Protection iteration counts
// ---------------------------------------------------------------------------

/// A count that fits in `u32` is passed as it is; only a larger one is
/// clamped, to `u32::MAX`.
pub proof fn law_iterations_saturate(n: usize)
    ensures
        n <= u32::MAX ==> saturate_u32(n) as int == n as int,
        n > u32::MAX ==> saturate_u32(n) == u32::MAX,
        saturate_u32(n) as int <= n as int,
{
}

proof fn lemma_seq_contains_in_middle<A>(a: Seq<A>, b: Seq<A>, c: Seq<A>, x: A)
    requires
        b.contains(x),
    ensures
        (a + b + c).contains(x),
{
    let j = choose|j: int| 0 <= j < b.len() && b[j] == x;
    assert((a + b + c)[a.len() + j] == x);
}

proof fn lemma_protection_carries_iterations(c: ProtectModel, n: usize)
    requires
        c.iterations == Some(n),
    ensures
        protection_steps(Some(c)).contains(GenerateStep::SetProtectionIterations(saturate_u32(n))),
{
    let head = password_step(c.password) + protection_cipher_step(c.cipher)
        + protection_hash_step(c.hash) + mode_step(c.mode);
    let last = iterations_step(c.iterations);
    assert(last[0] == GenerateStep::SetProtectionIterations(saturate_u32(n)));
    lemma_seq_contains_in_middle(head, last, Seq::<GenerateStep>::empty(), last[0]);
    assert(head + last + Seq::<GenerateStep>::empty() =~= protection_steps(Some(c)));
}

/// A protection iteration count set on a builder reaches librnp: the
/// generation plan of a primary key or subkey protected with `n`
/// iterations sets exactly `n` where `n` fits in `u32`.
pub proof fn law_plan_passes_iteration_count(m: KeyBuilderModel, s: SubkeyModel, n: usize)
    requires
        n <= u32::MAX,
    ensures
        (m.protection matches Some(c) && c.iterations == Some(n)) ==> key_steps(m).contains(
            GenerateStep::SetProtectionIterations(n as u32),
        ),
        (s.protection matches Some(c) && c.iterations == Some(n)) ==> subkey_steps(s).contains(
            GenerateStep::SetProtectionIterations(n as u32),
        ),
{
    if m.protection matches Some(c) && c.iterations == Some(n) {
        let c = m.protection->0;
        lemma_protection_carries_iterations(c, n);
        let a = bits_step(m.bits) + hash_step(m.hash) + dsa_qbits_step(m.dsa_qbits) + curve_step(m.curve)
            + userid_step(m.userid) + expiration_step(m.expiration) + usage_steps(m.usages)
            + pref_hash_steps(m.pref_hashes) + pref_cipher_steps(m.pref_ciphers)
            + pref_compression_steps(m.pref_compressions) + keyserver_step(m.pref_keyserver);
        let b = protection_steps(m.protection);
        let z = flag_step(m.request_password, GenerateStep::SetRequestPassword) + flag_step(
            m.v6,
            GenerateStep::SetV6Key,
        );
        lemma_seq_contains_in_middle(a, b, z, GenerateStep::SetProtectionIterations(n as u32));
        assert(key_steps(m) =~= a + b + z);
    }
    if s.protection matches Some(c) && c.iterations == Some(n) {
        let c = s.protection->0;
        lemma_protection_carries_iterations(c, n);
        let a = bits_step(s.bits) + hash_step(s.hash) + dsa_qbits_step(s.dsa_qbits) + curve_step(s.curve)
            + expiration_step(s.expiration) + usage_steps(s.usages);
        let b = protection_steps(s.protection);
        let z = flag_step(s.request_password, GenerateStep::SetRequestPassword);
        lemma_seq_contains_in_middle(a, b, z, GenerateStep::SetProtectionIterations(n as u32));
        assert(subkey_steps(s) =~= a + b + z);
    }
}

} // verus!
