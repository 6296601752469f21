//! Bit-flag types for key operations. Each wraps a set of `RNP_*` C-side
//! flag words with a typed newtype and `|` for combining.

use vstd::prelude::*;
use vstd::std_specs::ops::BitOrSpec;

verus! {

/// `RNP_LOAD_SAVE_PUBLIC_KEYS`.
pub const RNP_LOAD_SAVE_PUBLIC_KEYS: u32 = 1;
/// `RNP_LOAD_SAVE_SECRET_KEYS`.
pub const RNP_LOAD_SAVE_SECRET_KEYS: u32 = 2;
/// `RNP_LOAD_SAVE_PERMISSIVE`.
pub const RNP_LOAD_SAVE_PERMISSIVE: u32 = 256;
/// `RNP_LOAD_SAVE_SINGLE`.
pub const RNP_LOAD_SAVE_SINGLE: u32 = 512;
/// `RNP_LOAD_SAVE_BASE64`.
pub const RNP_LOAD_SAVE_BASE64: u32 = 1024;
/// `RNP_KEY_EXPORT_ARMORED`.
pub const RNP_KEY_EXPORT_ARMORED: u32 = 1;
/// `RNP_KEY_EXPORT_PUBLIC`.
pub const RNP_KEY_EXPORT_PUBLIC: u32 = 2;
/// `RNP_KEY_EXPORT_SECRET`.
pub const RNP_KEY_EXPORT_SECRET: u32 = 4;
/// `RNP_KEY_EXPORT_SUBKEYS`.
pub const RNP_KEY_EXPORT_SUBKEYS: u32 = 8;
/// `RNP_KEY_EXPORT_BASE64`.
pub const RNP_KEY_EXPORT_BASE64: u32 = 512;
/// `RNP_KEY_REMOVE_PUBLIC`.
pub const RNP_KEY_REMOVE_PUBLIC: u32 = 1;
/// `RNP_KEY_REMOVE_SECRET`.
pub const RNP_KEY_REMOVE_SECRET: u32 = 2;
/// `RNP_KEY_REMOVE_SUBKEYS`.
pub const RNP_KEY_REMOVE_SUBKEYS: u32 = 4;
/// `RNP_KEY_SIGNATURE_INVALID`.
pub const RNP_KEY_SIGNATURE_INVALID: u32 = 1;
/// `RNP_KEY_SIGNATURE_UNKNOWN_KEY`.
pub const RNP_KEY_SIGNATURE_UNKNOWN_KEY: u32 = 2;
/// `RNP_KEY_SIGNATURE_NON_SELF_SIG`.
pub const RNP_KEY_SIGNATURE_NON_SELF_SIG: u32 = 4;
/// `RNP_KEY_UNLOAD_PUBLIC`.
pub const RNP_KEY_UNLOAD_PUBLIC: u32 = 1;
/// `RNP_KEY_UNLOAD_SECRET`.
pub const RNP_KEY_UNLOAD_SECRET: u32 = 2;

/// Flags for loading and saving keyrings (`RNP_LOAD_SAVE_*`).
#[derive(Clone, Copy, Debug, PartialEq, Eq, Structural)]
pub struct LoadSaveFlags(pub u32);

impl LoadSaveFlags {
    /// Public keys (`RNP_LOAD_SAVE_PUBLIC_KEYS`).
    pub fn public() -> (r: LoadSaveFlags)
        ensures
            r.0 == RNP_LOAD_SAVE_PUBLIC_KEYS,
    {
        LoadSaveFlags(RNP_LOAD_SAVE_PUBLIC_KEYS)
    }

    /// Secret keys (`RNP_LOAD_SAVE_SECRET_KEYS`).
    pub fn secret() -> (r: LoadSaveFlags)
        ensures
            r.0 == RNP_LOAD_SAVE_SECRET_KEYS,
    {
        LoadSaveFlags(RNP_LOAD_SAVE_SECRET_KEYS)
    }

    /// Skip unparsable packets (`RNP_LOAD_SAVE_PERMISSIVE`).
    pub fn permissive() -> (r: LoadSaveFlags)
        ensures
            r.0 == RNP_LOAD_SAVE_PERMISSIVE,
    {
        LoadSaveFlags(RNP_LOAD_SAVE_PERMISSIVE)
    }

    /// Load a single key (`RNP_LOAD_SAVE_SINGLE`).
    pub fn single() -> (r: LoadSaveFlags)
        ensures
            r.0 == RNP_LOAD_SAVE_SINGLE,
    {
        LoadSaveFlags(RNP_LOAD_SAVE_SINGLE)
    }

    /// Base64-encoded input (`RNP_LOAD_SAVE_BASE64`).
    pub fn base64() -> (r: LoadSaveFlags)
        ensures
            r.0 == RNP_LOAD_SAVE_BASE64,
    {
        LoadSaveFlags(RNP_LOAD_SAVE_BASE64)
    }

    pub fn bits(self) -> (r: u32)
        ensures
            r == self.0,
    {
        self.0
    }
}

impl std::ops::BitOr for LoadSaveFlags {
    type Output = LoadSaveFlags;

    fn bitor(self, rhs: LoadSaveFlags) -> (r: LoadSaveFlags) {
        LoadSaveFlags(self.0 | rhs.0)
    }
}

impl vstd::std_specs::ops::BitOrSpecImpl for LoadSaveFlags {
    open spec fn obeys_bitor_spec() -> bool {
        true
    }

    open spec fn bitor_req(self, rhs: LoadSaveFlags) -> bool {
        true
    }

    open spec fn bitor_spec(self, rhs: LoadSaveFlags) -> LoadSaveFlags {
        LoadSaveFlags(self.0 | rhs.0)
    }
}

/// Combining `LoadSaveFlags` with `|` is commutative, associative and idempotent,
/// and the bits of a combination are the bitwise or of the parts.
pub proof fn law_load_save_flags_union(a: LoadSaveFlags, b: LoadSaveFlags, c: LoadSaveFlags)
    ensures
        a.bitor_spec(b) == b.bitor_spec(a),
        a.bitor_spec(b).bitor_spec(c) == a.bitor_spec(b.bitor_spec(c)),
        a.bitor_spec(a) == a,
        a.bitor_spec(b).0 == a.0 | b.0,
{
    crate::flags::lemma_or_laws(a.0, b.0, c.0);
}

/// Flags for exporting a key (`RNP_KEY_EXPORT_*`).
#[derive(Clone, Copy, Debug, PartialEq, Eq, Structural)]
pub struct ExportFlags(pub u32);

impl ExportFlags {
    /// ASCII armor (`RNP_KEY_EXPORT_ARMORED`).
    pub fn armored() -> (r: ExportFlags)
        ensures
            r.0 == RNP_KEY_EXPORT_ARMORED,
    {
        ExportFlags(RNP_KEY_EXPORT_ARMORED)
    }

    /// Public key material (`RNP_KEY_EXPORT_PUBLIC`).
    pub fn public() -> (r: ExportFlags)
        ensures
            r.0 == RNP_KEY_EXPORT_PUBLIC,
    {
        ExportFlags(RNP_KEY_EXPORT_PUBLIC)
    }

    /// Secret key material (`RNP_KEY_EXPORT_SECRET`).
    pub fn secret() -> (r: ExportFlags)
        ensures
            r.0 == RNP_KEY_EXPORT_SECRET,
    {
        ExportFlags(RNP_KEY_EXPORT_SECRET)
    }

    /// Include subkeys (`RNP_KEY_EXPORT_SUBKEYS`).
    pub fn subkeys() -> (r: ExportFlags)
        ensures
            r.0 == RNP_KEY_EXPORT_SUBKEYS,
    {
        ExportFlags(RNP_KEY_EXPORT_SUBKEYS)
    }

    /// Base64 output (`RNP_KEY_EXPORT_BASE64`).
    pub fn base64() -> (r: ExportFlags)
        ensures
            r.0 == RNP_KEY_EXPORT_BASE64,
    {
        ExportFlags(RNP_KEY_EXPORT_BASE64)
    }

    pub fn bits(self) -> (r: u32)
        ensures
            r == self.0,
    {
        self.0
    }
}

impl std::ops::BitOr for ExportFlags {
    type Output = ExportFlags;

    fn bitor(self, rhs: ExportFlags) -> (r: ExportFlags) {
        ExportFlags(self.0 | rhs.0)
    }
}

impl vstd::std_specs::ops::BitOrSpecImpl for ExportFlags {
    open spec fn obeys_bitor_spec() -> bool {
        true
    }

    open spec fn bitor_req(self, rhs: ExportFlags) -> bool {
        true
    }

    open spec fn bitor_spec(self, rhs: ExportFlags) -> ExportFlags {
        ExportFlags(self.0 | rhs.0)
    }
}

/// Combining `ExportFlags` with `|` is commutative, associative and idempotent,
/// and the bits of a combination are the bitwise or of the parts.
pub proof fn law_export_flags_union(a: ExportFlags, b: ExportFlags, c: ExportFlags)
    ensures
        a.bitor_spec(b) == b.bitor_spec(a),
        a.bitor_spec(b).bitor_spec(c) == a.bitor_spec(b.bitor_spec(c)),
        a.bitor_spec(a) == a,
        a.bitor_spec(b).0 == a.0 | b.0,
{
    crate::flags::lemma_or_laws(a.0, b.0, c.0);
}

/// Flags for removing a key (`RNP_KEY_REMOVE_*`).
#[derive(Clone, Copy, Debug, PartialEq, Eq, Structural)]
pub struct RemoveFlags(pub u32);

impl RemoveFlags {
    /// Remove the public key (`RNP_KEY_REMOVE_PUBLIC`).
    pub fn public() -> (r: RemoveFlags)
        ensures
            r.0 == RNP_KEY_REMOVE_PUBLIC,
    {
        RemoveFlags(RNP_KEY_REMOVE_PUBLIC)
    }

    /// Remove the secret key (`RNP_KEY_REMOVE_SECRET`).
    pub fn secret() -> (r: RemoveFlags)
        ensures
            r.0 == RNP_KEY_REMOVE_SECRET,
    {
        RemoveFlags(RNP_KEY_REMOVE_SECRET)
    }

    /// Remove subkeys too (`RNP_KEY_REMOVE_SUBKEYS`).
    pub fn subkeys() -> (r: RemoveFlags)
        ensures
            r.0 == RNP_KEY_REMOVE_SUBKEYS,
    {
        RemoveFlags(RNP_KEY_REMOVE_SUBKEYS)
    }

    pub fn bits(self) -> (r: u32)
        ensures
            r == self.0,
    {
        self.0
    }
}

impl std::ops::BitOr for RemoveFlags {
    type Output = RemoveFlags;

    fn bitor(self, rhs: RemoveFlags) -> (r: RemoveFlags) {
        RemoveFlags(self.0 | rhs.0)
    }
}

impl vstd::std_specs::ops::BitOrSpecImpl for RemoveFlags {
    open spec fn obeys_bitor_spec() -> bool {
        true
    }

    open spec fn bitor_req(self, rhs: RemoveFlags) -> bool {
        true
    }

    open spec fn bitor_spec(self, rhs: RemoveFlags) -> RemoveFlags {
        RemoveFlags(self.0 | rhs.0)
    }
}

/// Combining `RemoveFlags` with `|` is commutative, associative and idempotent,
/// and the bits of a combination are the bitwise or of the parts.
pub proof fn law_remove_flags_union(a: RemoveFlags, b: RemoveFlags, c: RemoveFlags)
    ensures
        a.bitor_spec(b) == b.bitor_spec(a),
        a.bitor_spec(b).bitor_spec(c) == a.bitor_spec(b.bitor_spec(c)),
        a.bitor_spec(a) == a,
        a.bitor_spec(b).0 == a.0 | b.0,
{
    crate::flags::lemma_or_laws(a.0, b.0, c.0);
}

/// Selectors for removing signatures (`RNP_KEY_SIGNATURE_*`).
#[derive(Clone, Copy, Debug, PartialEq, Eq, Structural)]
pub struct RemoveSignaturesFlags(pub u32);

impl RemoveSignaturesFlags {
    /// Invalid signatures (`RNP_KEY_SIGNATURE_INVALID`).
    pub fn invalid() -> (r: RemoveSignaturesFlags)
        ensures
            r.0 == RNP_KEY_SIGNATURE_INVALID,
    {
        RemoveSignaturesFlags(RNP_KEY_SIGNATURE_INVALID)
    }

    /// Signatures by unknown keys (`RNP_KEY_SIGNATURE_UNKNOWN_KEY`).
    pub fn unknown_key() -> (r: RemoveSignaturesFlags)
        ensures
            r.0 == RNP_KEY_SIGNATURE_UNKNOWN_KEY,
    {
        RemoveSignaturesFlags(RNP_KEY_SIGNATURE_UNKNOWN_KEY)
    }

    /// Signatures not made by the key itself (`RNP_KEY_SIGNATURE_NON_SELF_SIG`).
    pub fn non_self_sig() -> (r: RemoveSignaturesFlags)
        ensures
            r.0 == RNP_KEY_SIGNATURE_NON_SELF_SIG,
    {
        RemoveSignaturesFlags(RNP_KEY_SIGNATURE_NON_SELF_SIG)
    }

    pub fn bits(self) -> (r: u32)
        ensures
            r == self.0,
    {
        self.0
    }
}

impl std::ops::BitOr for RemoveSignaturesFlags {
    type Output = RemoveSignaturesFlags;

    fn bitor(self, rhs: RemoveSignaturesFlags) -> (r: RemoveSignaturesFlags) {
        RemoveSignaturesFlags(self.0 | rhs.0)
    }
}

impl vstd::std_specs::ops::BitOrSpecImpl for RemoveSignaturesFlags {
    open spec fn obeys_bitor_spec() -> bool {
        true
    }

    open spec fn bitor_req(self, rhs: RemoveSignaturesFlags) -> bool {
        true
    }

    open spec fn bitor_spec(self, rhs: RemoveSignaturesFlags) -> RemoveSignaturesFlags {
        RemoveSignaturesFlags(self.0 | rhs.0)
    }
}

/// Combining `RemoveSignaturesFlags` with `|` is commutative, associative and idempotent,
/// and the bits of a combination are the bitwise or of the parts.
pub proof fn law_remove_signatures_flags_union(a: RemoveSignaturesFlags, b: RemoveSignaturesFlags, c: RemoveSignaturesFlags)
    ensures
        a.bitor_spec(b) == b.bitor_spec(a),
        a.bitor_spec(b).bitor_spec(c) == a.bitor_spec(b.bitor_spec(c)),
        a.bitor_spec(a) == a,
        a.bitor_spec(b).0 == a.0 | b.0,
{
    crate::flags::lemma_or_laws(a.0, b.0, c.0);
}

/// Flags for unloading keyrings (`RNP_KEY_UNLOAD_*`).
#[derive(Clone, Copy, Debug, PartialEq, Eq, Structural)]
pub struct UnloadFlags(pub u32);

impl UnloadFlags {
    /// Unload public keys (`RNP_KEY_UNLOAD_PUBLIC`).
    pub fn public() -> (r: UnloadFlags)
        ensures
            r.0 == RNP_KEY_UNLOAD_PUBLIC,
    {
        UnloadFlags(RNP_KEY_UNLOAD_PUBLIC)
    }

    /// Unload secret keys (`RNP_KEY_UNLOAD_SECRET`).
    pub fn secret() -> (r: UnloadFlags)
        ensures
            r.0 == RNP_KEY_UNLOAD_SECRET,
    {
        UnloadFlags(RNP_KEY_UNLOAD_SECRET)
    }

    pub fn bits(self) -> (r: u32)
        ensures
            r == self.0,
    {
        self.0
    }
}

impl std::ops::BitOr for UnloadFlags {
    type Output = UnloadFlags;

    fn bitor(self, rhs: UnloadFlags) -> (r: UnloadFlags) {
        UnloadFlags(self.0 | rhs.0)
    }
}

impl vstd::std_specs::ops::BitOrSpecImpl for UnloadFlags {
    open spec fn obeys_bitor_spec() -> bool {
        true
    }

    open spec fn bitor_req(self, rhs: UnloadFlags) -> bool {
        true
    }

    open spec fn bitor_spec(self, rhs: UnloadFlags) -> UnloadFlags {
        UnloadFlags(self.0 | rhs.0)
    }
}

/// Combining `UnloadFlags` with `|` is commutative, associative and idempotent,
/// and the bits of a combination are the bitwise or of the parts.
pub proof fn law_unload_flags_union(a: UnloadFlags, b: UnloadFlags, c: UnloadFlags)
    ensures
        a.bitor_spec(b) == b.bitor_spec(a),
        a.bitor_spec(b).bitor_spec(c) == a.bitor_spec(b.bitor_spec(c)),
        a.bitor_spec(a) == a,
        a.bitor_spec(b).0 == a.0 | b.0,
{
    crate::flags::lemma_or_laws(a.0, b.0, c.0);
}

impl Default for LoadSaveFlags {
    /// No flag set.
    fn default() -> (r: LoadSaveFlags)
        ensures
            r.0 == 0,
    {
        LoadSaveFlags(0)
    }
}
impl Default for ExportFlags {
    /// No flag set.
    fn default() -> (r: ExportFlags)
        ensures
            r.0 == 0,
    {
        ExportFlags(0)
    }
}
impl Default for RemoveFlags {
    /// No flag set.
    fn default() -> (r: RemoveFlags)
        ensures
            r.0 == 0,
    {
        RemoveFlags(0)
    }
}
impl Default for RemoveSignaturesFlags {
    /// No flag set.
    fn default() -> (r: RemoveSignaturesFlags)
        ensures
            r.0 == 0,
    {
        RemoveSignaturesFlags(0)
    }
}
impl Default for UnloadFlags {
    /// No flag set.
    fn default() -> (r: UnloadFlags)
        ensures
            r.0 == 0,
    {
        UnloadFlags(0)
    }
}

} // verus!
