//! Flag words for packet dumps and per-object JSON serialization.
//!
//! The dump operations themselves are librnp calls; the JSON they return
//! is librnp's own shape and is passed through unparsed.

use vstd::prelude::*;
use vstd::std_specs::ops::BitOrSpec;

verus! {

/// `RNP_DUMP_MPI`.
pub const RNP_DUMP_MPI: u32 = 1;
/// `RNP_DUMP_RAW`.
pub const RNP_DUMP_RAW: u32 = 2;
/// `RNP_DUMP_GRIP`.
pub const RNP_DUMP_GRIP: u32 = 4;
/// `RNP_JSON_DUMP_MPI`.
pub const RNP_JSON_DUMP_MPI: u32 = 1;
/// `RNP_JSON_DUMP_RAW`.
pub const RNP_JSON_DUMP_RAW: u32 = 2;
/// `RNP_JSON_DUMP_GRIP`.
pub const RNP_JSON_DUMP_GRIP: u32 = 4;
/// `RNP_JSON_PUBLIC_MPIS`.
pub const RNP_JSON_PUBLIC_MPIS: u32 = 1;
/// `RNP_JSON_SECRET_MPIS`.
pub const RNP_JSON_SECRET_MPIS: u32 = 2;
/// `RNP_JSON_SIGNATURES`.
pub const RNP_JSON_SIGNATURES: u32 = 4;
/// `RNP_JSON_SIGNATURE_MPIS`.
pub const RNP_JSON_SIGNATURE_MPIS: u32 = 8;

/// Flags for the human-readable packet dump (`RNP_DUMP_*`).
#[derive(Clone, Copy, Debug, PartialEq, Eq, Structural)]
pub struct DumpFlags(pub u32);

impl DumpFlags {
    /// Include MPI values (`RNP_DUMP_MPI`).
    pub fn mpi() -> (r: DumpFlags)
        ensures
            r.0 == RNP_DUMP_MPI,
    {
        DumpFlags(RNP_DUMP_MPI)
    }

    /// Dump raw packet bytes (`RNP_DUMP_RAW`).
    pub fn raw() -> (r: DumpFlags)
        ensures
            r.0 == RNP_DUMP_RAW,
    {
        DumpFlags(RNP_DUMP_RAW)
    }

    /// Include key grips (`RNP_DUMP_GRIP`).
    pub fn grip() -> (r: DumpFlags)
        ensures
            r.0 == RNP_DUMP_GRIP,
    {
        DumpFlags(RNP_DUMP_GRIP)
    }

    pub fn bits(self) -> (r: u32)
        ensures
            r == self.0,
    {
        self.0
    }
}

impl std::ops::BitOr for DumpFlags {
    type Output = DumpFlags;

    fn bitor(self, rhs: DumpFlags) -> (r: DumpFlags) {
        DumpFlags(self.0 | rhs.0)
    }
}

impl vstd::std_specs::ops::BitOrSpecImpl for DumpFlags {
    open spec fn obeys_bitor_spec() -> bool {
        true
    }

    open spec fn bitor_req(self, rhs: DumpFlags) -> bool {
        true
    }

    open spec fn bitor_spec(self, rhs: DumpFlags) -> DumpFlags {
        DumpFlags(self.0 | rhs.0)
    }
}

/// Combining `DumpFlags` with `|` is commutative, associative and idempotent,
/// and the bits of a combination are the bitwise or of the parts.
pub proof fn law_dump_flags_union(a: DumpFlags, b: DumpFlags, c: DumpFlags)
    ensures
        a.bitor_spec(b) == b.bitor_spec(a),
        a.bitor_spec(b).bitor_spec(c) == a.bitor_spec(b.bitor_spec(c)),
        a.bitor_spec(a) == a,
        a.bitor_spec(b).0 == a.0 | b.0,
{
    crate::flags::lemma_or_laws(a.0, b.0, c.0);
}

/// Flags for the JSON packet dump (`RNP_JSON_DUMP_*`).
#[derive(Clone, Copy, Debug, PartialEq, Eq, Structural)]
pub struct JsonDumpFlags(pub u32);

impl JsonDumpFlags {
    /// Include MPI values (`RNP_JSON_DUMP_MPI`).
    pub fn mpi() -> (r: JsonDumpFlags)
        ensures
            r.0 == RNP_JSON_DUMP_MPI,
    {
        JsonDumpFlags(RNP_JSON_DUMP_MPI)
    }

    /// Dump raw packet bytes (`RNP_JSON_DUMP_RAW`).
    pub fn raw() -> (r: JsonDumpFlags)
        ensures
            r.0 == RNP_JSON_DUMP_RAW,
    {
        JsonDumpFlags(RNP_JSON_DUMP_RAW)
    }

    /// Include key grips (`RNP_JSON_DUMP_GRIP`).
    pub fn grip() -> (r: JsonDumpFlags)
        ensures
            r.0 == RNP_JSON_DUMP_GRIP,
    {
        JsonDumpFlags(RNP_JSON_DUMP_GRIP)
    }

    pub fn bits(self) -> (r: u32)
        ensures
            r == self.0,
    {
        self.0
    }
}

impl std::ops::BitOr for JsonDumpFlags {
    type Output = JsonDumpFlags;

    fn bitor(self, rhs: JsonDumpFlags) -> (r: JsonDumpFlags) {
        JsonDumpFlags(self.0 | rhs.0)
    }
}

impl vstd::std_specs::ops::BitOrSpecImpl for JsonDumpFlags {
    open spec fn obeys_bitor_spec() -> bool {
        true
    }

    open spec fn bitor_req(self, rhs: JsonDumpFlags) -> bool {
        true
    }

    open spec fn bitor_spec(self, rhs: JsonDumpFlags) -> JsonDumpFlags {
        JsonDumpFlags(self.0 | rhs.0)
    }
}

/// Combining `JsonDumpFlags` with `|` is commutative, associative and idempotent,
/// and the bits of a combination are the bitwise or of the parts.
pub proof fn law_json_dump_flags_union(a: JsonDumpFlags, b: JsonDumpFlags, c: JsonDumpFlags)
    ensures
        a.bitor_spec(b) == b.bitor_spec(a),
        a.bitor_spec(b).bitor_spec(c) == a.bitor_spec(b.bitor_spec(c)),
        a.bitor_spec(a) == a,
        a.bitor_spec(b).0 == a.0 | b.0,
{
    crate::flags::lemma_or_laws(a.0, b.0, c.0);
}

/// Flags selecting the fields of a key's JSON (`RNP_JSON_*`).
#[derive(Clone, Copy, Debug, PartialEq, Eq, Structural)]
pub struct JsonFlags(pub u32);

impl JsonFlags {
    /// Include public-key MPIs (`RNP_JSON_PUBLIC_MPIS`).
    pub fn public_mpis() -> (r: JsonFlags)
        ensures
            r.0 == RNP_JSON_PUBLIC_MPIS,
    {
        JsonFlags(RNP_JSON_PUBLIC_MPIS)
    }

    /// Include secret-key MPIs (`RNP_JSON_SECRET_MPIS`).
    pub fn secret_mpis() -> (r: JsonFlags)
        ensures
            r.0 == RNP_JSON_SECRET_MPIS,
    {
        JsonFlags(RNP_JSON_SECRET_MPIS)
    }

    /// Include the signatures array (`RNP_JSON_SIGNATURES`).
    pub fn signatures() -> (r: JsonFlags)
        ensures
            r.0 == RNP_JSON_SIGNATURES,
    {
        JsonFlags(RNP_JSON_SIGNATURES)
    }

    /// Include per-signature MPIs (`RNP_JSON_SIGNATURE_MPIS`).
    pub fn signature_mpis() -> (r: JsonFlags)
        ensures
            r.0 == RNP_JSON_SIGNATURE_MPIS,
    {
        JsonFlags(RNP_JSON_SIGNATURE_MPIS)
    }

    pub fn bits(self) -> (r: u32)
        ensures
            r == self.0,
    {
        self.0
    }
}

impl std::ops::BitOr for JsonFlags {
    type Output = JsonFlags;

    fn bitor(self, rhs: JsonFlags) -> (r: JsonFlags) {
        JsonFlags(self.0 | rhs.0)
    }
}

impl vstd::std_specs::ops::BitOrSpecImpl for JsonFlags {
    open spec fn obeys_bitor_spec() -> bool {
        true
    }

    open spec fn bitor_req(self, rhs: JsonFlags) -> bool {
        true
    }

    open spec fn bitor_spec(self, rhs: JsonFlags) -> JsonFlags {
        JsonFlags(self.0 | rhs.0)
    }
}

/// Combining `JsonFlags` with `|` is commutative, associative and idempotent,
/// and the bits of a combination are the bitwise or of the parts.
pub proof fn law_json_flags_union(a: JsonFlags, b: JsonFlags, c: JsonFlags)
    ensures
        a.bitor_spec(b) == b.bitor_spec(a),
        a.bitor_spec(b).bitor_spec(c) == a.bitor_spec(b.bitor_spec(c)),
        a.bitor_spec(a) == a,
        a.bitor_spec(b).0 == a.0 | b.0,
{
    crate::flags::lemma_or_laws(a.0, b.0, c.0);
}

impl Default for DumpFlags {
    /// No flag set.
    fn default() -> (r: DumpFlags)
        ensures
            r.0 == 0,
    {
        DumpFlags(0)
    }
}
impl Default for JsonDumpFlags {
    /// No flag set.
    fn default() -> (r: JsonDumpFlags)
        ensures
            r.0 == 0,
    {
        JsonDumpFlags(0)
    }
}
impl Default for JsonFlags {
    /// No flag set.
    fn default() -> (r: JsonFlags)
        ensures
            r.0 == 0,
    {
        JsonFlags(0)
    }
}

} // verus!
