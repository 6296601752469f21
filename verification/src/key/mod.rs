//! Key-side value types: lookup identifiers, flag words, revocation
//! reasons, and the option types consumed by key mutation, with the
//! argument lists that key operations hand to librnp.

pub mod flags;
pub mod identifier;
pub mod mutation;

pub use flags::{ExportFlags, LoadSaveFlags, RemoveFlags, RemoveSignaturesFlags, UnloadFlags};
pub use identifier::KeyIdentifier;
pub use mutation::{AddUidOptions, ProtectOptions, RevocationCode, RevocationReason};
