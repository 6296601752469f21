//! Verified core of an idiomatic binding to the RNP OpenPGP library
//! (`librnp`): algorithm names, flag words, option and builder state, the
//! call plans that builders hand to librnp, result-code mapping, and the
//! build configuration of the vendored librnp.

pub mod algorithm;
pub mod armor;
pub mod callbacks;
pub mod context;
pub mod encrypt;
pub mod error;
pub mod dump;
pub mod ffi_safe;
pub mod flags;
pub mod key;
pub mod key_signature_builder;
pub mod keygen;
pub mod keyring;
pub mod rnp_src;
pub mod text;

pub use algorithm::{Algorithm, Cipher, Compression, Curve, KeyUsage, PqcAlgorithm};
pub use error::{Error, Result};
