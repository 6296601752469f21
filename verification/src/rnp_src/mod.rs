//! Build support for compiling librnp and its dependencies from source:
//! the dependency registry and the Botan build configuration. The build
//! itself (downloads, compilers, process environment) lies outside; these
//! modules hold its decisions.

pub mod config;
pub mod links;

pub use links::{CmakeDep, Dep, Deps};

use vstd::prelude::*;

verus! {

/// librnp version the vendored build compiles.
pub const RNP_VERSION: &'static str = "0.18.1";

} // verus!
