//! Error type for the RNP binding.
//!
//! librnp reports every outcome as an `rnp_result_t` (a `u32`); `RNP_SUCCESS`
//! is `0` and every other value is a failure. [`check`] maps a result code
//! to `Ok` or to [`Error::Rnp`], carrying the text librnp gives for the code.

use vstd::prelude::*;

verus! {

/// `RNP_SUCCESS`.
pub const RNP_SUCCESS: u32 = 0x0000_0000;

/// `RNP_ERROR_BAD_PARAMETERS` (`RNP_ERROR_GENERIC + 2`).
pub const RNP_ERROR_BAD_PARAMETERS: u32 = 0x1000_0002;

/// `RNP_ERROR_NOT_FOUND` (`RNP_ERROR_GENERIC + 8`).
pub const RNP_ERROR_NOT_FOUND: u32 = 0x1000_0008;

/// A failure returned by the underlying librnp call, or detected before it.
#[derive(Debug)]
pub enum Error {
    /// The RNP call returned a non-success result code.
    Rnp { code: u32, message: String },
    /// A signature was processed but did not verify.
    SignatureInvalid,
    /// A required pointer/handle was unexpectedly null.
    NullPointer,
    /// A NUL byte was found in a string that must be passed to librnp as a
    /// C string.
    NulByte,
}

pub type Result<T> = std::result::Result<T, Error>;

/// Whether `r` is the failure that `check` gives for `code` and `message`.
pub open spec fn is_rnp_error<T>(r: Result<T>, code: u32, message: Seq<char>) -> bool {
    r matches Err(Error::Rnp { code: c, message: m }) && c == code && m@ == message
}

/// Check an `rnp_result_t` return value: success is `Ok(())`, anything else
/// is an [`Error::Rnp`] with the code and `message`, the text librnp gives
/// for that code (`rnp_result_to_string`).
pub fn check(code: u32, message: String) -> (r: Result<()>)
    ensures
        code == RNP_SUCCESS <==> r is Ok,
        code != RNP_SUCCESS ==> is_rnp_error(r, code, message@),
{
    if code == RNP_SUCCESS {
        Ok(())
    } else {
        Err(Error::Rnp { code, message })
    }
}

impl Error {
    /// Whether this is a librnp failure with result code `code`.
    pub fn has_code(&self, code: u32) -> (r: bool)
        ensures
            r == (*self matches Error::Rnp { code: c, .. } && c == code),
    {
        match self {
            Error::Rnp { code: c, .. } => *c == code,
            _ => false,
        }
    }
}

} // verus!
