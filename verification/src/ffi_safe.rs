//! The canonical result mapping for librnp getters.
//!
//! A librnp getter has the shape `rnp_X_get_Y(handle, *out) -> rnp_result_t`.
//! The caller that made the call hands the result code, what the call wrote
//! to its out-parameter (`None` for a null pointer) and librnp's text for
//! the code to one of these functions, which decides the outcome:
//! non-success is [`Error::Rnp`], `RNP_ERROR_NOT_FOUND` is "no value" where
//! absence is legitimate, and a null string where one is required is
//! [`Error::NullPointer`].

use vstd::prelude::*;
use crate::error::{check, is_rnp_error, Error, Result, RNP_ERROR_NOT_FOUND, RNP_SUCCESS};

verus! {

/// A string a getter returned, where a null pointer is an error.
pub fn cstr_to_string(raw: Option<String>) -> (r: Result<String>)
    ensures
        raw matches Some(s) ==> (r matches Ok(t) && t == s),
        raw is None ==> r matches Err(Error::NullPointer),
{
    match raw {
        Some(s) => Ok(s),
        None => Err(Error::NullPointer),
    }
}

/// Outcome of a getter that writes a string: the string on success, the
/// librnp error otherwise, [`Error::NullPointer`] if success came with a
/// null string.
pub fn call_for_string(code: u32, out: Option<String>, message: String) -> (r: Result<String>)
    ensures
        code != RNP_SUCCESS ==> is_rnp_error(r, code, message@),
        code == RNP_SUCCESS ==> match out {
            Some(s) => (r matches Ok(t) && t == s),
            None => r matches Err(Error::NullPointer),
        },
{
    check(code, message)?;
    cstr_to_string(out)
}

/// Like [`call_for_string`] but `RNP_ERROR_NOT_FOUND`, and a null string,
/// are "no value" (`Ok(None)`).
pub fn call_for_optional_string(code: u32, out: Option<String>, message: String) -> (r: Result<
    Option<String>,
>)
    ensures
        code == RNP_ERROR_NOT_FOUND ==> r matches Ok(None),
        code != RNP_ERROR_NOT_FOUND && code != RNP_SUCCESS ==> is_rnp_error(r, code, message@),
        code == RNP_SUCCESS ==> (r matches Ok(v) && v == out),
{
    if code == RNP_ERROR_NOT_FOUND {
        return Ok(None);
    }
    check(code, message)?;
    Ok(out)
}

/// Outcome of a getter that writes a `u32`.
pub fn call_for_u32(code: u32, out: u32, message: String) -> (r: Result<u32>)
    ensures
        code == RNP_SUCCESS ==> (r matches Ok(v) && v == out),
        code != RNP_SUCCESS ==> is_rnp_error(r, code, message@),
{
    check(code, message)?;
    Ok(out)
}

/// Outcome of a getter that writes a `u64`.
pub fn call_for_u64(code: u32, out: u64, message: String) -> (r: Result<u64>)
    ensures
        code == RNP_SUCCESS ==> (r matches Ok(v) && v == out),
        code != RNP_SUCCESS ==> is_rnp_error(r, code, message@),
{
    check(code, message)?;
    Ok(out)
}

/// Outcome of a getter that writes a `usize`.
pub fn call_for_usize(code: u32, out: usize, message: String) -> (r: Result<usize>)
    ensures
        code == RNP_SUCCESS ==> (r matches Ok(v) && v == out),
        code != RNP_SUCCESS ==> is_rnp_error(r, code, message@),
{
    check(code, message)?;
    Ok(out)
}

/// Outcome of a getter that writes a `bool`.
pub fn call_for_bool(code: u32, out: bool, message: String) -> (r: Result<bool>)
    ensures
        code == RNP_SUCCESS ==> (r matches Ok(v) && v == out),
        code != RNP_SUCCESS ==> is_rnp_error(r, code, message@),
{
    check(code, message)?;
    Ok(out)
}

/// Outcome of a call that allocates a byte buffer: its bytes on success,
/// with a null buffer read as no bytes.
pub fn call_for_owned_bytes(code: u32, out: Option<Vec<u8>>, message: String) -> (r: Result<
    Vec<u8>,
>)
    ensures
        code != RNP_SUCCESS ==> is_rnp_error(r, code, message@),
        code == RNP_SUCCESS ==> (r matches Ok(v) && match out {
            Some(b) => v@ == b@,
            None => v@.len() == 0,
        }),
{
    check(code, message)?;
    match out {
        Some(b) => Ok(b),
        None => Ok(Vec::new()),
    }
}

/// One step of collecting a list that librnp hands out by index (a key's
/// user IDs, subkeys or signatures): the lookup of the next index either
/// adds its item, or ends the collection with its error, or, when librnp
/// answered with a null handle, with [`Error::NullPointer`].
pub fn collect_next<T>(items: Vec<T>, answer: Result<Option<T>>) -> (r: Result<Vec<T>>)
    ensures
        match answer {
            Ok(Some(x)) => r matches Ok(v) && v@ == items@.push(x),
            Ok(None) => r matches Err(e) && e is NullPointer,
            Err(e) => r matches Err(f) && f == e,
        },
{
    match answer {
        Ok(Some(x)) => {
            let mut items = items;
            items.push(x);
            Ok(items)
        },
        Ok(None) => Err(Error::NullPointer),
        Err(e) => Err(e),
    }
}

/// Whether `fetch` may answer index `j` with an item.
pub open spec fn answers_item<T, F: Fn(usize) -> Result<Option<T>>>(fetch: F, j: usize) -> bool {
    exists|x: T| #[trigger] fetch.ensures((j,), Ok(Some(x)))
}

/// Collect the items `0..count` of a list that librnp hands out by index
/// (a key's user IDs, subkeys or signatures), looking each index up with
/// `fetch` in increasing order and stopping at the first lookup that fails
/// or answers with a null handle.
pub fn collect_indexed<T, F: Fn(usize) -> Result<Option<T>>>(count: usize, fetch: F) -> (r: Result<
    Vec<T>,
>)
    requires
        forall|i: usize| i < count ==> fetch.requires((i,)),
    ensures
        r matches Ok(v) ==> {
            &&& v@.len() == count
            &&& forall|i: int| 0 <= i < count ==> fetch.ensures((i as usize,), Ok(Some(#[trigger] v@[i])))
        },
        r matches Err(e) ==> exists|k: usize|
            {
                &&& k < count
                &&& forall|j: usize| j < k ==> #[trigger] answers_item(fetch, j)
                &&& (fetch.ensures((k,), Err(e)) || (e is NullPointer && fetch.ensures((k,), Ok(None))))
            },
{
    let mut items: Vec<T> = Vec::new();
    let mut i: usize = 0;
    while i < count
        invariant
            i <= count,
            items@.len() == i,
            forall|j: usize| j < count ==> fetch.requires((j,)),
            forall|j: int| 0 <= j < i ==> fetch.ensures((j as usize,), Ok(Some(#[trigger] items@[j]))),
        decreases count - i,
    {
        let answer = fetch(i);
        match answer {
            Ok(Some(x)) => {
                items.push(x);
            },
            Ok(None) => {
                proof {
                    assert forall|j: usize| j < i implies #[trigger] answers_item(fetch, j) by {
                        assert(fetch.ensures((j as int as usize,), Ok(Some(items@[j as int]))));
                    }
                }
                return Err(Error::NullPointer);
            },
            Err(e) => {
                proof {
                    assert forall|j: usize| j < i implies #[trigger] answers_item(fetch, j) by {
                        assert(fetch.ensures((j as int as usize,), Ok(Some(items@[j as int]))));
                    }
                }
                return Err(e);
            },
        }
        i += 1;
    }
    Ok(items)
}

/// Outcome of a "was the key revoked for this reason?" getter
/// (`rnp_key_is_compromised` and kin). librnp answers
/// `RNP_ERROR_BAD_PARAMETERS` for a key that is not revoked at all; the
/// answer to the question is then simply `false`.
pub fn revoked_reason_flag(code: u32, out: bool, message: String) -> (r: Result<bool>)
    ensures
        code == RNP_SUCCESS ==> (r matches Ok(v) && v == out),
        code == crate::error::RNP_ERROR_BAD_PARAMETERS ==> (r matches Ok(v) && !v),
        code != RNP_SUCCESS && code != crate::error::RNP_ERROR_BAD_PARAMETERS ==> is_rnp_error(
            r,
            code,
            message@,
        ),
{
    match check(code, message) {
        Ok(()) => Ok(out),
        Err(e) => {
            if e.has_code(crate::error::RNP_ERROR_BAD_PARAMETERS) {
                Ok(false)
            } else {
                Err(e)
            }
        },
    }
}

} // verus!

verus! {

/// A copy of `s` to hand to librnp as a C string, or [`Error::NulByte`] if
/// it holds a NUL character.
pub fn c_string(s: &str) -> (r: Result<String>)
    ensures
        crate::text::has_nul(s@) <==> r is Err,
        r matches Err(e) ==> e is NulByte,
        r matches Ok(t) ==> t@ == s@,
{
    if crate::text::contains_nul(s) {
        Err(Error::NulByte)
    } else {
        Ok(crate::text::owned(s))
    }
}

/// Like [`c_string`] for an optional string; `None` stays `None` (a null
/// pointer on the C side).
pub fn optional_c_string(s: Option<&str>) -> (r: Result<Option<String>>)
    ensures
        (s matches Some(v) && crate::text::has_nul(v@)) <==> r is Err,
        r matches Err(e) ==> e is NulByte,
        s is None ==> (r matches Ok(o) && o is None),
        r matches Ok(Some(t)) ==> (s matches Some(v) && t@ == v@),
        (s is Some && r is Ok) ==> (r matches Ok(o) && o is Some),
{
    match s {
        Some(v) => {
            let c = c_string(v)?;
            Ok(Some(c))
        },
        None => Ok(None),
    }
}

} // verus!
