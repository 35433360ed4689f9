//! Sentinel values used at the native boundary, and their translation into
//! typed results.
//!
//! The native library signals "unknown" or "no data" in-band: an index query
//! answers with a reserved maximum value, a size query with the maximum
//! unsigned size, and certain signed queries with `-1`. At the boundary each
//! sentinel becomes an empty result; every other value passes through
//! unchanged.

use vstd::prelude::*;

verus! {

/// The reserved index value that marks an invalid or unknown index.
pub const INVALID_INDEX: u32 = 0xffff_ffff;

/// Translates an index query's raw return: the reserved sentinel becomes
/// `None`, any other value passes through unchanged.
pub fn decode_index(raw: u32) -> (r: Option<u32>)
    ensures
        raw == INVALID_INDEX <==> r is None,
        r matches Some(v) ==> v == raw,
{
    if raw == INVALID_INDEX {
        None
    } else {
        Some(raw)
    }
}

/// Translates a size query's raw return: the maximum unsigned size is the
/// sentinel for an error, any other value passes through unchanged.
pub fn decode_size(raw: usize) -> (r: Option<usize>)
    ensures
        raw == usize::MAX <==> r is None,
        r matches Some(v) ==> v == raw,
{
    if raw == usize::MAX {
        None
    } else {
        Some(raw)
    }
}

/// Translates a signed query's raw return where `-1` marks "unknown": the
/// sentinel becomes `None`, any other value passes through unchanged.
pub fn decode_signed(raw: i64) -> (r: Option<i64>)
    ensures
        raw == -1 <==> r is None,
        r matches Some(v) ==> v == raw,
{
    if raw == -1 {
        None
    } else {
        Some(raw)
    }
}

/// Translates a returned foreign pointer: a null pointer becomes `None`,
/// any other value passes through unchanged. Returned strings and
/// structures reached through such a pointer are copied out by the host
/// before the call that produced them returns.
pub fn decode_ptr(raw: u64) -> (r: Option<u64>)
    ensures
        raw == 0 <==> r is None,
        r matches Some(v) ==> v == raw,
{
    if raw == 0 {
        None
    } else {
        Some(raw)
    }
}

/// Translates a query whose raw return encodes a boolean with an error
/// escape: `1` is true, `0` is false, and any other value means the answer
/// is not available.
pub fn decode_toggle(raw: i32) -> (r: Option<bool>)
    ensures
        raw == 1 ==> r == Some(true),
        raw == 0 ==> r == Some(false),
        raw != 0 && raw != 1 ==> r is None,
{
    if raw == 1 {
        Some(true)
    } else if raw == 0 {
        Some(false)
    } else {
        None
    }
}

/// Translates a query whose raw return encodes a boolean with a coded
/// failure: `0` is false, `1` is true, and any other value is the raw error
/// code, surfaced unchanged.
pub fn decode_checked_toggle(raw: i32) -> (r: Result<bool, i32>)
    ensures
        raw == 0 ==> r == Result::<bool, i32>::Ok(false),
        raw == 1 ==> r == Result::<bool, i32>::Ok(true),
        raw != 0 && raw != 1 ==> r == Result::<bool, i32>::Err(raw),
{
    if raw == 0 {
        Ok(false)
    } else if raw == 1 {
        Ok(true)
    } else {
        Err(raw)
    }
}

} // verus!
