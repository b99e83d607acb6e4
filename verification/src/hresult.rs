//! Translation of COM status values (`HRESULT`, an `i32`) into results.
//!
//! The convention followed here is the one the font-family wrapper uses:
//! a call succeeded exactly when its status value is zero (`S_OK`), and a
//! failing call reports its status value unchanged.

use vstd::prelude::*;

verus! {

/// A status value reports success exactly when it is zero (`S_OK`).
pub open spec fn is_ok_status(hr: i32) -> bool {
    hr == 0
}

/// Translates a raw status value: zero becomes success, and any other
/// value becomes an error carrying that status unchanged.
pub fn hresult_to_result(hr: i32) -> (r: Result<(), i32>)
    ensures
        r is Ok <==> is_ok_status(hr),
        r is Err ==> r->Err_0 == hr,
{
    if hr == 0 {
        Ok(())
    } else {
        Err(hr)
    }
}

/// Combines a status value with the handle that an out-parameter call
/// produced: the handle is returned exactly on success, and the failing
/// status itself otherwise.
pub fn com_out_result<T>(hr: i32, handle: T) -> (r: Result<T, i32>)
    ensures
        is_ok_status(hr) ==> r is Ok && r->Ok_0 == handle,
        !is_ok_status(hr) ==> r is Err && r->Err_0 == hr,
{
    match hresult_to_result(hr) {
        Ok(()) => Ok(handle),
        Err(status) => Err(status),
    }
}

} // verus!
