use libc::c_int;
use vstd::prelude::*;

verus! {

/// Reads the return value of an OpenSSL call that reports success with a
/// positive value: `Some` of it on success, `None` when the call failed
/// (its reasons are then on OpenSSL's error queue).
pub fn cvt(r: c_int) -> (res: Option<c_int>)
    ensures
        res == (if r <= 0 { None } else { Some(r) }),
{
    if r <= 0 {
        None
    } else {
        Some(r)
    }
}

/// Reads the return value of an OpenSSL call that reports failure with a
/// negative value: `Some` of it on success, `None` when the call failed.
pub fn cvt_n(r: c_int) -> (res: Option<c_int>)
    ensures
        res == (if r < 0 { None } else { Some(r) }),
{
    if r < 0 {
        None
    } else {
        Some(r)
    }
}

} // verus!
