use crate::error::ErrorStack;
use libc::c_int;
use vstd::prelude::*;

verus! {

/// The value a password callback hands back to OpenSSL for what the user's
/// callback returned: the length of the password it wrote, or 0 when it
/// failed.
pub open spec fn passwd_cb_value(res: Result<usize, ErrorStack>) -> c_int {
    match res {
        Ok(len) => len as c_int,
        Err(_) => 0,
    }
}

/// What OpenSSL is handed back is the password length the callback
/// reported, whenever it fits in a C `int`, and 0 when the callback failed.
pub proof fn lemma_passwd_cb_value_is_length(res: Result<usize, ErrorStack>)
    ensures
        res matches Ok(len) ==> (len <= i32::MAX ==> passwd_cb_value(res) == len),
        res is Err ==> passwd_cb_value(res) == 0,
{
}

/// Runs a password callback on OpenSSL's password buffer `buf` and gives
/// the value OpenSSL expects back.
pub fn invoke_passwd_cb<F>(buf: &mut [u8], callback: F) -> (r: c_int)
    where
        F: FnOnce(&mut [u8]) -> Result<usize, ErrorStack>,
    requires
        forall|b: &mut [u8]| call_requires(callback, (b,)),
    ensures
        exists|b: &mut [u8], res: Result<usize, ErrorStack>|
            {
                &&& b@ == old(buf)@
                &&& final(b)@ == final(buf)@
                &&& call_ensures(callback, (b,), res)
                &&& r == passwd_cb_value(res)
                &&& res matches Ok(len) ==> r == len as c_int
                &&& res matches Ok(len) ==> (len <= i32::MAX ==> r == len)
                &&& res is Err ==> r == 0
            },
{
    let res = callback(buf);
    match res {
        Ok(len) => #[verifier::truncate] (len as c_int),
        Err(_) => 0,
    }
}

/// The passphrase as the NUL-terminated C string handed to OpenSSL, or
/// `None` when it holds a NUL byte and so cannot be one.
pub fn passphrase_cstring(passphrase: &[u8]) -> (r: Option<Vec<u8>>)
    ensures
        r is None <==> passphrase@.contains(0u8),
        r matches Some(v) ==> v@ == passphrase@.push(0u8),
{
    let mut v: Vec<u8> = Vec::new();
    let mut i: usize = 0;
    while i < passphrase.len()
        invariant
            i <= passphrase.len(),
            v@ == passphrase@.subrange(0, i as int),
            !passphrase@.subrange(0, i as int).contains(0u8),
        decreases passphrase.len() - i,
    {
        if passphrase[i] == 0 {
            assert(passphrase@[i as int] == 0u8);
            return None;
        }
        v.push(passphrase[i]);
        i += 1;
        assert(passphrase@.subrange(0, i as int) =~= passphrase@.subrange(0, i - 1).push(passphrase@[i - 1]));
    }
    assert(passphrase@.subrange(0, i as int) =~= passphrase@);
    v.push(0u8);
    Some(v)
}
} // verus!
