use libc::c_int;
use vstd::prelude::*;

verus! {

/// Type of encryption padding to use.
#[derive(Debug, Clone, Copy, PartialEq, Eq, Structural)]
pub struct Padding(c_int);

impl Padding {
    /// The raw OpenSSL padding identifier held by this value.
    pub closed spec fn raw(self) -> c_int {
        self.0
    }

    /// Wraps a raw OpenSSL padding identifier.
    pub fn from_raw(value: c_int) -> (p: Padding)
        ensures
            p.raw() == value,
    {
        Padding(value)
    }

    /// The raw OpenSSL padding identifier.
    pub fn as_raw(&self) -> (r: c_int)
        ensures
            r == self.raw(),
    {
        self.0
    }

    /// No padding: the input is the raw RSA block (`RSA_NO_PADDING`).
    pub fn none() -> (p: Padding)
        ensures
            p.raw() == 3,
    {
        Padding(3)
    }

    /// PKCS #1 v1.5 padding (`RSA_PKCS1_PADDING`).
    pub fn pkcs1() -> (p: Padding)
        ensures
            p.raw() == 1,
    {
        Padding(1)
    }

    /// PKCS #1 OAEP padding (`RSA_PKCS1_OAEP_PADDING`).
    pub fn pkcs1_oaep() -> (p: Padding)
        ensures
            p.raw() == 4,
    {
        Padding(4)
    }
}

/// A padding is determined by its raw identifier, so `from_raw(p.as_raw())`
/// gives back `p`.
pub proof fn lemma_raw_determines_padding(a: Padding, b: Padding)
    requires
        a.raw() == b.raw(),
    ensures
        a == b,
{
}

} // verus!
