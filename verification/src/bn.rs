use crate::error::ErrorStack;
use libc::c_int;
use vstd::arithmetic::power::{lemma_pow_positive, lemma_pow_strictly_increases, pow};
use vstd::prelude::*;

verus! {

/// The value of a big-endian byte string.
pub open spec fn be_value(s: Seq<u8>) -> nat
    decreases s.len(),
{
    if s.len() == 0 {
        0
    } else {
        be_value(s.drop_last()) * 256 + s.last() as nat
    }
}

/// A big-endian byte string without a leading zero byte: the shortest
/// encoding of its value.
pub open spec fn canonical(s: Seq<u8>) -> bool {
    s.len() == 0 || s[0] != 0
}

/// The number of bytes of the shortest big-endian encoding of `v` (none for 0).
pub open spec fn byte_len(v: nat) -> nat
    decreases v,
{
    if v == 0 {
        0
    } else {
        1 + byte_len(v / 256)
    }
}

proof fn lemma_split_byte(q: nat, r: nat)
    requires
        r < 256,
    ensures
        (q * 256 + r) / 256 == q,
        (q * 256 + r) % 256 == r,
{
    assert((q * 256 + r) / 256 == q && (q * 256 + r) % 256 == r) by (nonlinear_arith)
        requires
            r < 256,
    ;
}

/// A zero byte in front of a big-endian string does not change its value.
pub proof fn lemma_value_leading_zero(t: Seq<u8>)
    ensures
        be_value(seq![0u8] + t) == be_value(t),
    decreases t.len(),
{
    let s = seq![0u8] + t;
    if t.len() == 0 {
        assert(s.drop_last() =~= Seq::<u8>::empty());
        assert(s.last() == 0);
        assert(be_value(s) == be_value(s.drop_last()) * 256 + s.last() as nat);
    } else {
        assert(s.drop_last() =~= seq![0u8] + t.drop_last());
        assert(s.last() == t.last());
        lemma_value_leading_zero(t.drop_last());
        assert(be_value(s.drop_last()) == be_value(t.drop_last()));
        assert(be_value(s) == be_value(s.drop_last()) * 256 + s.last() as nat);
    }
}

proof fn lemma_canonical_positive(s: Seq<u8>)
    requires
        canonical(s),
        s.len() > 0,
    ensures
        be_value(s) > 0,
    decreases s.len(),
{
    let init = s.drop_last();
    if s.len() > 1 {
        assert(init[0] == s[0]);
        lemma_canonical_positive(init);
    }
}

/// The shortest encoding of a value is exactly `byte_len` bytes long.
pub proof fn lemma_byte_len_canonical(s: Seq<u8>)
    requires
        canonical(s),
    ensures
        byte_len(be_value(s)) == s.len(),
    decreases s.len(),
{
    if s.len() > 0 {
        let init = s.drop_last();
        lemma_canonical_positive(s);
        lemma_split_byte(be_value(init), s.last() as nat);
        if init.len() > 0 {
            assert(init[0] == s[0]);
        }
        lemma_byte_len_canonical(init);
    }
}

/// Two shortest encodings of the same value are the same byte string.
pub proof fn lemma_canonical_unique(s: Seq<u8>, t: Seq<u8>)
    requires
        canonical(s),
        canonical(t),
        be_value(s) == be_value(t),
    ensures
        s == t,
    decreases s.len(),
{
    lemma_byte_len_canonical(s);
    lemma_byte_len_canonical(t);
    if s.len() == 0 {
        assert(s =~= t);
    } else {
        let si = s.drop_last();
        let ti = t.drop_last();
        lemma_split_byte(be_value(si), s.last() as nat);
        lemma_split_byte(be_value(ti), t.last() as nat);
        if si.len() > 0 {
            assert(si[0] == s[0]);
            assert(ti[0] == t[0]);
        }
        lemma_canonical_unique(si, ti);
        assert(s =~= si.push(s.last()));
        assert(t =~= ti.push(t.last()));
    }
}

/// `byte_len(v)` bytes are enough to write `v`, and no fewer are: a value
/// `v > 0` of `k` bytes lies in `[256^(k-1), 256^k)`.
pub proof fn lemma_byte_len_bounds(v: nat)
    ensures
        v < pow(256, byte_len(v)),
        v > 0 ==> pow(256, (byte_len(v) - 1) as nat) <= v,
    decreases v,
{
    reveal(pow);
    if v > 0 {
        let w = v / 256;
        lemma_byte_len_bounds(w);
        let k = byte_len(w);
        assert(byte_len(v) == k + 1);
        let k1: nat = k + 1;
        assert(pow(256, k1) == 256 * pow(256, (k1 - 1) as nat));
        assert(pow(256, k1) == 256 * pow(256, k));
        assert(v < 256 * pow(256, k)) by (nonlinear_arith)
            requires
                w == v / 256,
                w < pow(256, k),
        ;
        if w > 0 {
            assert(pow(256, k) == 256 * pow(256, (k - 1) as nat));
            assert(pow(256, k) <= v) by (nonlinear_arith)
                requires
                    w == v / 256,
                    pow(256, (k - 1) as nat) <= w,
                    pow(256, k) == 256 * pow(256, (k - 1) as nat),
            ;
        } else {
            assert(k == 0);
            assert(pow(256, 0) == 1);
        }
    } else {
        assert(pow(256, 0) == 1);
    }
}

/// The only `k` with `256^(k-1) <= v < 256^k` is `byte_len(v)`: a value
/// below `256^k` but not below `256^(k-1)` takes exactly `k` bytes.
pub proof fn lemma_byte_len_exact(v: nat, k: nat)
    requires
        k > 0,
        pow(256, (k - 1) as nat) <= v,
        v < pow(256, k),
    ensures
        byte_len(v) == k,
{
    lemma_pow_positive(256, (k - 1) as nat);
    lemma_byte_len_bounds(v);
    let j = byte_len(v);
    if j < k {
        if j < k - 1 {
            lemma_pow_strictly_increases(256, j, (k - 1) as nat);
        }
    } else if j > k {
        if k < j - 1 {
            lemma_pow_strictly_increases(256, k, (j - 1) as nat);
        }
    }
}

/// A non-negative arbitrary-precision integer, held as its shortest
/// big-endian encoding.
pub struct BigNum {
    bytes: Vec<u8>,
}

impl View for BigNum {
    type V = nat;

    closed spec fn view(&self) -> nat {
        be_value(self.bytes@)
    }
}

/// Copies a byte slice into a new vector.
fn copy_bytes(s: &[u8]) -> (r: Vec<u8>)
    ensures
        r@ == s@,
{
    let mut r: Vec<u8> = Vec::new();
    let mut j: usize = 0;
    while j < s.len()
        invariant
            j <= s.len(),
            r@ == s@.subrange(0, j as int),
        decreases s.len() - j,
    {
        r.push(s[j]);
        j += 1;
    }
    assert(r@ =~= s@);
    r
}

/// The shortest encoding of the value of a big-endian byte string: the string
/// without its leading zero bytes.
fn strip_leading_zeros(bytes: &[u8]) -> (r: Vec<u8>)
    ensures
        canonical(r@),
        be_value(r@) == be_value(bytes@),
        r.len() <= bytes.len(),
{
    let mut i: usize = 0;
    assert(bytes@.skip(0) =~= bytes@);
    while i < bytes.len() && bytes[i] == 0
        invariant
            i <= bytes.len(),
            be_value(bytes@.skip(i as int)) == be_value(bytes@),
        decreases bytes.len() - i,
    {
        proof {
            assert(bytes@.skip(i as int) =~= seq![0u8] + bytes@.skip(i + 1));
            lemma_value_leading_zero(bytes@.skip(i + 1));
        }
        i += 1;
    }
    let mut r: Vec<u8> = Vec::new();
    let mut j: usize = i;
    while j < bytes.len()
        invariant
            i <= j <= bytes.len(),
            r@ == bytes@.subrange(i as int, j as int),
        decreases bytes.len() - j,
    {
        r.push(bytes[j]);
        j += 1;
    }
    assert(r@ =~= bytes@.skip(i as int));
    r
}

impl BigNum {
    #[verifier::type_invariant]
    spec fn well_formed(self) -> bool {
        &&& canonical(self.bytes@)
        &&& self.bytes.len() <= i32::MAX
    }

    /// Creates a `BigNum` holding `n`.
    pub fn from_u32(n: u32) -> (r: Result<BigNum, ErrorStack>)
        ensures
            r matches Ok(b) && b@ == n,
    {
        let q1 = n / 256;
        let q2 = q1 / 256;
        let q3 = q2 / 256;
        let mut v: Vec<u8> = Vec::new();
        v.push(q3 as u8);
        v.push((q2 % 256) as u8);
        v.push((q1 % 256) as u8);
        v.push((n % 256) as u8);
        proof {
            reveal_with_fuel(be_value, 5);
            assert(v@.drop_last().drop_last().drop_last().drop_last() =~= Seq::<u8>::empty());
            assert(v@.drop_last().drop_last().drop_last() =~= seq![q3 as u8]);
            assert(v@.drop_last().drop_last() =~= seq![q3 as u8, (q2 % 256) as u8]);
            assert(v@.drop_last() =~= seq![q3 as u8, (q2 % 256) as u8, (q1 % 256) as u8]);
        }
        let bytes = strip_leading_zeros(v.as_slice());
        Ok(BigNum { bytes })
    }

    /// Creates a `BigNum` from the big-endian byte string `n`.
    pub fn from_slice(n: &[u8]) -> (r: Result<BigNum, ErrorStack>)
        requires
            n.len() <= i32::MAX,
        ensures
            r matches Ok(b) && b@ == be_value(n@),
    {
        let bytes = strip_leading_zeros(n);
        Ok(BigNum { bytes })
    }

    /// The number of bytes needed to write this value in big-endian form.
    pub fn num_bytes(&self) -> (r: c_int)
        ensures
            r >= 0,
            r == byte_len(self@),
            self@ < pow(256, r as nat),
            r > 0 ==> pow(256, (r - 1) as nat) <= self@,
    {
        proof {
            use_type_invariant(self);
            lemma_byte_len_canonical(self.bytes@);
            lemma_byte_len_bounds(self@);
        }
        self.bytes.len() as c_int
    }

    /// The value as a big-endian byte string without leading zero bytes.
    pub fn to_vec(&self) -> (r: Vec<u8>)
        ensures
            canonical(r@),
            be_value(r@) == self@,
            r.len() == byte_len(self@),
    {
        proof {
            use_type_invariant(self);
            lemma_byte_len_canonical(self.bytes@);
        }
        copy_bytes(self.bytes.as_slice())
    }
}

} // verus!
