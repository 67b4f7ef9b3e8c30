use crate::bn::{byte_len, lemma_byte_len_bounds, BigNum};
use crate::cvt::{cvt, cvt_n};
use crate::error::ErrorStack;
use crate::padding::Padding;
use libc::c_int;
use vstd::arithmetic::power::pow;
use vstd::prelude::*;

verus! {

/// The value held by an optional component.
pub open spec fn value_of(b: Option<BigNum>) -> Option<nat> {
    match b {
        Some(x) => Some(x@),
        None => None,
    }
}

/// The value behind an optional reference to a component.
pub open spec fn value_of_ref(b: Option<&BigNum>) -> Option<nat> {
    match b {
        Some(x) => Some(x@),
        None => None,
    }
}

/// What a component becomes when an OpenSSL `set0` call hands it `new`:
/// the new value where one is given, the old one where none is.
pub open spec fn replaced(old: Option<nat>, new: Option<nat>) -> Option<nat> {
    if new is Some {
        new
    } else {
        old
    }
}

/// The components of an RSA key as values; `None` for one the key lacks.
pub struct RsaView {
    /// The modulus.
    pub n: Option<nat>,
    /// The public exponent.
    pub e: Option<nat>,
    /// The private exponent.
    pub d: Option<nat>,
    /// The first prime factor.
    pub p: Option<nat>,
    /// The second prime factor.
    pub q: Option<nat>,
    /// `d mod (p - 1)`.
    pub dmp1: Option<nat>,
    /// `d mod (q - 1)`.
    pub dmq1: Option<nat>,
    /// `q^-1 mod p`.
    pub iqmp: Option<nat>,
}

impl RsaView {
    /// The key with no component at all, as `RSA_new` makes it.
    pub open spec fn empty() -> RsaView {
        RsaView {
            n: None,
            e: None,
            d: None,
            p: None,
            q: None,
            dmp1: None,
            dmq1: None,
            iqmp: None,
        }
    }

    /// What every key satisfies: the modulus and the public exponent come
    /// together, a private exponent only with them, the factors together,
    /// and the three CRT parameters together.
    pub open spec fn consistent(self) -> bool {
        &&& (self.n is Some) == (self.e is Some)
        &&& self.d is Some ==> self.n is Some
        &&& (self.p is Some) == (self.q is Some)
        &&& (self.dmp1 is Some) == (self.dmq1 is Some)
        &&& (self.dmq1 is Some) == (self.iqmp is Some)
    }

    /// The size of the key in bytes: that of its modulus.
    pub open spec fn size(self) -> nat {
        byte_len(self.n.unwrap())
    }

    /// Whether `RSA_set0_key` refuses these arguments: it needs a modulus and
    /// a public exponent where the key has none yet.
    pub open spec fn refuses_key(self, n: Option<nat>, e: Option<nat>) -> bool {
        (self.n is None && n is None) || (self.e is None && e is None)
    }

    /// The key after `RSA_set0_key` accepted `n`, `e` and `d`.
    pub open spec fn with_key(self, n: Option<nat>, e: Option<nat>, d: Option<nat>) -> RsaView {
        RsaView {
            n: replaced(self.n, n),
            e: replaced(self.e, e),
            d: replaced(self.d, d),
            ..self
        }
    }

    /// Whether `RSA_set0_factors` refuses these arguments: it needs both
    /// factors where the key has none yet.
    pub open spec fn refuses_factors(self, p: Option<nat>, q: Option<nat>) -> bool {
        (self.p is None && p is None) || (self.q is None && q is None)
    }

    /// The key after `RSA_set0_factors` accepted `p` and `q`.
    pub open spec fn with_factors(self, p: Option<nat>, q: Option<nat>) -> RsaView {
        RsaView { p: replaced(self.p, p), q: replaced(self.q, q), ..self }
    }

    /// Whether `RSA_set0_crt_params` refuses these arguments: it needs all
    /// three parameters where the key has none yet.
    pub open spec fn refuses_crt_params(
        self,
        dmp1: Option<nat>,
        dmq1: Option<nat>,
        iqmp: Option<nat>,
    ) -> bool {
        ||| (self.dmp1 is None && dmp1 is None)
        ||| (self.dmq1 is None && dmq1 is None)
        ||| (self.iqmp is None && iqmp is None)
    }

    /// The key after `RSA_set0_crt_params` accepted the three parameters.
    pub open spec fn with_crt_params(
        self,
        dmp1: Option<nat>,
        dmq1: Option<nat>,
        iqmp: Option<nat>,
    ) -> RsaView {
        RsaView {
            dmp1: replaced(self.dmp1, dmp1),
            dmq1: replaced(self.dmq1, dmq1),
            iqmp: replaced(self.iqmp, iqmp),
            ..self
        }
    }

    /// The public key with modulus `n` and public exponent `e`.
    pub open spec fn public(n: nat, e: nat) -> RsaView {
        RsaView { n: Some(n), e: Some(e), ..RsaView::empty() }
    }

    /// The private key with all eight components.
    pub open spec fn private(
        n: nat,
        e: nat,
        d: nat,
        p: nat,
        q: nat,
        dmp1: nat,
        dmq1: nat,
        iqmp: nat,
    ) -> RsaView {
        RsaView {
            n: Some(n),
            e: Some(e),
            d: Some(d),
            p: Some(p),
            q: Some(q),
            dmp1: Some(dmp1),
            dmq1: Some(dmq1),
            iqmp: Some(iqmp),
        }
    }
}

/// The size of a key is the length in bytes of its modulus, whatever the
/// modulus: the `k` with `256^(k-1) <= n < 256^k` (0 for a zero modulus).
pub proof fn lemma_size_is_modulus_length(k: RsaView)
    requires
        k.n is Some,
    ensures
        k.n.unwrap() < pow(256, k.size()),
        k.size() > 0 ==> pow(256, (k.size() - 1) as nat) <= k.n.unwrap(),
        k.n.unwrap() == 0 <==> k.size() == 0,
{
    lemma_byte_len_bounds(k.n.unwrap());
}

/// The keys built from components are consistent.
pub proof fn lemma_built_keys_consistent(
    n: nat,
    e: nat,
    d: nat,
    p: nat,
    q: nat,
    dmp1: nat,
    dmq1: nat,
    iqmp: nat,
)
    ensures
        RsaView::empty().consistent(),
        RsaView::public(n, e).consistent(),
        RsaView::private(n, e, d, p, q, dmp1, dmq1, iqmp).consistent(),
{
}

/// Each accepted `set0` call keeps a consistent key consistent, so every key
/// is consistent whatever calls made it.
pub proof fn lemma_set0_keeps_consistent(
    k: RsaView,
    n: Option<nat>,
    e: Option<nat>,
    d: Option<nat>,
    p: Option<nat>,
    q: Option<nat>,
    dmp1: Option<nat>,
    dmq1: Option<nat>,
    iqmp: Option<nat>,
)
    requires
        k.consistent(),
    ensures
        !k.refuses_key(n, e) ==> k.with_key(n, e, d).consistent(),
        !k.refuses_factors(p, q) ==> k.with_factors(p, q).consistent(),
        !k.refuses_crt_params(dmp1, dmq1, iqmp) ==> k.with_crt_params(dmp1, dmq1, iqmp).consistent(),
{
}

/// A key with a private exponent has a modulus and a public exponent, so
/// its size is defined and the private-key operations can check their
/// output buffer against it.
pub proof fn lemma_private_key_has_modulus(k: RsaView)
    requires
        k.consistent(),
        k.d is Some,
    ensures
        k.n is Some,
        k.e is Some,
{
}

/// The modulus and the public exponent are needed only the first time:
/// once a key has them, `RSA_set0_key` accepts any arguments, and a `d`
/// alone replaces the private exponent and keeps the rest.
pub proof fn lemma_set_key_once_keyed(k: RsaView, n: Option<nat>, e: Option<nat>, d: nat)
    requires
        k.n is Some,
        k.e is Some,
    ensures
        !k.refuses_key(n, e),
        k.with_key(None, None, Some(d)) == (RsaView { d: Some(d), ..k }),
{
}

/// What a constructor is given is what the getters read back: a public key
/// holds exactly its modulus and public exponent, a private key all eight
/// components.
pub proof fn lemma_components_read_back(
    n: nat,
    e: nat,
    d: nat,
    p: nat,
    q: nat,
    dmp1: nat,
    dmq1: nat,
    iqmp: nat,
)
    ensures
        RsaView::public(n, e).n == Some(n),
        RsaView::public(n, e).e == Some(e),
        RsaView::public(n, e).d is None,
        RsaView::public(n, e).p is None && RsaView::public(n, e).q is None,
        RsaView::public(n, e).dmp1 is None && RsaView::public(n, e).dmq1 is None
            && RsaView::public(n, e).iqmp is None,
        ({
            let k = RsaView::private(n, e, d, p, q, dmp1, dmq1, iqmp);
            &&& k.n == Some(n) && k.e == Some(e) && k.d == Some(d)
            &&& k.p == Some(p) && k.q == Some(q)
            &&& k.dmp1 == Some(dmp1) && k.dmq1 == Some(dmq1) && k.iqmp == Some(iqmp)
        }),
{
}

/// Building a key from components is the same as setting them, in the order
/// key, factors, CRT parameters, on a key without any: each call is accepted.
pub proof fn lemma_private_key_by_set0(
    n: nat,
    e: nat,
    d: nat,
    p: nat,
    q: nat,
    dmp1: nat,
    dmq1: nat,
    iqmp: nat,
)
    ensures
        !RsaView::empty().refuses_key(Some(n), Some(e)),
        !RsaView::empty().with_key(Some(n), Some(e), Some(d)).refuses_factors(Some(p), Some(q)),
        !RsaView::empty().with_key(Some(n), Some(e), Some(d)).with_factors(
            Some(p),
            Some(q),
        ).refuses_crt_params(Some(dmp1), Some(dmq1), Some(iqmp)),
        RsaView::empty().with_key(Some(n), Some(e), Some(d)).with_factors(
            Some(p),
            Some(q),
        ).with_crt_params(Some(dmp1), Some(dmq1), Some(iqmp)) == RsaView::private(
            n,
            e,
            d,
            p,
            q,
            dmp1,
            dmq1,
            iqmp,
        ),
        RsaView::empty().with_key(Some(n), Some(e), None) == RsaView::public(n, e),
{
}

/// Which OpenSSL RSA primitive a request is for.
#[derive(Debug, Clone, Copy, PartialEq, Eq, Structural)]
pub enum RsaOperation {
    PrivateDecrypt,
    PrivateEncrypt,
    PublicDecrypt,
    PublicEncrypt,
}

/// The checked arguments of one call of an OpenSSL RSA primitive
/// (`RSA_private_decrypt` and its three siblings): the length of the input
/// as the C `int` the primitive takes, and the raw padding identifier.
#[derive(Debug, Clone, Copy, PartialEq, Eq, Structural)]
pub struct CryptRequest {
    pub operation: RsaOperation,
    pub flen: c_int,
    pub padding: c_int,
}

impl CryptRequest {
    /// The outcome of the primitive, read from its return value: the number
    /// of bytes it wrote to the output, or `None` when it failed.
    pub fn finish(&self, ret: c_int) -> (r: Option<usize>)
        ensures
            ret < 0 ==> r is None,
            ret >= 0 ==> r == Some(ret as usize),
    {
        match cvt_n(ret) {
            Some(len) => Some(len as usize),
            None => None,
        }
    }
}

/// The parameters of an RSA key generation: the size of the modulus in bits
/// as the C `int` that `RSA_generate_key_ex` takes, and the public exponent.
pub struct KeyGenParams {
    pub bits: c_int,
    pub exponent: BigNum,
}

/// Picks what a `set0` call leaves in a component.
fn pick(new: Option<BigNum>, old: Option<BigNum>) -> (r: Option<BigNum>)
    ensures
        value_of(r) == replaced(value_of(old), value_of(new)),
{
    match new {
        Some(x) => Some(x),
        None => old,
    }
}

/// An RSA key, held as its components.
pub struct RsaRef {
    n: Option<BigNum>,
    e: Option<BigNum>,
    d: Option<BigNum>,
    p: Option<BigNum>,
    q: Option<BigNum>,
    dmp1: Option<BigNum>,
    dmq1: Option<BigNum>,
    iqmp: Option<BigNum>,
}

impl View for RsaRef {
    type V = RsaView;

    closed spec fn view(&self) -> RsaView {
        RsaView {
            n: value_of(self.n),
            e: value_of(self.e),
            d: value_of(self.d),
            p: value_of(self.p),
            q: value_of(self.q),
            dmp1: value_of(self.dmp1),
            dmq1: value_of(self.dmq1),
            iqmp: value_of(self.iqmp),
        }
    }
}

impl RsaRef {
    #[verifier::type_invariant]
    spec fn well_formed(self) -> bool {
        self@.consistent()
    }

    /// A key without any component.
    fn empty() -> (k: RsaRef)
        ensures
            k@ == RsaView::empty(),
    {
        RsaRef { n: None, e: None, d: None, p: None, q: None, dmp1: None, dmq1: None, iqmp: None }
    }

    /// The modulus, the public exponent and the private exponent.
    pub fn key(&self) -> (r: [Option<&BigNum>; 3])
        ensures
            value_of_ref(r@[0]) == self@.n,
            value_of_ref(r@[1]) == self@.e,
            value_of_ref(r@[2]) == self@.d,
            self@.consistent(),
    {
        proof {
            use_type_invariant(self);
        }
        [self.n.as_ref(), self.e.as_ref(), self.d.as_ref()]
    }

    /// The two prime factors.
    pub fn factors(&self) -> (r: [Option<&BigNum>; 2])
        ensures
            value_of_ref(r@[0]) == self@.p,
            value_of_ref(r@[1]) == self@.q,
            self@.consistent(),
    {
        proof {
            use_type_invariant(self);
        }
        [self.p.as_ref(), self.q.as_ref()]
    }

    /// The three CRT parameters.
    pub fn crt_params(&self) -> (r: [Option<&BigNum>; 3])
        ensures
            value_of_ref(r@[0]) == self@.dmp1,
            value_of_ref(r@[1]) == self@.dmq1,
            value_of_ref(r@[2]) == self@.iqmp,
            self@.consistent(),
    {
        proof {
            use_type_invariant(self);
        }
        [self.dmp1.as_ref(), self.dmq1.as_ref(), self.iqmp.as_ref()]
    }

    /// Sets the modulus, the public exponent and the private exponent, as
    /// `RSA_set0_key` does: each component given replaces the old one; a
    /// modulus and a public exponent must be given where the key has none
    /// yet, else nothing changes and 0 is returned. Returns 1 on success.
    pub fn set_key(&mut self, n: Option<BigNum>, e: Option<BigNum>, d: Option<BigNum>) -> (r: c_int)
        ensures
            old(self)@.refuses_key(value_of(n), value_of(e)) ==> r == 0 && final(self)@ == old(self)@,
            !old(self)@.refuses_key(value_of(n), value_of(e)) ==> r == 1 && final(self)@ == old(
                self,
            )@.with_key(value_of(n), value_of(e), value_of(d)),
    {
        proof {
            use_type_invariant(&*self);
        }
        if (self.n.is_none() && n.is_none()) || (self.e.is_none() && e.is_none()) {
            return 0;
        }
        let mut prev = RsaRef::empty();
        std::mem::swap(self, &mut prev);
        proof {
            use_type_invariant(&prev);
        }
        let RsaRef { n: on, e: oe, d: od, p, q, dmp1, dmq1, iqmp } = prev;
        *self = RsaRef { n: pick(n, on), e: pick(e, oe), d: pick(d, od), p, q, dmp1, dmq1, iqmp };
        1
    }

    /// Sets the two prime factors, as `RSA_set0_factors` does: each factor
    /// given replaces the old one; both must be given where the key has
    /// none yet, else nothing changes and 0 is returned. Returns 1 on success.
    pub fn set_factors(&mut self, p: Option<BigNum>, q: Option<BigNum>) -> (r: c_int)
        ensures
            old(self)@.refuses_factors(value_of(p), value_of(q)) ==> r == 0 && final(self)@ == old(
                self,
            )@,
            !old(self)@.refuses_factors(value_of(p), value_of(q)) ==> r == 1 && final(self)@ == old(
                self,
            )@.with_factors(value_of(p), value_of(q)),
    {
        proof {
            use_type_invariant(&*self);
        }
        if (self.p.is_none() && p.is_none()) || (self.q.is_none() && q.is_none()) {
            return 0;
        }
        let mut prev = RsaRef::empty();
        std::mem::swap(self, &mut prev);
        proof {
            use_type_invariant(&prev);
        }
        let RsaRef { n, e, d, p: op, q: oq, dmp1, dmq1, iqmp } = prev;
        *self = RsaRef { n, e, d, p: pick(p, op), q: pick(q, oq), dmp1, dmq1, iqmp };
        1
    }

    /// Sets the three CRT parameters, as `RSA_set0_crt_params` does: each
    /// parameter given replaces the old one; all three must be given where
    /// the key has none yet, else nothing changes and 0 is returned.
    /// Returns 1 on success.
    pub fn set_crt_params(
        &mut self,
        dmp1: Option<BigNum>,
        dmq1: Option<BigNum>,
        iqmp: Option<BigNum>,
    ) -> (r: c_int)
        ensures
            old(self)@.refuses_crt_params(value_of(dmp1), value_of(dmq1), value_of(iqmp)) ==> r == 0
                && final(self)@ == old(self)@,
            !old(self)@.refuses_crt_params(value_of(dmp1), value_of(dmq1), value_of(iqmp)) ==> r
                == 1 && final(self)@ == old(self)@.with_crt_params(
                value_of(dmp1),
                value_of(dmq1),
                value_of(iqmp),
            ),
    {
        proof {
            use_type_invariant(&*self);
        }
        if (self.dmp1.is_none() && dmp1.is_none()) || (self.dmq1.is_none() && dmq1.is_none()) || (
        self.iqmp.is_none() && iqmp.is_none()) {
            return 0;
        }
        let mut prev = RsaRef::empty();
        std::mem::swap(self, &mut prev);
        proof {
            use_type_invariant(&prev);
        }
        let RsaRef { n, e, d, p, q, dmp1: o1, dmq1: o2, iqmp: o3 } = prev;
        *self = RsaRef {
            n,
            e,
            d,
            p,
            q,
            dmp1: pick(dmp1, o1),
            dmq1: pick(dmq1, o2),
            iqmp: pick(iqmp, o3),
        };
        1
    }

    /// The size of the key in bytes: that of its modulus, as `RSA_size`
    /// gives it. The key must have a modulus.
    pub fn size(&self) -> (r: u32)
        requires
            self@.n is Some,
        ensures
            r == self@.size(),
            self@.n.unwrap() < pow(256, r as nat),
            r > 0 ==> pow(256, (r - 1) as nat) <= self@.n.unwrap(),
    {
        proof {
            lemma_size_is_modulus_length(self@);
        }
        match self.n() {
            Some(n) => n.num_bytes() as u32,
            None => 0,
        }
    }

    /// Checks the arguments of a decryption with the private key and gives
    /// the values handed to `RSA_private_decrypt`. The key must have its
    /// private components, the input must fit in a C `int` and the output
    /// must hold at least `self.size()` bytes.
    pub fn private_decrypt(&self, from: &[u8], to_len: usize, padding: Padding) -> (req: CryptRequest)
        requires
            self@.d is Some,
            from.len() <= i32::MAX,
            to_len >= self@.size(),
        ensures
            req == (CryptRequest {
                operation: RsaOperation::PrivateDecrypt,
                flen: from.len() as c_int,
                padding: padding.raw(),
            }),
    {
        proof {
            use_type_invariant(self);
        }
        self.request(RsaOperation::PrivateDecrypt, from, to_len, padding)
    }

    /// Checks the arguments of an encryption with the private key and gives
    /// the values handed to `RSA_private_encrypt`. The key must have its
    /// private components, the input must fit in a C `int` and the output
    /// must hold at least `self.size()` bytes.
    pub fn private_encrypt(&self, from: &[u8], to_len: usize, padding: Padding) -> (req: CryptRequest)
        requires
            self@.d is Some,
            from.len() <= i32::MAX,
            to_len >= self@.size(),
        ensures
            req == (CryptRequest {
                operation: RsaOperation::PrivateEncrypt,
                flen: from.len() as c_int,
                padding: padding.raw(),
            }),
    {
        proof {
            use_type_invariant(self);
        }
        self.request(RsaOperation::PrivateEncrypt, from, to_len, padding)
    }

    /// Checks the arguments of a decryption with the public key and gives
    /// the values handed to `RSA_public_decrypt`. The key must have a
    /// modulus, the input must fit in a C `int` and the output must hold at
    /// least `self.size()` bytes.
    pub fn public_decrypt(&self, from: &[u8], to_len: usize, padding: Padding) -> (req: CryptRequest)
        requires
            self@.n is Some,
            from.len() <= i32::MAX,
            to_len >= self@.size(),
        ensures
            req == (CryptRequest {
                operation: RsaOperation::PublicDecrypt,
                flen: from.len() as c_int,
                padding: padding.raw(),
            }),
    {
        self.request(RsaOperation::PublicDecrypt, from, to_len, padding)
    }

    /// Checks the arguments of an encryption with the public key and gives
    /// the values handed to `RSA_public_encrypt`. The key must have a
    /// modulus, the input must fit in a C `int` and the output must hold at
    /// least `self.size()` bytes.
    pub fn public_encrypt(&self, from: &[u8], to_len: usize, padding: Padding) -> (req: CryptRequest)
        requires
            self@.n is Some,
            from.len() <= i32::MAX,
            to_len >= self@.size(),
        ensures
            req == (CryptRequest {
                operation: RsaOperation::PublicEncrypt,
                flen: from.len() as c_int,
                padding: padding.raw(),
            }),
    {
        self.request(RsaOperation::PublicEncrypt, from, to_len, padding)
    }

    /// The request for `operation` on `from`, once its checks hold: the key
    /// has a modulus (a private exponent comes only with one), so its size
    /// is defined, and the output is at least that large.
    fn request(&self, operation: RsaOperation, from: &[u8], to_len: usize, padding: Padding) -> (req: CryptRequest)
        requires
            self@.n is Some,
            from.len() <= i32::MAX,
            to_len >= self@.size(),
        ensures
            req == (CryptRequest { operation, flen: from.len() as c_int, padding: padding.raw() }),
    {
        CryptRequest { operation, flen: from.len() as c_int, padding: padding.as_raw() }
    }

    /// The modulus.
    pub fn n(&self) -> (r: Option<&BigNum>)
        ensures
            value_of_ref(r) == self@.n,
    {
        self.key()[0]
    }

    /// The private exponent.
    pub fn d(&self) -> (r: Option<&BigNum>)
        ensures
            value_of_ref(r) == self@.d,
    {
        self.key()[2]
    }

    /// The public exponent.
    pub fn e(&self) -> (r: Option<&BigNum>)
        ensures
            value_of_ref(r) == self@.e,
    {
        self.key()[1]
    }

    /// The first prime factor.
    pub fn p(&self) -> (r: Option<&BigNum>)
        ensures
            value_of_ref(r) == self@.p,
    {
        self.factors()[0]
    }

    /// The second prime factor.
    pub fn q(&self) -> (r: Option<&BigNum>)
        ensures
            value_of_ref(r) == self@.q,
    {
        self.factors()[1]
    }

    /// `d mod (p - 1)`.
    pub fn dp(&self) -> (r: Option<&BigNum>)
        ensures
            value_of_ref(r) == self@.dmp1,
    {
        self.crt_params()[0]
    }

    /// `d mod (q - 1)`.
    pub fn dq(&self) -> (r: Option<&BigNum>)
        ensures
            value_of_ref(r) == self@.dmq1,
    {
        self.crt_params()[1]
    }

    /// `q^-1 mod p`.
    pub fn qi(&self) -> (r: Option<&BigNum>)
        ensures
            value_of_ref(r) == self@.iqmp,
    {
        self.crt_params()[2]
    }
}

/// An owned RSA key; it gives access to the methods of [`RsaRef`].
pub struct Rsa(RsaRef);

impl View for Rsa {
    type V = RsaView;

    closed spec fn view(&self) -> RsaView {
        self.0@
    }
}

impl core::ops::Deref for Rsa {
    type Target = RsaRef;

    fn deref(&self) -> (r: &RsaRef)
        ensures
            r@ == self@,
    {
        &self.0
    }
}

impl Rsa {
    /// A key without any component, as `RSA_new` makes it; its components
    /// are then set through [`Rsa::as_mut`].
    pub fn new() -> (k: Rsa)
        ensures
            k@ == RsaView::empty(),
    {
        Rsa(RsaRef::empty())
    }

    /// The key as a mutable [`RsaRef`], to set its components.
    pub fn as_mut(&mut self) -> (r: &mut RsaRef)
        ensures
            r@ == old(self)@,
            final(self)@ == final(r)@,
    {
        &mut self.0
    }

    /// The key as an [`RsaRef`].
    pub fn as_ref(&self) -> (r: &RsaRef)
        ensures
            r@ == self@,
    {
        &self.0
    }

    /// Creates a public key from its modulus `n` and public exponent `e`.
    ///
    /// Only useful for associating the key material directly with the key;
    /// it is safer to use the supplied load and save methods for DER
    /// formatted keys.
    pub fn from_public_components(n: BigNum, e: BigNum) -> (r: Result<Rsa, ErrorStack>)
        ensures
            r matches Ok(k) && k@ == RsaView::public(n@, e@),
    {
        let mut rsa = RsaRef::empty();
        if cvt(rsa.set_key(Some(n), Some(e), None)).is_none() {
            return Err(ErrorStack::empty());
        }
        Ok(Rsa(rsa))
    }

    /// Creates a private key from all eight of its components.
    pub fn from_private_components(
        n: BigNum,
        e: BigNum,
        d: BigNum,
        p: BigNum,
        q: BigNum,
        dp: BigNum,
        dq: BigNum,
        qi: BigNum,
    ) -> (r: Result<Rsa, ErrorStack>)
        ensures
            r matches Ok(k) && k@ == RsaView::private(n@, e@, d@, p@, q@, dp@, dq@, qi@),
    {
        let mut rsa = RsaRef::empty();
        if cvt(rsa.set_key(Some(n), Some(e), Some(d))).is_none() {
            return Err(ErrorStack::empty());
        }
        if cvt(rsa.set_factors(Some(p), Some(q))).is_none() {
            return Err(ErrorStack::empty());
        }
        if cvt(rsa.set_crt_params(Some(dp), Some(dq), Some(qi))).is_none() {
            return Err(ErrorStack::empty());
        }
        Ok(Rsa(rsa))
    }

    /// The parameters for generating a public/private key pair with a
    /// modulus of `bits` bits, handed to `RSA_generate_key_ex`.
    ///
    /// The public exponent will be 65537.
    pub fn generate(bits: u32) -> (r: Result<KeyGenParams, ErrorStack>)
        ensures
            r matches Ok(params) && params.bits == bits as c_int && params.exponent@ == 65537,
    {
        let exponent = match BigNum::from_u32(65537) {
            Ok(e) => e,
            Err(err) => return Err(err),
        };
        Ok(KeyGenParams { bits: bits as c_int, exponent })
    }

    /// The text that `Debug` shows for a key: its name only, never its
    /// components.
    pub fn fmt(&self) -> (s: String)
        ensures
            s@ == "Rsa"@,
    {
        "Rsa".to_owned()
    }
}

} // verus!
