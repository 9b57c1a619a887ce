//! Unsigned 256-bit amounts, held as four little-endian 64-bit limbs.
//!
//! The arithmetic itself is done by `ruint` (through `stylus_sdk`'s
//! `alloy_primitives::U256`); this module only moves limbs in and out.
use vstd::prelude::*;

verus! {

/// 2^64, the weight of one limb.
pub open spec fn limb_base() -> nat {
    0x1_0000_0000_0000_0000nat
}

/// 2^256: every value of `U256` is below it.
pub open spec fn modulus() -> nat {
    limb_base() * limb_base() * limb_base() * limb_base()
}

/// An unsigned 256-bit integer.
#[derive(Clone, Copy, Debug, PartialEq, Eq)]
pub struct U256 {
    /// Least significant limb first.
    pub limbs: [u64; 4],
}

impl U256 {
    /// The number this value stands for.
    pub open spec fn value(self) -> nat {
        self.limbs[0] as nat + limb_base() * (self.limbs[1] as nat + limb_base() * (
        self.limbs[2] as nat + limb_base() * (self.limbs[3] as nat)))
    }

    pub fn zero() -> (r: U256)
        ensures
            r.value() == 0,
    {
        U256 { limbs: [0u64, 0u64, 0u64, 0u64] }
    }

    /// A value that fits in 64 bits.
    pub fn from_u64(n: u64) -> (r: U256)
        ensures
            r.value() == n as nat,
    {
        U256 { limbs: [n, 0u64, 0u64, 0u64] }
    }

    pub fn is_zero(&self) -> (r: bool)
        ensures
            r == (self.value() == 0),
    {
        let r = self.limbs[0] == 0 && self.limbs[1] == 0 && self.limbs[2] == 0 && self.limbs[3]
            == 0;
        proof {
            lemma_value_zero_iff_limbs_zero(*self);
        }
        r
    }

    /// `self + rhs`, or `None` where the sum does not fit in 256 bits.
    pub fn checked_add(self, rhs: U256) -> (r: Option<U256>)
        ensures
            r is None <==> self.value() + rhs.value() >= modulus(),
            r matches Some(s) ==> s.value() == self.value() + rhs.value(),
    {
        ruint_checked_add(self, rhs)
    }

    /// `self - rhs`, or `None` where `rhs` is the larger.
    pub fn checked_sub(self, rhs: U256) -> (r: Option<U256>)
        ensures
            r is None <==> self.value() < rhs.value(),
            r matches Some(d) ==> d.value() == self.value() - rhs.value(),
    {
        ruint_checked_sub(self, rhs)
    }

    /// `self + rhs` modulo 2^256.
    pub fn wrapping_add(self, rhs: U256) -> (r: U256)
        ensures
            r.value() == (self.value() + rhs.value()) % modulus(),
    {
        ruint_wrapping_add(self, rhs)
    }

    /// `self * rhs` modulo 2^256.
    pub fn wrapping_mul(self, rhs: U256) -> (r: U256)
        ensures
            r.value() == (self.value() * rhs.value()) % modulus(),
    {
        ruint_wrapping_mul(self, rhs)
    }
}

impl U256 {
    /// Every value fits in 256 bits.
    pub proof fn lemma_value_bounded(self)
        ensures
            self.value() < modulus(),
    {
        let b = limb_base();
        let (l0, l1, l2, l3) = (
            self.limbs[0] as nat,
            self.limbs[1] as nat,
            self.limbs[2] as nat,
            self.limbs[3] as nat,
        );
        let t = l2 + b * l3;
        assert(t < b * b) by (nonlinear_arith)
            requires
                l2 < b,
                l3 < b,
                t == l2 + b * l3,
        ;
        let u = l1 + b * t;
        assert(u < b * b * b) by (nonlinear_arith)
            requires
                l1 < b,
                t < b * b,
                u == l1 + b * t,
        ;
        assert(l0 + b * u < b * b * b * b) by (nonlinear_arith)
            requires
                l0 < b,
                u < b * b * b,
        ;
    }
}

proof fn lemma_value_zero_iff_limbs_zero(x: U256)
    ensures
        x.value() == 0 <==> (x.limbs[0] == 0 && x.limbs[1] == 0 && x.limbs[2] == 0 && x.limbs[3]
            == 0),
{
    let b = limb_base();
    let (l0, l1, l2, l3) = (
        x.limbs[0] as nat,
        x.limbs[1] as nat,
        x.limbs[2] as nat,
        x.limbs[3] as nat,
    );
    let t = l2 + b * l3;
    let u = l1 + b * t;
    assert(b * l3 >= 0) by (nonlinear_arith);
    assert(l3 > 0 ==> b * l3 > 0) by (nonlinear_arith)
        requires
            b > 0,
    ;
    assert(u > 0 ==> b * u > 0) by (nonlinear_arith)
        requires
            b > 0,
    ;
    assert(t > 0 ==> b * t > 0) by (nonlinear_arith)
        requires
            b > 0,
    ;
    assert(b * t >= 0) by (nonlinear_arith);
    assert(b * u >= 0) by (nonlinear_arith);
}

/// Relies on ruint's `Uint::checked_add`: `None` exactly when the sum
/// overflows 256 bits, else the sum. `from_limbs` cannot panic at 256 bits
/// (no partial top limb to mask).
#[verifier::external_body]
fn ruint_checked_add(a: U256, b: U256) -> (r: Option<U256>)
    ensures
        r is None <==> a.value() + b.value() >= modulus(),
        r matches Some(s) ==> s.value() == a.value() + b.value(),
{
    let x = stylus_sdk::alloy_primitives::U256::from_limbs(a.limbs);
    let y = stylus_sdk::alloy_primitives::U256::from_limbs(b.limbs);
    x.checked_add(y).map(|s| U256 { limbs: s.into_limbs() })
}

/// Relies on ruint's `Uint::checked_sub`: `None` exactly when `b > a`,
/// else the difference.
#[verifier::external_body]
fn ruint_checked_sub(a: U256, b: U256) -> (r: Option<U256>)
    ensures
        r is None <==> a.value() < b.value(),
        r matches Some(d) ==> d.value() == a.value() - b.value(),
{
    let x = stylus_sdk::alloy_primitives::U256::from_limbs(a.limbs);
    let y = stylus_sdk::alloy_primitives::U256::from_limbs(b.limbs);
    x.checked_sub(y).map(|d| U256 { limbs: d.into_limbs() })
}

/// Relies on ruint's `Uint::wrapping_add` (what `+` on `U256` calls): the
/// sum modulo 2^256.
#[verifier::external_body]
fn ruint_wrapping_add(a: U256, b: U256) -> (r: U256)
    ensures
        r.value() == (a.value() + b.value()) % modulus(),
{
    let x = stylus_sdk::alloy_primitives::U256::from_limbs(a.limbs);
    let y = stylus_sdk::alloy_primitives::U256::from_limbs(b.limbs);
    U256 { limbs: x.wrapping_add(y).into_limbs() }
}

/// Relies on ruint's `Uint::wrapping_mul` (what `*` on `U256` calls): the
/// product modulo 2^256.
#[verifier::external_body]
fn ruint_wrapping_mul(a: U256, b: U256) -> (r: U256)
    ensures
        r.value() == (a.value() * b.value()) % modulus(),
{
    let x = stylus_sdk::alloy_primitives::U256::from_limbs(a.limbs);
    let y = stylus_sdk::alloy_primitives::U256::from_limbs(b.limbs);
    U256 { limbs: x.wrapping_mul(y).into_limbs() }
}

} // verus!
