//! A 256-bit unsigned integer held as four little-endian 64-bit limbs.

use vstd::prelude::*;

verus! {

/// One limb's range: 2^64.
pub open spec fn limb_base() -> nat {
    0x1_0000_0000_0000_0000nat
}

/// The number of distinct 256-bit values: 2^256.
pub open spec fn u256_modulus() -> nat {
    limb_base() * limb_base() * limb_base() * limb_base()
}

/// A 256-bit unsigned integer; `limb0` is the least significant limb.
#[derive(Clone, Copy, Debug, PartialEq, Eq, Structural)]
pub struct U256 {
    pub limb0: u64,
    pub limb1: u64,
    pub limb2: u64,
    pub limb3: u64,
}

impl View for U256 {
    type V = nat;

    open spec fn view(&self) -> nat {
        self.limb0 as nat + limb_base() * (self.limb1 as nat + limb_base() * (self.limb2 as nat
            + limb_base() * self.limb3 as nat))
    }
}

const LIMB_BASE: u128 = 0x1_0000_0000_0000_0000;

/// One step of a limb product: `w * m + carry` split into a low limb and a carry.
fn mul_limb(w: u64, m: u64, carry: u64) -> (r: (u64, u64))
    ensures
        r.0 as nat + limb_base() * r.1 as nat == w as nat * m as nat + carry as nat,
{
    proof {
        assert((w as nat) * (m as nat) <= 0xffff_ffff_ffff_ffffnat * 0xffff_ffff_ffff_ffffnat)
            by (nonlinear_arith);
    }
    let p: u128 = (w as u128) * (m as u128) + carry as u128;
    let lo: u64 = (p % LIMB_BASE) as u64;
    let hi: u64 = (p / LIMB_BASE) as u64;
    (lo, hi)
}


/// One step of long division: `(rem * 2^64 + w) / d`, with the new remainder.
fn div_limb(rem: u64, w: u64, d: u64) -> (r: (u64, u64))
    requires
        rem < d,
    ensures
        r.1 < d,
        limb_base() * rem as nat + w as nat == r.0 as nat * d as nat + r.1 as nat,
{
    proof {
        assert((rem as nat) * limb_base() + (w as nat) < (d as nat) * limb_base()) by (nonlinear_arith)
            requires
                rem < d,
                w < limb_base(),
        ;
    }
    let cur: u128 = (rem as u128) * LIMB_BASE + w as u128;
    let q: u128 = cur / d as u128;
    let m: u128 = cur % d as u128;
    proof {
        assert(q < limb_base()) by (nonlinear_arith)
            requires
                q == (cur as int) / (d as int),
                cur < (d as nat) * limb_base(),
                d > 0,
        ;
        assert(cur == q * d + m) by (nonlinear_arith)
            requires
                q == (cur as int) / (d as int),
                m == (cur as int) % (d as int),
                d > 0,
        ;
    }
    (q as u64, m as u64)
}

proof fn lemma_mul_limbs(
    w0: int, w1: int, w2: int, w3: int, m: int,
    r0: int, r1: int, r2: int, r3: int,
    c1: int, c2: int, c3: int, c4: int,
)
    requires
        r0 + limb_base() * c1 == w0 * m,
        r1 + limb_base() * c2 == w1 * m + c1,
        r2 + limb_base() * c3 == w2 * m + c2,
        r3 + limb_base() * c4 == w3 * m + c3,
    ensures
        r0 + limb_base() * (r1 + limb_base() * (r2 + limb_base() * r3)) + u256_modulus() * c4
            == m * (w0 + limb_base() * (w1 + limb_base() * (w2 + limb_base() * w3))),
{
    let b = limb_base() as int;
    let s2 = r2 + b * (r3 + b * c4);
    assert(s2 == m * (w2 + b * w3) + c2) by (nonlinear_arith)
        requires
            s2 == r2 + b * (r3 + b * c4),
            r2 + b * c3 == w2 * m + c2,
            r3 + b * c4 == w3 * m + c3,
    ;
    let s1 = r1 + b * s2;
    assert(s1 == m * (w1 + b * (w2 + b * w3)) + c1) by (nonlinear_arith)
        requires
            s1 == r1 + b * s2,
            s2 == m * (w2 + b * w3) + c2,
            r1 + b * c2 == w1 * m + c1,
    ;
    assert(r0 + b * s1 == m * (w0 + b * (w1 + b * (w2 + b * w3)))) by (nonlinear_arith)
        requires
            s1 == m * (w1 + b * (w2 + b * w3)) + c1,
            r0 + b * c1 == w0 * m,
    ;
    assert(r0 + b * s1 == r0 + b * (r1 + b * (r2 + b * r3)) + b * b * b * b * c4)
        by (nonlinear_arith)
        requires
            s1 == r1 + b * s2,
            s2 == r2 + b * (r3 + b * c4),
    ;
}

proof fn lemma_div_limbs(
    w0: int, w1: int, w2: int, w3: int, d: int,
    q0: int, q1: int, q2: int, q3: int,
    m0: int, m1: int, m2: int, m3: int,
)
    requires
        w3 == q3 * d + m3,
        limb_base() * m3 + w2 == q2 * d + m2,
        limb_base() * m2 + w1 == q1 * d + m1,
        limb_base() * m1 + w0 == q0 * d + m0,
    ensures
        w0 + limb_base() * (w1 + limb_base() * (w2 + limb_base() * w3))
            == d * (q0 + limb_base() * (q1 + limb_base() * (q2 + limb_base() * q3))) + m0,
{
    let b = limb_base() as int;
    assert(w0 + b * (w1 + b * (w2 + b * w3)) == d * (q0 + b * (q1 + b * (q2 + b * q3))) + m0)
        by (nonlinear_arith)
        requires
            w3 == q3 * d + m3,
            b * m3 + w2 == q2 * d + m2,
            b * m2 + w1 == q1 * d + m1,
            b * m1 + w0 == q0 * d + m0,
    ;
}

/// Every 256-bit value lies below 2^256.
pub proof fn lemma_u256_bound(x: U256)
    ensures
        x@ < u256_modulus(),
{
    let b = limb_base() as int;
    assert((x.limb0 as int) + b * ((x.limb1 as int) + b * ((x.limb2 as int) + b * (x.limb3 as int)))
        < b * b * b * b) by (nonlinear_arith)
        requires
            0 <= x.limb0 < b,
            0 <= x.limb1 < b,
            0 <= x.limb2 < b,
            0 <= x.limb3 < b,
    ;
}

impl U256 {
    /// The value zero.
    pub fn zero() -> (r: U256)
        ensures
            r@ == 0,
    {
        U256 { limb0: 0, limb1: 0, limb2: 0, limb3: 0 }
    }

    /// The largest value, 2^256 - 1.
    pub fn max_value() -> (r: U256)
        ensures
            r@ == u256_modulus() - 1,
    {
        let m: u64 = 0xffff_ffff_ffff_ffff;
        U256 { limb0: m, limb1: m, limb2: m, limb3: m }
    }

    /// The value of a 64-bit integer.
    pub fn from_u64(v: u64) -> (r: U256)
        ensures
            r@ == v as nat,
    {
        U256 { limb0: v, limb1: 0, limb2: 0, limb3: 0 }
    }

    /// The product `self * m`, or `None` where it does not fit in 256 bits.
    pub fn checked_mul_u64(&self, m: u64) -> (r: Option<U256>)
        ensures
            r is Some <==> self@ * m < u256_modulus(),
            r matches Some(v) ==> v@ == self@ * m,
    {
        let (r0, c1) = mul_limb(self.limb0, m, 0);
        let (r1, c2) = mul_limb(self.limb1, m, c1);
        let (r2, c3) = mul_limb(self.limb2, m, c2);
        let (r3, c4) = mul_limb(self.limb3, m, c3);
        let v = U256 { limb0: r0, limb1: r1, limb2: r2, limb3: r3 };
        proof {
            lemma_mul_limbs(
                self.limb0 as int, self.limb1 as int, self.limb2 as int, self.limb3 as int,
                m as int, r0 as int, r1 as int, r2 as int, r3 as int,
                c1 as int, c2 as int, c3 as int, c4 as int,
            );
            let prod = self@ * m;
            assert(v@ + u256_modulus() * c4 == prod) by (nonlinear_arith)
                requires
                    v@ + u256_modulus() * c4 == m * self@,
                    prod == self@ * m,
            ;
            lemma_u256_bound(v);
            if c4 > 0 {
                assert(u256_modulus() * c4 >= u256_modulus()) by (nonlinear_arith)
                    requires
                        c4 >= 1,
                ;
            }
        }
        if c4 == 0 {
            assert(u256_modulus() * c4 == 0) by (nonlinear_arith)
                requires
                    c4 == 0,
            ;
            Some(v)
        } else {
            None
        }
    }

    /// The quotient `self / d` rounded down, or `None` where `d` is zero.
    pub fn checked_div_u64(&self, d: u64) -> (r: Option<U256>)
        ensures
            r is Some <==> d != 0,
            r matches Some(v) ==> v@ == self@ / d as nat,
    {
        if d == 0 {
            return None;
        }
        let (q3, m3) = div_limb(0, self.limb3, d);
        let (q2, m2) = div_limb(m3, self.limb2, d);
        let (q1, m1) = div_limb(m2, self.limb1, d);
        let (q0, m0) = div_limb(m1, self.limb0, d);
        let v = U256 { limb0: q0, limb1: q1, limb2: q2, limb3: q3 };
        proof {
            lemma_div_limbs(
                self.limb0 as int, self.limb1 as int, self.limb2 as int, self.limb3 as int,
                d as int, q0 as int, q1 as int, q2 as int, q3 as int,
                m0 as int, m1 as int, m2 as int, m3 as int,
            );
            assert(self@ == (v@ as int) * (d as int) + m0) by (nonlinear_arith)
                requires
                    self@ == (d as int) * (v@ as int) + m0,
            ;
            vstd::arithmetic::div_mod::lemma_fundamental_div_mod_converse(
                self@ as int, d as int, v@ as int, m0 as int);
        }
        Some(v)
    }
}

impl From<u64> for U256 {
    fn from(v: u64) -> (r: U256) {
        U256::from_u64(v)
    }
}

impl vstd::std_specs::convert::FromSpecImpl<u64> for U256 {
    open spec fn obeys_from_spec() -> bool {
        true
    }

    open spec fn from_spec(v: u64) -> U256 {
        U256 { limb0: v, limb1: 0, limb2: 0, limb3: 0 }
    }
}

} // verus!
