//! Unsigned 256-bit integers, built from two 128-bit halves.
//!
//! Amounts, bonds and the fixed-point reward index of the revenue
//! accumulator are 256-bit values.  Every operation here is proved against
//! the mathematical value of its operands (the view, a `nat`).
use vstd::arithmetic::div_mod::lemma_fundamental_div_mod;
use vstd::arithmetic::div_mod::lemma_fundamental_div_mod_converse;
use vstd::prelude::*;
use crate::text::{decimal, push_digit};

verus! {

/// 2^64.
#[verifier::inline]
pub open spec fn b64() -> int {
    0x1_0000_0000_0000_0000int
}

/// 2^128.
#[verifier::inline]
pub open spec fn b128() -> int {
    0x1_0000_0000_0000_0000_0000_0000_0000_0000int
}

/// 2^256 - 1, the largest value a `U256` holds.
#[verifier::inline]
pub open spec fn u256_max() -> int {
    b128() * b128() - 1
}

/// An unsigned 256-bit integer: `hi * 2^128 + lo`.
#[derive(Clone, Copy, Debug, PartialEq, Eq, Structural)]
pub struct U256 {
    /// The upper 128 bits.
    pub hi: u128,
    /// The lower 128 bits.
    pub lo: u128,
}

impl View for U256 {
    type V = nat;

    open spec fn view(&self) -> nat {
        (self.hi as nat) * (b128() as nat) + (self.lo as nat)
    }
}

/// The value of `hi * 2^128 + lo` never exceeds `u256_max()`.
pub proof fn lemma_u256_bounded(x: U256)
    ensures
        0 <= x@ <= u256_max(),
{
    let h = x.hi as int;
    let l = x.lo as int;
    assert(h * b128() + l <= u256_max()) by (nonlinear_arith)
        requires
            0 <= h < b128(),
            0 <= l < b128(),
    ;
}

/// Two `U256` values with the same number are the same value.
pub proof fn lemma_u256_view_injective(x: U256, y: U256)
    requires
        x@ == y@,
    ensures
        x == y,
{
    let xh = x.hi as int;
    let xl = x.lo as int;
    let yh = y.hi as int;
    let yl = y.lo as int;
    lemma_fundamental_div_mod_converse(x@ as int, b128(), xh, xl);
    lemma_fundamental_div_mod_converse(y@ as int, b128(), yh, yl);
}

impl U256 {
    /// The number zero.
    pub fn zero() -> (r: U256)
        ensures
            r@ == 0,
    {
        U256 { hi: 0, lo: 0 }
    }

    /// The value of a `u64`.
    pub fn from_u64(v: u64) -> (r: U256)
        ensures
            r@ == v,
    {
        U256 { hi: 0, lo: v as u128 }
    }

    /// The value of a `u128`.
    pub fn from_u128(v: u128) -> (r: U256)
        ensures
            r@ == v,
    {
        U256 { hi: 0, lo: v }
    }

    /// 2^128, the scale of the 128.128 fixed-point format.
    pub fn fixed_point_scale() -> (r: U256)
        ensures
            r@ == b128(),
    {
        U256 { hi: 1, lo: 0 }
    }

    /// Whether the value is zero.
    pub fn is_zero(&self) -> (r: bool)
        ensures
            r == (self@ == 0),
    {
        self.hi == 0 && self.lo == 0
    }

    /// Whether `self < other`.
    pub fn lt(&self, other: &U256) -> (r: bool)
        ensures
            r == (self@ < other@),
    {
        self.hi < other.hi || (self.hi == other.hi && self.lo < other.lo)
    }

    /// Whether `self <= other`.
    pub fn le(&self, other: &U256) -> (r: bool)
        ensures
            r == (self@ <= other@),
    {
        self.hi < other.hi || (self.hi == other.hi && self.lo <= other.lo)
    }

    /// Whether both hold the same number.
    pub fn eq_value(&self, other: &U256) -> (r: bool)
        ensures
            r == (self@ == other@),
            r == (*self == *other),
    {
        proof {
            if self@ == other@ {
                lemma_u256_view_injective(*self, *other);
            }
        }
        self.hi == other.hi && self.lo == other.lo
    }

    /// `self + other`, or `None` when the sum exceeds 2^256 - 1.
    pub fn checked_add(&self, other: &U256) -> (r: Option<U256>)
        ensures
            match r {
                Some(s) => s@ == self@ + other@,
                None => self@ + other@ > u256_max(),
            },
    {
        let (lo, carry): (u128, u128) = if self.lo <= u128::MAX - other.lo {
            (self.lo + other.lo, 0)
        } else {
            (self.lo - (u128::MAX - other.lo) - 1, 1)
        };
        assert(lo + carry * b128() == self.lo + other.lo);
        if self.hi > u128::MAX - other.hi {
            None
        } else {
            let h: u128 = self.hi + other.hi;
            if h > u128::MAX - carry {
                None
            } else {
                Some(U256 { hi: h + carry, lo })
            }
        }
    }

    /// `self - other`, where `other <= self`.
    pub fn minus(&self, other: &U256) -> (r: U256)
        requires
            other@ <= self@,
        ensures
            r@ == self@ - other@,
    {
        if self.lo >= other.lo {
            U256 { hi: self.hi - other.hi, lo: self.lo - other.lo }
        } else {
            let lo: u128 = u128::MAX - (other.lo - self.lo) + 1;
            U256 { hi: self.hi - other.hi - 1, lo }
        }
    }

    /// `self * m`, or `None` when the product exceeds 2^256 - 1.
    pub fn checked_mul_u64(&self, m: u64) -> (r: Option<U256>)
        ensures
            match r {
                Some(p) => p@ == self@ * m,
                None => self@ * m > u256_max(),
            },
    {
        let a: u128 = self.lo / 0x1_0000_0000_0000_0000;
        let b: u128 = self.lo % 0x1_0000_0000_0000_0000;
        let mm: u128 = m as u128;
        assert(a < b64() && b < b64()) by (nonlinear_arith)
            requires
                a == (self.lo as int) / b64(),
                b == (self.lo as int) % b64(),
                self.lo < b128(),
        ;
        assert(a * mm < b128() && b * mm < b128()) by (nonlinear_arith)
            requires
                a < b64(),
                b < b64(),
                mm < b64(),
        ;
        let p0: u128 = b * mm;
        let p1: u128 = a * mm;
        let p1_hi: u128 = p1 / 0x1_0000_0000_0000_0000;
        let p1_lo: u128 = p1 % 0x1_0000_0000_0000_0000;
        assert(p1_lo * b64() < b128() && p1_hi < b64()) by (nonlinear_arith)
            requires
                p1_lo == (p1 as int) % b64(),
                p1_hi == (p1 as int) / b64(),
                p1 < b128(),
        ;
        let t: u128 = p1_lo * 0x1_0000_0000_0000_0000;
        let (lo, carry): (u128, u128) = if t <= u128::MAX - p0 {
            (t + p0, 0)
        } else {
            (t - (u128::MAX - p0) - 1, 1)
        };
        let ghost h = self.hi as int;
        let ghost l = self.lo as int;
        proof {
            lemma_fundamental_div_mod(l, b64());
            lemma_fundamental_div_mod(p1 as int, b64());
            // self * m == h*m*B128 + p1*B64 + p0
            //          == (h*m + p1_hi)*B128 + t + p0
            assert(self@ * m == (h * m + p1_hi) * b128() + lo + carry * b128()) by (nonlinear_arith)
                requires
                    self@ == h * b128() + l,
                    l == b64() * a + b,
                    p0 == b * mm,
                    p1 == a * mm,
                    mm == m,
                    p1 == b64() * p1_hi + p1_lo,
                    t == p1_lo * b64(),
                    lo + carry * b128() == t + p0,
                    b128() == b64() * b64(),
            ;
        }
        match self.hi.checked_mul(mm) {
            None => {
                proof {
                    assert(self@ * m > u256_max()) by (nonlinear_arith)
                        requires
                            h * mm > u128::MAX,
                            self@ * m == (h * m + p1_hi) * b128() + lo + carry * b128(),
                            mm == m,
                            0 <= lo,
                            0 <= carry,
                            0 <= p1_hi,
                            u256_max() == b128() * b128() - 1,
                            u128::MAX == b128() - 1,
                    ;
                }
                None
            },
            Some(ph) => {
                if ph > u128::MAX - p1_hi {
                    proof {
                        assert(self@ * m > u256_max()) by (nonlinear_arith)
                            requires
                                ph + p1_hi > u128::MAX,
                                ph == h * m,
                                self@ * m == (h * m + p1_hi) * b128() + lo + carry * b128(),
                                0 <= lo,
                                0 <= carry,
                                u256_max() == b128() * b128() - 1,
                                u128::MAX == b128() - 1,
                        ;
                    }
                    None
                } else {
                    let s: u128 = ph + p1_hi;
                    if s > u128::MAX - carry {
                        proof {
                            assert(self@ * m > u256_max()) by (nonlinear_arith)
                                requires
                                    s + carry > u128::MAX,
                                    s == h * m + p1_hi,
                                    self@ * m == (h * m + p1_hi) * b128() + lo + carry * b128(),
                                    0 <= lo,
                                    u256_max() == b128() * b128() - 1,
                                    u128::MAX == b128() - 1,
                            ;
                        }
                        None
                    } else {
                        Some(U256 { hi: s + carry, lo })
                    }
                }
            },
        }
    }

    /// `self / d`, rounded down.
    pub fn div_u64(&self, d: u64) -> (r: U256)
        requires
            d > 0,
        ensures
            r@ == (self@ as int) / (d as int),
    {
        let dd: u128 = d as u128;
        let q_hi: u128 = self.hi / dd;
        let r0: u128 = self.hi % dd;
        let a: u128 = self.lo / 0x1_0000_0000_0000_0000;
        let b: u128 = self.lo % 0x1_0000_0000_0000_0000;
        assert(a < b64() && b < b64() && r0 < dd) by (nonlinear_arith)
            requires
                a == (self.lo as int) / b64(),
                b == (self.lo as int) % b64(),
                self.lo < b128(),
                r0 == (self.hi as int) % (dd as int),
                dd > 0,
        ;
        assert(r0 * b64() + a < dd * b64()) by (nonlinear_arith)
            requires
                r0 < dd,
                a < b64(),
        ;
        assert(dd * b64() <= b128()) by (nonlinear_arith)
            requires
                dd < b64(),
        ;
        let cur1: u128 = r0 * 0x1_0000_0000_0000_0000 + a;
        let q1: u128 = cur1 / dd;
        let r1: u128 = cur1 % dd;
        assert(q1 < b64() && r1 < dd) by (nonlinear_arith)
            requires
                q1 == (cur1 as int) / (dd as int),
                r1 == (cur1 as int) % (dd as int),
                cur1 < dd * b64(),
                dd > 0,
        ;
        assert(r1 * b64() + b < dd * b64()) by (nonlinear_arith)
            requires
                r1 < dd,
                b < b64(),
        ;
        let cur2: u128 = r1 * 0x1_0000_0000_0000_0000 + b;
        let q2: u128 = cur2 / dd;
        let r2: u128 = cur2 % dd;
        assert(q2 < b64() && r2 < dd) by (nonlinear_arith)
            requires
                q2 == (cur2 as int) / (dd as int),
                r2 == (cur2 as int) % (dd as int),
                cur2 < dd * b64(),
                dd > 0,
        ;
        assert(q1 * b64() + q2 < b128()) by (nonlinear_arith)
            requires
                q1 < b64(),
                q2 < b64(),
        ;
        let lo_q: u128 = q1 * 0x1_0000_0000_0000_0000 + q2;
        let res = U256 { hi: q_hi, lo: lo_q };
        proof {
            let h = self.hi as int;
            let l = self.lo as int;
            lemma_fundamental_div_mod(h, dd as int);
            lemma_fundamental_div_mod(l, b64());
            lemma_fundamental_div_mod(cur1 as int, dd as int);
            lemma_fundamental_div_mod(cur2 as int, dd as int);
            assert(self@ == res@ * dd + r2) by (nonlinear_arith)
                requires
                    self@ == h * b128() + l,
                    h == dd * q_hi + r0,
                    l == b64() * a + b,
                    cur1 == r0 * b64() + a,
                    cur1 == dd * q1 + r1,
                    cur2 == r1 * b64() + b,
                    cur2 == dd * q2 + r2,
                    res@ == q_hi * b128() + lo_q,
                    lo_q == q1 * b64() + q2,
                    b128() == b64() * b64(),
            ;
            lemma_fundamental_div_mod_converse(self@ as int, dd as int, res@ as int, r2 as int);
        }
        res
    }

    /// `self * 2^128`, or `None` when the product exceeds 2^256 - 1.
    pub fn checked_shl128(&self) -> (r: Option<U256>)
        ensures
            match r {
                Some(p) => p@ == self@ * b128(),
                None => self@ * b128() > u256_max(),
            },
    {
        if self.hi != 0 {
            proof {
                let h = self.hi as int;
                let l = self.lo as int;
                assert((h * b128() + l) * b128() > u256_max()) by (nonlinear_arith)
                    requires
                        h >= 1,
                        l >= 0,
                        u256_max() == b128() * b128() - 1,
                ;
            }
            None
        } else {
            Some(U256 { hi: self.lo, lo: 0 })
        }
    }

    /// `self / 2^128`, rounded down.
    pub fn shr128(&self) -> (r: U256)
        ensures
            r@ == (self@ as int) / b128(),
    {
        proof {
            lemma_fundamental_div_mod_converse(self@ as int, b128(), self.hi as int, self.lo as int);
        }
        U256 { hi: 0, lo: self.hi }
    }
}

impl From<u64> for U256 {
    fn from(v: u64) -> (r: U256) {
        U256 { hi: 0, lo: v as u128 }
    }
}

impl vstd::std_specs::convert::FromSpecImpl<u64> for U256 {
    open spec fn obeys_from_spec() -> bool {
        true
    }

    open spec fn from_spec(v: u64) -> U256 {
        U256 { hi: 0, lo: v as u128 }
    }
}

/// Appends the decimal rendering of `v` to `s`.
pub fn push_decimal_u256(s: &mut String, v: U256)
    ensures
        final(s)@ == old(s)@ + decimal(v@),
    decreases v@,
{
    let q = v.div_u64(10);
    if !q.is_zero() {
        push_decimal_u256(s, q);
    }
    let prod = match q.checked_mul_u64(10) {
        Some(p) => p,
        None => {
            proof {
                lemma_u256_bounded(v);
            }
            return;
        },
    };
    let rem = v.minus(&prod);
    proof {
        assert(rem@ == v@ % 10);
        assert(rem.hi == 0) by {
            if rem.hi > 0 {
                assert(rem@ >= b128()) by (nonlinear_arith)
                    requires
                        rem@ == (rem.hi as nat) * (b128() as nat) + (rem.lo as nat),
                        rem.hi >= 1,
                ;
            }
        }
    }
    let d: u8 = rem.lo as u8;
    push_digit(s, d);
    assert(final(s)@ =~= old(s)@ + decimal(v@));
}

} // verus!
