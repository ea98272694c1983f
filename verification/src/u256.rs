//! An unsigned 256-bit integer built from four 64-bit limbs.
//!
//! Payment values and the ledger's counters are 256 bits wide, so that
//! realistic cumulative totals can never wrap. Every operation is specified
//! against the mathematical value of the limbs in base 2^64.

use vstd::prelude::*;

verus! {

/// 2^64, the weight of one limb.
pub open spec fn base() -> nat {
    0x1_0000_0000_0000_0000nat
}

/// 2^128, the weight of the third limb.
pub open spec fn base2() -> nat {
    0x1_0000_0000_0000_0000_0000_0000_0000_0000nat
}

/// 2^192, the weight of the fourth limb.
pub open spec fn base3() -> nat {
    0x1_0000_0000_0000_0000_0000_0000_0000_0000_0000_0000_0000_0000nat
}

/// 2^256, one past the largest representable value.
pub open spec fn u256_bound() -> nat {
    0x1_0000_0000_0000_0000_0000_0000_0000_0000_0000_0000_0000_0000_0000_0000_0000_0000nat
}

/// Adds two limbs and an incoming carry; returns the low limb of the sum and
/// the outgoing carry.
fn add_with_carry(x: u64, y: u64, c: u64) -> (res: (u64, u64))
    requires
        c <= 1,
    ensures
        res.1 <= 1,
        (res.0 as nat) + (res.1 as nat) * base() == (x as nat) + (y as nat) + (c as nat),
{
    let s: u128 = x as u128 + y as u128 + c as u128;
    let lo: u64 = (s % 0x1_0000_0000_0000_0000u128) as u64;
    let hi: u64 = (s / 0x1_0000_0000_0000_0000u128) as u64;
    proof {
        vstd::arithmetic::div_mod::lemma_fundamental_div_mod(s as int, base() as int);
        if s / 0x1_0000_0000_0000_0000u128 >= 2 {
            assert((s as int) / (base() as int) * (base() as int) >= 2 * (base() as int));
        }
    }
    (lo, hi)
}

/// An unsigned 256-bit integer: four 64-bit limbs, least significant first.
#[derive(Clone, Copy, Debug, PartialEq, Eq, Structural)]
pub struct U256 {
    pub l0: u64,
    pub l1: u64,
    pub l2: u64,
    pub l3: u64,
}

impl U256 {
    /// The mathematical value of the limbs in base 2^64.
    pub open spec fn as_nat(self) -> nat {
        (self.l0 as nat) + (self.l1 as nat) * base() + (self.l2 as nat) * base2() + (self.l3
            as nat) * base3()
    }

    /// The zero value.
    pub fn zero() -> (r: U256)
        ensures
            r.as_nat() == 0,
    {
        U256 { l0: 0, l1: 0, l2: 0, l3: 0 }
    }

    /// Embeds a 64-bit value.
    pub fn from_u64(v: u64) -> (r: U256)
        ensures
            r.as_nat() == v,
    {
        U256 { l0: v, l1: 0, l2: 0, l3: 0 }
    }

    /// Builds a value from its four limbs, least significant first.
    pub fn from_limbs(l0: u64, l1: u64, l2: u64, l3: u64) -> (r: U256)
        ensures
            r == (U256 { l0, l1, l2, l3 }),
    {
        U256 { l0, l1, l2, l3 }
    }

    /// Compares two values as naturals.
    pub fn lt(&self, other: &U256) -> (r: bool)
        ensures
            r == (self.as_nat() < other.as_nat()),
    {
        proof {
            self.lemma_low_limbs_bounded();
            other.lemma_low_limbs_bounded();
        }
        if self.l3 != other.l3 {
            self.l3 < other.l3
        } else if self.l2 != other.l2 {
            self.l2 < other.l2
        } else if self.l1 != other.l1 {
            self.l1 < other.l1
        } else {
            self.l0 < other.l0
        }
    }

    /// The limbs below a given position never outweigh one unit at that
    /// position: each prefix of the value lies below the next limb's weight.
    proof fn lemma_low_limbs_bounded(self)
        ensures
            (self.l0 as nat) < base(),
            (self.l0 as nat) + (self.l1 as nat) * base() < base2(),
            (self.l0 as nat) + (self.l1 as nat) * base() + (self.l2 as nat) * base2() < base3(),
            self.as_nat() < u256_bound(),
    {
        assert((self.l1 as nat) * base() <= 0xffff_ffff_ffff_ffffnat * base());
        assert((self.l2 as nat) * base2() <= 0xffff_ffff_ffff_ffffnat * base2());
        assert((self.l3 as nat) * base3() <= 0xffff_ffff_ffff_ffffnat * base3());
    }

    /// Adds two values whose sum is representable.
    pub fn add(&self, other: &U256) -> (r: U256)
        requires
            self.as_nat() + other.as_nat() < u256_bound(),
        ensures
            r.as_nat() == self.as_nat() + other.as_nat(),
    {
        let (r0, c0) = add_with_carry(self.l0, other.l0, 0);
        let (r1, c1) = add_with_carry(self.l1, other.l1, c0);
        let (r2, c2) = add_with_carry(self.l2, other.l2, c1);
        let (r3, c3) = add_with_carry(self.l3, other.l3, c2);
        let r = U256 { l0: r0, l1: r1, l2: r2, l3: r3 };
        proof {
            assert(self.as_nat() + other.as_nat() == r.as_nat() + (c3 as nat) * u256_bound())
                by {
                assert((self.l1 + other.l1 + c0) * base() == (r1 + c1 * base()) * base());
                assert((self.l2 + other.l2 + c1) * base2() == (r2 + c2 * base()) * base2());
                assert((self.l3 + other.l3 + c2) * base3() == (r3 + c3 * base()) * base3());
            };
        }
        r
    }

    /// Tests for zero.
    pub fn is_zero(&self) -> (r: bool)
        ensures
            r == (self.as_nat() == 0),
    {
        proof {
            if self.l1 != 0 {
                assert((self.l1 as nat) * base() >= base());
            }
            if self.l2 != 0 {
                assert((self.l2 as nat) * base2() >= base2());
            }
            if self.l3 != 0 {
                assert((self.l3 as nat) * base3() >= base3());
            }
        }
        self.l0 == 0 && self.l1 == 0 && self.l2 == 0 && self.l3 == 0
    }
}

} // verus!
