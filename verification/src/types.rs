//! Plain-value models of the EVM primitive types the core works on:
//! 160-bit addresses and 256-bit words.

use vstd::prelude::*;

verus! {

/// Number of distinct values of a 128-bit limb, as a spec-level constant.
pub open spec fn pow128() -> nat {
    0x100000000000000000000000000000000nat
}

/// Number of distinct values of a 256-bit word.
pub open spec fn pow256() -> nat {
    pow128() * pow128()
}

/// A 160-bit EVM address, split into a high 32-bit part and a low 128-bit
/// part so that all logic on it stays within machine integers.
#[derive(Clone, Copy, Debug, PartialEq, Eq, Hash, Structural)]
pub struct EVMAddress {
    pub hi: u32,
    pub lo: u128,
}

impl EVMAddress {
    /// The whole address as one mathematical integer.
    pub open spec fn as_nat(self) -> nat {
        (self.hi * pow128() + self.lo) as nat
    }

    /// The zero address.
    pub fn zero() -> (r: EVMAddress)
        ensures
            r.as_nat() == 0,
    {
        EVMAddress { hi: 0, lo: 0 }
    }

    /// An address with only the low limb set; enough to name distinct
    /// test and deployment accounts.
    pub fn from_low(lo: u128) -> (r: EVMAddress)
        ensures
            r.lo == lo,
            r.hi == 0,
            r.as_nat() == lo,
    {
        EVMAddress { hi: 0, lo }
    }
}

impl Default for EVMAddress {
    /// The zero address.
    fn default() -> (r: Self)
        ensures
            r.as_nat() == 0,
    {
        EVMAddress { hi: 0, lo: 0 }
    }
}

/// A 256-bit EVM word (storage slot key or value, balance, comparison
/// operand), split into two 128-bit limbs.
#[derive(Clone, Copy, Debug, PartialEq, Eq, Hash, Structural)]
pub struct EVMU256 {
    pub hi: u128,
    pub lo: u128,
}

impl EVMU256 {
    /// The whole word as one mathematical integer.
    pub open spec fn as_nat(self) -> nat {
        (self.hi * pow128() + self.lo) as nat
    }

    /// The zero word.
    pub fn zero() -> (r: EVMU256)
        ensures
            r.as_nat() == 0,
    {
        EVMU256 { hi: 0, lo: 0 }
    }

    /// The largest representable word.
    pub fn max() -> (r: EVMU256)
        ensures
            r.as_nat() == pow256() - 1,
    {
        EVMU256 { hi: u128::MAX, lo: u128::MAX }
    }

    /// A word with only the low limb set.
    pub fn from_low(lo: u128) -> (r: EVMU256)
        ensures
            r.lo == lo,
            r.hi == 0,
            r.as_nat() == lo,
    {
        EVMU256 { hi: 0, lo }
    }

    /// Sum of two words, or `None` on overflow past 256 bits.
    pub fn checked_add(self, other: EVMU256) -> (r: Option<EVMU256>)
        ensures
            r is Some <==> self.as_nat() + other.as_nat() < pow256(),
            r is Some ==> r->Some_0.as_nat() == self.as_nat() + other.as_nat(),
    {
        let (lo, carry): (u128, u128) = match self.lo.checked_add(other.lo) {
            Some(l) => (l, 0),
            None => (self.lo.wrapping_add(other.lo), 1),
        };
        match self.hi.checked_add(other.hi) {
            Some(h1) => match h1.checked_add(carry) {
                Some(h) => Some(EVMU256 { hi: h, lo }),
                None => None,
            },
            None => None,
        }
    }

    /// Difference of two words, or `None` when the subtrahend is larger.
    pub fn checked_sub(self, other: EVMU256) -> (r: Option<EVMU256>)
        ensures
            r is Some <==> self.as_nat() >= other.as_nat(),
            r is Some ==> r->Some_0.as_nat() == self.as_nat() - other.as_nat(),
    {
        let (lo, borrow): (u128, u128) = match self.lo.checked_sub(other.lo) {
            Some(l) => (l, 0),
            None => (self.lo.wrapping_sub(other.lo), 1),
        };
        match self.hi.checked_sub(other.hi) {
            Some(h1) => match h1.checked_sub(borrow) {
                Some(h) => Some(EVMU256 { hi: h, lo }),
                None => None,
            },
            None => None,
        }
    }

    /// Strict order on the integer view.
    pub fn lt(self, other: EVMU256) -> (r: bool)
        ensures
            r <==> self.as_nat() < other.as_nat(),
    {
        self.hi < other.hi || (self.hi == other.hi && self.lo < other.lo)
    }

    /// Absolute difference of the integer views: the comparison-feedback
    /// distance between two operands.
    pub fn distance(self, other: EVMU256) -> (r: EVMU256)
        ensures
            self.as_nat() >= other.as_nat() ==> r.as_nat() == self.as_nat() - other.as_nat(),
            self.as_nat() < other.as_nat() ==> r.as_nat() == other.as_nat() - self.as_nat(),
    {
        if self.lt(other) {
            match other.checked_sub(self) {
                Some(d) => d,
                None => EVMU256 { hi: 0, lo: 0 },
            }
        } else {
            match self.checked_sub(other) {
                Some(d) => d,
                None => EVMU256 { hi: 0, lo: 0 },
            }
        }
    }

    /// Whether this word is zero.
    pub fn is_zero(self) -> (r: bool)
        ensures
            r <==> self.as_nat() == 0,
    {
        self.hi == 0 && self.lo == 0
    }
}

impl Default for EVMU256 {
    /// The zero word.
    fn default() -> (r: Self)
        ensures
            r.as_nat() == 0,
    {
        EVMU256 { hi: 0, lo: 0 }
    }
}

} // verus!
