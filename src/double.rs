//! IEEE-754 binary64 values, held as their bit patterns.
//!
//! A value is finite when its exponent field is not all ones, that is when its
//! magnitude bits stay below those of infinity. On finite values the real
//! ordering is the ordering of the signed magnitude (`key`): positive values
//! grow with their bits, negative ones shrink, and both zeros meet at 0.
use vstd::prelude::*;

verus! {

/// The sign bit of a binary64 pattern.
pub const SIGN_BIT: u64 = 0x8000_0000_0000_0000;

/// The magnitude bits of positive infinity: every finite magnitude lies below.
pub const INFINITY_BITS: u64 = 0x7ff0_0000_0000_0000;

/// A binary64 value, held as its bit pattern.
#[derive(Clone, Copy, Debug, PartialEq, Eq, Structural)]
pub struct Double {
    pub bits: u64,
}

/// The pattern with its sign bit flipped.
pub open spec fn flip_sign(bits: u64) -> u64 {
    if bits >= SIGN_BIT {
        (bits - SIGN_BIT) as u64
    } else {
        (bits + SIGN_BIT) as u64
    }
}

impl Double {
    pub open spec fn sign_negative(self) -> bool {
        self.bits >= SIGN_BIT
    }

    /// The pattern without its sign bit: exponent and fraction.
    pub open spec fn magnitude(self) -> nat {
        if self.sign_negative() {
            (self.bits - SIGN_BIT) as nat
        } else {
            self.bits as nat
        }
    }

    pub open spec fn finite(self) -> bool {
        self.magnitude() < INFINITY_BITS
    }

    pub open spec fn zero(self) -> bool {
        self.magnitude() == 0
    }

    /// Signed magnitude: on finite values, `a.key() < b.key()` exactly when
    /// `a` denotes a smaller real number than `b`.
    pub open spec fn key(self) -> int {
        if self.sign_negative() {
            -(self.magnitude() as int)
        } else {
            self.magnitude() as int
        }
    }

    /// The same magnitude with the other sign: IEEE-754 negation.
    pub open spec fn negated(self) -> Double {
        Double { bits: flip_sign(self.bits) }
    }

    pub fn from_bits(bits: u64) -> (r: Double)
        ensures
            r.bits == bits,
    {
        Double { bits }
    }

    pub fn to_bits(self) -> (r: u64)
        ensures
            r == self.bits,
    {
        self.bits
    }

    pub fn is_sign_negative(&self) -> (r: bool)
        ensures
            r == self.sign_negative(),
    {
        self.bits >= SIGN_BIT
    }

    fn magnitude_bits(&self) -> (r: u64)
        ensures
            r as nat == self.magnitude(),
            r < SIGN_BIT,
    {
        if self.bits >= SIGN_BIT {
            self.bits - SIGN_BIT
        } else {
            self.bits
        }
    }

    pub fn is_finite(&self) -> (r: bool)
        ensures
            r == self.finite(),
    {
        self.magnitude_bits() < INFINITY_BITS
    }

    pub fn is_zero(&self) -> (r: bool)
        ensures
            r == self.zero(),
    {
        self.magnitude_bits() == 0
    }

    /// Flips the sign bit, as `-x` does on a binary64 value.
    pub fn neg(self) -> (r: Double)
        ensures
            r == self.negated(),
    {
        if self.bits >= SIGN_BIT {
            Double { bits: self.bits - SIGN_BIT }
        } else {
            Double { bits: self.bits + SIGN_BIT }
        }
    }

    /// `self < other` on finite values.
    pub fn lt(&self, other: &Double) -> (r: bool)
        requires
            self.finite(),
            other.finite(),
        ensures
            r == (self.key() < other.key()),
    {
        let a = self.magnitude_bits();
        let b = other.magnitude_bits();
        match (self.is_sign_negative(), other.is_sign_negative()) {
            (false, false) => a < b,
            (true, true) => b < a,
            (true, false) => a != 0 || b != 0,
            (false, true) => false,
        }
    }

    /// `self <= other` on finite values.
    pub fn le(&self, other: &Double) -> (r: bool)
        requires
            self.finite(),
            other.finite(),
        ensures
            r == (self.key() <= other.key()),
    {
        !other.lt(self)
    }
}

/// Negation keeps a value finite, mirrors its key and undoes itself.
pub proof fn lemma_negated(d: Double)
    ensures
        d.negated().magnitude() == d.magnitude(),
        d.negated().finite() == d.finite(),
        d.negated().zero() == d.zero(),
        d.negated().key() == -d.key(),
        d.negated().negated() == d,
{
}

} // verus!
