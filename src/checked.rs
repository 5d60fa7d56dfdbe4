//! Values checked once for an invariant, then trusted by everything that
//! receives them: finite, nonzero, negative, positive, non-negative.
//!
//! Each type has one fallible constructor that tests its predicate; the type
//! invariant then travels with the value, so no routine has to test it again.
use vstd::prelude::*;
use crate::double::Double;

verus! {

/// A finite value.
#[derive(Clone, Copy, Debug, PartialEq, Eq)]
pub struct Finite {
    d: Double,
}

/// A finite value other than either zero.
#[derive(Clone, Copy, Debug, PartialEq, Eq)]
pub struct NonZero {
    d: Double,
}

/// A finite value below zero.
#[derive(Clone, Copy, Debug, PartialEq, Eq)]
pub struct Negative {
    d: Double,
}

/// A finite value above zero.
#[derive(Clone, Copy, Debug, PartialEq, Eq)]
pub struct Positive {
    d: Double,
}

/// A finite value that is not below zero (either zero qualifies).
#[derive(Clone, Copy, Debug, PartialEq, Eq)]
pub struct NonNegative {
    d: Double,
}

/// A nonzero value, by its sign.
#[derive(Clone, Copy, Debug, PartialEq, Eq)]
pub enum Signed {
    Below(Negative),
    Above(Positive),
}

pub open spec fn is_nonzero(d: Double) -> bool {
    d.finite() && !d.zero()
}

pub open spec fn is_negative(d: Double) -> bool {
    d.finite() && d.key() < 0
}

pub open spec fn is_positive(d: Double) -> bool {
    d.finite() && d.key() > 0
}

pub open spec fn is_non_negative(d: Double) -> bool {
    d.finite() && d.key() >= 0
}

impl View for Finite {
    type V = Double;

    closed spec fn view(&self) -> Double {
        self.d
    }
}

impl View for NonZero {
    type V = Double;

    closed spec fn view(&self) -> Double {
        self.d
    }
}

impl View for Negative {
    type V = Double;

    closed spec fn view(&self) -> Double {
        self.d
    }
}

impl View for Positive {
    type V = Double;

    closed spec fn view(&self) -> Double {
        self.d
    }
}

impl View for NonNegative {
    type V = Double;

    closed spec fn view(&self) -> Double {
        self.d
    }
}

/// A negative value is fixed by what it holds.
pub proof fn lemma_negative_by_view(a: Negative, b: Negative)
    requires
        a@ == b@,
    ensures
        a == b,
{
}

/// A positive value is fixed by what it holds.
pub proof fn lemma_positive_by_view(a: Positive, b: Positive)
    requires
        a@ == b@,
    ensures
        a == b,
{
}

impl Finite {
    #[verifier::type_invariant]
    spec fn inv(self) -> bool {
        self.d.finite()
    }

    pub fn try_new(d: Double) -> (r: Option<Finite>)
        ensures
            r is Some <==> d.finite(),
            r matches Some(f) ==> f@ == d,
    {
        if d.is_finite() {
            Some(Finite { d })
        } else {
            None
        }
    }

    pub fn get(&self) -> (r: Double)
        ensures
            r == self@,
            r.finite(),
    {
        proof {
            use_type_invariant(self);
        }
        self.d
    }

    /// The same magnitude with the other sign.
    pub fn neg(self) -> (r: Finite)
        ensures
            r@ == self@.negated(),
    {
        proof {
            use_type_invariant(&self);
            crate::double::lemma_negated(self.d);
        }
        Finite { d: self.d.neg() }
    }
}

impl NonZero {
    #[verifier::type_invariant]
    spec fn inv(self) -> bool {
        is_nonzero(self.d)
    }

    pub fn try_new(d: Double) -> (r: Option<NonZero>)
        ensures
            r is Some <==> is_nonzero(d),
            r matches Some(x) ==> x@ == d,
    {
        if d.is_finite() && !d.is_zero() {
            Some(NonZero { d })
        } else {
            None
        }
    }

    pub fn get(&self) -> (r: Double)
        ensures
            r == self@,
            is_nonzero(r),
    {
        proof {
            use_type_invariant(self);
        }
        self.d
    }

    /// The same magnitude with the other sign.
    pub fn neg(self) -> (r: NonZero)
        ensures
            r@ == self@.negated(),
    {
        proof {
            use_type_invariant(&self);
            crate::double::lemma_negated(self.d);
        }
        NonZero { d: self.d.neg() }
    }

    /// The same value, as a negative or a positive one.
    pub fn by_sign(self) -> (r: Signed)
        ensures
            match r {
                Signed::Below(n) => n@ == self@ && self@.key() < 0,
                Signed::Above(p) => p@ == self@ && self@.key() > 0,
            },
    {
        proof {
            use_type_invariant(&self);
        }
        if self.d.is_sign_negative() {
            Signed::Below(Negative { d: self.d })
        } else {
            Signed::Above(Positive { d: self.d })
        }
    }

    pub fn also_finite(self) -> (r: Finite)
        ensures
            r@ == self@,
    {
        proof {
            use_type_invariant(&self);
        }
        Finite { d: self.d }
    }
}

impl Negative {
    #[verifier::type_invariant]
    spec fn inv(self) -> bool {
        is_negative(self.d)
    }

    pub fn try_new(d: Double) -> (r: Option<Negative>)
        ensures
            r is Some <==> is_negative(d),
            r matches Some(x) ==> x@ == d,
    {
        if d.is_finite() && d.is_sign_negative() && !d.is_zero() {
            Some(Negative { d })
        } else {
            None
        }
    }

    pub fn get(&self) -> (r: Double)
        ensures
            r == self@,
            is_negative(r),
    {
        proof {
            use_type_invariant(self);
        }
        self.d
    }

    /// The positive value of the same magnitude.
    pub fn neg(self) -> (r: Positive)
        ensures
            r@ == self@.negated(),
    {
        proof {
            use_type_invariant(&self);
            crate::double::lemma_negated(self.d);
        }
        Positive { d: self.d.neg() }
    }

    pub fn also_nonzero(self) -> (r: NonZero)
        ensures
            r@ == self@,
    {
        proof {
            use_type_invariant(&self);
        }
        NonZero { d: self.d }
    }
}

impl Positive {
    #[verifier::type_invariant]
    spec fn inv(self) -> bool {
        is_positive(self.d)
    }

    pub fn try_new(d: Double) -> (r: Option<Positive>)
        ensures
            r is Some <==> is_positive(d),
            r matches Some(x) ==> x@ == d,
    {
        if d.is_finite() && !d.is_sign_negative() && !d.is_zero() {
            Some(Positive { d })
        } else {
            None
        }
    }

    pub fn get(&self) -> (r: Double)
        ensures
            r == self@,
            is_positive(r),
    {
        proof {
            use_type_invariant(self);
        }
        self.d
    }

    /// The negative value of the same magnitude.
    pub fn neg(self) -> (r: Negative)
        ensures
            r@ == self@.negated(),
    {
        proof {
            use_type_invariant(&self);
            crate::double::lemma_negated(self.d);
        }
        Negative { d: self.d.neg() }
    }

    pub fn also_nonzero(self) -> (r: NonZero)
        ensures
            r@ == self@,
    {
        proof {
            use_type_invariant(&self);
        }
        NonZero { d: self.d }
    }

    pub fn also_non_negative(self) -> (r: NonNegative)
        ensures
            r@ == self@,
    {
        proof {
            use_type_invariant(&self);
        }
        NonNegative { d: self.d }
    }
}

impl NonNegative {
    #[verifier::type_invariant]
    spec fn inv(self) -> bool {
        is_non_negative(self.d)
    }

    pub fn try_new(d: Double) -> (r: Option<NonNegative>)
        ensures
            r is Some <==> is_non_negative(d),
            r matches Some(x) ==> x@ == d,
    {
        if d.is_finite() && (!d.is_sign_negative() || d.is_zero()) {
            Some(NonNegative { d })
        } else {
            None
        }
    }

    pub fn get(&self) -> (r: Double)
        ensures
            r == self@,
            is_non_negative(r),
    {
        proof {
            use_type_invariant(self);
        }
        self.d
    }
}

} // verus!
