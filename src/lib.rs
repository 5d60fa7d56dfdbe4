//! The exponential integrals E1 and Ei for binary64 inputs: which piecewise
//! Chebyshev approximation serves an input, which inputs are refused, and how
//! Ei is had from E1 through Ei(x) = -E1(-x).
use vstd::prelude::*;

pub mod chebyshev;
pub mod checked;
pub mod domain;
pub mod double;
pub mod neg;
pub mod pos;

use crate::checked::{is_nonzero, Finite, NonNegative, NonZero, Signed};
use crate::domain::{in_domain, Branch, XMAX_BITS};
use crate::double::Double;

verus! {

/// An approximate value alongside an estimate of its own approximation error.
#[derive(Clone, Copy, Debug, PartialEq, Eq)]
pub struct Approx {
    /// Estimate of the approximation error for `value`.
    pub error: NonNegative,
    /// Approximate value.
    pub value: Finite,
}

/// An argument outside the range on which the approximations are defined.
#[derive(Clone, Copy, Debug, PartialEq, Eq)]
pub enum Error {
    /// Argument was at or below -XMAX.
    ArgumentTooNegative(checked::Negative),
    /// Argument was at or above XMAX.
    ArgumentTooPositive(checked::Positive),
}

/// The refusal of `x`: too negative at or below -XMAX, too positive at or
/// above XMAX, carrying `x` itself.
pub open spec fn refuses(e: Error, x: Double) -> bool {
    match e {
        Error::ArgumentTooNegative(a) => x.key() <= -(XMAX_BITS as int) && a@ == x,
        Error::ArgumentTooPositive(a) => x.key() >= XMAX_BITS as int && a@ == x,
    }
}

/// What E1 does at `x`: the approximation of the sub-interval that holds
/// `x`, or the refusal of an `x` whose magnitude is XMAX or more.
pub open spec fn e1_meets(r: Result<Branch, Error>, x: Double) -> bool {
    match r {
        Ok(b) => in_domain(x.key()) && b.covers(x.key()),
        Err(e) => refuses(e, x),
    }
}

/// What Ei does at `x`: the approximation of the sub-interval that holds
/// `-x`, or the refusal of an `x` whose magnitude is XMAX or more.
pub open spec fn ei_meets(r: Result<Branch, Error>, x: Double) -> bool {
    match r {
        Ok(b) => in_domain(x.key()) && b.covers(x.negated().key()),
        Err(e) => refuses(e, x),
    }
}

/// E1 at a nonzero finite `x` succeeds exactly when `|x| < XMAX`; below
/// that range it reports a too negative argument, above it a too positive one.
pub proof fn lemma_e1_succeeds_inside(x: Double, r: Result<Branch, Error>)
    requires
        is_nonzero(x),
        e1_meets(r, x),
    ensures
        r is Ok <==> in_domain(x.key()),
        (r matches Err(Error::ArgumentTooNegative(_))) <==> x.key() <= -(XMAX_BITS as int),
        (r matches Err(Error::ArgumentTooPositive(_))) <==> x.key() >= XMAX_BITS as int,
{
}

/// E1 at one input has one outcome: two evaluations at the same `x` select
/// the same approximation, or report the same error.
pub proof fn lemma_e1_outcome_unique(x: Double, r: Result<Branch, Error>, s: Result<Branch, Error>)
    requires
        is_nonzero(x),
        e1_meets(r, x),
        e1_meets(s, x),
    ensures
        r == s,
{
    lemma_outcome_unique(x, x.key(), r, s);
}

/// Ei at one input has one outcome, as E1 does.
pub proof fn lemma_ei_outcome_unique(x: Double, r: Result<Branch, Error>, s: Result<Branch, Error>)
    requires
        is_nonzero(x),
        ei_meets(r, x),
        ei_meets(s, x),
    ensures
        r == s,
{
    crate::double::lemma_negated(x);
    lemma_outcome_unique(x, x.negated().key(), r, s);
}

proof fn lemma_outcome_unique(x: Double, k: int, r: Result<Branch, Error>, s: Result<Branch, Error>)
    requires
        k == x.key() || k == -x.key(),
        match r {
            Ok(b) => in_domain(x.key()) && b.covers(k),
            Err(e) => refuses(e, x),
        },
        match s {
            Ok(b) => in_domain(x.key()) && b.covers(k),
            Err(e) => refuses(e, x),
        },
    ensures
        r == s,
{
    match (r, s) {
        (Ok(a), Ok(b)) => domain::lemma_branches_disjoint(k, a, b),
        (Err(Error::ArgumentTooNegative(a)), Err(Error::ArgumentTooNegative(b))) => {
            checked::lemma_negative_by_view(a, b);
        },
        (Err(Error::ArgumentTooPositive(a)), Err(Error::ArgumentTooPositive(b))) => {
            checked::lemma_positive_by_view(a, b);
        },
        _ => {},
    }
}

/// Ei(x) = -E1(-x): Ei at `x` is served by the approximation that serves E1
/// at `-x`, and refused exactly where E1 refuses `-x`. The value it returns is
/// that approximation's, negated (see `Approx::negated`).
pub proof fn lemma_ei_through_e1(x: Double, b: Branch)
    requires
        is_nonzero(x),
    ensures
        ei_meets(Ok(b), x) <==> e1_meets(Ok(b), x.negated()),
        in_domain(x.key()) <==> in_domain(x.negated().key()),
{
    crate::double::lemma_negated(x);
}

impl Approx {
    /// An approximation from a computed value and error bound: `None` unless
    /// the value is finite and the bound finite and not below zero.
    pub fn try_new(value: Double, error: Double) -> (r: Option<Approx>)
        ensures
            r is Some <==> value.finite() && checked::is_non_negative(error),
            r matches Some(a) ==> a.value@ == value && a.error@ == error,
    {
        match (Finite::try_new(value), NonNegative::try_new(error)) {
            (Some(v), Some(e)) => Some(Approx { error: e, value: v }),
            _ => None,
        }
    }

    /// The same approximation with the value's sign flipped and the error
    /// bound kept.
    pub fn negated(self) -> (r: Approx)
        ensures
            r.value@ == self.value@.negated(),
            r.error == self.error,
    {
        Approx { error: self.error, value: self.value.neg() }
    }

    /// The error bound: never below zero, always finite.
    pub fn error_bound(&self) -> (r: Double)
        ensures
            r == self.error@,
            r.finite(),
            r.key() >= 0,
    {
        self.error.get()
    }
}

/// The approximation that E1 uses at `x`, or the error for an `x` whose
/// magnitude is XMAX or more.
#[allow(non_snake_case)]
pub fn E1_branch(x: NonZero) -> (r: Result<Branch, Error>)
    ensures
        e1_meets(r, x@),
{
    match x.by_sign() {
        Signed::Below(n) => match neg::e1_branch(n) {
            Ok(b) => Ok(b),
            Err(neg::HugeArgument(a)) => Err(Error::ArgumentTooNegative(a)),
        },
        Signed::Above(p) => match pos::e1_branch(p) {
            Ok(b) => Ok(b),
            Err(pos::HugeArgument(a)) => Err(Error::ArgumentTooPositive(a)),
        },
    }
}

/// The approximation through which Ei(x) = -E1(-x) is had: the one that E1
/// uses at `-x`. An `x` whose magnitude is XMAX or more is refused, reported
/// with its own sign.
#[allow(non_snake_case)]
pub fn Ei_branch(x: NonZero) -> (r: Result<Branch, Error>)
    ensures
        ei_meets(r, x@),
{
    proof {
        crate::double::lemma_negated(x@);
    }
    match x.by_sign() {
        Signed::Below(n) => match neg::ei_branch(n) {
            Ok(b) => Ok(b),
            Err(neg::HugeArgument(a)) => Err(Error::ArgumentTooNegative(a)),
        },
        Signed::Above(p) => match pos::ei_branch(p) {
            Ok(b) => Ok(b),
            Err(pos::HugeArgument(a)) => Err(Error::ArgumentTooPositive(a)),
        },
    }
}

} // verus!
