//! Inputs above zero.
use vstd::prelude::*;
use crate::checked::{Negative, Positive};
use crate::domain::{in_domain, Branch, XMAX_BITS};

verus! {

/// Argument too large (positive): at or above XMAX.
#[derive(Clone, Copy, Debug, PartialEq, Eq)]
pub struct HugeArgument(pub Positive);

/// The approximation that E1 uses at `x`, or the refusal of an `x` at or
/// above XMAX.
pub fn e1_branch(x: Positive) -> (r: Result<Branch, HugeArgument>)
    ensures
        match r {
            Ok(b) => in_domain(x@.key()) && b.covers(x@.key()),
            Err(HugeArgument(a)) => x@.key() >= XMAX_BITS as int && a@ == x@,
        },
{
    let d = x.get();
    if d.le(&crate::domain::one()) {
        Ok(Branch::LePos1)
    } else if d.le(&crate::domain::four()) {
        Ok(Branch::LePos4)
    } else if d.lt(&crate::domain::xmax()) {
        Ok(Branch::LePosMax)
    } else {
        Err(HugeArgument(x))
    }
}

/// The approximation through which Ei(x) = -E1(-x) is had at `x`: the one
/// that E1 uses at `-x`. An `x` at or above XMAX is refused, reported as
/// given.
pub fn ei_branch(x: Positive) -> (r: Result<Branch, HugeArgument>)
    ensures
        match r {
            Ok(b) => in_domain(x@.key()) && b.covers(-x@.key()),
            Err(HugeArgument(a)) => x@.key() >= XMAX_BITS as int && a@ == x@,
        },
{
    let flipped: Negative = x.neg();
    proof {
        crate::double::lemma_negated(x@);
    }
    match crate::neg::e1_branch(flipped) {
        Ok(b) => Ok(b),
        Err(crate::neg::HugeArgument(_)) => Err(HugeArgument(x)),
    }
}

} // verus!
