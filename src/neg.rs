//! Inputs below zero.
use vstd::prelude::*;
use crate::checked::{Negative, Positive};
use crate::domain::{in_domain, Branch, XMAX_BITS};

verus! {

/// Argument too large (negative): at or below -XMAX.
#[derive(Clone, Copy, Debug, PartialEq, Eq)]
pub struct HugeArgument(pub Negative);

/// The approximation that E1 uses at `x`, or the refusal of an `x` at or
/// below -XMAX.
pub fn e1_branch(x: Negative) -> (r: Result<Branch, HugeArgument>)
    ensures
        match r {
            Ok(b) => in_domain(x@.key()) && b.covers(x@.key()),
            Err(HugeArgument(a)) => x@.key() <= -(XMAX_BITS as int) && a@ == x@,
        },
{
    let d = x.get();
    let minus_ten = crate::domain::ten().neg();
    if d.le(&minus_ten) {
        let minus_xmax = crate::domain::xmax().neg();
        if d.le(&minus_xmax) {
            Err(HugeArgument(x))
        } else {
            Ok(Branch::LeNeg10)
        }
    } else if d.le(&crate::domain::four().neg()) {
        Ok(Branch::LeNeg4)
    } else if d.le(&crate::domain::one().neg()) {
        Ok(Branch::LeNeg1)
    } else {
        Ok(Branch::LePos1)
    }
}

/// The approximation through which Ei(x) = -E1(-x) is had at `x`: the one
/// that E1 uses at `-x`. An `x` at or below -XMAX is refused, reported as
/// given.
pub fn ei_branch(x: Negative) -> (r: Result<Branch, HugeArgument>)
    ensures
        match r {
            Ok(b) => in_domain(x@.key()) && b.covers(-x@.key()),
            Err(HugeArgument(a)) => x@.key() <= -(XMAX_BITS as int) && a@ == x@,
        },
{
    let flipped: Positive = x.neg();
    proof {
        crate::double::lemma_negated(x@);
    }
    match crate::pos::e1_branch(flipped) {
        Ok(b) => Ok(b),
        Err(crate::pos::HugeArgument(_)) => Err(HugeArgument(x)),
    }
}

} // verus!
