//! The partition of the nonzero finite reals into the sub-intervals on which
//! one series approximation each is used.
//!
//! Bounds are binary64 bit patterns; a value lies in an interval when its key
//! (see `double`) lies between the keys of the bounds.
use vstd::prelude::*;
use crate::double::Double;

verus! {

/// The largest magnitude accepted: 701.8334146821, just under the point where
/// `exp(-x)` leaves the range of binary64.
pub const XMAX_BITS: u64 = 0x4085_eeaa_d551_1d02;

/// 10.0
pub const TEN_BITS: u64 = 0x4024_0000_0000_0000;

/// 4.0
pub const FOUR_BITS: u64 = 0x4010_0000_0000_0000;

/// 1.0
pub const ONE_BITS: u64 = 0x3ff0_0000_0000_0000;

/// The approximation used on one sub-interval: its series, its rescaling and
/// the formulas that turn the series value and error into the result.
#[derive(Clone, Copy, Debug, PartialEq, Eq, Structural)]
pub enum Branch {
    /// (-XMAX, -10]: exponentially scaled, error grows with `|x| + 1`.
    LeNeg10,
    /// (-10, -4]: exponentially scaled.
    LeNeg4,
    /// (-4, -1]: logarithmic.
    LeNeg1,
    /// (-1, 0) and (0, 1]: logarithmic with an affine correction.
    LePos1,
    /// (1, 4]: exponentially scaled.
    LePos4,
    /// (4, XMAX): exponentially scaled, error grows with `x + 1`.
    LePosMax,
}

/// Keys strictly between those of -XMAX and XMAX.
pub open spec fn in_domain(k: int) -> bool {
    -(XMAX_BITS as int) < k < XMAX_BITS as int
}

impl Branch {
    /// The values (by key) on which this approximation is used.
    pub open spec fn covers(self, k: int) -> bool {
        match self {
            Branch::LeNeg10 => -(XMAX_BITS as int) < k <= -(TEN_BITS as int),
            Branch::LeNeg4 => -(TEN_BITS as int) < k <= -(FOUR_BITS as int),
            Branch::LeNeg1 => -(FOUR_BITS as int) < k <= -(ONE_BITS as int),
            Branch::LePos1 => -(ONE_BITS as int) < k <= ONE_BITS as int && k != 0,
            Branch::LePos4 => (ONE_BITS as int) < k <= FOUR_BITS as int,
            Branch::LePosMax => (FOUR_BITS as int) < k < XMAX_BITS as int,
        }
    }
}

/// The sub-intervals do not overlap: a value lies in at most one.
pub proof fn lemma_branches_disjoint(k: int, a: Branch, b: Branch)
    requires
        a.covers(k),
        b.covers(k),
    ensures
        a == b,
{
}

/// The sub-intervals cover the domain: every nonzero value strictly between
/// -XMAX and XMAX lies in one of them, and each lies inside that range.
pub proof fn lemma_branches_cover(k: int)
    ensures
        (in_domain(k) && k != 0) <==> exists|b: Branch| b.covers(k),
{
    if in_domain(k) && k != 0 {
        let b = if k <= -(TEN_BITS as int) {
            Branch::LeNeg10
        } else if k <= -(FOUR_BITS as int) {
            Branch::LeNeg4
        } else if k <= -(ONE_BITS as int) {
            Branch::LeNeg1
        } else if k <= ONE_BITS as int {
            Branch::LePos1
        } else if k <= FOUR_BITS as int {
            Branch::LePos4
        } else {
            Branch::LePosMax
        };
        assert(b.covers(k));
    }
}

pub fn xmax() -> (r: Double)
    ensures
        r.bits == XMAX_BITS,
{
    Double::from_bits(XMAX_BITS)
}

pub fn ten() -> (r: Double)
    ensures
        r.bits == TEN_BITS,
{
    Double::from_bits(TEN_BITS)
}

pub fn four() -> (r: Double)
    ensures
        r.bits == FOUR_BITS,
{
    Double::from_bits(FOUR_BITS)
}

pub fn one() -> (r: Double)
    ensures
        r.bits == ONE_BITS,
{
    Double::from_bits(ONE_BITS)
}

} // verus!
