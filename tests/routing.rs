use exponential_integral::checked::NonZero;
use exponential_integral::domain::{Branch, XMAX_BITS};
use exponential_integral::double::Double;
use exponential_integral::{E1_branch, Ei_branch, Error};

fn d(x: f64) -> Double {
    Double::from_bits(x.to_bits())
}

fn nz(x: f64) -> NonZero {
    NonZero::try_new(d(x)).expect("finite and nonzero")
}

fn xmax() -> f64 {
    f64::from_bits(XMAX_BITS)
}

fn e1(x: f64) -> Result<Branch, Error> {
    E1_branch(nz(x))
}

fn ei(x: f64) -> Result<Branch, Error> {
    Ei_branch(nz(x))
}

#[test]
fn xmax_is_the_tabulated_bound() {
    assert_eq!(xmax(), 701.833_414_682_1);
}

#[test]
fn e1_at_one_uses_the_logarithmic_branch() {
    assert_eq!(e1(1.0), Ok(Branch::LePos1));
}

#[test]
fn e1_at_minus_one_uses_le_neg_1() {
    assert_eq!(e1(-1.0), Ok(Branch::LeNeg1));
}

#[test]
fn e1_just_below_minus_xmax_is_too_negative() {
    match e1(-702.0) {
        Err(Error::ArgumentTooNegative(arg)) => assert_eq!(arg.get(), d(-702.0)),
        other => panic!("expected a too negative argument, got {other:?}"),
    }
}

#[test]
fn e1_at_minus_xmax_is_too_negative() {
    match e1(-xmax()) {
        Err(Error::ArgumentTooNegative(arg)) => assert_eq!(arg.get(), d(-xmax())),
        other => panic!("expected a too negative argument, got {other:?}"),
    }
}

#[test]
fn e1_at_xmax_is_too_positive() {
    match e1(xmax()) {
        Err(Error::ArgumentTooPositive(arg)) => assert_eq!(arg.get(), d(xmax())),
        other => panic!("expected a too positive argument, got {other:?}"),
    }
}

#[test]
fn e1_far_out_is_refused_with_its_sign() {
    assert!(matches!(e1(1.0e300), Err(Error::ArgumentTooPositive(_))));
    assert!(matches!(e1(-1.0e300), Err(Error::ArgumentTooNegative(_))));
    assert!(matches!(e1(f64::MAX), Err(Error::ArgumentTooPositive(_))));
    assert!(matches!(e1(f64::MIN), Err(Error::ArgumentTooNegative(_))));
}

#[test]
fn e1_just_inside_xmax_is_served() {
    let inside = f64::from_bits(XMAX_BITS - 1);
    assert_eq!(e1(inside), Ok(Branch::LePosMax));
    assert_eq!(e1(-inside), Ok(Branch::LeNeg10));
}

#[test]
fn boundaries_belong_to_the_interval_nearer_zero_as_tabulated() {
    assert_eq!(e1(-10.0), Ok(Branch::LeNeg10));
    assert_eq!(e1(-4.0), Ok(Branch::LeNeg4));
    assert_eq!(e1(-1.0), Ok(Branch::LeNeg1));
    assert_eq!(e1(1.0), Ok(Branch::LePos1));
    assert_eq!(e1(4.0), Ok(Branch::LePos4));
}

#[test]
fn next_values_past_each_boundary_change_branch() {
    let up = |x: f64| f64::from_bits(x.to_bits() - 1);
    let down = |x: f64| f64::from_bits(x.to_bits() + 1);
    // toward zero from a negative bound, away from zero past a positive one
    assert_eq!(e1(up(-10.0)), Ok(Branch::LeNeg4));
    assert_eq!(e1(up(-4.0)), Ok(Branch::LeNeg1));
    assert_eq!(e1(up(-1.0)), Ok(Branch::LePos1));
    assert_eq!(e1(down(1.0)), Ok(Branch::LePos4));
    assert_eq!(e1(down(4.0)), Ok(Branch::LePosMax));
}

#[test]
fn interior_points_of_every_interval() {
    assert_eq!(e1(-500.0), Ok(Branch::LeNeg10));
    assert_eq!(e1(-16.0), Ok(Branch::LeNeg10));
    assert_eq!(e1(-7.5), Ok(Branch::LeNeg4));
    assert_eq!(e1(-2.5), Ok(Branch::LeNeg1));
    assert_eq!(e1(-0.5), Ok(Branch::LePos1));
    assert_eq!(e1(0.5), Ok(Branch::LePos1));
    assert_eq!(e1(2.5), Ok(Branch::LePos4));
    assert_eq!(e1(16.0), Ok(Branch::LePosMax));
    assert_eq!(e1(700.0), Ok(Branch::LePosMax));
}

#[test]
fn smallest_magnitudes_use_the_logarithmic_branch() {
    let tiny = f64::from_bits(1);
    assert_eq!(e1(tiny), Ok(Branch::LePos1));
    assert_eq!(e1(-tiny), Ok(Branch::LePos1));
    assert_eq!(e1(f64::MIN_POSITIVE), Ok(Branch::LePos1));
}

#[test]
fn e1_succeeds_exactly_inside_xmax() {
    let mut x = 1.0e-300_f64;
    while x < 1.0e300 {
        for v in [x, -x] {
            let r = e1(v);
            if v.abs() < xmax() {
                assert!(r.is_ok(), "E1({v}) refused");
            } else if v < 0.0 {
                assert!(matches!(r, Err(Error::ArgumentTooNegative(_))), "E1({v})");
            } else {
                assert!(matches!(r, Err(Error::ArgumentTooPositive(_))), "E1({v})");
            }
        }
        x *= 1.37;
    }
}

#[test]
fn ei_at_minus_sixteen_is_e1_at_sixteen() {
    assert_eq!(ei(-16.0), e1(16.0));
    assert_eq!(ei(-16.0), Ok(Branch::LePosMax));
}

#[test]
fn ei_uses_the_branch_of_e1_at_the_negated_argument() {
    for x in [-700.0, -16.0, -10.0, -5.0, -4.0, -2.0, -1.0, -0.25, 0.25, 1.0, 3.0, 4.0, 9.0, 10.0, 650.0] {
        assert_eq!(ei(x), e1(-x), "at {x}");
    }
}

#[test]
fn ei_refuses_with_the_callers_sign() {
    match ei(702.0) {
        Err(Error::ArgumentTooPositive(arg)) => assert_eq!(arg.get(), d(702.0)),
        other => panic!("expected a too positive argument, got {other:?}"),
    }
    match ei(-702.0) {
        Err(Error::ArgumentTooNegative(arg)) => assert_eq!(arg.get(), d(-702.0)),
        other => panic!("expected a too negative argument, got {other:?}"),
    }
    assert!(matches!(ei(xmax()), Err(Error::ArgumentTooPositive(_))));
    assert!(matches!(ei(-xmax()), Err(Error::ArgumentTooNegative(_))));
}

#[test]
fn repeated_evaluation_is_identical() {
    for x in [-3.25, 0.001, 42.0, -702.0] {
        assert_eq!(e1(x), e1(x));
        assert_eq!(ei(x), ei(x));
    }
}
