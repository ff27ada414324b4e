use checked_math::checked::{
    div_domain, ln_domain, sqrt_domain, MathError, MathResult, Op,
};
use checked_math::fp::Fp;

fn fp(v: f64) -> Fp {
    Fp { bits: v.to_bits() }
}

/// Checked division, as a driver composes it: the verified domain check,
/// then the platform quotient on an admitted divisor.
fn divide(x: f64, y: f64) -> MathResult {
    match div_domain(fp(y)) {
        Ok(()) => Ok(fp(x / y)),
        Err(e) => Err(e),
    }
}

/// Checked natural logarithm, composed the same way.
fn natural_log(x: f64) -> MathResult {
    match ln_domain(fp(x)) {
        Ok(()) => Ok(fp(x.ln())),
        Err(e) => Err(e),
    }
}

/// Checked square root, composed the same way.
fn square_root(x: f64) -> MathResult {
    match sqrt_domain(fp(x)) {
        Ok(()) => Ok(fp(x.sqrt())),
        Err(e) => Err(e),
    }
}

/// The composed operation `sqrt(ln(x / y))`, driving the verified machine:
/// every decision is the library's, only the arithmetic happens here.
fn op(x: f64, y: f64) -> MathResult {
    let mut state = Op::start(fp(y));
    if state == Op::AwaitQuotient {
        state = state.step(fp(x / y));
    }
    if state == Op::AwaitLogarithm {
        state = state.step(fp((x / y).ln()));
    }
    if state == Op::AwaitRoot {
        state = state.step(fp((x / y).ln().sqrt()));
    }
    match state {
        Op::Finished(r) => r,
        _ => panic!("the machine did not finish after three values"),
    }
}

#[test]
fn divide_by_zero_fails_for_every_dividend() {
    let dividends: [f64; 5] = [1.0, -3.5, 0.0, f64::MAX, f64::MIN_POSITIVE];
    for x in dividends {
        assert_eq!(divide(x, 0.0), Err(MathError::DivisionByZero));
    }
}

#[test]
fn divide_by_negative_zero_fails() {
    assert_eq!(divide(1.0, -0.0), Err(MathError::DivisionByZero));
}

#[test]
fn divide_returns_exact_representable_quotient() {
    assert_eq!(divide(10.0, 2.0), Ok(fp(5.0)));
}

#[test]
fn divide_zero_dividend_succeeds() {
    assert_eq!(divide(0.0, 3.0), Ok(fp(0.0)));
}

#[test]
fn divide_by_negative_divisor_succeeds() {
    assert_eq!(divide(9.0, -3.0), Ok(fp(-3.0)));
}

#[test]
fn natural_log_of_negative_fails() {
    assert_eq!(natural_log(-1.0), Err(MathError::NegativeLogarithm));
    assert_eq!(natural_log(f64::NEG_INFINITY), Err(MathError::NegativeLogarithm));
    assert_eq!(natural_log(-f64::MIN_POSITIVE), Err(MathError::NegativeLogarithm));
}

#[test]
fn natural_log_of_one_is_zero() {
    assert_eq!(natural_log(1.0), Ok(fp(0.0)));
}

#[test]
fn natural_log_of_zero_is_admitted() {
    assert_eq!(natural_log(0.0), Ok(fp(f64::NEG_INFINITY)));
    assert_eq!(natural_log(-0.0), Ok(fp(f64::NEG_INFINITY)));
}

#[test]
fn natural_log_of_nan_is_admitted() {
    match natural_log(f64::NAN) {
        Ok(v) => assert!(f64::from_bits(v.bits).is_nan()),
        Err(e) => panic!("a NaN operand was rejected with {:?}", e),
    }
}

#[test]
fn square_root_of_negative_fails() {
    assert_eq!(square_root(-1.0), Err(MathError::NegativeSquareRoot));
    assert_eq!(square_root(f64::NEG_INFINITY), Err(MathError::NegativeSquareRoot));
}

#[test]
fn square_root_of_negative_zero_is_admitted() {
    assert_eq!(square_root(-0.0), Ok(fp(-0.0)));
}

#[test]
fn square_root_returns_exact_representable_root() {
    assert_eq!(square_root(4.0), Ok(fp(2.0)));
}

#[test]
fn op_short_circuits_on_zero_divisor() {
    // The start decision alone settles the outcome: no quotient, logarithm or
    // square root is ever asked for.
    assert_eq!(Op::start(fp(0.0)), Op::Finished(Err(MathError::DivisionByZero)));
    assert_eq!(op(1.0, 0.0), Err(MathError::DivisionByZero));
}

#[test]
fn op_rejects_negative_quotient() {
    assert_eq!(op(-1.0, 1.0), Err(MathError::NegativeLogarithm));
}

#[test]
fn op_rejects_negative_logarithm() {
    // 1 / 10 is below one, so its logarithm is negative and the square root
    // step rejects it.
    assert_eq!(op(1.0, 10.0), Err(MathError::NegativeSquareRoot));
}

#[test]
fn op_succeeds_on_a_quotient_above_one() {
    let expected: f64 = (100.0f64 / 10.0).ln().sqrt();
    assert_eq!(op(100.0, 10.0), Ok(fp(expected)));
}

#[test]
fn divide_twice_gives_identical_outcomes() {
    let pairs: [(f64, f64); 4] = [(10.0, 2.0), (1.0, 0.0), (-7.5, 3.0), (0.0, 0.0)];
    for (x, y) in pairs {
        assert_eq!(divide(x, y), divide(x, y));
    }
}

#[test]
fn natural_log_twice_gives_identical_outcomes() {
    let inputs: [f64; 4] = [1.0, -1.0, 2.5, 0.0];
    for x in inputs {
        assert_eq!(natural_log(x), natural_log(x));
    }
}

#[test]
fn square_root_twice_gives_identical_outcomes() {
    let inputs: [f64; 4] = [4.0, -4.0, 0.0, 2.0];
    for x in inputs {
        assert_eq!(square_root(x), square_root(x));
    }
}

#[test]
fn error_messages_name_the_violated_domain() {
    assert_eq!(MathError::DivisionByZero.message(), "division by zero");
    assert_eq!(MathError::NegativeLogarithm.message(), "logarithm of negative number");
    assert_eq!(MathError::NegativeSquareRoot.message(), "square root of negative number");
}
