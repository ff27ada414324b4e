//! The decision logic of the checked arithmetic operations: which inputs the
//! division, the natural logarithm and the square root admit, which error
//! each rejection carries, and how the composed operation
//! `sqrt(ln(x / y))` stops at its first failure.
//!
//! The floating-point computations themselves cannot stand in verified code,
//! so an unverified driver performs them between the decisions: it checks a
//! domain with the functions here, computes on the admitted value, and hands
//! the computed bits back (see [`Op`]).

use vstd::prelude::*;

use crate::fp::{is_negative_bits, is_zero_bits, Fp};

verus! {

/// The domain error of a checked arithmetic operation.
#[derive(Clone, Copy, Debug, PartialEq, Eq, Structural)]
pub enum MathError {
    DivisionByZero,
    NegativeLogarithm,
    NegativeSquareRoot,
}

/// The outcome of a checked arithmetic operation: a value on success, a
/// domain error on failure.
pub type MathResult = Result<Fp, MathError>;

/// The decision of `div_domain`: a zero divisor is rejected, any other
/// divisor is admitted.
pub open spec fn div_domain_spec(y: Fp) -> Result<(), MathError> {
    if is_zero_bits(y.bits) {
        Err(MathError::DivisionByZero)
    } else {
        Ok(())
    }
}

/// Whether a division by `y` is admitted: fails with `DivisionByZero`
/// exactly when `y` is a zero, whatever the dividend.
pub fn div_domain(y: Fp) -> (r: Result<(), MathError>)
    ensures
        r == div_domain_spec(y),
{
    if y.is_zero() {
        Err(MathError::DivisionByZero)
    } else {
        Ok(())
    }
}

/// The decision of `ln_domain`: a strictly negative operand is rejected, any
/// other operand (a zero, a NaN, anything nonnegative) is admitted.
pub open spec fn ln_domain_spec(x: Fp) -> Result<(), MathError> {
    if is_negative_bits(x.bits) {
        Err(MathError::NegativeLogarithm)
    } else {
        Ok(())
    }
}

/// Whether the natural logarithm of `x` is admitted: fails with
/// `NegativeLogarithm` exactly when `x` is strictly negative.
pub fn ln_domain(x: Fp) -> (r: Result<(), MathError>)
    ensures
        r == ln_domain_spec(x),
{
    if x.is_negative() {
        Err(MathError::NegativeLogarithm)
    } else {
        Ok(())
    }
}

/// The decision of `sqrt_domain`: a strictly negative operand is rejected,
/// any other operand is admitted.
pub open spec fn sqrt_domain_spec(x: Fp) -> Result<(), MathError> {
    if is_negative_bits(x.bits) {
        Err(MathError::NegativeSquareRoot)
    } else {
        Ok(())
    }
}

/// Whether the square root of `x` is admitted: fails with
/// `NegativeSquareRoot` exactly when `x` is strictly negative.
pub fn sqrt_domain(x: Fp) -> (r: Result<(), MathError>)
    ensures
        r == sqrt_domain_spec(x),
{
    if x.is_negative() {
        Err(MathError::NegativeSquareRoot)
    } else {
        Ok(())
    }
}

impl MathError {
    /// A short description of the error, as a demonstration prints it.
    pub fn message(&self) -> (r: &'static str)
        ensures
            self is DivisionByZero ==> r@ == "division by zero"@,
            self is NegativeLogarithm ==> r@ == "logarithm of negative number"@,
            self is NegativeSquareRoot ==> r@ == "square root of negative number"@,
    {
        match self {
            MathError::DivisionByZero => "division by zero",
            MathError::NegativeLogarithm => "logarithm of negative number",
            MathError::NegativeSquareRoot => "square root of negative number",
        }
    }
}

/// The composed operation `sqrt(ln(x / y))` in progress: either waiting for
/// the driver to compute one value, or finished with an outcome.  The driver
/// starts it with [`Op::start`] and hands each computed value back through
/// [`Op::step`]; every decision in between is made here.
#[derive(Clone, Copy, Debug, PartialEq, Eq)]
pub enum Op {
    /// The division was admitted; the quotient is awaited.
    AwaitQuotient,
    /// The logarithm of the quotient was admitted; its value is awaited.
    AwaitLogarithm,
    /// The square root of the logarithm was admitted; its value is awaited.
    AwaitRoot,
    /// The operation has finished with this outcome.
    Finished(MathResult),
}

/// The decision of [`Op::start`]: a zero divisor finishes the operation at
/// once, any other divisor admits the division.
pub open spec fn op_start_spec(y: Fp) -> Op {
    if is_zero_bits(y.bits) {
        Op::Finished(Err(MathError::DivisionByZero))
    } else {
        Op::AwaitQuotient
    }
}

/// The decision of [`Op::step`]: from the stage reached and the value the
/// driver computed, the next stage or the outcome.  A finished operation
/// stays finished, whatever value arrives.
pub open spec fn op_step_spec(s: Op, value: Fp) -> Op {
    match s {
        Op::AwaitQuotient => if is_negative_bits(value.bits) {
            Op::Finished(Err(MathError::NegativeLogarithm))
        } else {
            Op::AwaitLogarithm
        },
        Op::AwaitLogarithm => if is_negative_bits(value.bits) {
            Op::Finished(Err(MathError::NegativeSquareRoot))
        } else {
            Op::AwaitRoot
        },
        Op::AwaitRoot => Op::Finished(Ok(value)),
        Op::Finished(r) => Op::Finished(r),
    }
}

/// The outcome of the whole composed operation, as a function of the divisor
/// and of the three values the driver computes along the way: the quotient
/// `q`, its logarithm `l`, and the square root `s` of the logarithm.
pub open spec fn op_outcome(y: Fp, q: Fp, l: Fp, s: Fp) -> MathResult {
    if is_zero_bits(y.bits) {
        Err(MathError::DivisionByZero)
    } else if is_negative_bits(q.bits) {
        Err(MathError::NegativeLogarithm)
    } else if is_negative_bits(l.bits) {
        Err(MathError::NegativeSquareRoot)
    } else {
        Ok(s)
    }
}

impl Op {
    /// Starts the composed operation for the divisor `y`: finishes at once
    /// with `DivisionByZero` exactly when `y` is a zero, and otherwise asks
    /// for the quotient.
    pub fn start(y: Fp) -> (s: Op)
        ensures
            s == op_start_spec(y),
    {
        if y.is_zero() {
            Op::Finished(Err(MathError::DivisionByZero))
        } else {
            Op::AwaitQuotient
        }
    }

    /// Takes the value the driver computed for the awaited stage and decides
    /// the next stage or the outcome.
    pub fn step(self, value: Fp) -> (next: Op)
        ensures
            next == op_step_spec(self, value),
    {
        match self {
            Op::AwaitQuotient => {
                if value.is_negative() {
                    Op::Finished(Err(MathError::NegativeLogarithm))
                } else {
                    Op::AwaitLogarithm
                }
            },
            Op::AwaitLogarithm => {
                if value.is_negative() {
                    Op::Finished(Err(MathError::NegativeSquareRoot))
                } else {
                    Op::AwaitRoot
                }
            },
            Op::AwaitRoot => Op::Finished(Ok(value)),
            Op::Finished(r) => Op::Finished(r),
        }
    }
}

/// A finished operation stays finished: no later value changes the outcome,
/// so the first failure is the outcome of the whole run.
pub proof fn lemma_outcome_final(r: MathResult, value: Fp)
    ensures
        op_step_spec(Op::Finished(r), value) == Op::Finished(r),
{
}

/// Only the start can fail with `DivisionByZero`: a step never produces that
/// error, it can only carry it along once the operation is finished.
pub proof fn lemma_division_error_only_at_start(s: Op, value: Fp)
    ensures
        op_step_spec(s, value) == Op::Finished(Err::<Fp, MathError>(MathError::DivisionByZero))
            ==> s == Op::Finished(Err::<Fp, MathError>(MathError::DivisionByZero)),
{
}

/// The machine, started for the divisor `y` and then driven with the three
/// computed values in order, finishes with exactly `op_outcome`: in
/// particular it short-circuits, so an early failure is the outcome no
/// matter what values arrive afterwards.
pub proof fn lemma_run_computes_outcome(y: Fp, q: Fp, l: Fp, s: Fp)
    ensures
        op_step_spec(op_step_spec(op_step_spec(op_start_spec(y), q), l), s)
            == Op::Finished(op_outcome(y, q, l, s)),
{
}

/// The composed operation makes exactly the unit operations' decisions: its
/// start agrees with the division check, and each step agrees with the check
/// of the operation whose value it receives, failure tags included.
pub proof fn lemma_op_agrees_with_domains(y: Fp, q: Fp, l: Fp)
    ensures
        op_start_spec(y) == (match div_domain_spec(y) {
            Ok(()) => Op::AwaitQuotient,
            Err(e) => Op::Finished(Err(e)),
        }),
        op_step_spec(Op::AwaitQuotient, q) == (match ln_domain_spec(q) {
            Ok(()) => Op::AwaitLogarithm,
            Err(e) => Op::Finished(Err(e)),
        }),
        op_step_spec(Op::AwaitLogarithm, l) == (match sqrt_domain_spec(l) {
            Ok(()) => Op::AwaitRoot,
            Err(e) => Op::Finished(Err(e)),
        }),
{
}

/// Checking the same divisor twice gives the same decision: the decision is
/// a function of the divisor's bits alone.
pub proof fn lemma_div_domain_pure(y: Fp, r1: Result<(), MathError>, r2: Result<(), MathError>)
    requires
        r1 == div_domain_spec(y),
        r2 == div_domain_spec(y),
    ensures
        r1 == r2,
{
}

/// Checking the same logarithm operand twice gives the same decision.
pub proof fn lemma_ln_domain_pure(x: Fp, r1: Result<(), MathError>, r2: Result<(), MathError>)
    requires
        r1 == ln_domain_spec(x),
        r2 == ln_domain_spec(x),
    ensures
        r1 == r2,
{
}

/// Checking the same square-root operand twice gives the same decision.
pub proof fn lemma_sqrt_domain_pure(x: Fp, r1: Result<(), MathError>, r2: Result<(), MathError>)
    requires
        r1 == sqrt_domain_spec(x),
        r2 == sqrt_domain_spec(x),
    ensures
        r1 == r2,
{
}

} // verus!
