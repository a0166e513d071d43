//! The five arithmetic template helpers: `add`, `sub`, `mul`, `div` and
//! `mod`, each over two signed 64-bit integers.
//!
//! Addition, subtraction and multiplication wrap on overflow, matching
//! 64-bit two's-complement arithmetic. Division truncates toward zero and
//! modulo follows the sign of the dividend; both fail on a zero divisor,
//! and on the one overflowing pair (`i64::MIN`, `-1`), instead of
//! producing a value, so that the whole render fails rather than emit a
//! sentinel.

use crate::decimal::{dec_str_i64, i64_dec};
use vstd::prelude::*;

verus! {

/// The helper named by a template expression.
#[derive(Clone, Copy, PartialEq, Eq, Structural, Debug)]
pub enum HelperOp {
    Add,
    Sub,
    Mul,
    Div,
    Mod,
}

/// Why a helper invocation failed; any one of these fails the whole render.
#[derive(Clone, Copy, PartialEq, Eq, Structural, Debug)]
pub enum HelperError {
    /// A parameter was absent or was not an integer.
    MissingArgument,
    /// `div` or `mod` with a zero divisor.
    DivisionByZero,
    /// `div` or `mod` of `i64::MIN` by `-1`, whose quotient magnitude
    /// exceeds `i64::MAX`.
    Overflow,
}

/// What a helper computes from two integer arguments: a value for every
/// pair under `add`, `sub` and `mul`; nothing when `div` or `mod` is
/// undefined or overflows.
pub open spec fn helper_result(op: HelperOp, x: i64, y: i64) -> Option<i64> {
    match op {
        HelperOp::Add => Some(x.wrapping_add(y)),
        HelperOp::Sub => Some(x.wrapping_sub(y)),
        HelperOp::Mul => Some(x.wrapping_mul(y)),
        HelperOp::Div => x.checked_div(y),
        HelperOp::Mod => x.checked_rem(y),
    }
}

/// Evaluates one helper on two integer arguments.
pub fn eval_helper(op: HelperOp, x: i64, y: i64) -> (r: Result<i64, HelperError>)
    ensures
        match helper_result(op, x, y) {
            Some(v) => r == Ok::<i64, HelperError>(v),
            None => r == Err::<i64, HelperError>(
                if y == 0 {
                    HelperError::DivisionByZero
                } else {
                    HelperError::Overflow
                },
            ),
        },
{
    match op {
        HelperOp::Add => Ok(x.wrapping_add(y)),
        HelperOp::Sub => Ok(x.wrapping_sub(y)),
        HelperOp::Mul => Ok(x.wrapping_mul(y)),
        HelperOp::Div => {
            if y == 0 {
                Err(HelperError::DivisionByZero)
            } else {
                match x.checked_div(y) {
                    Some(q) => Ok(q),
                    None => Err(HelperError::Overflow),
                }
            }
        },
        HelperOp::Mod => {
            if y == 0 {
                Err(HelperError::DivisionByZero)
            } else {
                match x.checked_rem(y) {
                    Some(q) => Ok(q),
                    None => Err(HelperError::Overflow),
                }
            }
        },
    }
}

/// The text a helper writes into the rendered output, or the error that
/// fails the render: the arguments arrive as `None` when the template gave
/// too few parameters or a parameter that is not an integer.
pub open spec fn helper_output(op: HelperOp, x: Option<i64>, y: Option<i64>) -> Result<
    Seq<char>,
    HelperError,
> {
    match (x, y) {
        (Some(a), Some(b)) => match helper_result(op, a, b) {
            Some(v) => Ok(dec_str_i64(v as int)),
            None => Err(
                if b == 0 {
                    HelperError::DivisionByZero
                } else {
                    HelperError::Overflow
                },
            ),
        },
        _ => Err(HelperError::MissingArgument),
    }
}

/// Runs one helper invocation end to end: checks the two arguments,
/// evaluates, and renders the result as a decimal numeral.
pub fn apply_helper(op: HelperOp, x: Option<i64>, y: Option<i64>) -> (r: Result<
    String,
    HelperError,
>)
    ensures
        match helper_output(op, x, y) {
            Ok(s) => r is Ok && r->Ok_0@ == s,
            Err(e) => r == Err::<String, HelperError>(e),
        },
{
    match (x, y) {
        (Some(a), Some(b)) => match eval_helper(op, a, b) {
            Ok(v) => Ok(i64_dec(v)),
            Err(e) => Err(e),
        },
        _ => Err(HelperError::MissingArgument),
    }
}

impl HelperError {
    /// What the message of each error says.
    pub open spec fn message_spec(self) -> Seq<char> {
        match self {
            HelperError::MissingArgument => "helper expects two integer parameters"@,
            HelperError::DivisionByZero => "division by zero"@,
            HelperError::Overflow => "arithmetic overflow"@,
        }
    }

    /// A human-readable description of the failure.
    pub fn message(&self) -> (r: String)
        ensures
            r@ == self.message_spec(),
    {
        match self {
            HelperError::MissingArgument => "helper expects two integer parameters".to_owned(),
            HelperError::DivisionByZero => "division by zero".to_owned(),
            HelperError::Overflow => "arithmetic overflow".to_owned(),
        }
    }
}

} // verus!

