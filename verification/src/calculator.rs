//! Symbolic-or-numeric parameters and their evaluator.
//!
//! A parameter is a `CalculatorFloat` of the `qoqo_calculator` crate: a number, or
//! the text of a symbolic expression. Its arithmetic and the evaluation of
//! expressions are that crate's work. This module declares its types, names what
//! its operations return, and wraps each operation that the library calls. The
//! contracts of the wrappers are believed, not proved; everything else in the
//! library is proved from them.
//!
//! In contracts two parameters are equal if they are numbers with the same
//! bits, all not-a-number values counted as one, or expressions with the same
//! text. With this reading the arithmetic of the crate is a function of its
//! operands, and its results have names. The exponential has none: the digits
//! it gives for a number are those of the floating-point library at hand.

use crate::error::RoqoqoError;
use qoqo_calculator::{Calculator, CalculatorError, CalculatorFloat};
use vstd::prelude::*;

verus! {

/// `qoqo_calculator::CalculatorFloat`, a number or a symbolic expression.
#[verifier::external_type_specification]
#[verifier::external_body]
pub struct ExCalculatorFloat(qoqo_calculator::CalculatorFloat);

/// `qoqo_calculator::Calculator`, the evaluator with its table of variables.
#[verifier::external_type_specification]
#[verifier::external_body]
pub struct ExCalculator(qoqo_calculator::Calculator);

/// `qoqo_calculator::CalculatorError`, the evaluator's error.
#[verifier::external_type_specification]
#[verifier::external_body]
pub struct ExCalculatorError(qoqo_calculator::CalculatorError);

/// Whether a parameter holds a number: what `CalculatorFloat::is_float` returns.
pub uninterp spec fn is_number(value: CalculatorFloat) -> bool;

/// The text that `CalculatorFloat`'s `Display` writes: for a symbolic parameter
/// its expression.
pub uninterp spec fn displayed(value: CalculatorFloat) -> Seq<char>;

/// The parameter that `CalculatorFloat::from` makes of a 32-bit integer.
pub uninterp spec fn integer_value(i: int) -> CalculatorFloat;

/// What `CalculatorFloat`'s `*` returns for two parameters.
pub uninterp spec fn product(a: CalculatorFloat, b: CalculatorFloat) -> CalculatorFloat;

/// What `CalculatorFloat`'s `+` returns for two parameters.
pub uninterp spec fn total(a: CalculatorFloat, b: CalculatorFloat) -> CalculatorFloat;

/// What `CalculatorFloat`'s `-` returns for two parameters.
pub uninterp spec fn difference(a: CalculatorFloat, b: CalculatorFloat) -> CalculatorFloat;

/// What `CalculatorFloat`'s `/` returns for a parameter and a 32-bit integer
/// other than zero.
pub uninterp spec fn quotient(a: CalculatorFloat, divisor: int) -> CalculatorFloat;

/// What `CalculatorFloat::sqrt` returns.
pub uninterp spec fn root(a: CalculatorFloat) -> CalculatorFloat;

/// The error that `CalculatorFloat::float` returns for a symbolic parameter.
pub uninterp spec fn conversion_error(value: CalculatorFloat) -> CalculatorError;

/// `CalculatorFloat::clone`: the copy is the same parameter.
pub assume_specification[ <CalculatorFloat as Clone>::clone ](
    value: &CalculatorFloat,
) -> (r: CalculatorFloat)
    ensures
        r == *value,
;

/// `CalculatorFloat::is_float`: true for a number, false for a symbolic
/// expression.
pub assume_specification[ CalculatorFloat::is_float ](value: &CalculatorFloat) -> (r: bool)
    ensures
        r == is_number(*value),
;

/// `CalculatorFloat::from` on an `i32`: the number with that value.
#[verifier::external_body]
pub(crate) fn number(i: i32) -> (r: CalculatorFloat)
    ensures
        r == integer_value(i as int),
        is_number(r),
{
    CalculatorFloat::from(i)
}

/// `CalculatorFloat`'s `*`. Two numbers give a number.
#[verifier::external_body]
pub(crate) fn multiply(a: &CalculatorFloat, b: &CalculatorFloat) -> (r: CalculatorFloat)
    ensures
        r == product(*a, *b),
        is_number(*a) && is_number(*b) ==> is_number(r),
{
    a.clone() * b.clone()
}

/// `CalculatorFloat`'s `+`. Two numbers give a number.
#[verifier::external_body]
pub(crate) fn plus(a: &CalculatorFloat, b: &CalculatorFloat) -> (r: CalculatorFloat)
    ensures
        r == total(*a, *b),
        is_number(*a) && is_number(*b) ==> is_number(r),
{
    a.clone() + b.clone()
}

/// `CalculatorFloat`'s `-`. Two numbers give a number.
#[verifier::external_body]
pub(crate) fn subtract(a: &CalculatorFloat, b: &CalculatorFloat) -> (r: CalculatorFloat)
    ensures
        r == difference(*a, *b),
        is_number(*a) && is_number(*b) ==> is_number(r),
{
    a.clone() - b.clone()
}

/// `CalculatorFloat`'s `/` with an `i32` divisor. It panics where the divisor
/// is zero, which `requires` leaves out. A number gives a number.
#[verifier::external_body]
pub(crate) fn divide(a: &CalculatorFloat, divisor: i32) -> (r: CalculatorFloat)
    requires
        divisor != 0,
    ensures
        r == quotient(*a, divisor as int),
        is_number(*a) ==> is_number(r),
{
    a.clone() / divisor
}

/// `CalculatorFloat::sqrt`. A number gives a number.
#[verifier::external_body]
pub(crate) fn square_root(a: &CalculatorFloat) -> (r: CalculatorFloat)
    ensures
        r == root(*a),
        is_number(*a) ==> is_number(r),
{
    a.sqrt()
}

/// What `CalculatorFloat::exp` may return for `argument`. For a number it is a
/// number, whose digits the floating-point library decides. For a symbolic
/// expression it is the expression wrapped in `exp(..)`.
pub open spec fn is_exponential(argument: CalculatorFloat, outcome: CalculatorFloat) -> bool {
    if is_number(argument) {
        is_number(outcome)
    } else {
        !is_number(outcome) && displayed(outcome) == "exp("@ + displayed(argument) + ")"@
    }
}

/// `CalculatorFloat::exp`.
#[verifier::external_body]
pub(crate) fn exponential(a: &CalculatorFloat) -> (r: CalculatorFloat)
    ensures
        is_exponential(*a, r),
{
    a.exp()
}

/// `CalculatorFloat::float`, of which only the error is kept: none for a
/// number, the conversion error for a symbolic expression.
#[verifier::external_body]
pub(crate) fn conversion_failure(value: &CalculatorFloat) -> (r: Option<CalculatorError>)
    ensures
        r is None <==> is_number(*value),
        r is Some ==> r == Some(conversion_error(*value)),
{
    value.float().err()
}

/// `CalculatorFloat`'s `Display`, through `to_string`.
#[verifier::external_body]
pub(crate) fn text_of(value: &CalculatorFloat) -> (r: String)
    ensures
        r@ == displayed(*value),
{
    value.to_string()
}

/// The expressions that are handed to the evaluator: not empty, ASCII only.
/// On these its lexer does not panic.
pub open spec fn evaluable(expression: Seq<char>) -> bool {
    expression.len() > 0 && vstd::utf8::is_ascii_chars(expression)
}

/// `Calculator::parse_get`, with the number it returns made a parameter again.
/// A number comes back as it is. Whether a symbolic expression evaluates
/// depends on the expression, on the evaluator's variables and on the
/// floating-point library: of the outcome only this is claimed, that a
/// parameter that comes back is a number. The lexer panics on an empty
/// expression and on some characters outside ASCII, which `requires` leaves out.
#[verifier::external_body]
pub(crate) fn evaluate(
    calculator: &Calculator,
    value: &CalculatorFloat,
) -> (r: Result<CalculatorFloat, CalculatorError>)
    requires
        is_number(*value) || evaluable(displayed(*value)),
    ensures
        is_number(*value) ==> r is Ok && r->Ok_0 == *value,
        r matches Ok(v) ==> is_number(v),
{
    match calculator.parse_get(value.clone()) {
        Ok(x) => Ok(CalculatorFloat::from(x)),
        Err(e) => Err(e),
    }
}

/// What resolving `value` may give. A number resolves to itself. A symbolic
/// expression that is empty or not ASCII is refused. Any other expression
/// resolves to a number or fails with the evaluator's error.
pub open spec fn resolves(
    value: CalculatorFloat,
    outcome: Result<CalculatorFloat, RoqoqoError>,
) -> bool {
    if is_number(value) {
        outcome == Ok::<CalculatorFloat, RoqoqoError>(value)
    } else if evaluable(displayed(value)) {
        match outcome {
            Ok(v) => is_number(v),
            Err(e) => e is CalculatorError,
        }
    } else {
        outcome == Err::<CalculatorFloat, RoqoqoError>(RoqoqoError::ExpressionNotSupported)
    }
}

/// Whether resolving `value` can succeed at all: it is a number, or an
/// expression that is handed to the evaluator.
pub open spec fn may_resolve(value: CalculatorFloat) -> bool {
    is_number(value) || evaluable(displayed(value))
}

/// Says what resolving `value` returns once the evaluator has answered with
/// `answer`: its number, or its error as an error of this library.
pub fn resolved(
    answer: Result<CalculatorFloat, CalculatorError>,
) -> (r: Result<CalculatorFloat, RoqoqoError>)
    ensures
        r == match answer {
            Ok(v) => Ok::<CalculatorFloat, RoqoqoError>(v),
            Err(e) => Err::<CalculatorFloat, RoqoqoError>(RoqoqoError::CalculatorError(e)),
        },
{
    match answer {
        Ok(v) => Ok(v),
        Err(e) => Err(RoqoqoError::CalculatorError(e)),
    }
}

/// Resolves a parameter to a number with the evaluator's current variables.
pub fn resolve(
    calculator: &Calculator,
    value: &CalculatorFloat,
) -> (r: Result<CalculatorFloat, RoqoqoError>)
    ensures
        resolves(*value, r),
{
    if value.is_float() {
        resolved(evaluate(calculator, value))
    } else {
        let text = text_of(value);
        if !text.as_str().is_empty() && text.as_str().is_ascii() {
            resolved(evaluate(calculator, value))
        } else {
            Err(RoqoqoError::ExpressionNotSupported)
        }
    }
}

} // verus!
