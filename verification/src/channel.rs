//! The channels of the noise operations.
//!
//! A single-qubit noise channel is a real 4x4 matrix, its superoperator. Each
//! family of channels is a closed formula in the decay factor, the exponential
//! of gate time times rate times a negative constant. The numbers are
//! parameters of the evaluator crate, and their arithmetic is that crate's.

use crate::calculator::{
    conversion_error, conversion_failure, difference, divide, exponential, integer_value,
    is_exponential, is_number, multiply, number, plus, product, quotient, root, square_root,
    subtract, total,
};
use crate::error::RoqoqoError;
use qoqo_calculator::CalculatorFloat;
use vstd::prelude::*;

verus! {

/// The superoperator of a noise channel: four rows of four numbers.
#[derive(Debug, PartialEq)]
pub struct Superoperator {
    /// The rows of the matrix.
    pub rows: Vec<Vec<CalculatorFloat>>,
}

impl View for Superoperator {
    type V = Seq<Seq<CalculatorFloat>>;

    open spec fn view(&self) -> Seq<Seq<CalculatorFloat>> {
        Seq::new(self.rows.len() as nat, |i: int| self.rows[i]@)
    }
}

/// Whether a matrix has four rows of four entries, each of them a number.
pub open spec fn is_numeric_matrix(matrix: Seq<Seq<CalculatorFloat>>) -> bool {
    &&& matrix.len() == 4
    &&& forall|i: int| 0 <= i < 4 ==> (#[trigger] matrix[i]).len() == 4
    &&& forall|i: int, j: int| 0 <= i < 4 && 0 <= j < 4 ==> is_number(#[trigger] matrix[i][j])
}

impl Superoperator {
    /// The entry in a row and a column, both counted from zero, or nothing
    /// where the matrix has no such entry.
    pub fn entry(&self, row: usize, column: usize) -> (r: Option<&CalculatorFloat>)
        ensures
            match r {
                Some(value) => row < self@.len() && column < self@[row as int].len() && *value
                    == self@[row as int][column as int],
                None => !(row < self@.len() && column < self@[row as int].len()),
            },
    {
        if row < self.rows.len() {
            if column < self.rows[row].len() {
                return Some(&self.rows[row][column]);
            }
        }
        None
    }
}

/// The argument of the exponential in a superoperator: the constant times
/// gate time, times rate.
pub open spec fn decay_argument(
    constant: int,
    gate_time: CalculatorFloat,
    rate: CalculatorFloat,
) -> CalculatorFloat {
    product(product(integer_value(constant), gate_time), rate)
}

/// The superoperator of damping with decay factor `decay`. With
/// `p = 1 - decay` its rows are `[1, 0, 0, p]`, `[0, sqrt(1 - p), 0, 0]`,
/// `[0, 0, sqrt(1 - p), 0]` and `[0, 0, 0, 1 - p]`.
pub open spec fn damping_matrix(decay: CalculatorFloat) -> Seq<Seq<CalculatorFloat>> {
    let one = integer_value(1);
    let zero = integer_value(0);
    let p = difference(one, decay);
    let s = root(difference(one, p));
    seq![
        seq![one, zero, zero, p],
        seq![zero, s, zero, zero],
        seq![zero, zero, s, zero],
        seq![zero, zero, zero, difference(one, p)],
    ]
}

/// The superoperator of depolarising with decay factor `decay`. With
/// `p = 3/4 (1 - decay)`, `a = 1 - 2/3 p`, `b = 1 - 4/3 p` and `c = 2/3 p` its
/// rows are `[a, 0, 0, c]`, `[0, b, 0, 0]`, `[0, 0, b, 0]` and `[c, 0, 0, a]`.
pub open spec fn depolarising_matrix(decay: CalculatorFloat) -> Seq<Seq<CalculatorFloat>> {
    let one = integer_value(1);
    let zero = integer_value(0);
    let p = product(quotient(integer_value(3), 4), difference(one, decay));
    let a = difference(one, product(quotient(integer_value(2), 3), p));
    let b = difference(one, product(quotient(integer_value(4), 3), p));
    let c = product(quotient(integer_value(2), 3), p);
    seq![
        seq![a, zero, zero, c],
        seq![zero, b, zero, zero],
        seq![zero, zero, b, zero],
        seq![c, zero, zero, a],
    ]
}

/// The superoperator of dephasing with decay factor `decay`. With
/// `p = 1/2 (1 - decay)` it is the diagonal matrix of `1`, `1 - 2 p`,
/// `1 - 2 p` and `1`.
pub open spec fn dephasing_matrix(decay: CalculatorFloat) -> Seq<Seq<CalculatorFloat>> {
    let one = integer_value(1);
    let zero = integer_value(0);
    let p = product(quotient(integer_value(1), 2), difference(one, decay));
    let d = difference(one, product(integer_value(2), p));
    seq![
        seq![one, zero, zero, zero],
        seq![zero, d, zero, zero],
        seq![zero, zero, d, zero],
        seq![zero, zero, zero, one],
    ]
}

/// What the decay factor of a channel may be: if gate time or rate is
/// symbolic, the conversion error of the first of them that is; else a number
/// that is an exponential of the decay argument.
pub open spec fn is_decay(
    constant: int,
    gate_time: CalculatorFloat,
    rate: CalculatorFloat,
    outcome: Result<CalculatorFloat, RoqoqoError>,
) -> bool {
    if !is_number(gate_time) {
        outcome == Err::<CalculatorFloat, RoqoqoError>(
            RoqoqoError::CalculatorError(conversion_error(gate_time)),
        )
    } else if !is_number(rate) {
        outcome == Err::<CalculatorFloat, RoqoqoError>(
            RoqoqoError::CalculatorError(conversion_error(rate)),
        )
    } else {
        outcome matches Ok(decay) && is_number(decay) && is_exponential(
            decay_argument(constant, gate_time, rate),
            decay,
        )
    }
}

/// The decay factor of a channel, which needs gate time and rate as
/// numbers.
pub fn decay_factor(constant: i32, gate_time: &CalculatorFloat, rate: &CalculatorFloat) -> (r:
    Result<CalculatorFloat, RoqoqoError>)
    ensures
        is_decay(constant as int, *gate_time, *rate, r),
{
    if let Some(e) = conversion_failure(gate_time) {
        return Err(RoqoqoError::CalculatorError(e));
    }
    if let Some(e) = conversion_failure(rate) {
        return Err(RoqoqoError::CalculatorError(e));
    }
    let argument = multiply(&multiply(&number(constant), gate_time), rate);
    Ok(exponential(&argument))
}

/// The superoperator of damping for a decay factor.
pub fn damping_channel(decay: &CalculatorFloat) -> (r: Superoperator)
    ensures
        r@ == damping_matrix(*decay),
        is_number(*decay) ==> is_numeric_matrix(r@),
{
    let p = subtract(&number(1), decay);
    let rest = subtract(&number(1), &p);
    let s = square_root(&rest);
    let t = square_root(&rest);
    let rows = vec![
        vec![number(1), number(0), number(0), p],
        vec![number(0), s, number(0), number(0)],
        vec![number(0), number(0), t, number(0)],
        vec![number(0), number(0), number(0), rest],
    ];
    let matrix = Superoperator { rows };
    assert(matrix@ =~~= damping_matrix(*decay));
    matrix
}

/// The superoperator of depolarising for a decay factor.
pub fn depolarising_channel(decay: &CalculatorFloat) -> (r: Superoperator)
    ensures
        r@ == depolarising_matrix(*decay),
        is_number(*decay) ==> is_numeric_matrix(r@),
{
    let p = multiply(&divide(&number(3), 4), &subtract(&number(1), decay));
    let a = subtract(&number(1), &multiply(&divide(&number(2), 3), &p));
    let a2 = subtract(&number(1), &multiply(&divide(&number(2), 3), &p));
    let b = subtract(&number(1), &multiply(&divide(&number(4), 3), &p));
    let b2 = subtract(&number(1), &multiply(&divide(&number(4), 3), &p));
    let c = multiply(&divide(&number(2), 3), &p);
    let c2 = multiply(&divide(&number(2), 3), &p);
    let rows = vec![
        vec![a, number(0), number(0), c],
        vec![number(0), b, number(0), number(0)],
        vec![number(0), number(0), b2, number(0)],
        vec![c2, number(0), number(0), a2],
    ];
    let matrix = Superoperator { rows };
    assert(matrix@ =~~= depolarising_matrix(*decay));
    matrix
}

/// The superoperator of dephasing for a decay factor.
pub fn dephasing_channel(decay: &CalculatorFloat) -> (r: Superoperator)
    ensures
        r@ == dephasing_matrix(*decay),
        is_number(*decay) ==> is_numeric_matrix(r@),
{
    let p = multiply(&divide(&number(1), 2), &subtract(&number(1), decay));
    let d = subtract(&number(1), &multiply(&number(2), &p));
    let d2 = subtract(&number(1), &multiply(&number(2), &p));
    let rows = vec![
        vec![number(1), number(0), number(0), number(0)],
        vec![number(0), d, number(0), number(0)],
        vec![number(0), number(0), d2, number(0)],
        vec![number(0), number(0), number(0), number(1)],
    ];
    let matrix = Superoperator { rows };
    assert(matrix@ =~~= dephasing_matrix(*decay));
    matrix
}

/// The argument of the exponential in a probability: gate time times
/// rate, times the constant.
pub open spec fn probability_argument(
    gate_time: CalculatorFloat,
    rate: CalculatorFloat,
    constant: int,
) -> CalculatorFloat {
    product(product(gate_time, rate), integer_value(constant))
}

/// The probability `(1 - decay) * numerator / denominator`, written as the
/// evaluator crate computes it: `(decay * (-1) + 1) * (numerator / denominator)`.
pub open spec fn probability_value(decay: CalculatorFloat, numerator: int, denominator: int)
    -> CalculatorFloat {
    product(
        total(product(decay, integer_value(-1)), integer_value(1)),
        quotient(integer_value(numerator), denominator),
    )
}

/// The probability that a channel with the given decay factor affects the
/// qubit.
pub fn probability_from(decay: &CalculatorFloat, numerator: i32, denominator: i32) -> (r:
    CalculatorFloat)
    requires
        denominator != 0,
    ensures
        r == probability_value(*decay, numerator as int, denominator as int),
{
    let complement = plus(&multiply(decay, &number(-1)), &number(1));
    multiply(&complement, &divide(&number(numerator), denominator))
}

/// The probability of an exponential channel: `1 - exp(gate_time * rate *
/// constant)` times `numerator / denominator`. It stays symbolic where gate
/// time or rate is.
pub fn exponential_probability(
    gate_time: &CalculatorFloat,
    rate: &CalculatorFloat,
    constant: i32,
    numerator: i32,
    denominator: i32,
) -> (r: CalculatorFloat)
    requires
        denominator != 0,
    ensures
        exists|decay: CalculatorFloat|
            is_exponential(probability_argument(*gate_time, *rate, constant as int), decay) && r
                == probability_value(decay, numerator as int, denominator as int),
{
    let argument = multiply(&multiply(gate_time, rate), &number(constant));
    let decay = exponential(&argument);
    probability_from(&decay, numerator, denominator)
}

/// The first-order probability of random noise: three rates, twice a quarter
/// of the depolarising rate and once that quarter plus the dephasing rate,
/// added up and multiplied by gate time.
pub open spec fn random_noise_probability(
    gate_time: CalculatorFloat,
    depolarising_rate: CalculatorFloat,
    dephasing_rate: CalculatorFloat,
) -> CalculatorFloat {
    let quarter = quotient(depolarising_rate, 4);
    product(total(total(quarter, quarter), total(quarter, dephasing_rate)), gate_time)
}

/// The first-order probability of random noise.
pub fn linear_probability(
    gate_time: &CalculatorFloat,
    depolarising_rate: &CalculatorFloat,
    dephasing_rate: &CalculatorFloat,
) -> (r: CalculatorFloat)
    ensures
        r == random_noise_probability(*gate_time, *depolarising_rate, *dephasing_rate),
{
    let first = divide(depolarising_rate, 4);
    let second = divide(depolarising_rate, 4);
    let third = plus(&divide(depolarising_rate, 4), dephasing_rate);
    multiply(&plus(&plus(&first, &second), &third), gate_time)
}

} // verus!
