//! The errors of this library.

use qoqo_calculator::CalculatorError;
use vstd::prelude::*;

verus! {

/// What can go wrong when an operation is transformed or its channel is computed.
#[derive(Debug, PartialEq)]
pub enum RoqoqoError {
    /// The qubit mapping has no image for a qubit that the operation uses.
    QubitMappingError {
        /// The qubit that the mapping lacks.
        qubit: usize,
    },
    /// The symbolic evaluator reported an error: a symbolic parameter where a
    /// number is needed, or an expression that it cannot evaluate.
    CalculatorError(CalculatorError),
    /// A symbolic expression is empty or holds a character outside ASCII, so
    /// that it is not handed to the evaluator at all.
    ExpressionNotSupported,
}

impl RoqoqoError {
    /// A short description of the error.
    pub fn message(&self) -> (r: String)
        ensures
            r@ == match self {
                RoqoqoError::QubitMappingError { .. } => "qubit not found in the mapping"@,
                RoqoqoError::CalculatorError(_) => "error of the symbolic evaluator"@,
                RoqoqoError::ExpressionNotSupported => "expression is empty or not ASCII"@,
            },
    {
        match self {
            RoqoqoError::QubitMappingError { .. } => "qubit not found in the mapping".to_string(),
            RoqoqoError::CalculatorError(_) => "error of the symbolic evaluator".to_string(),
            RoqoqoError::ExpressionNotSupported => "expression is empty or not ASCII".to_string(),
        }
    }
}

} // verus!
