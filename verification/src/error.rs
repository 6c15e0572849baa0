//! The error type shared by all gate operations.
use qoqo_calculator::CalculatorError;
use vstd::prelude::*;

verus! {

/// Why a gate operation failed.
#[derive(Debug, PartialEq)]
pub enum RoqoqoError {
    /// The scalar calculator failed: a symbolic parameter could not be turned
    /// into a number, or could not be evaluated.
    CalculatorError(CalculatorError),
    /// A qubit that the operation acts on has no image under a qubit mapping.
    QubitMappingError {
        /// The qubit that is missing from the mapping.
        qubit: usize,
    },
}

} // verus!
