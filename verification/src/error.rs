//! Error taxonomy of the crate.
//!
//! Construction-time parameter checks, output-shape comparisons and strategy
//! validation each have their own error kind; every fallible operation
//! returns a typed result and nothing panics on malformed input values.

use vstd::prelude::*;

use crate::types::OutputShape;

verus! {

/// Errors raised when comparing or converting indicator output values.
#[derive(Debug, Clone, PartialEq)]
pub enum OutputError {
    /// The two values have incompatible variants.
    TypeMismatch,
    /// The two arrays have different lengths.
    LengthMismatch(usize, usize),
    /// A shape is structurally invalid (an empty size or an empty tensor).
    InvalidOutputShape(OutputShape),
}

/// Errors raised while validating a strategy tree.
#[derive(Debug, Clone, PartialEq)]
pub enum StrategyError {
    /// An `If` node is missing its `else` branch.
    MissingElseBranch,
    /// A `Sequence` node has no child nodes.
    EmptySequence,
    /// A comparison joins an indicator and a value of different shapes.
    IncompatibleShapes { name: String, indicator: OutputShape, value: OutputShape },
    /// An indicator inside a condition has an unusable period.
    InvalidIndicatorPeriod { period: usize },
}

/// The crate-wide error type.
#[derive(Debug, Clone, PartialEq)]
pub enum TaError {
    /// A construction parameter is out of range (for example a zero period).
    InvalidParameter(String),
    /// A batch helper was called on an empty input.
    EmptyIterator(String),
    /// An output value had a different variant than the caller required.
    IncorrectOutputType { expected: String, actual: String },
    /// An operation not supported by the active variant.
    Unexpected(String),
    /// A comparison of output values failed.
    Cmp(OutputError),
    /// A strategy validation error.
    Strategy(StrategyError),
    /// A cached value was read before any update produced it.
    NotInitialized(String),
    /// An operation that the receiver does not allow.
    Unallowed(String),
}

impl From<OutputError> for TaError {
    fn from(e: OutputError) -> (r: TaError) {
        TaError::Cmp(e)
    }
}

impl vstd::std_specs::convert::FromSpecImpl<OutputError> for TaError {
    open spec fn obeys_from_spec() -> bool {
        true
    }

    open spec fn from_spec(e: OutputError) -> TaError {
        TaError::Cmp(e)
    }
}

impl From<StrategyError> for TaError {
    fn from(e: StrategyError) -> (r: TaError) {
        TaError::Strategy(e)
    }
}

impl vstd::std_specs::convert::FromSpecImpl<StrategyError> for TaError {
    open spec fn obeys_from_spec() -> bool {
        true
    }

    open spec fn from_spec(e: StrategyError) -> TaError {
        TaError::Strategy(e)
    }
}

/// The crate-wide result type.
pub type TaResult<T> = Result<T, TaError>;

} // verus!
