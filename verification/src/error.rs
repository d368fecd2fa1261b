//! Errors reported by constructors and bounds-checked accessors.

use vstd::prelude::*;

verus! {

/// Why a noise value, table or adapter could not be built or read.
#[derive(Clone, Copy, Debug, PartialEq, Eq, Structural)]
pub enum NoiseError {
    /// A table or grid was requested with zero elements.
    ZeroSize,
    /// A range-defining adapter was given `low >= high` on some axis.
    InvalidRange,
    /// The requested frequency exceeds the gradient provider's extent.
    FrequencyTooLarge,
    /// A lattice coordinate lies outside a dense grid's vertex bounds.
    IndexOutOfRange,
    /// A frequency was queried on an octave sequence with no octaves.
    EmptyOctaves,
}

impl NoiseError {
    /// A short human-readable description of the error.
    pub fn message(&self) -> &'static str {
        match self {
            NoiseError::ZeroSize => "size must be greater than zero",
            NoiseError::InvalidRange => "lower bound must be below upper bound",
            NoiseError::FrequencyTooLarge => "frequency exceeds the gradient provider's extent",
            NoiseError::IndexOutOfRange => "lattice coordinate outside the grid",
            NoiseError::EmptyOctaves => "octave sequence is empty",
        }
    }
}

} // verus!
