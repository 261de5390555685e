//! The typed failures that statistics reconstruction can produce. Both are
//! recoverable by the caller; neither is a panic.

use vstd::prelude::*;

verus! {

/// An error produced while reconstructing statistics.
#[derive(Debug, Clone, PartialEq)]
pub enum ArrowError {
    /// The stored physical representation cannot be held by the target
    /// logical type, for example a byte width above 16 for a 128-bit
    /// decimal.
    ExternalFormat(String),
    /// The target logical type has no defined reconstruction from the
    /// fixed-length-byte-array physical type.
    NotYetImplemented(String),
}

impl ArrowError {
    /// The human-readable message the error carries.
    pub open spec fn spec_message(&self) -> Seq<char> {
        match self {
            ArrowError::ExternalFormat(m) => m@,
            ArrowError::NotYetImplemented(m) => m@,
        }
    }

    /// Returns the human-readable message the error carries.
    pub fn message(&self) -> (r: &str)
        ensures
            r@ == self.spec_message(),
    {
        match self {
            ArrowError::ExternalFormat(m) => m.as_str(),
            ArrowError::NotYetImplemented(m) => m.as_str(),
        }
    }
}

} // verus!
