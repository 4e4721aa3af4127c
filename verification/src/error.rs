//! The ways in which synthesis can refuse to run.

use vstd::prelude::*;

verus! {

/// Why a run was refused. A run either completes with a full buffer or is
/// refused before any sample is produced.
#[derive(Debug, Clone, Copy, PartialEq, Eq, Structural)]
pub enum Error {
    /// A parameter lies outside the range in which it has a meaning, such as a
    /// duration or a sample rate that is not positive.
    InvalidParameter,
    /// The sample rate is so low that the reverb delay line would have no
    /// slot at all.
    ArithmeticDegeneracy,
}

impl Error {
    /// The text that describes the error, as a view.
    pub open spec fn message_text(self) -> Seq<char> {
        match self {
            Error::InvalidParameter => "Invalid Parameter"@,
            Error::ArithmeticDegeneracy => "Arithmetic Degeneracy"@,
        }
    }

    /// A short text that describes the error.
    pub fn message(&self) -> (text: String)
        ensures
            text@ == self.message_text(),
    {
        match self {
            Error::InvalidParameter => "Invalid Parameter".to_string(),
            Error::ArithmeticDegeneracy => "Arithmetic Degeneracy".to_string(),
        }
    }
}

} // verus!
