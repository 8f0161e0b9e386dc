//! The reasons for which a byte sequence is rejected as a frame.

use vstd::prelude::*;

verus! {

/// Why a byte sequence could not be read as a frame.
#[derive(Copy, Clone, Debug, PartialEq, Eq, Structural)]
pub enum ParseError {
    /// The input held no bytes at all.
    EmptyFrame,
    /// The input held one to three bytes: fewer than the four that the
    /// header of a frame takes.
    FrameTooShort,
}

impl ParseError {
    /// The text that describes the error.
    pub open spec fn spec_message(self) -> Seq<char> {
        match self {
            ParseError::EmptyFrame => "Message has no data"@,
            ParseError::FrameTooShort => "Message is too short"@,
        }
    }

    /// A short human-readable description of the error.
    pub fn message(&self) -> (text: &'static str)
        ensures
            text@ == self.spec_message(),
    {
        match self {
            ParseError::EmptyFrame => "Message has no data",
            ParseError::FrameTooShort => "Message is too short",
        }
    }
}

} // verus!
