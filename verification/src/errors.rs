//! The error taxonomy of the compositor.
//!
//! Every failure a caller can see is one of these variants; none of the
//! library's verified functions panics.

use vstd::prelude::*;

verus! {

/// Why a compositor operation was refused.
#[derive(Clone, Copy, Debug, PartialEq, Eq, Structural)]
pub enum CompositorError {
    /// A base or overlay image could not be decoded.
    Decode,
    /// A geometric precondition did not hold, e.g. the overlay rectangle
    /// is not contained in the base rectangle.
    PreconditionViolation,
    /// Encoded output could not be produced or written.
    Io,
    /// The requested output format has no encoder.
    UnsupportedFormat,
    /// The stack holds only its base layer, so no overlay can be removed.
    EmptyStack,
}

impl CompositorError {
    /// A short description, for surfacing to a user.
    pub fn describe(&self) -> (r: &'static str)
    {
        match self {
            CompositorError::Decode => "the image could not be decoded",
            CompositorError::PreconditionViolation => "the overlay does not fit the base rectangle",
            CompositorError::Io => "the output could not be written",
            CompositorError::UnsupportedFormat => "the requested output format has no encoder",
            CompositorError::EmptyStack => "only the base layer remains",
        }
    }
}

} // verus!
