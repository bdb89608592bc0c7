//! Codec errors.
use vstd::prelude::*;

verus! {

/// Failure of an encode or decode step.
#[derive(Debug, Clone, Copy, PartialEq, Eq)]
pub enum PduError {
    /// A value is malformed or out of range: bad UTF-8, an over-limit length, a
    /// conflicting flag combination, a size overflow or a message type mismatch.
    InvalidField { field: &'static str, reason: &'static str },
    /// Fewer bytes remain than the field being read declares.
    NotEnoughBytes { received: usize, expected: usize },
    /// A well-formed frame whose message class, or kind within the class, is unknown.
    UnsupportedMessage { class: u8, kind: u8 },
}

impl PduError {
    /// The error for a field whose value is malformed or out of range.
    pub fn invalid_field(field: &'static str, reason: &'static str) -> (r: PduError)
        ensures
            r == (PduError::InvalidField { field, reason }),
    {
        PduError::InvalidField { field, reason }
    }

    /// True for a truncated input.
    pub fn is_not_enough_bytes(&self) -> (r: bool)
        ensures
            r == (self is NotEnoughBytes),
    {
        match self {
            PduError::NotEnoughBytes { .. } => true,
            _ => false,
        }
    }

    /// True for a malformed or out-of-range field.
    pub fn is_invalid_field(&self) -> (r: bool)
        ensures
            r == (self is InvalidField),
    {
        match self {
            PduError::InvalidField { .. } => true,
            _ => false,
        }
    }
}

} // verus!
