//! Errors of the shared primitives.

use vstd::prelude::*;

verus! {

/// What was wrong with a length.
#[derive(Copy, Clone, Debug, PartialEq, Eq, Structural)]
pub enum LengthErrorKind {
    /// Not exactly the given number of bytes.
    LengthExpected,
    /// Not a multiple of the given number of bytes.
    LengthMultipleExpected,
}

/// A byte string of the wrong length, with the length that was asked for and,
/// where the string is one of a list, its index there.
#[derive(Copy, Clone, Debug, PartialEq, Eq, Structural)]
pub struct LengthError {
    pub kind: LengthErrorKind,
    pub length: usize,
    pub index: Option<usize>,
}

impl LengthError {
    /// An error that is not about one element of a list.
    pub fn new(kind: LengthErrorKind, length: usize) -> (r: LengthError)
        ensures
            r == (LengthError { kind, length, index: None }),
    {
        LengthError { kind, length, index: None }
    }

    /// An error about the element at `index` of a list.
    pub fn with_index(kind: LengthErrorKind, length: usize, index: usize) -> (r: LengthError)
        ensures
            r == (LengthError { kind, length, index: Some(index) }),
    {
        LengthError { kind, length, index: Some(index) }
    }

    pub fn kind(&self) -> (r: LengthErrorKind)
        ensures
            r == self.kind,
    {
        self.kind
    }

    pub fn length(&self) -> (r: usize)
        ensures
            r == self.length,
    {
        self.length
    }

    pub fn index(&self) -> (r: Option<usize>)
        ensures
            r == self.index,
    {
        self.index
    }
}

/// Why a binary frame was not accepted.
#[derive(Copy, Clone, Debug, PartialEq, Eq, Structural)]
pub enum FramingError {
    /// The input ends before a field that the frame must have.
    ShortRead,
    /// A constant that marks the protocol has another value.
    BadMagic,
    /// A length field exceeds the frame or the greatest length accepted.
    BadLength,
    /// The framing is in order, but a field holds a value without meaning.
    InvalidValue,
}

} // verus!
