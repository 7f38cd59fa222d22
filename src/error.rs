use vstd::prelude::*;

verus! {

/// The kinds of failure that decoding and encoding report.
#[derive(Debug, Clone, Copy, PartialEq, Eq, Structural)]
pub enum ErrorType {
    /// A structural byte at a value position starts no known token.
    UnexpectedCharacter,
    /// A map key has a shape with no lossless string form.
    KeyMustBeAString,
    /// The tokenizer rejected a number literal.
    InvalidNumber,
    /// The tokenizer rejected a string literal (a bad escape or bad UTF-8).
    InvalidString,
}

/// An error with the byte offset at which it was found.
#[derive(Debug, Clone, Copy, PartialEq, Eq, Structural)]
pub struct Error {
    /// Byte offset of the failing token (0 for errors not tied to input).
    pub index: usize,
    /// The failing byte (0 for errors not tied to input).
    pub character: u8,
    /// What went wrong.
    pub error: ErrorType,
}

impl Error {
    /// An error not tied to a position in any input.
    pub fn generic(t: ErrorType) -> (r: Error)
        ensures
            r == (Error { index: 0, character: 0, error: t }),
    {
        Error { index: 0, character: 0, error: t }
    }

    /// An error at byte offset `index`, where `character` was found.
    pub fn at(index: usize, character: u8, t: ErrorType) -> (r: Error)
        ensures
            r == (Error { index, character, error: t }),
    {
        Error { index, character, error: t }
    }
}

} // verus!
