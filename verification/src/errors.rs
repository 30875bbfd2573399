use vstd::prelude::*;

verus! {

/// Why a text is not an unsigned decimal integer.
#[derive(Clone, Copy, Debug, PartialEq, Eq, Structural)]
pub enum IntErrorKind {
    /// The text is empty.
    Empty,
    /// A character is not a decimal digit, or a sign stands alone.
    InvalidDigit,
    /// The number does not fit the integer type.
    PosOverflow,
}

/// What the library's constructors and parsers report.
#[derive(Debug, PartialEq, Eq)]
pub enum Error {
    /// A value that is not accepted: the value, then the reason.
    InvalidParam(usize, String),
    /// A text in the wrong shape: the offending text, then the expected shape.
    ParseError(String, String),
    /// A text that is not an unsigned decimal integer.
    ParseIntError(IntErrorKind),
}

impl Error {
    /// Whether this is a `ParseError` for `text` that names `expected` as the shape.
    pub open spec fn is_parse_error(self, text: Seq<char>, expected: Seq<char>) -> bool {
        match self {
            Error::ParseError(t, e) => t@ == text && e@ == expected,
            _ => false,
        }
    }

    /// Whether this is an `InvalidParam` for `value` with `reason`.
    pub open spec fn is_invalid_param(self, value: usize, reason: Seq<char>) -> bool {
        match self {
            Error::InvalidParam(v, r) => v == value && r@ == reason,
            _ => false,
        }
    }
}

/// The parse error for `text`, whose expected shape is `expected`.
pub fn parse_error(text: &str, expected: &str) -> (e: Error)
    ensures
        e.is_parse_error(text@, expected@),
{
    Error::ParseError(text.to_string(), expected.to_string())
}

} // verus!
