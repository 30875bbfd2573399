use vstd::prelude::*;
use crate::errors::{Error, IntErrorKind};
use crate::text::{parse_usize, spec_parse_unsigned};

verus! {

/// How much the window enlarges the frame.
#[derive(Clone, Copy, Debug, PartialEq, Eq, Structural)]
pub enum Scale {
    /// As large as the screen allows.
    FitScreen,
    X1,
    X2,
    X4,
    X8,
    X16,
    X32,
}

impl Scale {
    /// The number that selects this scale; 0 selects `FitScreen`.
    pub open spec fn number(self) -> nat {
        match self {
            Scale::FitScreen => 0,
            Scale::X1 => 1,
            Scale::X2 => 2,
            Scale::X4 => 4,
            Scale::X8 => 8,
            Scale::X16 => 16,
            Scale::X32 => 32,
        }
    }
}

/// Whether some scale has the number `num`.
pub open spec fn is_scale_number(num: nat) -> bool {
    num == 0 || num == 1 || num == 2 || num == 4 || num == 8 || num == 16 || num == 32
}

/// The scale with the number `num`.
pub fn num_to_scale(num: usize) -> (r: Result<Scale, Error>)
    ensures
        match r {
            Ok(scale) => scale.number() == num,
            Err(e) => !is_scale_number(num as nat) && e.is_invalid_param(
                num,
                "Only 0, 1, 2, 4, 8, 16, & 32 are permitted for scale."@,
            ),
        },
{
    match num {
        0 => Ok(Scale::FitScreen),
        1 => Ok(Scale::X1),
        2 => Ok(Scale::X2),
        4 => Ok(Scale::X4),
        8 => Ok(Scale::X8),
        16 => Ok(Scale::X16),
        32 => Ok(Scale::X32),
        _ => Err(
            Error::InvalidParam(
                num,
                "Only 0, 1, 2, 4, 8, 16, & 32 are permitted for scale.".to_string(),
            ),
        ),
    }
}

/// The scale whose number `s` writes in decimal.
pub fn string_to_scale(s: &str) -> (r: Result<Scale, Error>)
    ensures
        match spec_parse_unsigned(s@, usize::MAX as nat) {
            Err(kind) => r == Err::<Scale, Error>(Error::ParseIntError(kind)),
            Ok(num) => match r {
                Ok(scale) => scale.number() == num,
                Err(e) => !is_scale_number(num) && num <= usize::MAX && e.is_invalid_param(
                    num as usize,
                    "Only 0, 1, 2, 4, 8, 16, & 32 are permitted for scale."@,
                ),
            },
        },
{
    match parse_usize(s) {
        Err(kind) => Err(Error::ParseIntError(kind)),
        Ok(num) => num_to_scale(num),
    }
}

} // verus!
