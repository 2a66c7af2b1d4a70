use crate::errors::validation::LedValidationError;
use vstd::prelude::*;

verus! {

/// A colour of the device's palette; the code is the velocity byte of the
/// LED command.
#[derive(Debug, Clone, Copy, PartialEq, Eq, Structural)]
pub enum LedColor {
    Off,
    White,
    Red,
    Orange,
    Yellow,
    Green,
    Blue,
    Magenta,
}

impl LedColor {
    /// The byte that stands for each value on the wire.
    pub open spec fn code_spec(self) -> u8 {
        match self {
            LedColor::Off => 0u8,
            LedColor::White => 3u8,
            LedColor::Red => 5u8,
            LedColor::Orange => 9u8,
            LedColor::Yellow => 13u8,
            LedColor::Green => 21u8,
            LedColor::Blue => 45u8,
            LedColor::Magenta => 53u8,
        }
    }

    /// Decoding of a byte: the value whose code it is.
    pub open spec fn decode_spec(val: u8) -> Result<LedColor, LedValidationError> {
        if val == 0u8 {
            Ok(LedColor::Off)
        } else if val == 3u8 {
            Ok(LedColor::White)
        } else if val == 5u8 {
            Ok(LedColor::Red)
        } else if val == 9u8 {
            Ok(LedColor::Orange)
        } else if val == 13u8 {
            Ok(LedColor::Yellow)
        } else if val == 21u8 {
            Ok(LedColor::Green)
        } else if val == 45u8 {
            Ok(LedColor::Blue)
        } else if val == 53u8 {
            Ok(LedColor::Magenta)
        } else {
            Err(LedValidationError::InvalidNumber(val))
        }
    }

    pub fn encode(self) -> (r: u8)
        ensures
            r == self.code_spec(),
    {
        match self {
            LedColor::Off => 0u8,
            LedColor::White => 3u8,
            LedColor::Red => 5u8,
            LedColor::Orange => 9u8,
            LedColor::Yellow => 13u8,
            LedColor::Green => 21u8,
            LedColor::Blue => 45u8,
            LedColor::Magenta => 53u8,
        }
    }

    pub fn decode(val: u8) -> (r: Result<LedColor, LedValidationError>)
        ensures
            r == Self::decode_spec(val),
    {
        match val {
            0u8 => Ok(LedColor::Off),
            3u8 => Ok(LedColor::White),
            5u8 => Ok(LedColor::Red),
            9u8 => Ok(LedColor::Orange),
            13u8 => Ok(LedColor::Yellow),
            21u8 => Ok(LedColor::Green),
            45u8 => Ok(LedColor::Blue),
            53u8 => Ok(LedColor::Magenta),
            _ => Err(LedValidationError::InvalidNumber(val)),
        }
    }
}

/// Decoding the code of any colour gives that colour back.
pub proof fn lemma_color_round_trip(c: LedColor)
    ensures
        c.code_spec() <= 127,
        LedColor::decode_spec(c.code_spec()) == Ok::<LedColor, LedValidationError>(c),
{
}

} // verus!
