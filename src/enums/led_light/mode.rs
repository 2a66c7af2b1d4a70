use crate::errors::validation::LedValidationError;
use vstd::prelude::*;

verus! {

/// Brightness and animation of an LED; the code is also the status byte of
/// the command.
#[derive(Debug, Clone, Copy, PartialEq, Eq, Structural)]
pub enum LedMode {
    On10Percent,
    On25Percent,
    On50Percent,
    On65Percent,
    On75Percent,
    On90Percent,
    On100Percent,
    Pulsing1over16,
    Pulsing1over8,
    Pulsing1over4,
    Pulsing1over2,
    Blinking1over24,
    Blinking1over16,
    Blinking1over8,
    Blinking1over4,
    Blinking1over2,
}

impl LedMode {
    /// The byte that stands for each value on the wire.
    pub open spec fn code_spec(self) -> u8 {
        match self {
            LedMode::On10Percent => 0x90u8,
            LedMode::On25Percent => 0x91u8,
            LedMode::On50Percent => 0x92u8,
            LedMode::On65Percent => 0x93u8,
            LedMode::On75Percent => 0x94u8,
            LedMode::On90Percent => 0x95u8,
            LedMode::On100Percent => 0x96u8,
            LedMode::Pulsing1over16 => 0x97u8,
            LedMode::Pulsing1over8 => 0x98u8,
            LedMode::Pulsing1over4 => 0x99u8,
            LedMode::Pulsing1over2 => 0x9Au8,
            LedMode::Blinking1over24 => 0x9Bu8,
            LedMode::Blinking1over16 => 0x9Cu8,
            LedMode::Blinking1over8 => 0x9Du8,
            LedMode::Blinking1over4 => 0x9Eu8,
            LedMode::Blinking1over2 => 0x9Fu8,
        }
    }

    /// Decoding of a byte: the value whose code it is.
    pub open spec fn decode_spec(val: u8) -> Result<LedMode, LedValidationError> {
        if val == 0x90u8 {
            Ok(LedMode::On10Percent)
        } else if val == 0x91u8 {
            Ok(LedMode::On25Percent)
        } else if val == 0x92u8 {
            Ok(LedMode::On50Percent)
        } else if val == 0x93u8 {
            Ok(LedMode::On65Percent)
        } else if val == 0x94u8 {
            Ok(LedMode::On75Percent)
        } else if val == 0x95u8 {
            Ok(LedMode::On90Percent)
        } else if val == 0x96u8 {
            Ok(LedMode::On100Percent)
        } else if val == 0x97u8 {
            Ok(LedMode::Pulsing1over16)
        } else if val == 0x98u8 {
            Ok(LedMode::Pulsing1over8)
        } else if val == 0x99u8 {
            Ok(LedMode::Pulsing1over4)
        } else if val == 0x9Au8 {
            Ok(LedMode::Pulsing1over2)
        } else if val == 0x9Bu8 {
            Ok(LedMode::Blinking1over24)
        } else if val == 0x9Cu8 {
            Ok(LedMode::Blinking1over16)
        } else if val == 0x9Du8 {
            Ok(LedMode::Blinking1over8)
        } else if val == 0x9Eu8 {
            Ok(LedMode::Blinking1over4)
        } else if val == 0x9Fu8 {
            Ok(LedMode::Blinking1over2)
        } else {
            Err(LedValidationError::InvalidNumber(val))
        }
    }

    pub fn encode(self) -> (r: u8)
        ensures
            r == self.code_spec(),
    {
        match self {
            LedMode::On10Percent => 0x90u8,
            LedMode::On25Percent => 0x91u8,
            LedMode::On50Percent => 0x92u8,
            LedMode::On65Percent => 0x93u8,
            LedMode::On75Percent => 0x94u8,
            LedMode::On90Percent => 0x95u8,
            LedMode::On100Percent => 0x96u8,
            LedMode::Pulsing1over16 => 0x97u8,
            LedMode::Pulsing1over8 => 0x98u8,
            LedMode::Pulsing1over4 => 0x99u8,
            LedMode::Pulsing1over2 => 0x9Au8,
            LedMode::Blinking1over24 => 0x9Bu8,
            LedMode::Blinking1over16 => 0x9Cu8,
            LedMode::Blinking1over8 => 0x9Du8,
            LedMode::Blinking1over4 => 0x9Eu8,
            LedMode::Blinking1over2 => 0x9Fu8,
        }
    }

    pub fn decode(val: u8) -> (r: Result<LedMode, LedValidationError>)
        ensures
            r == Self::decode_spec(val),
    {
        match val {
            0x90u8 => Ok(LedMode::On10Percent),
            0x91u8 => Ok(LedMode::On25Percent),
            0x92u8 => Ok(LedMode::On50Percent),
            0x93u8 => Ok(LedMode::On65Percent),
            0x94u8 => Ok(LedMode::On75Percent),
            0x95u8 => Ok(LedMode::On90Percent),
            0x96u8 => Ok(LedMode::On100Percent),
            0x97u8 => Ok(LedMode::Pulsing1over16),
            0x98u8 => Ok(LedMode::Pulsing1over8),
            0x99u8 => Ok(LedMode::Pulsing1over4),
            0x9Au8 => Ok(LedMode::Pulsing1over2),
            0x9Bu8 => Ok(LedMode::Blinking1over24),
            0x9Cu8 => Ok(LedMode::Blinking1over16),
            0x9Du8 => Ok(LedMode::Blinking1over8),
            0x9Eu8 => Ok(LedMode::Blinking1over4),
            0x9Fu8 => Ok(LedMode::Blinking1over2),
            _ => Err(LedValidationError::InvalidNumber(val)),
        }
    }
}

impl Default for LedMode {
    fn default() -> (r: LedMode)
        ensures
            r == LedMode::On100Percent,
    {
        LedMode::On100Percent
    }
}

/// Decoding the code of any mode gives that mode back.
pub proof fn lemma_mode_round_trip(m: LedMode)
    ensures
        0x90 <= m.code_spec() <= 0x9F,
        LedMode::decode_spec(m.code_spec()) == Ok::<LedMode, LedValidationError>(m),
{
}

} // verus!
