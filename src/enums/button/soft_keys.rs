use crate::errors::mapping::HardwareMappingError;
use vstd::prelude::*;

verus! {

/// The row of soft keys under the pad grid.
#[derive(Debug, Clone, Copy, PartialEq, Eq, Structural)]
pub enum SoftKey {
    ClipStop,
    Solo,
    Mute,
    RecArm,
    Select,
}

impl SoftKey {
    /// The raw byte of each soft key.
    pub open spec fn code_spec(self) -> u8 {
        match self {
            SoftKey::ClipStop => 82,
            SoftKey::Solo => 83,
            SoftKey::Mute => 84,
            SoftKey::RecArm => 85,
            SoftKey::Select => 86,
        }
    }

    /// Decoding of a raw byte: the soft key whose code it is.
    pub open spec fn decode_spec(value: u8) -> Result<SoftKey, HardwareMappingError> {
        if value == 82 {
            Ok(SoftKey::ClipStop)
        } else if value == 83 {
            Ok(SoftKey::Solo)
        } else if value == 84 {
            Ok(SoftKey::Mute)
        } else if value == 85 {
            Ok(SoftKey::RecArm)
        } else if value == 86 {
            Ok(SoftKey::Select)
        } else {
            Err(HardwareMappingError::InvalidSoftKeyIndex(value))
        }
    }

    pub fn encode(self) -> (r: u8)
        ensures
            r == self.code_spec(),
    {
        match self {
            SoftKey::ClipStop => 82,
            SoftKey::Solo => 83,
            SoftKey::Mute => 84,
            SoftKey::RecArm => 85,
            SoftKey::Select => 86,
        }
    }

    pub fn decode(value: u8) -> (r: Result<SoftKey, HardwareMappingError>)
        ensures
            r == Self::decode_spec(value),
    {
        match value {
            82 => Ok(SoftKey::ClipStop),
            83 => Ok(SoftKey::Solo),
            84 => Ok(SoftKey::Mute),
            85 => Ok(SoftKey::RecArm),
            86 => Ok(SoftKey::Select),
            _ => Err(HardwareMappingError::InvalidSoftKeyIndex(value)),
        }
    }
}

} // verus!
