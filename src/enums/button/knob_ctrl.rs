use crate::errors::mapping::HardwareMappingError;
use vstd::prelude::*;

verus! {

/// The selectors that choose what the rotary knobs control.
#[derive(Debug, Clone, Copy, PartialEq, Eq, Structural)]
pub enum KnobCtrlKey {
    Volume,
    Pan,
    Send,
    Device,
}

impl KnobCtrlKey {
    /// The raw byte of each selector.
    pub open spec fn code_spec(self) -> u8 {
        match self {
            KnobCtrlKey::Volume => 68,
            KnobCtrlKey::Pan => 69,
            KnobCtrlKey::Send => 70,
            KnobCtrlKey::Device => 71,
        }
    }

    /// Decoding of a raw byte: the selector whose code it is.
    pub open spec fn decode_spec(value: u8) -> Result<KnobCtrlKey, HardwareMappingError> {
        if value == 68 {
            Ok(KnobCtrlKey::Volume)
        } else if value == 69 {
            Ok(KnobCtrlKey::Pan)
        } else if value == 70 {
            Ok(KnobCtrlKey::Send)
        } else if value == 71 {
            Ok(KnobCtrlKey::Device)
        } else {
            Err(HardwareMappingError::InvalidKnobCtrlIndex(value))
        }
    }

    pub fn encode(self) -> (r: u8)
        ensures
            r == self.code_spec(),
    {
        match self {
            KnobCtrlKey::Volume => 68,
            KnobCtrlKey::Pan => 69,
            KnobCtrlKey::Send => 70,
            KnobCtrlKey::Device => 71,
        }
    }

    pub fn decode(value: u8) -> (r: Result<KnobCtrlKey, HardwareMappingError>)
        ensures
            r == Self::decode_spec(value),
    {
        match value {
            68 => Ok(KnobCtrlKey::Volume),
            69 => Ok(KnobCtrlKey::Pan),
            70 => Ok(KnobCtrlKey::Send),
            71 => Ok(KnobCtrlKey::Device),
            _ => Err(HardwareMappingError::InvalidKnobCtrlIndex(value)),
        }
    }
}

} // verus!
