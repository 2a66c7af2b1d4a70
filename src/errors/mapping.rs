use vstd::prelude::*;

verus! {

/// A raw byte that does not name a control of the attempted key type.
/// Each variant carries the offending byte.
#[derive(Debug, Clone, Copy, PartialEq, Eq, Structural)]
pub enum HardwareMappingError {
    InvalidPadIndex(u8),
    InvalidKnobCtrlIndex(u8),
    InvalidSoftKeyIndex(u8),
    InvalidKeyboardKeyIndex(u8),
}

impl HardwareMappingError {
    /// The raw byte that could not be mapped.
    pub open spec fn raw_spec(self) -> u8 {
        match self {
            HardwareMappingError::InvalidPadIndex(v) => v,
            HardwareMappingError::InvalidKnobCtrlIndex(v) => v,
            HardwareMappingError::InvalidSoftKeyIndex(v) => v,
            HardwareMappingError::InvalidKeyboardKeyIndex(v) => v,
        }
    }

    /// The raw byte that could not be mapped.
    pub fn raw(self) -> (r: u8)
        ensures
            r == self.raw_spec(),
    {
        match self {
            HardwareMappingError::InvalidPadIndex(v) => v,
            HardwareMappingError::InvalidKnobCtrlIndex(v) => v,
            HardwareMappingError::InvalidSoftKeyIndex(v) => v,
            HardwareMappingError::InvalidKeyboardKeyIndex(v) => v,
        }
    }
}

} // verus!
