use vstd::prelude::*;

verus! {

/// An LED mode or colour byte outside its enumeration.
#[derive(Debug, Clone, Copy, PartialEq, Eq, Structural)]
pub enum LedValidationError {
    InvalidNumber(u8),
}

} // verus!
