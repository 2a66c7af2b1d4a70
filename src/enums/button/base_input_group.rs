use vstd::prelude::*;

verus! {

/// The pad/knob surface's controls under their older name.
pub type BaseInputGroup = crate::enums::input_group::PadsAndKnobsInputGroup;

} // verus!
