use vstd::prelude::*;

verus! {

/// The pad/knob surface's controls, as the input listener reports them.
pub type InputGroup = crate::enums::input_group::PadsAndKnobsInputGroup;

} // verus!
