pub mod base_input_group;
pub mod input_group;
pub mod keyboard_input_group;
pub mod knob_ctrl;
pub mod pads;
pub mod soft_keys;
