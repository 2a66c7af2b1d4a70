pub use crate::enums::input_group::KeyboardInputGroup;
