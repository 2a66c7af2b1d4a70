pub mod input_data;
pub mod led;
