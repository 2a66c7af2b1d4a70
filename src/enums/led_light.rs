pub mod color;
pub mod mode;
