pub mod mapping;
pub mod validation;
