pub mod button;
pub mod input_group;
pub mod led_light;
pub mod message_filter;
