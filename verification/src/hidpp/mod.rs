//! HID++ 1.0 and 2.0 protocol logic.

pub mod hidpp10;
pub mod hidpp20;
pub mod message;
