//! HID++ protocol core for Logitech Unifying, Bolt, Nano and Lightspeed
//! receivers and their paired devices.

pub mod devices;
pub mod diag;
pub mod direct;
pub mod error;
pub mod ffi;
pub mod hidpp;
pub mod receiver;
pub mod text;
pub mod transport;
