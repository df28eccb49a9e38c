//! Device types and descriptors.

pub mod hid;
pub mod types;
