//! What the HID layer reports about one interface of an attached device.

use vstd::prelude::*;

verus! {

/// Descriptor metadata of one HID interface, as listed by the HID layer
/// before any device is opened.
#[derive(Debug, Clone)]
pub struct HidInterface {
    pub vendor_id: u16,
    pub product_id: u16,
    pub usage_page: u16,
    pub usage: u16,
    /// OS path of the interface (lossily decoded).
    pub path: String,
    pub serial_number: Option<String>,
    pub product_string: Option<String>,
}

} // verus!
