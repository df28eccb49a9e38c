//! Device kinds, battery state and firmware descriptors.

use vstd::prelude::*;

verus! {

/// What kind of device this is.
#[derive(Debug, Clone, Copy, PartialEq, Eq, Structural)]
pub enum DeviceKind {
    Unknown,
    Keyboard,
    Mouse,
    Numpad,
    Presenter,
    Remote,
    Trackball,
    Touchpad,
    Tablet,
    Gamepad,
    Joystick,
    Headset,
    RemoteControl,
    Receiver,
}

/// The device kind that a HID++ kind byte denotes.
pub open spec fn device_kind_of(b: u8) -> DeviceKind {
    match b {
        0x01 => DeviceKind::Keyboard,
        0x02 => DeviceKind::Mouse,
        0x03 => DeviceKind::Numpad,
        0x04 => DeviceKind::Presenter,
        0x07 => DeviceKind::Remote,
        0x08 => DeviceKind::Trackball,
        0x09 => DeviceKind::Touchpad,
        0x0A => DeviceKind::Tablet,
        0x0B => DeviceKind::Gamepad,
        0x0C => DeviceKind::Joystick,
        0x0D => DeviceKind::Headset,
        0x0E => DeviceKind::RemoteControl,
        0x0F => DeviceKind::Receiver,
        _ => DeviceKind::Unknown,
    }
}

/// The lower-case name of a device kind.
pub open spec fn device_kind_name(k: DeviceKind) -> Seq<char> {
    match k {
        DeviceKind::Unknown => "unknown"@,
        DeviceKind::Keyboard => "keyboard"@,
        DeviceKind::Mouse => "mouse"@,
        DeviceKind::Numpad => "numpad"@,
        DeviceKind::Presenter => "presenter"@,
        DeviceKind::Remote => "remote"@,
        DeviceKind::Trackball => "trackball"@,
        DeviceKind::Touchpad => "touchpad"@,
        DeviceKind::Tablet => "tablet"@,
        DeviceKind::Gamepad => "gamepad"@,
        DeviceKind::Joystick => "joystick"@,
        DeviceKind::Headset => "headset"@,
        DeviceKind::RemoteControl => "remote_control"@,
        DeviceKind::Receiver => "receiver"@,
    }
}

impl DeviceKind {
    pub fn from_byte(b: u8) -> (r: Self)
        ensures
            r == device_kind_of(b),
            r == DeviceKind::Unknown <==> !(0x01 <= b <= 0x04 || 0x07 <= b <= 0x0F),
    {
        match b {
            0x01 => Self::Keyboard,
            0x02 => Self::Mouse,
            0x03 => Self::Numpad,
            0x04 => Self::Presenter,
            0x07 => Self::Remote,
            0x08 => Self::Trackball,
            0x09 => Self::Touchpad,
            0x0A => Self::Tablet,
            0x0B => Self::Gamepad,
            0x0C => Self::Joystick,
            0x0D => Self::Headset,
            0x0E => Self::RemoteControl,
            0x0F => Self::Receiver,
            _ => Self::Unknown,
        }
    }

    pub fn as_str(&self) -> (r: &'static str)
        ensures
            r@ == device_kind_name(*self),
    {
        match self {
            Self::Unknown => "unknown",
            Self::Keyboard => "keyboard",
            Self::Mouse => "mouse",
            Self::Numpad => "numpad",
            Self::Presenter => "presenter",
            Self::Remote => "remote",
            Self::Trackball => "trackball",
            Self::Touchpad => "touchpad",
            Self::Tablet => "tablet",
            Self::Gamepad => "gamepad",
            Self::Joystick => "joystick",
            Self::Headset => "headset",
            Self::RemoteControl => "remote_control",
            Self::Receiver => "receiver",
        }
    }
}

/// Approximate battery level, used when the device reports a category rather than a percentage.
#[derive(Debug, Clone, Copy, PartialEq, Eq, Structural)]
pub enum BatteryLevel {
    Empty,
    Critical,
    Low,
    Good,
    Full,
}

/// The charge percentage that stands for a battery level category.
pub open spec fn battery_level_percent(l: BatteryLevel) -> u8 {
    match l {
        BatteryLevel::Empty => 0,
        BatteryLevel::Critical => 5,
        BatteryLevel::Low => 20,
        BatteryLevel::Good => 50,
        BatteryLevel::Full => 90,
    }
}

impl BatteryLevel {
    /// The charge percentage that this category stands for.
    pub fn percent(&self) -> (r: u8)
        ensures
            r == battery_level_percent(*self),
    {
        match self {
            Self::Empty => 0,
            Self::Critical => 5,
            Self::Low => 20,
            Self::Good => 50,
            Self::Full => 90,
        }
    }
}

/// Battery charging/discharging status.
#[derive(Debug, Clone, Copy, PartialEq, Eq, Structural)]
pub enum BatteryStatus {
    Discharging,
    Recharging,
    AlmostFull,
    Full,
    SlowRecharge,
    InvalidBattery,
    ThermalError,
}

impl BatteryStatus {
    pub fn is_charging(&self) -> (r: bool)
        ensures
            r == (*self is Recharging || *self is AlmostFull || *self is Full
                || *self is SlowRecharge),
    {
        match self {
            Self::Recharging | Self::AlmostFull | Self::Full | Self::SlowRecharge => true,
            _ => false,
        }
    }
}

/// Battery state for a device.
#[derive(Debug, Clone, Copy, PartialEq, Eq, Structural)]
pub struct Battery {
    /// Charge level 0-100, or an approximation from BatteryLevel.
    pub level: Option<u8>,
    pub status: Option<BatteryStatus>,
    /// Voltage in mV, when available (HID++ 2.0 battery voltage feature).
    pub voltage: Option<u16>,
}

/// Firmware component type.
#[derive(Debug, Clone, Copy, PartialEq, Eq, Structural)]
pub enum FirmwareKind {
    Firmware,
    Bootloader,
    Other,
}

/// One firmware component on a device.
#[derive(Debug, Clone)]
pub struct FirmwareInfo {
    pub kind: FirmwareKind,
    pub version: String,
}

/// All information read about a paired device.
#[derive(Debug, Clone)]
pub struct DeviceInfo {
    /// Slot number on the receiver (1-based).
    pub slot: u8,
    /// Human-readable name, e.g. "MX Master 3S".
    pub name: String,
    pub kind: DeviceKind,
    /// Serial number as a hex string.
    pub serial: String,
    /// Wireless product ID (2 bytes).
    pub wpid: [u8; 2],
    pub battery: Option<Battery>,
    pub firmware: Vec<FirmwareInfo>,
}

/// The HID++ kind byte decodes by the kind table: 0x01 keyboard, 0x02 mouse,
/// 0x03 numpad, 0x04 presenter, 0x07 remote, 0x08 trackball, 0x09
/// touchpad, 0x0A tablet, 0x0B gamepad, 0x0C joystick, 0x0D headset, 0x0E
/// remote control, 0x0F receiver; any other byte is unknown. Distinct known
/// bytes denote distinct kinds.
pub proof fn lemma_device_kind_table(a: u8, b: u8)
    ensures
        device_kind_of(0x01) == DeviceKind::Keyboard,
        device_kind_of(0x02) == DeviceKind::Mouse,
        device_kind_of(0x03) == DeviceKind::Numpad,
        device_kind_of(0x04) == DeviceKind::Presenter,
        device_kind_of(0x07) == DeviceKind::Remote,
        device_kind_of(0x08) == DeviceKind::Trackball,
        device_kind_of(0x09) == DeviceKind::Touchpad,
        device_kind_of(0x0A) == DeviceKind::Tablet,
        device_kind_of(0x0B) == DeviceKind::Gamepad,
        device_kind_of(0x0C) == DeviceKind::Joystick,
        device_kind_of(0x0D) == DeviceKind::Headset,
        device_kind_of(0x0E) == DeviceKind::RemoteControl,
        device_kind_of(0x0F) == DeviceKind::Receiver,
        (a == 0 || a == 5 || a == 6 || a > 0x0F) ==> device_kind_of(a) == DeviceKind::Unknown,
        device_kind_of(a) != DeviceKind::Unknown && a != b ==> device_kind_of(a) != device_kind_of(b),
{
}

} // verus!
