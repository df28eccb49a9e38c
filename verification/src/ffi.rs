//! The values that cross the C boundary and their construction from the
//! library's types.
//!
//! Strings are embedded as null-terminated byte arrays; arrays are bounded and
//! come with a count. The functions here fill those values; the exported
//! entry points that hand them to C callers live with the I/O around the library.

use vstd::prelude::*;
use vstd::string::StringSliceAdditionalSpecFns;
use vstd::utf8::{encode_utf8, encode_utf8_decode_utf8, encode_utf8_valid_utf8};
use crate::diag::{c_buffer_text, lemma_c_text_prefix};
use crate::devices::types::{
    Battery, BatteryStatus, DeviceInfo, DeviceKind,
};
use crate::direct::DirectDeviceInfo;
use crate::error::Error;
use crate::hidpp::hidpp20::{
    BacklightInfo, DpiInfo, FnInfo, HostInfo, MultiplatformInfo, ScrollInfo, SmartShiftInfo,
};
use crate::receiver::{AllDeviceSettings, DeviceEvent, OpenedReceiver, ReceiverHandle, ReceiverKind};
use crate::receiver::pairing::PairingEvent;

verus! {

// -- Status codes -------------------------------------------------------------

/// Status codes returned across the C boundary.
#[derive(Copy, Clone, Debug, PartialEq, Eq, Structural)]
pub enum PulsaarStatus {
    /// Code 0: the call succeeded.
    Success,
    HidError,
    Timeout,
    NoReceiver,
    EmptySlot,
    InvalidArg,
    Unknown,
}

/// The numeric code of each status (Success 0, HidError 1, Timeout 2, NoReceiver
/// 3, EmptySlot 4, InvalidArg 5, Unknown 99).
pub open spec fn status_code(s: PulsaarStatus) -> u32 {
    match s {
        PulsaarStatus::Success => 0,
        PulsaarStatus::HidError => 1,
        PulsaarStatus::Timeout => 2,
        PulsaarStatus::NoReceiver => 3,
        PulsaarStatus::EmptySlot => 4,
        PulsaarStatus::InvalidArg => 5,
        PulsaarStatus::Unknown => 99,
    }
}

/// The status that reports an error: HID errors, timeouts, a missing
/// receiver and empty slots have their own codes; every other error is Unknown.
pub open spec fn status_of_error(e: Error) -> PulsaarStatus {
    match e {
        Error::Hid(_) => PulsaarStatus::HidError,
        Error::Timeout => PulsaarStatus::Timeout,
        Error::NoReceiver => PulsaarStatus::NoReceiver,
        Error::EmptySlot => PulsaarStatus::EmptySlot,
        _ => PulsaarStatus::Unknown,
    }
}

impl PulsaarStatus {
    /// The numeric code of the status.
    pub fn code(&self) -> (r: u32)
        ensures
            r == status_code(*self),
    {
        match self {
            PulsaarStatus::Success => 0,
            PulsaarStatus::HidError => 1,
            PulsaarStatus::Timeout => 2,
            PulsaarStatus::NoReceiver => 3,
            PulsaarStatus::EmptySlot => 4,
            PulsaarStatus::InvalidArg => 5,
            PulsaarStatus::Unknown => 99,
        }
    }

    /// The status that reports an error (see `status_of_error`).
    pub fn from_error(e: &Error) -> (r: Self)
        ensures
            r == status_of_error(*e),
    {
        match e {
            Error::Hid(_) => PulsaarStatus::HidError,
            Error::Timeout => PulsaarStatus::Timeout,
            Error::NoReceiver => PulsaarStatus::NoReceiver,
            Error::EmptySlot => PulsaarStatus::EmptySlot,
            _ => PulsaarStatus::Unknown,
        }
    }
}

/// Distinct statuses have distinct codes, so a C caller can tell every
/// status apart by its code.
pub proof fn lemma_status_codes_distinct(a: PulsaarStatus, b: PulsaarStatus)
    requires
        a != b,
    ensures
        status_code(a) != status_code(b),
{
}

// -- Null-terminated strings --------------------------------------------------

/// An `n`-byte buffer holding the first min(len, n - 1) bytes of `bytes`,
/// zero-filled after them.
pub open spec fn c_string(bytes: Seq<u8>, n: int) -> Seq<u8> {
    Seq::new(n as nat, |i: int| if i < bytes.len() && i < n - 1 { bytes[i] } else { 0u8 })
}

/// Copy a string into a zeroed N-byte buffer, truncated so that at least
/// one NUL byte remains.
pub fn str_to_buf<const N: usize>(s: &str) -> (r: [u8; N])
    ensures
        r@ == c_string(s.spec_bytes(), N as int),
{
    let mut buf: [u8; N] = vstd::array::array_fill_for_copy_types(0u8);
    let bytes = s.as_bytes();
    let limit: usize = if N == 0 {
        0
    } else {
        N - 1
    };
    let len = if bytes.len() < limit {
        bytes.len()
    } else {
        limit
    };
    let mut i: usize = 0;
    while i < len
        invariant
            len <= limit,
            len < N || len == 0,
            len <= bytes@.len(),
            bytes@ == s.spec_bytes(),
            i <= len,
            buf@.len() == N,
            forall|k: int| 0 <= k < i ==> buf@[k] == bytes@[k],
            forall|k: int| i <= k < N ==> buf@[k] == 0,
        decreases len - i,
    {
        buf[i] = bytes[i];
        i = i + 1;
    }
    assert(buf@ =~= c_string(s.spec_bytes(), N as int));
    buf
}

/// A C string buffer always ends in NUL, and holds the whole string, followed
/// by NUL, when the string is shorter than the buffer.
pub proof fn lemma_c_string_terminated(bytes: Seq<u8>, n: int)
    requires
        n >= 1,
    ensures
        c_string(bytes, n).len() == n,
        c_string(bytes, n)[n - 1] == 0,
        bytes.len() < n ==> c_string(bytes, n).take(bytes.len() as int) == bytes,
        bytes.len() < n ==> c_string(bytes, n)[bytes.len() as int] == 0,
{
    if bytes.len() < n {
        assert(c_string(bytes, n).take(bytes.len() as int) =~= bytes);
    }
}

/// A string without NUL characters, copied into a C buffer larger than its
/// encoding, reads back from the buffer unchanged.
pub proof fn lemma_c_string_roundtrip(s: Seq<char>, n: int)
    requires
        encode_utf8(s).len() < n,
        !encode_utf8(s).contains(0u8),
    ensures
        c_buffer_text(c_string(encode_utf8(s), n)) == s,
{
    let b = encode_utf8(s);
    let buf = c_string(b, n);
    assert forall|k: int| 0 <= k < b.len() implies buf[k] != 0 by {
        assert(b.contains(b[k]));
    }
    lemma_c_text_prefix(buf, b.len() as int);
    assert(buf.take(b.len() as int) =~= b);
    encode_utf8_valid_utf8(s);
    encode_utf8_decode_utf8(s);
}

// -- Enum codes ---------------------------------------------------------------

/// 0=Unifying, 1=Bolt, 2=Nano, 3=LightSpeed.
pub open spec fn receiver_kind_code(k: ReceiverKind) -> u8 {
    match k {
        ReceiverKind::Unifying => 0,
        ReceiverKind::Bolt => 1,
        ReceiverKind::Nano => 2,
        ReceiverKind::LightSpeed => 3,
    }
}

pub fn receiver_kind_to_u8(k: ReceiverKind) -> (r: u8)
    ensures
        r == receiver_kind_code(k),
{
    match k {
        ReceiverKind::Unifying => 0,
        ReceiverKind::Bolt => 1,
        ReceiverKind::Nano => 2,
        ReceiverKind::LightSpeed => 3,
    }
}

/// 0=Unknown, 1=Keyboard, 2=Mouse, 3=Numpad, 4=Presenter, 5=Remote,
/// 6=Trackball, 7=Touchpad, 8=Tablet, 9=Gamepad, 10=Joystick, 11=Headset,
/// 12=RemoteControl, 13=Receiver.
pub open spec fn device_kind_code(k: DeviceKind) -> u8 {
    match k {
        DeviceKind::Unknown => 0,
        DeviceKind::Keyboard => 1,
        DeviceKind::Mouse => 2,
        DeviceKind::Numpad => 3,
        DeviceKind::Presenter => 4,
        DeviceKind::Remote => 5,
        DeviceKind::Trackball => 6,
        DeviceKind::Touchpad => 7,
        DeviceKind::Tablet => 8,
        DeviceKind::Gamepad => 9,
        DeviceKind::Joystick => 10,
        DeviceKind::Headset => 11,
        DeviceKind::RemoteControl => 12,
        DeviceKind::Receiver => 13,
    }
}

pub fn device_kind_to_u8(k: DeviceKind) -> (r: u8)
    ensures
        r == device_kind_code(k),
{
    match k {
        DeviceKind::Unknown => 0,
        DeviceKind::Keyboard => 1,
        DeviceKind::Mouse => 2,
        DeviceKind::Numpad => 3,
        DeviceKind::Presenter => 4,
        DeviceKind::Remote => 5,
        DeviceKind::Trackball => 6,
        DeviceKind::Touchpad => 7,
        DeviceKind::Tablet => 8,
        DeviceKind::Gamepad => 9,
        DeviceKind::Joystick => 10,
        DeviceKind::Headset => 11,
        DeviceKind::RemoteControl => 12,
        DeviceKind::Receiver => 13,
    }
}

/// 0=Discharging, 1=Recharging, 2=AlmostFull, 3=Full, 4=SlowRecharge,
/// 5=InvalidBattery, 6=ThermalError.
pub open spec fn battery_status_code(s: BatteryStatus) -> u8 {
    match s {
        BatteryStatus::Discharging => 0,
        BatteryStatus::Recharging => 1,
        BatteryStatus::AlmostFull => 2,
        BatteryStatus::Full => 3,
        BatteryStatus::SlowRecharge => 4,
        BatteryStatus::InvalidBattery => 5,
        BatteryStatus::ThermalError => 6,
    }
}

pub fn battery_status_to_u8(s: BatteryStatus) -> (r: u8)
    ensures
        r == battery_status_code(s),
{
    match s {
        BatteryStatus::Discharging => 0,
        BatteryStatus::Recharging => 1,
        BatteryStatus::AlmostFull => 2,
        BatteryStatus::Full => 3,
        BatteryStatus::SlowRecharge => 4,
        BatteryStatus::InvalidBattery => 5,
        BatteryStatus::ThermalError => 6,
    }
}

fn flag(b: bool) -> (r: u8)
    ensures
        r == (if b {
            1u8
        } else {
            0u8
        }),
{
    if b {
        1
    } else {
        0
    }
}

// -- C structs ----------------------------------------------------------------

/// Info about a receiver as enumerated from the HID device list (pre-open).
#[derive(Clone, Copy, Debug)]
pub struct CReceiverInfo {
    pub product_id: u16,
    /// 0=Unifying, 1=Bolt, 2=Nano, 3=LightSpeed
    pub kind: u8,
    /// Null-terminated display name, e.g. "Bolt Receiver".
    pub name: [u8; 64],
    /// Null-terminated OS HID path (opaque; useful for debugging).
    pub path: [u8; 256],
}

/// Info about a receiver after it has been successfully opened.
#[derive(Clone, Copy, Debug)]
pub struct COpenedReceiverInfo {
    pub product_id: u16,
    /// 0=Unifying, 1=Bolt, 2=Nano, 3=LightSpeed
    pub kind: u8,
    pub max_devices: u8,
    /// Null-terminated display name.
    pub name: [u8; 64],
    /// Null-terminated serial number (hex string); 33 bytes hold the Bolt
    /// receiver's 32-character unique ID plus NUL.
    pub serial: [u8; 33],
}

/// Battery state for a device.
///
/// level:   0-100 if reported, 0xFF if not available.
/// status:  0=Discharging, 1=Recharging, 2=AlmostFull, 3=Full, 4=SlowRecharge,
///          5=InvalidBattery, 6=ThermalError, 0xFF if not available.
/// voltage: millivolts if reported, 0 if not available.
#[derive(Clone, Copy, Debug, PartialEq, Eq, Structural)]
pub struct CBattery {
    pub level: u8,
    pub status: u8,
    pub voltage: u16,
}

/// Info about a directly-connected (Bluetooth) Logitech device.
#[derive(Clone, Copy, Debug)]
pub struct CDirectDeviceInfo {
    pub product_id: u16,
    pub kind: u8,
    /// Null-terminated device name.
    pub name: [u8; 64],
    /// Null-terminated serial (from HID descriptor; may be empty).
    pub serial: [u8; 64],
    pub has_battery: u8,
    pub battery: CBattery,
}

/// DPI capabilities and current state (Adjustable DPI feature, 0x2201).
///
/// dpi_count:   Number of entries populated in dpi_list. 0 means the feature is absent.
/// dpi_list:    Supported DPI values, up to 200 entries.
/// current_dpi: Currently active DPI. 0 if not reported by the device.
/// default_dpi: Default DPI reported by the device. 0 if not reported.
#[derive(Clone, Copy, Debug)]
pub struct CDpiSettings {
    pub dpi_count: u8,
    pub dpi_list: [u16; 200],
    pub current_dpi: u16,
    pub default_dpi: u16,
}

/// Scroll wheel capabilities and current state (HiRes Wheel feature, 0x2121).
#[derive(Clone, Copy, Debug, PartialEq, Eq, Structural)]
pub struct CScrollSettings {
    pub has_invert: u8,
    pub has_hires: u8,
    pub inverted: u8,
    pub hires_enabled: u8,
}

/// SmartShift ratchet state (FEAT_SMART_SHIFT_ENHANCED, 0x2111).
#[derive(Clone, Copy, Debug, PartialEq, Eq, Structural)]
pub struct CSmartShiftSettings {
    pub wheel_mode: u8,
    pub has_torque: u8,
    pub torque: u8,
}

/// Info about one host slot.
///
/// slot:      0-based slot index.
/// name:      Null-terminated host name (up to 63 chars).
/// is_active: 1 if this is the currently active host, 0 otherwise.
#[derive(Clone, Copy, Debug)]
pub struct CHostInfo {
    pub slot: u8,
    pub name: [u8; 64],
    pub is_active: u8,
}

/// List of hosts; count is the number of valid entries (0 if the feature is absent).
#[derive(Clone, Copy, Debug)]
pub struct CHostList {
    pub count: u8,
    pub hosts: [CHostInfo; 8],
}

/// FN key inversion state.
#[derive(Clone, Copy, Debug, PartialEq, Eq, Structural)]
pub struct CFnSettings {
    pub has_feature: u8,
    pub fn_swapped: u8,
}

/// Multiplatform OS layout state (FEAT_MULTIPLATFORM, 0x4531).
///
/// count:            number of valid entries (0 if absent).
/// current:          position of the active platform among the entries.
/// platform_names:   null-terminated OS name strings, up to 8 platforms.
/// platform_indices: platform index values to pass when setting the platform.
#[derive(Clone, Copy, Debug)]
pub struct CMultiplatformSettings {
    pub count: u8,
    pub current: u8,
    pub platform_names: [[u8; 32]; 8],
    pub platform_indices: [u8; 8],
}

/// Backlight state (FEAT_BACKLIGHT2, 0x1982).
#[derive(Clone, Copy, Debug, PartialEq, Eq, Structural)]
pub struct CBacklightSettings {
    pub has_feature: u8,
    pub mode: u8,
    pub auto_supported: u8,
    pub manual_supported: u8,
    pub brightness: u8,
}

/// All configurable device settings returned in a single batch call.
/// Fields for absent features are zero.
#[derive(Clone, Copy, Debug)]
pub struct CAllDeviceSettings {
    pub dpi: CDpiSettings,
    pub scroll: CScrollSettings,
    pub ss: CSmartShiftSettings,
    pub hosts: CHostList,
    pub fn_s: CFnSettings,
    pub mp: CMultiplatformSettings,
    pub backlight: CBacklightSettings,
    /// Feature index of REPROG_CONTROLS_V4 (0x1B04), or 0 if absent.
    pub reprog_controls_idx: u8,
}

/// Info about a device paired to a receiver.
#[derive(Clone, Copy, Debug)]
pub struct CDeviceInfo {
    pub slot: u8,
    pub kind: u8,
    pub wpid: [u8; 2],
    /// Null-terminated device name.
    pub name: [u8; 64],
    /// Null-terminated serial (hex string).
    pub serial: [u8; 32],
    pub has_battery: u8,
    pub battery: CBattery,
}

/// State of an in-progress pairing operation.
#[derive(Clone, Copy, Debug, PartialEq, Eq, Structural)]
pub enum PulsaarPairingState {
    Waiting,
    DeviceFound,
    PasskeyNumeric,
    PasskeyButton,
    Paired,
    Failed,
    Idle,
}

/// Result of one pairing poll.
#[derive(Clone, Copy, Debug)]
pub struct CPairingStatus {
    pub state: PulsaarPairingState,
    /// Name of the newly found device (DeviceFound); for Paired, byte 0 holds the slot.
    pub device_name: [u8; 64],
    /// Passkey string (PasskeyNumeric, PasskeyButton).
    pub passkey: [u8; 16],
    /// Human-readable error description (Failed).
    pub error: [u8; 64],
}

/// Kind of device connection event.
#[derive(Clone, Copy, Debug, PartialEq, Eq, Structural)]
pub enum PulsaarConnectionEvent {
    /// No event within the timeout.
    NoEvent,
    Online,
    Offline,
    SettingsChanged,
}

/// Result of one device-event poll.
#[derive(Clone, Copy, Debug, PartialEq, Eq, Structural)]
pub struct CDeviceConnectionEvent {
    pub event: PulsaarConnectionEvent,
    /// 1-based slot of the device that changed state. 0 when event is None.
    pub slot: u8,
    /// For SettingsChanged: the feature index that triggered the notification.
    pub feature_index: u8,
}

// -- Conversions --------------------------------------------------------------

/// The C battery of an optional battery: (has_battery, battery), with 0xFF
/// for a missing level or status and 0 for a missing voltage.
pub open spec fn battery_c(b: Option<Battery>) -> (u8, CBattery) {
    match b {
        None => (0, CBattery { level: 0xFF, status: 0xFF, voltage: 0 }),
        Some(bat) => (
            1,
            CBattery {
                level: match bat.level {
                    Some(l) => l,
                    None => 0xFF,
                },
                status: match bat.status {
                    Some(s) => battery_status_code(s),
                    None => 0xFF,
                },
                voltage: match bat.voltage {
                    Some(v) => v,
                    None => 0,
                },
            },
        ),
    }
}

pub fn battery_to_c(b: Option<&Battery>) -> (r: (u8, CBattery))
    ensures
        r == battery_c(deref_opt(b)),
{
    match b {
        None => (0, CBattery { level: 0xFF, status: 0xFF, voltage: 0 }),
        Some(bat) => (
            1,
            CBattery {
                level: match bat.level {
                    Some(l) => l,
                    None => 0xFF,
                },
                status: match bat.status {
                    Some(s) => battery_status_to_u8(s),
                    None => 0xFF,
                },
                voltage: match bat.voltage {
                    Some(v) => v,
                    None => 0,
                },
            },
        ),
    }
}

pub fn receiver_handle_to_c(h: &ReceiverHandle) -> (r: CReceiverInfo)
    ensures
        r.product_id == h.product_id,
        r.kind == receiver_kind_code(h.kind),
        r.name@ == c_string(encode_utf8(h.name@), 64),
        r.path@ == c_string(encode_utf8(h.path@), 256),
{
    CReceiverInfo {
        product_id: h.product_id,
        kind: receiver_kind_to_u8(h.kind),
        name: str_to_buf(h.name),
        path: str_to_buf(h.path.as_str()),
    }
}

pub fn opened_receiver_to_c(r: &OpenedReceiver) -> (c: COpenedReceiverInfo)
    ensures
        c.product_id == r.product_id,
        c.kind == receiver_kind_code(r.kind),
        c.max_devices == r.max_devices,
        c.name@ == c_string(encode_utf8(r.name@), 64),
        c.serial@ == c_string(encode_utf8(r.serial@), 33),
{
    COpenedReceiverInfo {
        product_id: r.product_id,
        kind: receiver_kind_to_u8(r.kind),
        max_devices: r.max_devices,
        name: str_to_buf(r.name),
        serial: str_to_buf(r.serial.as_str()),
    }
}

pub fn direct_device_info_to_c(d: &DirectDeviceInfo) -> (c: CDirectDeviceInfo)
    ensures
        c.product_id == d.product_id,
        c.kind == device_kind_code(d.kind),
        c.name@ == c_string(encode_utf8(d.name@), 64),
        c.serial@ == c_string(encode_utf8(d.serial@), 64),
        (c.has_battery, c.battery) == battery_c(d.battery),
{
    let (has_battery, battery) = battery_to_c(d.battery.as_ref());
    CDirectDeviceInfo {
        product_id: d.product_id,
        kind: device_kind_to_u8(d.kind),
        name: str_to_buf(d.name.as_str()),
        serial: str_to_buf(d.serial.as_str()),
        has_battery,
        battery,
    }
}

pub fn device_info_to_c(d: &DeviceInfo) -> (c: CDeviceInfo)
    ensures
        c.slot == d.slot,
        c.kind == device_kind_code(d.kind),
        c.wpid == d.wpid,
        c.name@ == c_string(encode_utf8(d.name@), 64),
        c.serial@ == c_string(encode_utf8(d.serial@), 32),
        (c.has_battery, c.battery) == battery_c(d.battery),
{
    let (has_battery, battery) = battery_to_c(d.battery.as_ref());
    CDeviceInfo {
        slot: d.slot,
        kind: device_kind_to_u8(d.kind),
        wpid: d.wpid,
        name: str_to_buf(d.name.as_str()),
        serial: str_to_buf(d.serial.as_str()),
        has_battery,
        battery,
    }
}

// -- Settings -----------------------------------------------------------------

/// The value behind an optional reference.
pub open spec fn deref_opt<T>(o: Option<&T>) -> Option<T> {
    match o {
        Some(x) => Some(*x),
        None => None,
    }
}

/// The C DPI settings: at most the first 200 values, zero-filled after them;
/// all zero when the feature is absent.
pub open spec fn dpi_c_matches(c: CDpiSettings, info: Option<DpiInfo>) -> bool {
    match info {
        None => c.dpi_count == 0 && c.current_dpi == 0 && c.default_dpi == 0 && forall|i: int|
            0 <= i < 200 ==> #[trigger] c.dpi_list@[i] == 0,
        Some(d) => {
            let n = if d.dpi_list@.len() < 200 {
                d.dpi_list@.len() as int
            } else {
                200
            };
            &&& c.dpi_count == n
            &&& c.current_dpi == d.current_dpi
            &&& c.default_dpi == d.default_dpi
            &&& forall|i: int|
                0 <= i < 200 ==> #[trigger] c.dpi_list@[i] == (if i < n {
                    d.dpi_list@[i]
                } else {
                    0
                })
        },
    }
}

pub fn dpi_settings_to_c(info: Option<&DpiInfo>) -> (c: CDpiSettings)
    ensures
        dpi_c_matches(c, deref_opt(info)),
{
    let mut c = CDpiSettings { dpi_count: 0, dpi_list: [0u16; 200], current_dpi: 0, default_dpi: 0 };
    match info {
        None => {},
        Some(d) => {
            let n = if d.dpi_list.len() < 200 {
                d.dpi_list.len()
            } else {
                200
            };
            let mut i: usize = 0;
            while i < n
                invariant
                    n <= 200,
                    n <= d.dpi_list@.len(),
                    i <= n,
                    c.dpi_list@.len() == 200,
                    forall|k: int| 0 <= k < i ==> c.dpi_list@[k] == d.dpi_list@[k],
                    forall|k: int| i <= k < 200 ==> c.dpi_list@[k] == 0,
                decreases n - i,
            {
                c.dpi_list[i] = d.dpi_list[i];
                i = i + 1;
            }
            c.dpi_count = n as u8;
            c.current_dpi = d.current_dpi;
            c.default_dpi = d.default_dpi;
        },
    }
    c
}

/// The C scroll settings: all zero when the feature is absent.
pub open spec fn scroll_c(info: Option<ScrollInfo>) -> CScrollSettings {
    match info {
        None => CScrollSettings { has_invert: 0, has_hires: 0, inverted: 0, hires_enabled: 0 },
        Some(s) => CScrollSettings {
            has_invert: if s.has_invert { 1 } else { 0 },
            has_hires: if s.has_hires { 1 } else { 0 },
            inverted: if s.inverted { 1 } else { 0 },
            hires_enabled: if s.hires_enabled { 1 } else { 0 },
        },
    }
}

pub fn scroll_settings_to_c(info: Option<ScrollInfo>) -> (c: CScrollSettings)
    ensures
        c == scroll_c(info),
{
    match info {
        None => CScrollSettings { has_invert: 0, has_hires: 0, inverted: 0, hires_enabled: 0 },
        Some(s) => CScrollSettings {
            has_invert: flag(s.has_invert),
            has_hires: flag(s.has_hires),
            inverted: flag(s.inverted),
            hires_enabled: flag(s.hires_enabled),
        },
    }
}

/// The C smart-shift settings: all zero when the feature is absent.
pub open spec fn smart_shift_c(info: Option<SmartShiftInfo>) -> CSmartShiftSettings {
    match info {
        None => CSmartShiftSettings { wheel_mode: 0, has_torque: 0, torque: 0 },
        Some(s) => CSmartShiftSettings {
            wheel_mode: s.wheel_mode,
            has_torque: if s.has_torque { 1 } else { 0 },
            torque: s.torque,
        },
    }
}

pub fn smart_shift_to_c(info: Option<SmartShiftInfo>) -> (c: CSmartShiftSettings)
    ensures
        c == smart_shift_c(info),
{
    match info {
        None => CSmartShiftSettings { wheel_mode: 0, has_torque: 0, torque: 0 },
        Some(s) => CSmartShiftSettings {
            wheel_mode: s.wheel_mode,
            has_torque: flag(s.has_torque),
            torque: s.torque,
        },
    }
}

/// The C FN settings: has_feature 1 and the current swap state when present.
pub open spec fn fn_c(info: Option<FnInfo>) -> CFnSettings {
    match info {
        None => CFnSettings { has_feature: 0, fn_swapped: 0 },
        Some(f) => CFnSettings { has_feature: 1, fn_swapped: if f.fn_swapped { 1 } else { 0 } },
    }
}

pub fn fn_settings_to_c(info: Option<FnInfo>) -> (c: CFnSettings)
    ensures
        c == fn_c(info),
{
    match info {
        None => CFnSettings { has_feature: 0, fn_swapped: 0 },
        Some(f) => CFnSettings { has_feature: 1, fn_swapped: flag(f.fn_swapped) },
    }
}

/// The C backlight settings: has_feature 1 and the state when present.
pub open spec fn backlight_c(info: Option<BacklightInfo>) -> CBacklightSettings {
    match info {
        None => CBacklightSettings {
            has_feature: 0,
            mode: 0,
            auto_supported: 0,
            manual_supported: 0,
            brightness: 0,
        },
        Some(b) => CBacklightSettings {
            has_feature: 1,
            mode: b.mode,
            auto_supported: if b.auto_supported { 1 } else { 0 },
            manual_supported: if b.manual_supported { 1 } else { 0 },
            brightness: b.level,
        },
    }
}

pub fn backlight_to_c(info: Option<BacklightInfo>) -> (c: CBacklightSettings)
    ensures
        c == backlight_c(info),
{
    match info {
        None => CBacklightSettings {
            has_feature: 0,
            mode: 0,
            auto_supported: 0,
            manual_supported: 0,
            brightness: 0,
        },
        Some(b) => CBacklightSettings {
            has_feature: 1,
            mode: b.mode,
            auto_supported: flag(b.auto_supported),
            manual_supported: flag(b.manual_supported),
            brightness: b.level,
        },
    }
}

/// A C host entry that describes a host.
pub open spec fn host_c_matches(c: CHostInfo, h: HostInfo) -> bool {
    &&& c.slot == h.slot
    &&& c.name@ == c_string(encode_utf8(h.name@), 64)
    &&& c.is_active == (if h.is_active {
        1u8
    } else {
        0u8
    })
}

/// An all-zero C host entry.
pub open spec fn host_c_empty(c: CHostInfo) -> bool {
    c.slot == 0 && c.is_active == 0 && forall|j: int| 0 <= j < 64 ==> #[trigger] c.name@[j] == 0
}

/// The C host list: the first (at most 8) hosts, zero entries after them;
/// an empty list when the feature is absent.
pub open spec fn hosts_c_matches(c: CHostList, hosts: Option<Vec<HostInfo>>) -> bool {
    let n: int = match hosts {
        None => 0,
        Some(v) => if v@.len() < 8 {
            v@.len() as int
        } else {
            8
        },
    };
    &&& c.count == n
    &&& forall|i: int|
        0 <= i < 8 ==> if i < n {
            host_c_matches(#[trigger] c.hosts@[i], hosts->0@[i])
        } else {
            host_c_empty(c.hosts@[i])
        }
}

pub fn host_list_to_c(hosts: Option<&Vec<HostInfo>>) -> (c: CHostList)
    ensures
        hosts_c_matches(c, deref_opt(hosts)),
{
    let empty = CHostInfo { slot: 0, name: [0u8; 64], is_active: 0 };
    let mut c = CHostList { count: 0, hosts: [empty; 8] };
    assert(host_c_empty(empty));
    match hosts {
        None => {},
        Some(v) => {
            let n = if v.len() < 8 {
                v.len()
            } else {
                8
            };
            let mut i: usize = 0;
            while i < n
                invariant
                    n <= 8,
                    n <= v@.len(),
                    i <= n,
                    c.hosts@.len() == 8,
                    c.count == 0,
                    forall|k: int| 0 <= k < i ==> host_c_matches(#[trigger] c.hosts@[k], v@[k]),
                    forall|k: int| i <= k < 8 ==> host_c_empty(#[trigger] c.hosts@[k]),
                decreases n - i,
            {
                let h = &v[i];
                c.hosts[i] = CHostInfo {
                    slot: h.slot,
                    name: str_to_buf(h.name.as_str()),
                    is_active: flag(h.is_active),
                };
                i = i + 1;
            }
            c.count = n as u8;
        },
    }
    c
}

/// The position of the first platform with the given index at or after
/// `from`; 0 when there is none.
pub open spec fn platform_position(s: Seq<crate::hidpp::hidpp20::PlatformDescriptor>, index: u8, from: int) -> int
    decreases s.len() - from,
{
    if from < 0 || from >= s.len() {
        0
    } else if s[from].index == index {
        from
    } else {
        platform_position(s, index, from + 1)
    }
}

/// The C multiplatform settings: the first (at most 8) platforms' names and
/// indices, zero after them, and the position of the current platform in
/// the list (0 when it is not listed), as a byte; all zero when absent.
pub open spec fn multiplatform_c_matches(c: CMultiplatformSettings, info: Option<MultiplatformInfo>) -> bool {
    match info {
        None => c.count == 0 && c.current == 0 && forall|i: int|
            0 <= i < 8 ==> #[trigger] c.platform_indices@[i] == 0 && forall|j: int|
                0 <= j < 32 ==> #[trigger] c.platform_names@[i]@[j] == 0,
        Some(m) => {
            let s = m.platforms@;
            let n: int = if s.len() < 8 {
                s.len() as int
            } else {
                8
            };
            &&& c.count == n
            &&& c.current == platform_position(s, m.current, 0) % 256
            &&& forall|i: int|
                0 <= i < 8 ==> if i < n {
                    c.platform_indices@[i] == s[i].index && #[trigger] c.platform_names@[i]@
                        == c_string(encode_utf8(s[i].name@), 32)
                } else {
                    c.platform_indices@[i] == 0 && forall|j: int|
                        0 <= j < 32 ==> #[trigger] c.platform_names@[i]@[j] == 0
                }
        },
    }
}

pub fn multiplatform_to_c(info: Option<&MultiplatformInfo>) -> (c: CMultiplatformSettings)
    ensures
        multiplatform_c_matches(c, deref_opt(info)),
{
    let mut c = CMultiplatformSettings {
        count: 0,
        current: 0,
        platform_names: [[0u8; 32]; 8],
        platform_indices: [0u8; 8],
    };
    match info {
        None => {},
        Some(m) => {
            let s = &m.platforms;
            let mut pos: usize = 0;
            while pos < s.len() && s[pos].index != m.current
                invariant
                    pos <= s@.len(),
                    platform_position(s@, m.current, 0) == platform_position(s@, m.current, pos as int),
                decreases s@.len() - pos,
            {
                pos = pos + 1;
            }
            let current: u8 = if pos < s.len() {
                (pos % 256) as u8
            } else {
                0
            };
            let n = if s.len() < 8 {
                s.len()
            } else {
                8
            };
            let mut i: usize = 0;
            while i < n
                invariant
                    n <= 8,
                    n <= s@.len(),
                    i <= n,
                    c.count == 0,
                    c.platform_names@.len() == 8,
                    c.platform_indices@.len() == 8,
                    forall|k: int| 0 <= k < i ==> #[trigger] c.platform_indices@[k] == s@[k].index,
                    forall|k: int|
                        0 <= k < i ==> #[trigger] c.platform_names@[k]@ == c_string(
                            encode_utf8(s@[k].name@),
                            32,
                        ),
                    forall|k: int| i <= k < 8 ==> #[trigger] c.platform_indices@[k] == 0,
                    forall|k: int, j: int|
                        i <= k < 8 && 0 <= j < 32 ==> #[trigger] c.platform_names@[k]@[j] == 0,
                decreases n - i,
            {
                c.platform_names[i] = str_to_buf(s[i].name.as_str());
                c.platform_indices[i] = s[i].index;
                i = i + 1;
            }
            c.count = n as u8;
            c.current = current;
        },
    }
    c
}

/// The C form of all settings of a device.
pub fn all_settings_to_c(all: &AllDeviceSettings) -> (c: CAllDeviceSettings)
    ensures
        dpi_c_matches(c.dpi, all.dpi),
        c.scroll == scroll_c(all.scroll),
        c.ss == smart_shift_c(all.smart_shift),
        hosts_c_matches(c.hosts, all.hosts),
        c.fn_s == fn_c(all.fn_settings),
        multiplatform_c_matches(c.mp, all.multiplatform),
        c.backlight == backlight_c(all.backlight),
        c.reprog_controls_idx == all.reprog_controls_idx,
{
    CAllDeviceSettings {
        dpi: dpi_settings_to_c(all.dpi.as_ref()),
        scroll: scroll_settings_to_c(all.scroll),
        ss: smart_shift_to_c(all.smart_shift),
        hosts: host_list_to_c(all.hosts.as_ref()),
        fn_s: fn_settings_to_c(all.fn_settings),
        mp: multiplatform_to_c(all.multiplatform.as_ref()),
        backlight: backlight_to_c(all.backlight),
        reprog_controls_idx: all.reprog_controls_idx,
    }
}

// -- Events -------------------------------------------------------------------

/// `n` zero bytes.
pub open spec fn zero_bytes(n: nat) -> Seq<u8> {
    Seq::new(n, |i: int| 0u8)
}

/// The device_name buffer of a pairing status: the found device's name as a
/// C string, the slot in byte 0 for Paired, zero otherwise.
pub open spec fn pairing_name_c(event: PairingEvent) -> Seq<u8> {
    match event {
        PairingEvent::BoltDeviceFound(name) => c_string(encode_utf8(name@), 64),
        PairingEvent::Paired(slot) => zero_bytes(64).update(0, slot),
        _ => zero_bytes(64),
    }
}

/// The passkey buffer of a pairing status: the passkey as a C string for the
/// passkey events, zero otherwise.
pub open spec fn pairing_passkey_c(event: PairingEvent) -> Seq<u8> {
    match event {
        PairingEvent::PasskeyNumeric(pk) => c_string(encode_utf8(pk@), 16),
        PairingEvent::PasskeyButton(pk) => c_string(encode_utf8(pk@), 16),
        _ => zero_bytes(16),
    }
}

/// The error buffer of a pairing status: the message as a C string for
/// Failed, zero otherwise.
pub open spec fn pairing_error_c(event: PairingEvent) -> Seq<u8> {
    match event {
        PairingEvent::Failed(msg) => c_string(encode_utf8(msg@), 64),
        _ => zero_bytes(64),
    }
}

/// The C state of a pairing event.
pub open spec fn pairing_state_c(event: PairingEvent) -> PulsaarPairingState {
    match event {
        PairingEvent::Waiting => PulsaarPairingState::Waiting,
        PairingEvent::BoltDeviceFound(_) => PulsaarPairingState::DeviceFound,
        PairingEvent::PasskeyNumeric(_) => PulsaarPairingState::PasskeyNumeric,
        PairingEvent::PasskeyButton(_) => PulsaarPairingState::PasskeyButton,
        PairingEvent::Paired(_) => PulsaarPairingState::Paired,
        PairingEvent::Failed(_) => PulsaarPairingState::Failed,
    }
}

/// The C status of one pairing event and whether the pairing session is over.
/// Names and errors are copied as C strings (63 bytes at most), passkeys as
/// 15 bytes at most; for Paired, byte 0 of device_name holds the slot; every
/// byte that the event does not fill is zero. The session ends exactly with
/// Paired and Failed.
pub fn pairing_status_to_c(event: &PairingEvent) -> (r: (CPairingStatus, bool))
    ensures
        r.1 == (event is Paired || event is Failed),
        r.0.state == pairing_state_c(*event),
        r.0.device_name@ == pairing_name_c(*event),
        r.0.passkey@ == pairing_passkey_c(*event),
        r.0.error@ == pairing_error_c(*event),
{
    let mut st = CPairingStatus {
        state: PulsaarPairingState::Waiting,
        device_name: [0u8; 64],
        passkey: [0u8; 16],
        error: [0u8; 64],
    };
    assert(st.device_name@ =~= zero_bytes(64));
    assert(st.passkey@ =~= zero_bytes(16));
    assert(st.error@ =~= zero_bytes(64));
    let mut done = false;
    match event {
        PairingEvent::Waiting => {},
        PairingEvent::BoltDeviceFound(name) => {
            st.state = PulsaarPairingState::DeviceFound;
            st.device_name = str_to_buf(name.as_str());
        },
        PairingEvent::PasskeyNumeric(pk) => {
            st.state = PulsaarPairingState::PasskeyNumeric;
            st.passkey = str_to_buf(pk.as_str());
        },
        PairingEvent::PasskeyButton(pk) => {
            st.state = PulsaarPairingState::PasskeyButton;
            st.passkey = str_to_buf(pk.as_str());
        },
        PairingEvent::Paired(slot) => {
            st.state = PulsaarPairingState::Paired;
            st.device_name[0] = *slot;
            assert(st.device_name@ =~= zero_bytes(64).update(0, *slot));
            done = true;
        },
        PairingEvent::Failed(msg) => {
            st.state = PulsaarPairingState::Failed;
            st.error = str_to_buf(msg.as_str());
            done = true;
        },
    }
    (st, done)
}

/// The C event of a device-event poll: no event (slot 0) when nothing
/// happened; Online/Offline for a link change; SettingsChanged with the
/// feature index.
pub open spec fn connection_event_c(ev: Option<DeviceEvent>) -> CDeviceConnectionEvent {
    match ev {
        None => CDeviceConnectionEvent { event: PulsaarConnectionEvent::NoEvent, slot: 0, feature_index: 0 },
        Some(DeviceEvent::LinkChange { slot, online }) => CDeviceConnectionEvent {
            event: if online {
                PulsaarConnectionEvent::Online
            } else {
                PulsaarConnectionEvent::Offline
            },
            slot,
            feature_index: 0,
        },
        Some(DeviceEvent::SettingsChanged { slot, feature_index }) => CDeviceConnectionEvent {
            event: PulsaarConnectionEvent::SettingsChanged,
            slot,
            feature_index,
        },
    }
}

pub fn connection_event_to_c(ev: Option<DeviceEvent>) -> (c: CDeviceConnectionEvent)
    ensures
        c == connection_event_c(ev),
{
    match ev {
        None => CDeviceConnectionEvent { event: PulsaarConnectionEvent::NoEvent, slot: 0, feature_index: 0 },
        Some(DeviceEvent::LinkChange { slot, online }) => CDeviceConnectionEvent {
            event: if online {
                PulsaarConnectionEvent::Online
            } else {
                PulsaarConnectionEvent::Offline
            },
            slot,
            feature_index: 0,
        },
        Some(DeviceEvent::SettingsChanged { slot, feature_index }) => CDeviceConnectionEvent {
            event: PulsaarConnectionEvent::SettingsChanged,
            slot,
            feature_index,
        },
    }
}

} // verus!
