//! HID++ 1.0 protocol: register requests and the interpretation of their replies.
//!
//! Each operation is split into the request it sends and a function that
//! takes what came back (the reply, or the error the transport reported) and
//! computes the result.

use vstd::prelude::*;
use crate::devices::types::{
    Battery, BatteryLevel, BatteryStatus, DeviceKind, FirmwareInfo, FirmwareKind, device_kind_of,
    battery_level_percent,
};
use crate::error::{Error, Hidpp10Error};
use crate::hidpp::message::{
    Message, Step, frame_params, short_frame, long_frame, RECEIVER_DEVICE,
};
use crate::text::{bytes_to_hex, hex2, hex_string, lossy_utf8, push_char, push_hex2, utf8_lossy};

verus! {

/// HID++ 1.0 register addresses.
/// Registers >= 0x200 are "long" registers; they use sub_id 0x83 and return LONG messages.
#[derive(Debug, Clone, Copy, PartialEq, Eq, Structural)]
pub enum Register {
    Notifications,
    MouseButtonFlags,
    ReceiverConnection,
    DevicesConfig,
    BatteryStatus,
    BatteryCharge,
    ThreeLeds,
    ReceiverPairing,
    Firmware,
    DevicesActivity,
    ReceiverInfo,
    BoltDeviceDiscovery,
    BoltPairing,
    BoltUniqueId,
}

/// The address of each register.
pub open spec fn register_address(r: Register) -> u16 {
    match r {
        Register::Notifications => 0x00,
        Register::MouseButtonFlags => 0x01,
        Register::ReceiverConnection => 0x02,
        Register::DevicesConfig => 0x03,
        Register::BatteryStatus => 0x07,
        Register::BatteryCharge => 0x0D,
        Register::ThreeLeds => 0x51,
        Register::ReceiverPairing => 0xB2,
        Register::Firmware => 0xF1,
        Register::DevicesActivity => 0x2B3,
        Register::ReceiverInfo => 0x2B5,
        Register::BoltDeviceDiscovery => 0xC0,
        Register::BoltPairing => 0x2C1,
        Register::BoltUniqueId => 0x2FB,
    }
}

impl Register {
    /// The register address.
    pub fn address(&self) -> (r: u16)
        ensures
            r == register_address(*self),
    {
        match self {
            Register::Notifications => 0x00,
            Register::MouseButtonFlags => 0x01,
            Register::ReceiverConnection => 0x02,
            Register::DevicesConfig => 0x03,
            Register::BatteryStatus => 0x07,
            Register::BatteryCharge => 0x0D,
            Register::ThreeLeds => 0x51,
            Register::ReceiverPairing => 0xB2,
            Register::Firmware => 0xF1,
            Register::DevicesActivity => 0x2B3,
            Register::ReceiverInfo => 0x2B5,
            Register::BoltDeviceDiscovery => 0xC0,
            Register::BoltPairing => 0x2C1,
            Register::BoltUniqueId => 0x2FB,
        }
    }
}

/// Sub-registers for Register::ReceiverInfo (0x2B5).
/// For per-slot registers, add the slot index to the base.
#[derive(Debug, Clone, Copy, PartialEq, Eq, Structural)]
pub enum InfoSubReg {
    SerialNumber,
    FirmwareVersion,
    ReceiverInformation,
    PairingInformation,
    ExtendedPairingInfo,
    DeviceName,
    BoltPairingInformation,
    BoltDeviceName,
}

/// The sub-register byte (base value for per-slot sub-registers).
pub open spec fn info_sub_reg_value(s: InfoSubReg) -> u8 {
    match s {
        InfoSubReg::SerialNumber => 0x01,
        InfoSubReg::FirmwareVersion => 0x02,
        InfoSubReg::ReceiverInformation => 0x03,
        InfoSubReg::PairingInformation => 0x20,
        InfoSubReg::ExtendedPairingInfo => 0x30,
        InfoSubReg::DeviceName => 0x40,
        InfoSubReg::BoltPairingInformation => 0x50,
        InfoSubReg::BoltDeviceName => 0x60,
    }
}

impl InfoSubReg {
    /// The sub-register byte (base value for per-slot sub-registers).
    pub fn value(&self) -> (r: u8)
        ensures
            r == info_sub_reg_value(*self),
    {
        match self {
            InfoSubReg::SerialNumber => 0x01,
            InfoSubReg::FirmwareVersion => 0x02,
            InfoSubReg::ReceiverInformation => 0x03,
            InfoSubReg::PairingInformation => 0x20,
            InfoSubReg::ExtendedPairingInfo => 0x30,
            InfoSubReg::DeviceName => 0x40,
            InfoSubReg::BoltPairingInformation => 0x50,
            InfoSubReg::BoltDeviceName => 0x60,
        }
    }
}

/// Sub-ID of a register read: 0x81 for short registers, 0x83 for long ones (bit 9 set).
pub open spec fn read_sub_id(register: u16) -> u8 {
    if register & 0x200 != 0 {
        0x83
    } else {
        0x81
    }
}

/// Sub-ID of a register write: 0x80 for short registers, 0x82 for long ones (bit 9 set).
pub open spec fn write_sub_id(register: u16) -> u8 {
    if register & 0x200 != 0 {
        0x82
    } else {
        0x80
    }
}

/// Compute the sub_id and address bytes for a register read.
/// request_id = 0x8100 | (register & 0x2FF)
pub fn read_ids(register: u16) -> (r: (u8, u8))
    ensures
        r.0 == read_sub_id(register),
        r.1 == register % 256,
{
    let id = 0x8100u16 | (register & 0x2FF);
    assert(((0x8100u16 | (register & 0x2FF)) >> 8u16) as u8 == (if register & 0x200 != 0 {
        0x83u8
    } else {
        0x81u8
    })) by (bit_vector);
    assert(((0x8100u16 | (register & 0x2FF)) & 0xFFu16) as u8 == register % 256) by (bit_vector);
    ((id >> 8) as u8, (id & 0xFF) as u8)
}

/// Compute the sub_id and address bytes for a register write.
/// request_id = 0x8000 | (register & 0x2FF)
pub fn write_ids(register: u16) -> (r: (u8, u8))
    ensures
        r.0 == write_sub_id(register),
        r.1 == register % 256,
{
    let id = 0x8000u16 | (register & 0x2FF);
    assert(((0x8000u16 | (register & 0x2FF)) >> 8u16) as u8 == (if register & 0x200 != 0 {
        0x82u8
    } else {
        0x80u8
    })) by (bit_vector);
    assert(((0x8000u16 | (register & 0x2FF)) & 0xFFu16) as u8 == register % 256) by (bit_vector);
    ((id >> 8) as u8, (id & 0xFF) as u8)
}

/// The frame of a register read request.
pub open spec fn read_frame(device: u8, reg: Register, p0: u8) -> Seq<u8> {
    short_frame(
        device,
        read_sub_id(register_address(reg)),
        (register_address(reg) % 256) as u8,
        p0,
        0,
        0,
    )
}

/// The frame of a short register write request.
pub open spec fn write_frame(device: u8, reg: Register, p0: u8, p1: u8, p2: u8) -> Seq<u8> {
    short_frame(
        device,
        write_sub_id(register_address(reg)),
        (register_address(reg) % 256) as u8,
        p0,
        p1,
        p2,
    )
}

/// The request that reads a short register (0x00-0xFF); the reply's params()
/// hold the 3-byte payload.
pub fn read_short_request(device: u8, reg: Register, p0: u8) -> (m: Message)
    ensures
        m@ == read_frame(device, reg, p0),
{
    let (sub_id, address) = read_ids(reg.address());
    Message::short(device, sub_id, address, p0, 0, 0)
}

/// The request that reads a long register (0x200-0x2FF) with a sub-register
/// selector. The transport verifies that the reply echoes the sub_reg byte.
pub fn read_long_request(device: u8, reg: Register, sub_reg: u8) -> (m: Message)
    ensures
        m@ == read_frame(device, reg, sub_reg),
{
    let (sub_id, address) = read_ids(reg.address());
    Message::short(device, sub_id, address, sub_reg, 0, 0)
}

/// The request that writes a short register.
pub fn write_short_request(device: u8, reg: Register, p0: u8, p1: u8, p2: u8) -> (m: Message)
    ensures
        m@ == write_frame(device, reg, p0, p1, p2),
{
    let (sub_id, address) = write_ids(reg.address());
    Message::short(device, sub_id, address, p0, p1, p2)
}

/// The request that writes a long register (always a long message).
pub fn write_long_request(device: u8, reg: Register, params: &[u8]) -> (m: Message)
    ensures
        m@ == long_frame(
            device,
            write_sub_id(register_address(reg)),
            (register_address(reg) % 256) as u8,
            params@,
        ),
{
    let (sub_id, address) = write_ids(reg.address());
    Message::long(device, sub_id, address, params)
}

// -- Receiver queries ---------------------------------------------------------

/// The request that reads receiver serial and max supported devices
/// (RECEIVER_INFO sub-register 0x03).
pub fn receiver_info_request() -> (m: Message)
    ensures
        m@ == read_frame(RECEIVER_DEVICE, Register::ReceiverInfo, 0x03),
{
    read_long_request(RECEIVER_DEVICE, Register::ReceiverInfo, 0x03)
}

/// Receiver serial (hex of params[1..5]) and max_devices (params[6]) from a
/// RECEIVER_INFO 0x03 reply; a short reply is an invalid response.
pub fn receiver_info_from_reply(msg: &Message) -> (r: Result<(String, u8), Error>)
    ensures
        frame_params(msg@).len() < 7 ==> r matches Err(Error::InvalidResponse),
        frame_params(msg@).len() >= 7 ==> (r matches Ok((s, m)) && s@ == hex_string(
            frame_params(msg@).subrange(1, 5),
        ) && m == frame_params(msg@)[6]),
{
    let p = msg.params();
    if p.len() < 7 {
        return Err(Error::InvalidResponse);
    }
    let serial = bytes_to_hex(&p[1..5]);
    let max_devices = p[6];
    Ok((serial, max_devices))
}

/// Basic pairing info read from the receiver for a paired device slot.
#[derive(Debug, Clone, Copy)]
pub struct PairingInfo {
    pub wpid: [u8; 2],
    pub kind: DeviceKind,
    pub polling_rate_ms: u8,
}

/// Pairing info for a Bolt device slot (serial embedded in the pairing response).
#[derive(Debug, Clone, Copy)]
pub struct BoltPairingInfo {
    pub wpid: [u8; 2],
    pub kind: DeviceKind,
    pub serial: [u8; 4],
}

/// The errors by which a receiver says that a Unifying slot is empty.
pub open spec fn is_empty_slot_error(e: Error) -> bool {
    e == Error::Hidpp10(Hidpp10Error::UnknownDevice) || e == Error::Hidpp10(
        Hidpp10Error::InvalidValue,
    )
}

/// The errors by which a Bolt receiver says that a slot is empty.
pub open spec fn is_empty_bolt_slot_error(e: Error) -> bool {
    e == Error::Hidpp10(Hidpp10Error::UnknownDevice) || e == Error::Hidpp10(
        Hidpp10Error::UnsupportedParam,
    )
}

fn empty_slot_error(e: &Error) -> (r: bool)
    ensures
        r == is_empty_slot_error(*e),
{
    match e {
        Error::Hidpp10(Hidpp10Error::UnknownDevice) | Error::Hidpp10(
            Hidpp10Error::InvalidValue,
        ) => true,
        _ => false,
    }
}

fn empty_bolt_slot_error(e: &Error) -> (r: bool)
    ensures
        r == is_empty_bolt_slot_error(*e),
{
    match e {
        Error::Hidpp10(Hidpp10Error::UnknownDevice) | Error::Hidpp10(
            Hidpp10Error::UnsupportedParam,
        ) => true,
        _ => false,
    }
}

/// The RECEIVER_INFO request for a per-slot Unifying sub-register (base +
/// slot - 1, in byte arithmetic that wraps modulo 256).
pub fn slot_info_request(base: InfoSubReg, slot: u8) -> (m: Message)
    ensures
        m@ == read_frame(
            RECEIVER_DEVICE,
            Register::ReceiverInfo,
            ((info_sub_reg_value(base) + slot + 255) % 256) as u8,
        ),
{
    let sub_reg = ((base.value() as u16 + slot as u16 + 255) % 256) as u8;
    read_long_request(RECEIVER_DEVICE, Register::ReceiverInfo, sub_reg)
}

/// Basic pairing info for a slot, from the reply to the PairingInformation
/// sub-register: WPID at params[3..5], polling rate at params[2], kind in the
/// low nibble of params[7]. An empty slot gives None.
pub fn pairing_info_from_reply(reply: Result<Message, Error>) -> (r: Result<
    Option<PairingInfo>,
    Error,
>)
    ensures
        match reply {
            Err(e) => if is_empty_slot_error(e) {
                r == Ok::<Option<PairingInfo>, Error>(None)
            } else {
                r == Err::<Option<PairingInfo>, Error>(e)
            },
            Ok(msg) => {
                let p = frame_params(msg@);
                if p.len() < 8 {
                    r matches Err(Error::InvalidResponse)
                } else {
                    r == Ok::<Option<PairingInfo>, Error>(
                        Some(
                            PairingInfo {
                                wpid: [p[3], p[4]],
                                kind: device_kind_of(p[7] & 0x0F),
                                polling_rate_ms: p[2],
                            },
                        ),
                    )
                }
            },
        },
{
    match reply {
        Err(e) => {
            if empty_slot_error(&e) {
                Ok(None)
            } else {
                Err(e)
            }
        },
        Ok(msg) => {
            let p = msg.params();
            if p.len() < 8 {
                return Err(Error::InvalidResponse);
            }
            let wpid = [p[3], p[4]];
            let kind = DeviceKind::from_byte(p[7] & 0x0F);
            let polling_rate_ms = p[2];
            Ok(Some(PairingInfo { wpid, kind, polling_rate_ms }))
        },
    }
}

/// Serial bytes (params[1..5]) of a slot, from the reply to the
/// ExtendedPairingInfo sub-register. An empty slot gives None.
pub fn extended_pairing_info_from_reply(reply: Result<Message, Error>) -> (r: Result<
    Option<[u8; 4]>,
    Error,
>)
    ensures
        match reply {
            Err(e) => if is_empty_slot_error(e) {
                r == Ok::<Option<[u8; 4]>, Error>(None)
            } else {
                r == Err::<Option<[u8; 4]>, Error>(e)
            },
            Ok(msg) => {
                let p = frame_params(msg@);
                if p.len() < 5 {
                    r matches Err(Error::InvalidResponse)
                } else {
                    r == Ok::<Option<[u8; 4]>, Error>(Some([p[1], p[2], p[3], p[4]]))
                }
            },
        },
{
    match reply {
        Err(e) => {
            if empty_slot_error(&e) {
                Ok(None)
            } else {
                Err(e)
            }
        },
        Ok(msg) => {
            let p = msg.params();
            if p.len() < 5 {
                return Err(Error::InvalidResponse);
            }
            Ok(Some([p[1], p[2], p[3], p[4]]))
        },
    }
}

/// The name bytes of a DeviceName reply: params[1] is the length, the name
/// starts at params[2] and is cut at the end of the report.
pub open spec fn codename_bytes(p: Seq<u8>) -> Seq<u8> {
    let end: int = if 2 + p[1] < p.len() {
        2 + p[1]
    } else {
        p.len() as int
    };
    p.subrange(2, end)
}

/// The device codename of a slot, from the reply to the DeviceName
/// sub-register. An empty slot gives None.
pub fn device_codename_from_reply(reply: Result<Message, Error>) -> (r: Result<
    Option<String>,
    Error,
>)
    ensures
        match reply {
            Err(e) => if is_empty_slot_error(e) {
                r matches Ok(None)
            } else {
                r == Err::<Option<String>, Error>(e)
            },
            Ok(msg) => r matches Ok(Some(name)) && name@ == lossy_utf8(
                codename_bytes(frame_params(msg@)),
            ),
        },
{
    match reply {
        Err(e) => {
            if empty_slot_error(&e) {
                Ok(None)
            } else {
                Err(e)
            }
        },
        Ok(msg) => {
            let p = msg.params();
            let name_len = p[1] as usize;
            let end = if 2 + name_len < p.len() {
                2 + name_len
            } else {
                p.len()
            };
            Ok(Some(utf8_lossy(&p[2..end])))
        },
    }
}

// -- Device queries -----------------------------------------------------------

/// The status nibble of a BATTERY_CHARGE reply (high nibble of params[2]).
pub open spec fn charge_status_of(b: u8) -> BatteryStatus {
    if b & 0xF0 == 0x50 {
        BatteryStatus::Recharging
    } else if b & 0xF0 == 0x90 {
        BatteryStatus::Full
    } else {
        BatteryStatus::Discharging
    }
}

/// The battery that a BATTERY_CHARGE (0x0D) payload reports:
/// params[0] = charge 0-100, params[2] high nibble = status.
pub open spec fn battery_from_charge(p: Seq<u8>) -> Battery {
    Battery {
        level: if p.len() > 0 {
            Some(p[0])
        } else {
            None
        },
        status: if p.len() > 2 {
            Some(charge_status_of(p[2]))
        } else {
            None
        },
        voltage: None,
    }
}

/// Parse a BATTERY_CHARGE (0x0D) response payload.
pub fn parse_battery_charge(p: &[u8]) -> (b: Battery)
    ensures
        b == battery_from_charge(p@),
{
    let level = if p.len() > 0 {
        Some(p[0])
    } else {
        None
    };
    let status = if p.len() > 2 {
        let nib = p[2] & 0xF0;
        Some(
            if nib == 0x50 {
                BatteryStatus::Recharging
            } else if nib == 0x90 {
                BatteryStatus::Full
            } else {
                BatteryStatus::Discharging
            },
        )
    } else {
        None
    };
    Battery { level, status, voltage: None }
}

/// The charge percentage of a BATTERY_STATUS level code
/// (1=critical, 3=low, 5=good, 7=full).
pub open spec fn status_level_of(code: u8) -> Option<u8> {
    match code {
        7 => Some(battery_level_percent(BatteryLevel::Full)),
        5 => Some(battery_level_percent(BatteryLevel::Good)),
        3 => Some(battery_level_percent(BatteryLevel::Low)),
        1 => Some(battery_level_percent(BatteryLevel::Critical)),
        _ => None,
    }
}

/// The charging status of a BATTERY_STATUS charging byte.
pub open spec fn status_charging_of(b: u8) -> Option<BatteryStatus> {
    if b == 0 {
        Some(BatteryStatus::Discharging)
    } else if b & 0x21 == 0x21 {
        Some(BatteryStatus::Recharging)
    } else if b & 0x22 == 0x22 {
        Some(BatteryStatus::Full)
    } else {
        None
    }
}

/// The battery that a BATTERY_STATUS (0x07) payload reports:
/// params[0] = level code, params[1] = charging byte (missing bytes count as 0).
pub open spec fn battery_from_status(p: Seq<u8>) -> Battery {
    let code: u8 = if p.len() > 0 {
        p[0]
    } else {
        0
    };
    let charging: u8 = if p.len() > 1 {
        p[1]
    } else {
        0
    };
    Battery { level: status_level_of(code), status: status_charging_of(charging), voltage: None }
}

/// Parse a BATTERY_STATUS (0x07) response payload.
pub fn parse_battery_status(p: &[u8]) -> (b: Battery)
    ensures
        b == battery_from_status(p@),
{
    let level_code: u8 = if p.len() > 0 {
        p[0]
    } else {
        0
    };
    let charging_byte: u8 = if p.len() > 1 {
        p[1]
    } else {
        0
    };
    let level = match level_code {
        7 => Some(BatteryLevel::Full.percent()),
        5 => Some(BatteryLevel::Good.percent()),
        3 => Some(BatteryLevel::Low.percent()),
        1 => Some(BatteryLevel::Critical.percent()),
        _ => None,
    };
    let status = if charging_byte == 0x00 {
        Some(BatteryStatus::Discharging)
    } else if charging_byte & 0x21 == 0x21 {
        Some(BatteryStatus::Recharging)
    } else if charging_byte & 0x22 == 0x22 {
        Some(BatteryStatus::Full)
    } else {
        None
    };
    Battery { level, status, voltage: None }
}

/// The errors by which a HID++ 1.0 device says that it lacks a battery register.
pub open spec fn is_missing_register_error(e: Error) -> bool {
    e == Error::Hidpp10(Hidpp10Error::InvalidSubId) || e == Error::Hidpp10(
        Hidpp10Error::RequestUnavailable,
    )
}

fn missing_register_error(e: &Error) -> (r: bool)
    ensures
        r == is_missing_register_error(*e),
{
    match e {
        Error::Hidpp10(Hidpp10Error::InvalidSubId) | Error::Hidpp10(
            Hidpp10Error::RequestUnavailable,
        ) => true,
        _ => false,
    }
}

/// The first step of reading a HID++ 1.0 battery: BATTERY_CHARGE is read
/// first; when the device lacks it, BATTERY_STATUS is read next.
#[derive(Debug)]
pub enum BatteryProbe {
    Done(Result<Option<Battery>, Error>),
    TryStatusRegister,
}

/// What the reply to the BATTERY_CHARGE read decides.
pub fn battery_charge_outcome(reply: Result<Message, Error>) -> (r: BatteryProbe)
    ensures
        match reply {
            Ok(msg) => r == BatteryProbe::Done(
                Ok(Some(battery_from_charge(frame_params(msg@)))),
            ),
            Err(e) => if is_missing_register_error(e) {
                r is TryStatusRegister
            } else {
                r == BatteryProbe::Done(Err(e))
            },
        },
{
    match reply {
        Ok(msg) => BatteryProbe::Done(Ok(Some(parse_battery_charge(msg.params())))),
        Err(e) => {
            if missing_register_error(&e) {
                BatteryProbe::TryStatusRegister
            } else {
                BatteryProbe::Done(Err(e))
            }
        },
    }
}

/// What the reply to the BATTERY_STATUS read decides: the battery, None when
/// the device lacks the register too, or the error.
pub fn battery_status_outcome(reply: Result<Message, Error>) -> (r: Result<Option<Battery>, Error>)
    ensures
        match reply {
            Ok(msg) => r == Ok::<Option<Battery>, Error>(
                Some(battery_from_status(frame_params(msg@))),
            ),
            Err(e) => if is_missing_register_error(e) {
                r == Ok::<Option<Battery>, Error>(None)
            } else {
                r == Err::<Option<Battery>, Error>(e)
            },
        },
{
    match reply {
        Ok(msg) => Ok(Some(parse_battery_status(msg.params()))),
        Err(e) => {
            if missing_register_error(&e) {
                Ok(None)
            } else {
                Err(e)
            }
        },
    }
}

/// "XX.YY": two hex bytes separated by a dot.
pub open spec fn dotted_hex(a: u8, b: u8) -> Seq<char> {
    hex2(a) + seq!['.'] + hex2(b)
}

fn push_dotted_hex(s: &mut String, a: u8, b: u8)
    ensures
        final(s)@ == old(s)@ + dotted_hex(a, b),
{
    push_hex2(s, a);
    push_char(s, '.');
    push_hex2(s, b);
    assert(final(s)@ =~= old(s)@ + dotted_hex(a, b));
}

/// The frame of an optional message.
pub open spec fn frame_of(m: Option<&Message>) -> Option<Seq<u8>> {
    match m {
        Some(x) => Some(x@),
        None => None,
    }
}

/// `r` is the firmware list of the FIRMWARE register replies (None for a
/// read that failed): the firmware entry "XX.YY" of the version reply, with
/// ".BXXYY" of the build reply appended when there is one, then the
/// bootloader entry "XX.YY".
pub open spec fn firmware10_list(r: Seq<FirmwareInfo>, version: Option<Seq<u8>>, build: Option<Seq<u8>>, bootloader: Option<Seq<u8>>) -> bool {
    &&& r.len() == (if version is Some {
        1int
    } else {
        0
    }) + (if bootloader is Some {
        1int
    } else {
        0
    })
    &&& version matches Some(v) ==> {
        let p = frame_params(v);
        &&& r[0].kind == FirmwareKind::Firmware
        &&& r[0].version@ == match build {
            Some(b) => dotted_hex(p[1], p[2]) + seq!['.', 'B'] + hex2(frame_params(b)[1]) + hex2(
                frame_params(b)[2],
            ),
            None => dotted_hex(p[1], p[2]),
        }
    }
    &&& bootloader matches Some(m) ==> {
        let p = frame_params(m);
        &&& r[r.len() - 1].kind == FirmwareKind::Bootloader
        &&& r[r.len() - 1].version@ == dotted_hex(p[1], p[2])
    }
}

/// The firmware list of a HID++ 1.0 device from the replies to the FIRMWARE
/// register reads (sub-registers 0x01 version, 0x02 build, 0x04 bootloader);
/// None stands for a read that failed. The firmware entry is
/// "XX.YY" (params[1], params[2] of 0x01), with ".BXXYY" of 0x02 appended when
/// that read succeeded; the bootloader entry is "XX.YY" of 0x04.
pub fn firmware_from_replies(
    version: Option<&Message>,
    build: Option<&Message>,
    bootloader: Option<&Message>,
) -> (r: Vec<FirmwareInfo>)
    ensures
        firmware10_list(r@, frame_of(version), frame_of(build), frame_of(bootloader)),
{
    let mut result: Vec<FirmwareInfo> = Vec::new();
    match version {
        Some(msg) => {
            let p = msg.params();
            let mut v = String::new();
            push_dotted_hex(&mut v, p[1], p[2]);
            match build {
                Some(msg2) => {
                    let p2 = msg2.params();
                    push_char(&mut v, '.');
                    push_char(&mut v, 'B');
                    push_hex2(&mut v, p2[1]);
                    push_hex2(&mut v, p2[2]);
                    assert(v@ =~= dotted_hex(p@[1], p@[2]) + seq!['.', 'B'] + hex2(p2@[1]) + hex2(
                        p2@[2],
                    ));
                },
                None => {
                    assert(v@ =~= dotted_hex(p@[1], p@[2]));
                },
            }
            result.push(FirmwareInfo { kind: FirmwareKind::Firmware, version: v });
        },
        None => {},
    }
    match bootloader {
        Some(msg) => {
            let p = msg.params();
            let mut v = String::new();
            push_dotted_hex(&mut v, p[1], p[2]);
            assert(v@ =~= dotted_hex(p@[1], p@[2]));
            result.push(FirmwareInfo { kind: FirmwareKind::Bootloader, version: v });
        },
        None => {},
    }
    result
}

// -- Bolt-specific receiver queries -------------------------------------------

/// The request that reads the Bolt receiver unique ID (BoltUniqueId, 0x2FB).
pub fn bolt_serial_request() -> (m: Message)
    ensures
        m@ == read_frame(RECEIVER_DEVICE, Register::BoltUniqueId, 0),
{
    read_long_request(RECEIVER_DEVICE, Register::BoltUniqueId, 0)
}

/// The Bolt receiver serial: all reply params as a hex string.
pub fn bolt_serial_from_reply(msg: &Message) -> (r: String)
    ensures
        r@ == hex_string(frame_params(msg@)),
{
    bytes_to_hex(msg.params())
}

/// The RECEIVER_INFO request for Bolt pairing info of a 1-based slot (0x50 +
/// slot, in byte arithmetic that wraps modulo 256).
pub fn bolt_pairing_info_request(slot: u8) -> (m: Message)
    ensures
        m@ == read_frame(RECEIVER_DEVICE, Register::ReceiverInfo, ((0x50 + slot) % 256) as u8),
{
    let sub_reg = ((InfoSubReg::BoltPairingInformation.value() as u16 + slot as u16) % 256) as u8;
    read_long_request(RECEIVER_DEVICE, Register::ReceiverInfo, sub_reg)
}

/// Bolt pairing info from the reply: kind in the low nibble of params[1],
/// WPID high byte at params[3] and low byte at params[2], serial at
/// params[4..8]. Empty slots and short replies give None.
pub fn bolt_pairing_info_from_reply(reply: Result<Message, Error>) -> (r: Result<
    Option<BoltPairingInfo>,
    Error,
>)
    ensures
        match reply {
            Err(e) => if is_empty_bolt_slot_error(e) {
                r == Ok::<Option<BoltPairingInfo>, Error>(None)
            } else {
                r == Err::<Option<BoltPairingInfo>, Error>(e)
            },
            Ok(msg) => {
                let p = frame_params(msg@);
                if p.len() < 8 {
                    r == Ok::<Option<BoltPairingInfo>, Error>(None)
                } else {
                    r == Ok::<Option<BoltPairingInfo>, Error>(
                        Some(
                            BoltPairingInfo {
                                wpid: [p[3], p[2]],
                                kind: device_kind_of(p[1] & 0x0F),
                                serial: [p[4], p[5], p[6], p[7]],
                            },
                        ),
                    )
                }
            },
        },
{
    match reply {
        Err(e) => {
            if empty_bolt_slot_error(&e) {
                Ok(None)
            } else {
                Err(e)
            }
        },
        Ok(msg) => {
            let p = msg.params();
            if p.len() < 8 {
                return Ok(None);
            }
            let wpid = [p[3], p[2]];
            let kind = DeviceKind::from_byte(p[1] & 0x0F);
            let serial = [p[4], p[5], p[6], p[7]];
            Ok(Some(BoltPairingInfo { wpid, kind, serial }))
        },
    }
}

/// The request for a Bolt device name (sub-register 0x60 + slot, wrapping
/// modulo 256; extra param 0x01).
pub fn bolt_device_codename_request(slot: u8) -> (m: Message)
    ensures
        m@ == short_frame(
            RECEIVER_DEVICE,
            read_sub_id(register_address(Register::ReceiverInfo)),
            (register_address(Register::ReceiverInfo) % 256) as u8,
            ((0x60 + slot) % 256) as u8,
            0x01,
            0,
        ),
{
    let sub_reg = ((InfoSubReg::BoltDeviceName.value() as u16 + slot as u16) % 256) as u8;
    let (sub_id, address) = read_ids(Register::ReceiverInfo.address());
    Message::short(RECEIVER_DEVICE, sub_id, address, sub_reg, 0x01, 0)
}

/// The name bytes of a Bolt DeviceName reply: params[2] is the length (at
/// most 14 are used), the name starts at params[3] and is cut at the end of
/// the report.
pub open spec fn bolt_codename_bytes(p: Seq<u8>) -> Seq<u8> {
    let len: int = if p[2] < 14 {
        p[2] as int
    } else {
        14
    };
    let end: int = if 3 + len < p.len() {
        3 + len
    } else {
        p.len() as int
    };
    p.subrange(3, end)
}

/// The Bolt device name from the reply; empty slots give None.
pub fn bolt_device_codename_from_reply(reply: Result<Message, Error>) -> (r: Result<
    Option<String>,
    Error,
>)
    ensures
        match reply {
            Err(e) => if is_empty_bolt_slot_error(e) {
                r matches Ok(None)
            } else {
                r == Err::<Option<String>, Error>(e)
            },
            Ok(msg) => r matches Ok(Some(name)) && name@ == lossy_utf8(
                bolt_codename_bytes(frame_params(msg@)),
            ),
        },
{
    match reply {
        Err(e) => {
            if empty_bolt_slot_error(&e) {
                Ok(None)
            } else {
                Err(e)
            }
        },
        Ok(msg) => {
            let p = msg.params();
            let name_len: usize = if p[2] < 14 {
                p[2] as usize
            } else {
                14
            };
            let end = if 3 + name_len < p.len() {
                3 + name_len
            } else {
                p.len()
            };
            Ok(Some(utf8_lossy(&p[3..end])))
        },
    }
}

// -- Receiver control (notifications, pairing lock, Bolt discovery) -----------

/// Notification flag: wireless device connection notifications.
pub const NOTIF_WIRELESS: u32 = 0x000100;

/// Notification flag: software present (routes special keys through HID++).
pub const NOTIF_SOFTWARE_PRESENT: u32 = 0x000800;

/// The request that reads the receiver's notification flags (register 0x00).
pub fn notification_flags_request() -> (m: Message)
    ensures
        m@ == read_frame(RECEIVER_DEVICE, Register::Notifications, 0),
{
    read_short_request(RECEIVER_DEVICE, Register::Notifications, 0)
}

/// The notification flags in a register 0x00 reply: params[0..3], big-endian.
pub fn notification_flags_from_reply(msg: &Message) -> (r: u32)
    ensures
        r == frame_params(msg@)[0] as int * 65536 + frame_params(msg@)[1] as int * 256
            + frame_params(msg@)[2] as int,
{
    let p = msg.params();
    (p[0] as u32) * 65536 + (p[1] as u32) * 256 + (p[2] as u32)
}

/// The request that sets the receiver's notification flags: the low 24 bits,
/// big-endian (the register holds no more).
pub fn set_notification_flags_request(flags: u32) -> (m: Message)
    ensures
        m@ == write_frame(
            RECEIVER_DEVICE,
            Register::Notifications,
            ((flags / 65536) % 256) as u8,
            ((flags / 256) % 256) as u8,
            (flags % 256) as u8,
        ),
{
    write_short_request(
        RECEIVER_DEVICE,
        Register::Notifications,
        ((flags / 65536) % 256) as u8,
        ((flags / 256) % 256) as u8,
        (flags % 256) as u8,
    )
}

/// The request that opens (action 0x01) or closes (0x02) the Unifying
/// pairing lock for `timeout_secs` seconds (register 0xB2).
pub fn pairing_lock_request(open: bool, timeout_secs: u8) -> (m: Message)
    ensures
        m@ == write_frame(
            RECEIVER_DEVICE,
            Register::ReceiverPairing,
            if open {
                0x01
            } else {
                0x02
            },
            0,
            timeout_secs,
        ),
{
    let action: u8 = if open {
        0x01
    } else {
        0x02
    };
    write_short_request(RECEIVER_DEVICE, Register::ReceiverPairing, action, 0, timeout_secs)
}

/// The request that unpairs the device in a 1-based Unifying slot (register
/// 0xB2, action 0x03).
pub fn unpair_request(slot: u8) -> (m: Message)
    ensures
        m@ == write_frame(RECEIVER_DEVICE, Register::ReceiverPairing, 0x03, slot, 0),
{
    write_short_request(RECEIVER_DEVICE, Register::ReceiverPairing, 0x03, slot, 0)
}

/// The request that starts (action 0x01) or cancels (0x02) Bolt device
/// discovery (register 0xC0).
pub fn bolt_discovery_request(cancel: bool, timeout_secs: u8) -> (m: Message)
    ensures
        m@ == write_frame(
            RECEIVER_DEVICE,
            Register::BoltDeviceDiscovery,
            timeout_secs,
            if cancel {
                0x02
            } else {
                0x01
            },
            0,
        ),
{
    let action: u8 = if cancel {
        0x02
    } else {
        0x01
    };
    write_short_request(RECEIVER_DEVICE, Register::BoltDeviceDiscovery, timeout_secs, action, 0)
}

/// The request that pairs a discovered Bolt device (register 0x2C1, action
/// 0x01): [0x01, slot, address(6), authentication, entropy].
pub fn bolt_pair_request(slot: u8, address: &[u8; 6], authentication: u8, entropy: u8) -> (m:
    Message)
    ensures
        m@ == long_frame(
            RECEIVER_DEVICE,
            write_sub_id(register_address(Register::BoltPairing)),
            (register_address(Register::BoltPairing) % 256) as u8,
            seq![0x01, slot] + address@ + seq![authentication, entropy],
        ),
{
    let params: [u8; 10] = [
        0x01,
        slot,
        address[0],
        address[1],
        address[2],
        address[3],
        address[4],
        address[5],
        authentication,
        entropy,
    ];
    assert(params@ =~= seq![0x01, slot] + address@ + seq![authentication, entropy]);
    write_long_request(RECEIVER_DEVICE, Register::BoltPairing, &params)
}

/// The request that unpairs the device in a Bolt slot (register 0x2C1, action 0x03).
pub fn bolt_unpair_request(slot: u8) -> (m: Message)
    ensures
        m@ == long_frame(
            RECEIVER_DEVICE,
            write_sub_id(register_address(Register::BoltPairing)),
            (register_address(Register::BoltPairing) % 256) as u8,
            seq![0x03, slot],
        ),
{
    let params: [u8; 2] = [0x03, slot];
    assert(params@ =~= seq![0x03u8, slot]);
    write_long_request(RECEIVER_DEVICE, Register::BoltPairing, &params)
}

// -- Readers ------------------------------------------------------------------

/// The request that reads a FIRMWARE sub-register of a device.
pub open spec fn firmware_read_frame(device: u8, sub: u8) -> Seq<u8> {
    read_frame(device, Register::Firmware, sub)
}

/// Where a HID++ 1.0 firmware read stands.
#[derive(Debug, Clone, Copy, PartialEq, Eq, Structural)]
pub enum FirmwareReadStage {
    Version,
    Build,
    Bootloader,
    Finished,
}

/// Reads the firmware of a HID++ 1.0 device: FIRMWARE sub-register 0x01
/// (version), then 0x02 (build) only when the version read succeeded, then
/// 0x04 (bootloader). Failed reads are left out; the read never fails.
pub struct FirmwareReader10 {
    device: u8,
    stage: FirmwareReadStage,
    version: Option<Message>,
    build: Option<Message>,
}

impl FirmwareReader10 {
    pub closed spec fn target(&self) -> u8 {
        self.device
    }

    pub closed spec fn stage(&self) -> FirmwareReadStage {
        self.stage
    }

    /// The version reply, once it came.
    pub closed spec fn version_reply(&self) -> Option<Seq<u8>> {
        match self.version {
            Some(m) => Some(m@),
            None => None,
        }
    }

    /// The build reply, once it came.
    pub closed spec fn build_reply(&self) -> Option<Seq<u8>> {
        match self.build {
            Some(m) => Some(m@),
            None => None,
        }
    }

    /// A firmware read of `device` and its first request (version).
    pub fn new(device: u8) -> (r: (Self, Message))
        ensures
            firmware10_read_started(device, r.0, r.1),

    {
        (
            FirmwareReader10 { device, stage: FirmwareReadStage::Version, version: None, build: None },
            read_short_request(device, Register::Firmware, 0x01),
        )
    }

    /// Feeds the reply to the last request and gives the next step.
    pub fn on_reply(&mut self, reply: Result<Message, Error>) -> (r: Step<Vec<FirmwareInfo>>)
        requires
            old(self).stage() != FirmwareReadStage::Finished,
        ensures
            firmware10_read_step(*old(self), reply, *final(self), r),

    {
        match self.stage {
            FirmwareReadStage::Version => match reply {
                Ok(msg) => {
                    self.version = Some(msg);
                    self.stage = FirmwareReadStage::Build;
                    Step::Send(read_short_request(self.device, Register::Firmware, 0x02))
                },
                Err(_) => {
                    self.stage = FirmwareReadStage::Bootloader;
                    Step::Send(read_short_request(self.device, Register::Firmware, 0x04))
                },
            },
            FirmwareReadStage::Build => {
                match reply {
                    Ok(msg) => {
                        self.build = Some(msg);
                    },
                    Err(_) => {
                        self.build = None;
                    },
                }
                self.stage = FirmwareReadStage::Bootloader;
                Step::Send(read_short_request(self.device, Register::Firmware, 0x04))
            },
            _ => {
                self.stage = FirmwareReadStage::Finished;
                let boot = match reply {
                    Ok(msg) => Some(msg),
                    Err(_) => None,
                };
                let v = firmware_from_replies(self.version.as_ref(), self.build.as_ref(), boot.as_ref());
                Step::Done(Ok(v))
            },
        }
    }
}

/// How firmware10_read starts: the reader's state and first step.
pub open spec fn firmware10_read_started(device: u8, reader: FirmwareReader10, first: Message) -> bool {
    &&& (reader.target() == device)
    &&& (reader.stage() == FirmwareReadStage::Version)
    &&& (reader.version_reply() is None)
    &&& (reader.build_reply() is None)
    &&& (first@ == firmware_read_frame(device, 0x01))
}

/// One step of firmware10_read: from state `old`, the reply `reply` leads to state
/// `new` and step `r`.
pub open spec fn firmware10_read_step(old: FirmwareReader10, reply: Result<Message, Error>, new: FirmwareReader10, r: Step<Vec<FirmwareInfo>>) -> bool {
    &&& (new.target() == old.target())
    &&& (old.stage() == FirmwareReadStage::Version ==> match reply {
        Ok(msg) => new.stage() == FirmwareReadStage::Build && new.version_reply() == Some(msg@) && new.build_reply() == old.build_reply() && (r matches Step::Send(m) && m@ == firmware_read_frame(
            old.target(),
            0x02,
        )),
        Err(_) => new.stage() == FirmwareReadStage::Bootloader && new.version_reply() == old.version_reply() && new.build_reply()
            == old.build_reply() && (r matches Step::Send(m) && m@
            == firmware_read_frame(old.target(), 0x04)),
    })
    &&& (old.stage() == FirmwareReadStage::Build ==> {
        &&& new.stage() == FirmwareReadStage::Bootloader
        &&& new.version_reply() == old.version_reply()
        &&& new.build_reply() == match reply {
            Ok(msg) => Some(msg@),
            Err(_) => None,
        }
        &&& r matches Step::Send(m) && m@ == firmware_read_frame(old.target(), 0x04)
    })
    &&& (old.stage() == FirmwareReadStage::Bootloader ==> {
        &&& new.stage() == FirmwareReadStage::Finished
        &&& r matches Step::Done(Ok(v)) && firmware10_list(
            v@,
            old.version_reply(),
            old.build_reply(),
            match reply {
                Ok(msg) => Some(msg@),
                Err(_) => None,
            },
        )
    })
}

/// Where a HID++ 1.0 battery read stands.
#[derive(Debug, Clone, Copy, PartialEq, Eq, Structural)]
pub enum BatteryReadStage {
    Charge,
    Status,
    Finished,
}

/// Reads the battery of a HID++ 1.0 device: BATTERY_CHARGE first, then
/// BATTERY_STATUS when the device lacks BATTERY_CHARGE (see
/// `battery_charge_outcome` and `battery_status_outcome`).
pub struct BatteryReader10 {
    device: u8,
    stage: BatteryReadStage,
}

impl BatteryReader10 {
    pub closed spec fn target(&self) -> u8 {
        self.device
    }

    pub closed spec fn stage(&self) -> BatteryReadStage {
        self.stage
    }

    /// A battery read of `device` and its first request (BATTERY_CHARGE).
    pub fn new(device: u8) -> (r: (Self, Message))
        ensures
            battery10_read_started(device, r.0, r.1),

    {
        (
            BatteryReader10 { device, stage: BatteryReadStage::Charge },
            read_short_request(device, Register::BatteryCharge, 0),
        )
    }

    /// Feeds the reply to the last request and gives the next step.
    pub fn on_reply(&mut self, reply: Result<Message, Error>) -> (r: Step<Option<Battery>>)
        requires
            old(self).stage() != BatteryReadStage::Finished,
        ensures
            battery10_read_step(*old(self), reply, *final(self), r),

    {
        match self.stage {
            BatteryReadStage::Charge => match battery_charge_outcome(reply) {
                BatteryProbe::Done(r) => {
                    self.stage = BatteryReadStage::Finished;
                    Step::Done(r)
                },
                BatteryProbe::TryStatusRegister => {
                    self.stage = BatteryReadStage::Status;
                    Step::Send(read_short_request(self.device, Register::BatteryStatus, 0))
                },
            },
            _ => {
                self.stage = BatteryReadStage::Finished;
                Step::Done(battery_status_outcome(reply))
            },
        }
    }
}

/// How battery10_read starts: the reader's state and first step.
pub open spec fn battery10_read_started(device: u8, reader: BatteryReader10, first: Message) -> bool {
    &&& (reader.target() == device)
    &&& (reader.stage() == BatteryReadStage::Charge)
    &&& (first@ == read_frame(device, Register::BatteryCharge, 0))
}

/// One step of battery10_read: from state `old`, the reply `reply` leads to state
/// `new` and step `r`.
pub open spec fn battery10_read_step(old: BatteryReader10, reply: Result<Message, Error>, new: BatteryReader10, r: Step<Option<Battery>>) -> bool {
    &&& (new.target() == old.target())
    &&& (old.stage() == BatteryReadStage::Charge ==> match reply {
        Ok(msg) => new.stage() == BatteryReadStage::Finished && r
            == Step::<Option<Battery>>::Done(
            Ok(Some(battery_from_charge(frame_params(msg@)))),
        ),
        Err(e) => if is_missing_register_error(e) {
            new.stage() == BatteryReadStage::Status && (r matches Step::Send(m)
                && m@ == read_frame(old.target(), Register::BatteryStatus, 0))
        } else {
            new.stage() == BatteryReadStage::Finished && r
                == Step::<Option<Battery>>::Done(Err(e))
        },
    })
    &&& (old.stage() == BatteryReadStage::Status ==> new.stage()
        == BatteryReadStage::Finished && match reply {
        Ok(msg) => r == Step::<Option<Battery>>::Done(
            Ok(Some(battery_from_status(frame_params(msg@)))),
        ),
        Err(e) => if is_missing_register_error(e) {
            r == Step::<Option<Battery>>::Done(Ok(None))
        } else {
            r == Step::<Option<Battery>>::Done(Err(e))
        },
    })
}

} // verus!
