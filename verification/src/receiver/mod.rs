//! Receiver enumeration, device management and pairing.

use vstd::prelude::*;
use crate::devices::hid::HidInterface;
use crate::error::Error;
use crate::hidpp::hidpp10::{
    bolt_discovery_request, bolt_serial_from_reply, bolt_serial_request, bolt_unpair_request,
    notification_flags_from_reply, pairing_lock_request, read_frame, receiver_info_from_reply,
    receiver_info_request, set_notification_flags_request, unpair_request, write_frame, Register,
    NOTIF_SOFTWARE_PRESENT, NOTIF_WIRELESS,
};
use crate::hidpp::hidpp20::{
    BacklightInfo, DpiInfo, FnInfo, HostInfo, MultiplatformInfo, ScrollInfo, SmartShiftInfo,
};
use crate::hidpp::hidpp20::function_address;
use crate::hidpp::message::{Message, frame_params, is_frame, long_frame, RECEIVER_DEVICE};
use crate::receiver::pairing::{NOTIF_DJ_PAIRING, NOTIF_POWER};
use crate::text::hex_string;

pub mod enumerate;
pub mod pairing;
pub mod settings;

verus! {

pub const LOGITECH_VID: u16 = 0x046D;

#[derive(Debug, Clone, Copy, PartialEq, Eq, Structural)]
pub enum ReceiverKind {
    Unifying,
    Bolt,
    Nano,
    LightSpeed,
}

/// The receiver kind of each known receiver product ID.
pub open spec fn receiver_kind_of_pid(pid: u16) -> Option<ReceiverKind> {
    match pid {
        0xC548 => Some(ReceiverKind::Bolt),
        0xC52B | 0xC532 => Some(ReceiverKind::Unifying),
        0xC52F | 0xC521 | 0xC525 | 0xC526 | 0xC52E | 0xC531 | 0xC534 | 0xC535 | 0xC537 => Some(
            ReceiverKind::Nano,
        ),
        0xC539 | 0xC53A | 0xC53D | 0xC53F | 0xC541 | 0xC545 | 0xC547 | 0xC54D => Some(
            ReceiverKind::LightSpeed,
        ),
        _ => None,
    }
}

/// Display name of each receiver kind.
pub open spec fn receiver_display_name(kind: ReceiverKind) -> Seq<char> {
    match kind {
        ReceiverKind::Bolt => "Bolt Receiver"@,
        ReceiverKind::Unifying => "Unifying Receiver"@,
        ReceiverKind::Nano => "Nano Receiver"@,
        ReceiverKind::LightSpeed => "Lightspeed Receiver"@,
    }
}

/// The kind of a known receiver product ID.
pub fn receiver_kind_for_pid(pid: u16) -> (r: Option<ReceiverKind>)
    ensures
        r == receiver_kind_of_pid(pid),
{
    match pid {
        0xC548 => Some(ReceiverKind::Bolt),
        0xC52B | 0xC532 => Some(ReceiverKind::Unifying),
        0xC52F | 0xC521 | 0xC525 | 0xC526 | 0xC52E | 0xC531 | 0xC534 | 0xC535 | 0xC537 => Some(
            ReceiverKind::Nano,
        ),
        0xC539 | 0xC53A | 0xC53D | 0xC53F | 0xC541 | 0xC545 | 0xC547 | 0xC54D => Some(
            ReceiverKind::LightSpeed,
        ),
        _ => None,
    }
}

/// True for every known receiver product ID, so that the direct-device
/// enumerator can skip receiver interfaces.
pub fn is_receiver_pid(pid: u16) -> (r: bool)
    ensures
        r == receiver_kind_of_pid(pid) is Some,
{
    receiver_kind_for_pid(pid).is_some()
}

/// The display name of a receiver kind.
pub fn receiver_name(kind: ReceiverKind) -> (r: &'static str)
    ensures
        r@ == receiver_display_name(kind),
{
    match kind {
        ReceiverKind::Bolt => "Bolt Receiver",
        ReceiverKind::Unifying => "Unifying Receiver",
        ReceiverKind::Nano => "Nano Receiver",
        ReceiverKind::LightSpeed => "Lightspeed Receiver",
    }
}

/// Lightweight descriptor returned from enumerate_receivers before opening.
#[derive(Debug, Clone)]
pub struct ReceiverHandle {
    pub path: String,
    pub product_id: u16,
    pub kind: ReceiverKind,
    pub name: &'static str,
}

/// The HID++ vendor interface (usage page 0xFF00, usage 0x0001) of a known
/// Logitech receiver.
pub open spec fn is_receiver_interface(d: HidInterface) -> bool {
    &&& d.vendor_id == LOGITECH_VID
    &&& d.usage_page == 0xFF00 && d.usage == 0x0001
    &&& receiver_kind_of_pid(d.product_id) is Some
}

/// The receiver interfaces of a device list, in list order.
pub open spec fn receiver_interfaces(s: Seq<HidInterface>) -> Seq<HidInterface>
    decreases s.len(),
{
    if s.len() == 0 {
        Seq::empty()
    } else if is_receiver_interface(s.last()) {
        receiver_interfaces(s.drop_last()).push(s.last())
    } else {
        receiver_interfaces(s.drop_last())
    }
}

/// A handle describes a receiver interface.
pub open spec fn handle_of(h: ReceiverHandle, d: HidInterface) -> bool {
    &&& h.path@ == d.path@
    &&& h.product_id == d.product_id
    &&& Some(h.kind) == receiver_kind_of_pid(d.product_id)
    &&& h.name@ == receiver_display_name(h.kind)
}

/// Enumerate all Logitech receivers in a HID device list.
///
/// Filters to usage_page=0xFF00, usage=0x0001 (the HID++ vendor interface) to
/// get exactly one entry per physical receiver.
pub fn enumerate_receivers(interfaces: &Vec<HidInterface>) -> (r: Vec<ReceiverHandle>)
    ensures
        r@.len() == receiver_interfaces(interfaces@).len(),
        forall|i: int|
            0 <= i < r@.len() ==> handle_of(#[trigger] r@[i], receiver_interfaces(interfaces@)[i]),
{
    let mut r: Vec<ReceiverHandle> = Vec::new();
    let mut i: usize = 0;
    while i < interfaces.len()
        invariant
            i <= interfaces@.len(),
            r@.len() == receiver_interfaces(interfaces@.take(i as int)).len(),
            forall|k: int|
                0 <= k < r@.len() ==> handle_of(
                    #[trigger] r@[k],
                    receiver_interfaces(interfaces@.take(i as int))[k],
                ),
        decreases interfaces@.len() - i,
    {
        let d = &interfaces[i];
        proof {
            assert(interfaces@.take(i + 1).drop_last() =~= interfaces@.take(i as int));
            assert(interfaces@.take(i + 1).last() == interfaces@[i as int]);
        }
        if d.vendor_id == LOGITECH_VID && d.usage_page == 0xFF00 && d.usage == 0x0001 {
            match receiver_kind_for_pid(d.product_id) {
                Some(kind) => {
                    r.push(
                        ReceiverHandle {
                            path: d.path.clone(),
                            product_id: d.product_id,
                            kind,
                            name: receiver_name(kind),
                        },
                    );
                },
                None => {},
            }
        }
        i = i + 1;
    }
    proof {
        assert(interfaces@.take(i as int) =~= interfaces@);
    }
    r
}

// -- Opened receivers ---------------------------------------------------------

/// What is known of an opened receiver.
#[derive(Debug, Clone)]
pub struct OpenedReceiver {
    pub kind: ReceiverKind,
    pub name: &'static str,
    pub product_id: u16,
    /// Serial number as a hex string ("unknown" when it could not be read).
    pub serial: String,
    /// The number of pairing slots.
    pub max_devices: u8,
}

/// The request that reads a receiver's identity when it is opened: the Bolt
/// unique ID register, or RECEIVER_INFO 0x03 for the other kinds.
pub fn identity_request(kind: ReceiverKind) -> (m: Message)
    ensures
        kind == ReceiverKind::Bolt ==> m@ == read_frame(RECEIVER_DEVICE, Register::BoltUniqueId, 0),
        kind != ReceiverKind::Bolt ==> m@ == read_frame(RECEIVER_DEVICE, Register::ReceiverInfo, 0x03),
{
    if kind == ReceiverKind::Bolt {
        bolt_serial_request()
    } else {
        receiver_info_request()
    }
}

/// The (serial, max_devices) that an identity reply gives. Bolt: the hex of
/// all reply params and 6 slots. Others: the RECEIVER_INFO serial and slot
/// count. A failed or malformed read gives "unknown" with 6 (Bolt) or 1 slot.
pub fn identity_from_reply(kind: ReceiverKind, reply: Result<Message, Error>) -> (r: (String, u8))
    ensures
        kind == ReceiverKind::Bolt ==> r.1 == 6 && match reply {
            Ok(msg) => r.0@ == hex_string(frame_params(msg@)),
            Err(_) => r.0@ == "unknown"@,
        },
        kind != ReceiverKind::Bolt ==> match reply {
            Ok(msg) => if frame_params(msg@).len() >= 7 {
                r.0@ == hex_string(frame_params(msg@).subrange(1, 5)) && r.1 == frame_params(
                    msg@,
                )[6]
            } else {
                r.0@ == "unknown"@ && r.1 == 1
            },
            Err(_) => r.0@ == "unknown"@ && r.1 == 1,
        },
{
    if kind == ReceiverKind::Bolt {
        let serial = match reply {
            Ok(msg) => bolt_serial_from_reply(&msg),
            Err(_) => "unknown".to_owned(),
        };
        (serial, 6)
    } else {
        match reply {
            Ok(msg) => match receiver_info_from_reply(&msg) {
                Ok(info) => info,
                Err(_) => ("unknown".to_owned(), 1),
            },
            Err(_) => ("unknown".to_owned(), 1),
        }
    }
}

/// What the reply to a notification-flags read asks for: a write of exactly
/// `wanted` when the read succeeded with other flags; nothing when the read
/// failed or the flags already match.
pub fn notification_flags_update(reply: Result<Message, Error>, wanted: u32) -> (r: Option<Message>)
    ensures
        match reply {
            Ok(msg) => {
                let p = frame_params(msg@);
                let flags = p[0] as int * 65536 + p[1] as int * 256 + p[2] as int;
                if flags != wanted {
                    r matches Some(m) && m@ == write_frame(
                        RECEIVER_DEVICE,
                        Register::Notifications,
                        ((wanted / 65536) % 256) as u8,
                        ((wanted / 256) % 256) as u8,
                        (wanted % 256) as u8,
                    )
                } else {
                    r is None
                }
            },
            Err(_) => r is None,
        },
{
    match reply {
        Ok(msg) => {
            let flags = notification_flags_from_reply(&msg);
            if flags != wanted {
                Some(set_notification_flags_request(wanted))
            } else {
                None
            }
        },
        Err(_) => None,
    }
}

/// The request that starts pairing: Bolt device discovery, or opening the
/// pairing lock of the other kinds, for `timeout_secs` seconds.
pub fn start_pairing_request(kind: ReceiverKind, timeout_secs: u8) -> (m: Message)
    ensures
        kind == ReceiverKind::Bolt ==> m@ == write_frame(
            RECEIVER_DEVICE,
            Register::BoltDeviceDiscovery,
            timeout_secs,
            0x01,
            0,
        ),
        kind != ReceiverKind::Bolt ==> m@ == write_frame(
            RECEIVER_DEVICE,
            Register::ReceiverPairing,
            0x01,
            0,
            timeout_secs,
        ),
{
    if kind == ReceiverKind::Bolt {
        bolt_discovery_request(false, timeout_secs)
    } else {
        pairing_lock_request(true, timeout_secs)
    }
}

/// The request that cancels pairing: stops Bolt discovery, or closes the
/// pairing lock of the other kinds.
pub fn cancel_pairing_request(kind: ReceiverKind) -> (m: Message)
    ensures
        kind == ReceiverKind::Bolt ==> m@ == write_frame(
            RECEIVER_DEVICE,
            Register::BoltDeviceDiscovery,
            0,
            0x02,
            0,
        ),
        kind != ReceiverKind::Bolt ==> m@ == write_frame(
            RECEIVER_DEVICE,
            Register::ReceiverPairing,
            0x02,
            0,
            0,
        ),
{
    if kind == ReceiverKind::Bolt {
        bolt_discovery_request(true, 0)
    } else {
        pairing_lock_request(false, 0)
    }
}

/// The request that unpairs the device in a 1-based slot.
pub fn unpair_device_request(kind: ReceiverKind, slot: u8) -> (m: Message)
    ensures
        kind == ReceiverKind::Bolt ==> m@ == long_frame(
            RECEIVER_DEVICE,
            0x82,
            0xC1,
            seq![0x03, slot],
        ),
        kind != ReceiverKind::Bolt ==> m@ == write_frame(
            RECEIVER_DEVICE,
            Register::ReceiverPairing,
            0x03,
            slot,
            0,
        ),
{
    if kind == ReceiverKind::Bolt {
        let m = bolt_unpair_request(slot);
        assert(0x2C1u16 & 0x200 != 0) by (bit_vector);
        m
    } else {
        unpair_request(slot)
    }
}

// -- Device events ------------------------------------------------------------

/// Event returned by poll_device_event.
#[derive(Debug, Clone, Copy, PartialEq, Eq, Structural)]
pub enum DeviceEvent {
    /// A device came online or went offline.
    LinkChange { slot: u8, online: bool },
    /// The device reported an unsolicited HID++ 2.0 feature notification.
    /// feature_index is the sub_id of the message (= 0x1B04 feature index for
    /// button-CID events, or a settings feature index for mode changes).
    SettingsChanged { slot: u8, feature_index: u8 },
}

/// The device event that a notification reports, if any:
/// - replies (sub_id >= 0x80) and receiver-level messages (device 0 or 0xFF)
///   report nothing;
/// - DJ pairing (0x41) with a nonzero address: the link is up unless bit
///   0x40 of params[0] is set;
/// - power (0x4B) with address 0x01: the device came online;
/// - any other sub_id whose address has software ID 0 (device-initiated):
///   a settings change of the feature at that index.
pub open spec fn device_event_of(msg: Seq<u8>) -> Option<DeviceEvent> {
    let sub_id = msg[2];
    let slot = msg[1];
    let address = msg[3];
    if sub_id >= 0x80 || slot == 0xFF || slot == 0 {
        None
    } else if sub_id == NOTIF_DJ_PAIRING {
        if address == 0 {
            None
        } else {
            Some(DeviceEvent::LinkChange { slot, online: frame_params(msg)[0] & 0x40 == 0 })
        }
    } else if sub_id == NOTIF_POWER {
        if address == 0x01 {
            Some(DeviceEvent::LinkChange { slot, online: true })
        } else {
            None
        }
    } else if address & 0x0F == 0 {
        Some(DeviceEvent::SettingsChanged { slot, feature_index: sub_id })
    } else {
        None
    }
}

/// Interpret one notification read by an event listener.
pub fn device_event_from_notification(msg: &Message) -> (r: Option<DeviceEvent>)
    ensures
        r == device_event_of(msg@),
{
    let sub_id = msg.sub_id();
    if sub_id >= 0x80 {
        return None;
    }
    let slot = msg.device();
    if slot == 0xFF || slot == 0 {
        return None;
    }
    if sub_id == NOTIF_DJ_PAIRING {
        if msg.address() == 0x00 {
            return None;
        }
        let online = (msg.params()[0] & 0x40) == 0;
        Some(DeviceEvent::LinkChange { slot, online })
    } else if sub_id == NOTIF_POWER {
        if msg.address() == 0x01 {
            Some(DeviceEvent::LinkChange { slot, online: true })
        } else {
            None
        }
    } else if (msg.address() & 0x0F) == 0 {
        Some(DeviceEvent::SettingsChanged { slot, feature_index: sub_id })
    } else {
        None
    }
}

/// A reply to one of the library's own HID++ 2.0 feature calls carries the
/// library's software ID in its address byte, so an event listener never
/// takes it for a device-initiated settings change.
pub proof fn lemma_own_replies_are_not_settings_changes(msg: Seq<u8>, function: u8)
    requires
        is_frame(msg),
        msg[3] == function_address(function),
    ensures
        !(device_event_of(msg) matches Some(DeviceEvent::SettingsChanged { .. })),
{
    assert(((function << 4u8) | 0x0Au8) & 0x0F == 0x0A) by (bit_vector);
}

/// All configurable settings for one device, batched from a single feature discovery.
#[derive(Debug)]
pub struct AllDeviceSettings {
    pub dpi: Option<DpiInfo>,
    pub scroll: Option<ScrollInfo>,
    pub smart_shift: Option<SmartShiftInfo>,
    pub hosts: Option<Vec<HostInfo>>,
    pub fn_settings: Option<FnInfo>,
    pub multiplatform: Option<MultiplatformInfo>,
    pub backlight: Option<BacklightInfo>,
    /// Feature index of REPROG_CONTROLS_V4 (0x1B04) for this device, or 0 if absent.
    /// Used to filter out button-CID HID++ notifications (which look like settings
    /// change events) in the event listener.
    pub reprog_controls_idx: u8,
}

} // verus!
