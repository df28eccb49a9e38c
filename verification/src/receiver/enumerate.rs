//! Enumeration of the devices paired to a receiver.
//!
//! For each slot the receiver is asked for the pairing info, serial and
//! codename (Bolt receivers keep the serial in the pairing info). An occupied
//! slot is then read for battery and firmware: over HID++ 2.0 when the device
//! has a feature table, over HID++ 1.0 registers otherwise. Per-slot
//! sub-registers are computed in byte arithmetic that wraps modulo 256.

use std::collections::HashMap;
use vstd::prelude::*;
use crate::devices::types::{Battery, DeviceInfo, DeviceKind, FirmwareInfo, device_kind_of};
use crate::error::Error;
use crate::hidpp::hidpp10::{
    bolt_codename_bytes, bolt_device_codename_from_reply, bolt_device_codename_request,
    bolt_pairing_info_from_reply, bolt_pairing_info_request, codename_bytes,
    device_codename_from_reply, extended_pairing_info_from_reply, is_empty_bolt_slot_error,
    is_empty_slot_error, pairing_info_from_reply, read_frame, slot_info_request,
    battery10_read_started, battery10_read_step, firmware10_read_started, firmware10_read_step,
    BatteryReadStage, BatteryReader10, FirmwareReadStage, FirmwareReader10, InfoSubReg, Register,
};
use crate::hidpp::hidpp20::{
    battery_read_started, battery_read_step, feature_discovery_started, feature_discovery_step,
    firmware_read_started, firmware_read_step, function_address, BatteryReader, DiscoveryStage,
    FeatureDiscovery, FirmwareReader, FirmwareStage,
};
use crate::hidpp::message::{Message, Step, frame_params, ok_or_none, short_frame, RECEIVER_DEVICE};
use crate::receiver::ReceiverKind;
use crate::text::{bytes_to_hex, decimal, hex_string, lossy_utf8, push_decimal};

verus! {

/// The name given to a device whose codename cannot be read: "Device N".
pub open spec fn default_device_name(slot: u8) -> Seq<char> {
    "Device "@ + decimal(slot as nat)
}

fn default_device_name_string(slot: u8) -> (r: String)
    ensures
        r@ == default_device_name(slot),
{
    let mut s = "Device ".to_owned();
    push_decimal(&mut s, slot as u32);
    s
}

/// The first request for a slot: the Bolt pairing info (0x50 + slot), or
/// the Unifying pairing info (0x20 + slot - 1).
pub open spec fn slot_first_frame(kind: ReceiverKind, slot: u8) -> Seq<u8> {
    if kind == ReceiverKind::Bolt {
        read_frame(RECEIVER_DEVICE, Register::ReceiverInfo, ((0x50 + slot) % 256) as u8)
    } else {
        read_frame(RECEIVER_DEVICE, Register::ReceiverInfo, ((0x20 + slot + 255) % 256) as u8)
    }
}

/// The first request of a device's battery and firmware read: ROOT.GetFeature
/// for FEATURE_SET.
pub open spec fn details_first_frame(slot: u8) -> Seq<u8> {
    short_frame(slot, 0, function_address(0), 0, 1, 0)
}

/// Where a device enumeration stands.
#[derive(Debug, Clone, Copy, PartialEq, Eq, Structural)]
pub enum EnumStage {
    /// Unifying-style receivers: pairing info, extended pairing info, codename.
    Pairing,
    Extended,
    Name,
    /// Bolt receivers: pairing info (with serial), codename.
    BoltPairing,
    BoltName,
    /// The device's battery and firmware.
    Features,
    Battery20,
    Firmware20,
    Battery10,
    Firmware10,
    Finished,
}

/// Enumerates the devices paired to a receiver of the given kind with the
/// given number of slots. Errors while reading a slot's pairing data end the
/// enumeration with that error; errors while reading a device's battery or
/// firmware only leave them out.
pub struct DeviceEnumeration {
    kind: ReceiverKind,
    max: u8,
    slot: u8,
    stage: EnumStage,
    wpid: [u8; 2],
    device_kind: DeviceKind,
    serial: String,
    name: String,
    battery: Option<Battery>,
    features: HashMap<u16, u8>,
    discovery: Option<FeatureDiscovery>,
    battery20: Option<BatteryReader>,
    firmware20: Option<FirmwareReader>,
    battery10: Option<BatteryReader10>,
    firmware10: Option<FirmwareReader10>,
    devices: Vec<DeviceInfo>,
}

impl DeviceEnumeration {
    /// The enumeration's own consistency: the slot being read is one of the
    /// receiver's, and the reader of the current stage is running.
    pub closed spec fn wf(&self) -> bool {
        &&& self.stage != EnumStage::Finished ==> 1 <= self.slot <= self.max
        &&& (self.stage == EnumStage::BoltPairing || self.stage == EnumStage::BoltName) ==> self.kind
            == ReceiverKind::Bolt
        &&& self.stage == EnumStage::Features ==> (self.discovery matches Some(d) && d.stage()
            != DiscoveryStage::Finished)
        &&& self.stage == EnumStage::Battery20 ==> (self.battery20 matches Some(b) && b.source()
            < 3)
        &&& self.stage == EnumStage::Firmware20 ==> (self.firmware20 matches Some(f) && f.stage()
            != FirmwareStage::Finished)
        &&& self.stage == EnumStage::Battery10 ==> (self.battery10 matches Some(b) && b.stage()
            != BatteryReadStage::Finished)
        &&& self.stage == EnumStage::Firmware10 ==> (self.firmware10 matches Some(f) && f.stage()
            != FirmwareReadStage::Finished)
    }

    pub closed spec fn receiver_kind(&self) -> ReceiverKind {
        self.kind
    }

    /// The number of slots.
    pub closed spec fn slot_count(&self) -> u8 {
        self.max
    }

    /// The slot being read.
    pub closed spec fn slot(&self) -> u8 {
        self.slot
    }

    pub closed spec fn stage(&self) -> EnumStage {
        self.stage
    }

    /// The devices found so far.
    pub closed spec fn found(&self) -> Seq<DeviceInfo> {
        self.devices@
    }

    /// The WPID read for the current slot.
    pub closed spec fn wpid(&self) -> [u8; 2] {
        self.wpid
    }

    /// The kind read for the current slot.
    pub closed spec fn device_kind(&self) -> DeviceKind {
        self.device_kind
    }

    /// The serial read for the current slot.
    pub closed spec fn serial(&self) -> Seq<char> {
        self.serial@
    }

    /// The name read for the current slot.
    pub closed spec fn name(&self) -> Seq<char> {
        self.name@
    }

    /// What is known of the slot being read.
    pub closed spec fn record(&self) -> SlotRecord {
        SlotRecord {
            kind: self.kind,
            max: self.max,
            slot: self.slot,
            found: self.devices@,
            wpid: self.wpid,
            device_kind: self.device_kind,
            serial: self.serial@,
            name: self.name@,
        }
    }

    /// The battery read for the current device.
    pub closed spec fn battery(&self) -> Option<Battery> {
        self.battery
    }

    /// The current device's feature table, once discovered.
    pub closed spec fn table(&self) -> Map<u16, u8> {
        self.features@
    }

    /// The running feature discovery.
    pub closed spec fn discovery_reader(&self) -> Option<FeatureDiscovery> {
        self.discovery
    }

    /// The running HID++ 2.0 battery read.
    pub closed spec fn battery20_reader(&self) -> Option<BatteryReader> {
        self.battery20
    }

    /// The running HID++ 2.0 firmware read.
    pub closed spec fn firmware20_reader(&self) -> Option<FirmwareReader> {
        self.firmware20
    }

    /// The running HID++ 1.0 battery read.
    pub closed spec fn battery10_reader(&self) -> Option<BatteryReader10> {
        self.battery10
    }

    /// The running HID++ 1.0 firmware read.
    pub closed spec fn firmware10_reader(&self) -> Option<FirmwareReader10> {
        self.firmware10
    }

    /// The request that starts reading a slot.
    fn slot_request(kind: ReceiverKind, slot: u8) -> (m: Message)
        ensures
            m@ == slot_first_frame(kind, slot),
    {
        if kind == ReceiverKind::Bolt {
            bolt_pairing_info_request(slot)
        } else {
            slot_info_request(InfoSubReg::PairingInformation, slot)
        }
    }

    /// An enumeration of a receiver with `max_devices` slots, with its first
    /// step: the result is an empty list at once when there are no slots.
    pub fn new(kind: ReceiverKind, max_devices: u8) -> (r: (Self, Step<Vec<DeviceInfo>>))
        ensures
            r.0.wf(),
            r.0.receiver_kind() == kind,
            r.0.slot_count() == max_devices,
            r.0.found() == Seq::<DeviceInfo>::empty(),
            max_devices == 0 ==> (r.1 matches Step::Done(Ok(v)) && v@.len() == 0),
            max_devices > 0 ==> (r.1 matches Step::Send(m) && m@ == slot_first_frame(kind, 1)
                && r.0.slot() == 1),
    {
        let mut e = DeviceEnumeration {
            kind,
            max: max_devices,
            slot: 1,
            stage: EnumStage::Finished,
            wpid: [0, 0],
            device_kind: DeviceKind::Unknown,
            serial: String::new(),
            name: String::new(),
            battery: None,
            features: HashMap::new(),
            discovery: None,
            battery20: None,
            firmware20: None,
            battery10: None,
            firmware10: None,
            devices: Vec::new(),
        };
        if max_devices == 0 {
            return (e, Step::Done(Ok(Vec::new())));
        }
        e.stage = if kind == ReceiverKind::Bolt {
            EnumStage::BoltPairing
        } else {
            EnumStage::Pairing
        };
        (e, Step::Send(Self::slot_request(kind, 1)))
    }

    /// Moves on to the next slot, or ends with the devices found.
    fn next_slot(&mut self) -> (r: Step<Vec<DeviceInfo>>)
        requires
            1 <= old(self).slot <= old(self).max,
        ensures
            final(self).wf(),
            final(self).kind == old(self).kind,
            final(self).max == old(self).max,
            old(self).slot == old(self).max ==> final(self).stage == EnumStage::Finished && (r matches Step::Done(Ok(v)) && v@ == old(self).devices@),
            old(self).slot < old(self).max ==> {
                &&& final(self).slot == old(self).slot + 1
                &&& final(self).devices@ == old(self).devices@
                &&& final(self).stage == first_stage(old(self).kind)
                &&& r matches Step::Send(m) && m@ == slot_first_frame(
                    old(self).kind,
                    (old(self).slot + 1) as u8,
                )
            },
    {
        if self.slot == self.max {
            self.stage = EnumStage::Finished;
            let mut devices = Vec::new();
            std::mem::swap(&mut devices, &mut self.devices);
            return Step::Done(Ok(devices));
        }
        self.slot = self.slot + 1;
        self.stage = if self.kind == ReceiverKind::Bolt {
            EnumStage::BoltPairing
        } else {
            EnumStage::Pairing
        };
        Step::Send(Self::slot_request(self.kind, self.slot))
    }

    /// Starts reading the battery and firmware of the current slot's device.
    fn start_details(&mut self) -> (r: Step<Vec<DeviceInfo>>)
        requires
            1 <= old(self).slot <= old(self).max,
        ensures
            final(self).wf(),
            final(self).kind == old(self).kind,
            final(self).max == old(self).max,
            final(self).slot == old(self).slot,
            final(self).devices@ == old(self).devices@,
            final(self).wpid == old(self).wpid,
            final(self).device_kind == old(self).device_kind,
            final(self).serial@ == old(self).serial@,
            final(self).name@ == old(self).name@,
            final(self).stage == EnumStage::Features,
            r matches Step::Send(m) && m@ == details_first_frame(old(self).slot) && (
            final(self).discovery matches Some(d) && feature_discovery_started(old(self).slot, d, m)),
    {
        let (d, m) = FeatureDiscovery::new(self.slot);
        self.discovery = Some(d);
        self.battery = None;
        self.stage = EnumStage::Features;
        Step::Send(m)
    }

    /// Records the current device and moves on to the next slot.
    fn finish_slot(&mut self, firmware: Vec<FirmwareInfo>) -> (r: Step<Vec<DeviceInfo>>)
        requires
            1 <= old(self).slot <= old(self).max,
        ensures
            final(self).wf(),
            final(self).kind == old(self).kind,
            final(self).max == old(self).max,
            slot_recorded(old(self).record(), old(self).battery, firmware@, r, *final(self)),
    {
        let mut name = String::new();
        std::mem::swap(&mut name, &mut self.name);
        let mut serial = String::new();
        std::mem::swap(&mut serial, &mut self.serial);
        let info = DeviceInfo {
            slot: self.slot,
            name,
            kind: self.device_kind,
            serial,
            wpid: self.wpid,
            battery: self.battery,
            firmware,
        };
        let ghost before = self.devices@;
        self.devices.push(info);
        assert(self.devices@.take(before.len() as int) =~= before);
        self.next_slot()
    }

    /// Records the device name (or the default one) and starts the details.
    fn name_read(&mut self, name: Option<String>) -> (r: Step<Vec<DeviceInfo>>)
        requires
            1 <= old(self).slot <= old(self).max,
        ensures
            final(self).wf(),
            final(self).kind == old(self).kind,
            final(self).max == old(self).max,
            final(self).slot == old(self).slot,
            final(self).devices@ == old(self).devices@,
            final(self).wpid == old(self).wpid,
            final(self).device_kind == old(self).device_kind,
            final(self).serial@ == old(self).serial@,
            final(self).name@ == match name {
                Some(n) => n@,
                None => default_device_name(old(self).slot),
            },
            final(self).stage == EnumStage::Features,
            r matches Step::Send(m) && m@ == details_first_frame(old(self).slot) && (
            final(self).discovery matches Some(d) && feature_discovery_started(old(self).slot, d, m)),
    {
        self.name = match name {
            Some(n) => n,
            None => default_device_name_string(self.slot),
        };
        self.start_details()
    }

    /// Feeds the reply to the last request and gives the next step.
    ///
    /// Pairing data (exactly as the HID++ 1.0 readers interpret it): an
    /// empty slot moves on to the next slot; an error ends the enumeration
    /// with it; a malformed Unifying pairing or extended reply is an invalid
    /// response. A missing serial is empty and a missing codename becomes
    /// "Device N". Battery and firmware are then read with the HID++ 2.0
    /// readers when feature discovery finds a table, and with the HID++ 1.0
    /// readers otherwise; a device's entry is added when its firmware read ends.
    pub fn on_reply(&mut self, reply: Result<Message, Error>) -> (r: Step<Vec<DeviceInfo>>)
        requires
            old(self).wf(),
            old(self).stage() != EnumStage::Finished,
        ensures
            final(self).wf(),
            final(self).receiver_kind() == old(self).receiver_kind(),
            final(self).slot_count() == old(self).slot_count(),
            old(self).stage() == EnumStage::Pairing ==> match reply {
                Err(e) => if is_empty_slot_error(e) {
                    next_slot_step(*old(self), *final(self), r)
                } else {
                    r == Step::<Vec<DeviceInfo>>::Done(Err(e)) && final(self).stage() == EnumStage::Finished
                },
                Ok(msg) => {
                    let p = frame_params(msg@);
                    if p.len() < 8 {
                        r matches Step::Done(Err(Error::InvalidResponse)) && final(self).stage() == EnumStage::Finished
                    } else {
                        &&& final(self).stage() == EnumStage::Extended
                        &&& final(self).slot() == old(self).slot()
                        &&& final(self).found() == old(self).found()
                        &&& final(self).wpid() == [p[3], p[4]]
                        &&& final(self).device_kind() == device_kind_of(p[7] & 0x0F)
                        &&& r matches Step::Send(m) && m@ == read_frame(
                            RECEIVER_DEVICE,
                            Register::ReceiverInfo,
                            ((0x30 + old(self).slot() + 255) % 256) as u8,
                        )
                    }
                },
            },
            old(self).stage() == EnumStage::Extended ==> match reply {
                Err(e) => if is_empty_slot_error(e) {
                    name_request_step(*old(self), *final(self), r, Seq::empty())
                } else {
                    r == Step::<Vec<DeviceInfo>>::Done(Err(e)) && final(self).stage() == EnumStage::Finished
                },
                Ok(msg) => {
                    let p = frame_params(msg@);
                    if p.len() < 5 {
                        r matches Step::Done(Err(Error::InvalidResponse)) && final(self).stage() == EnumStage::Finished
                    } else {
                        name_request_step(*old(self), *final(self), r, hex_string(p.subrange(1, 5)))
                    }
                },
            },
            old(self).stage() == EnumStage::Name ==> match reply {
                Err(e) => if is_empty_slot_error(e) {
                    details_step(*old(self), *final(self), r, default_device_name(old(self).slot()))
                } else {
                    r == Step::<Vec<DeviceInfo>>::Done(Err(e)) && final(self).stage() == EnumStage::Finished
                },
                Ok(msg) => details_step(
                    *old(self),
                    *final(self),
                    r,
                    lossy_utf8(codename_bytes(frame_params(msg@))),
                ),
            },
            old(self).stage() == EnumStage::BoltPairing ==> match reply {
                Err(e) => if is_empty_bolt_slot_error(e) {
                    next_slot_step(*old(self), *final(self), r)
                } else {
                    r == Step::<Vec<DeviceInfo>>::Done(Err(e)) && final(self).stage() == EnumStage::Finished
                },
                Ok(msg) => {
                    let p = frame_params(msg@);
                    if p.len() < 8 {
                        next_slot_step(*old(self), *final(self), r)
                    } else {
                        &&& final(self).stage() == EnumStage::BoltName
                        &&& final(self).slot() == old(self).slot()
                        &&& final(self).found() == old(self).found()
                        &&& final(self).wpid() == [p[3], p[2]]
                        &&& final(self).device_kind() == device_kind_of(p[1] & 0x0F)
                        &&& final(self).serial() == hex_string(p.subrange(4, 8))
                        &&& r matches Step::Send(m) && m@ == short_frame(
                            RECEIVER_DEVICE,
                            0x83,
                            0xB5,
                            ((0x60 + old(self).slot()) % 256) as u8,
                            0x01,
                            0,
                        )
                    }
                },
            },
            old(self).stage() == EnumStage::BoltName ==> match reply {
                Err(e) => if is_empty_bolt_slot_error(e) {
                    details_step(*old(self), *final(self), r, default_device_name(old(self).slot()))
                } else {
                    r == Step::<Vec<DeviceInfo>>::Done(Err(e)) && final(self).stage() == EnumStage::Finished
                },
                Ok(msg) => details_step(
                    *old(self),
                    *final(self),
                    r,
                    lossy_utf8(bolt_codename_bytes(frame_params(msg@))),
                ),
            },
            old(self).stage() == EnumStage::Features ==> exists|d: FeatureDiscovery, s: Step<()>|
                #[trigger] feature_discovery_step(old(self).discovery_reader()->0, reply, d, s)
                    && match s {
                    Step::Send(m) => r == Step::<Vec<DeviceInfo>>::Send(m) && final(self).stage()
                        == EnumStage::Features && final(self).discovery_reader() == Some(d)
                        && same_slot(old(self).record(), *final(self)),
                    Step::Done(res) => if res is Ok && !d.table().is_empty() {
                        battery20_start(old(self).record(), d.table(), r, *final(self))
                    } else {
                        battery10_start(old(self).record(), r, *final(self))
                    },
                },
            old(self).stage() == EnumStage::Battery20 ==> exists|b: BatteryReader, s: Step<Option<Battery>>|
                #[trigger] battery_read_step(old(self).battery20_reader()->0, reply, b, s) && match s {
                    Step::Send(m) => r == Step::<Vec<DeviceInfo>>::Send(m) && final(self).stage()
                        == EnumStage::Battery20 && final(self).battery20_reader() == Some(b)
                        && final(self).table() == old(self).table() && same_slot(
                        old(self).record(),
                        *final(self),
                    ),
                    Step::Done(res) => firmware20_start(
                        old(self).record(),
                        old(self).table(),
                        ok_or_none(res),
                        r,
                        *final(self),
                    ),
                },
            old(self).stage() == EnumStage::Firmware20 ==> exists|f: FirmwareReader, s: Step<Vec<FirmwareInfo>>|
                #[trigger] firmware_read_step(old(self).firmware20_reader()->0, reply, f, s) && match s {
                    Step::Send(m) => r == Step::<Vec<DeviceInfo>>::Send(m) && final(self).stage()
                        == EnumStage::Firmware20 && final(self).firmware20_reader() == Some(f)
                        && final(self).battery() == old(self).battery() && same_slot(
                        old(self).record(),
                        *final(self),
                    ),
                    Step::Done(res) => slot_recorded(
                        old(self).record(),
                        old(self).battery(),
                        firmware_or_empty(res),
                        r,
                        *final(self),
                    ),
                },
            old(self).stage() == EnumStage::Battery10 ==> exists|b: BatteryReader10, s: Step<Option<Battery>>|
                #[trigger] battery10_read_step(old(self).battery10_reader()->0, reply, b, s) && match s {
                    Step::Send(m) => r == Step::<Vec<DeviceInfo>>::Send(m) && final(self).stage()
                        == EnumStage::Battery10 && final(self).battery10_reader() == Some(b)
                        && same_slot(old(self).record(), *final(self)),
                    Step::Done(res) => firmware10_start(old(self).record(), ok_or_none(res), r, *final(self)),
                },
            old(self).stage() == EnumStage::Firmware10 ==> exists|f: FirmwareReader10, s: Step<Vec<FirmwareInfo>>|
                #[trigger] firmware10_read_step(old(self).firmware10_reader()->0, reply, f, s) && match s {
                    Step::Send(m) => r == Step::<Vec<DeviceInfo>>::Send(m) && final(self).stage()
                        == EnumStage::Firmware10 && final(self).firmware10_reader() == Some(f)
                        && final(self).battery() == old(self).battery() && same_slot(
                        old(self).record(),
                        *final(self),
                    ),
                    Step::Done(res) => slot_recorded(
                        old(self).record(),
                        old(self).battery(),
                        firmware_or_empty(res),
                        r,
                        *final(self),
                    ),
                },
    {
        let ghost rep = reply;
        let ghost before = *self;
        match self.stage {
            EnumStage::Pairing => match pairing_info_from_reply(reply) {
                Err(e) => {
                    self.stage = EnumStage::Finished;
                    Step::Done(Err(e))
                },
                Ok(None) => self.next_slot(),
                Ok(Some(info)) => {
                    self.wpid = info.wpid;
                    self.device_kind = info.kind;
                    self.stage = EnumStage::Extended;
                    Step::Send(slot_info_request(InfoSubReg::ExtendedPairingInfo, self.slot))
                },
            },
            EnumStage::Extended => match extended_pairing_info_from_reply(reply) {
                Err(e) => {
                    self.stage = EnumStage::Finished;
                    Step::Done(Err(e))
                },
                Ok(serial) => {
                    self.serial = match serial {
                        Some(s) => {
                            proof {
                                if let Ok(msg) = rep {
                                    assert(s@ =~= frame_params(msg@).subrange(1, 5));
                                }
                            }
                            bytes_to_hex(&s)
                        },
                        None => String::new(),
                    };
                    self.stage = EnumStage::Name;
                    Step::Send(slot_info_request(InfoSubReg::DeviceName, self.slot))
                },
            },
            EnumStage::Name => match device_codename_from_reply(reply) {
                Err(e) => {
                    self.stage = EnumStage::Finished;
                    Step::Done(Err(e))
                },
                Ok(name) => self.name_read(name),
            },
            EnumStage::BoltPairing => match bolt_pairing_info_from_reply(reply) {
                Err(e) => {
                    self.stage = EnumStage::Finished;
                    Step::Done(Err(e))
                },
                Ok(None) => self.next_slot(),
                Ok(Some(info)) => {
                    self.wpid = info.wpid;
                    self.device_kind = info.kind;
                    proof {
                        if let Ok(msg) = rep {
                            assert(info.serial@ =~= frame_params(msg@).subrange(4, 8));
                        }
                    }
                    self.serial = bytes_to_hex(&info.serial);
                    self.stage = EnumStage::BoltName;
                    assert(0x2B5u16 & 0x200 != 0) by (bit_vector);
                    Step::Send(bolt_device_codename_request(self.slot))
                },
            },
            EnumStage::BoltName => match bolt_device_codename_from_reply(reply) {
                Err(e) => {
                    self.stage = EnumStage::Finished;
                    Step::Done(Err(e))
                },
                Ok(name) => self.name_read(name),
            },
            EnumStage::Features => {
                let mut d = match self.discovery.take() {
                    Some(d) => d,
                    None => {
                        return self.finish_slot(Vec::new());
                    },
                };
                let step = d.on_reply(reply);
                let ghost dg = d;
                let ghost sg = step;
                assert(feature_discovery_step(before.discovery->0, reply, dg, sg));
                match step {
                    Step::Send(m) => {
                        self.discovery = Some(d);
                        Step::Send(m)
                    },
                    Step::Done(result) => {
                        let features = d.into_features();
                        let hidpp20 = match result {
                            Ok(()) => !features.is_empty(),
                            Err(_) => false,
                        };
                        if hidpp20 {
                            self.features = features;
                            self.start_battery20()
                        } else {
                            let (b, m) = BatteryReader10::new(self.slot);
                            assert(battery10_read_started(before.record().slot, b, m));
                            self.battery10 = Some(b);
                            self.stage = EnumStage::Battery10;
                            Step::Send(m)
                        }
                    },
                }
            },
            EnumStage::Battery20 => {
                let mut b = match self.battery20.take() {
                    Some(b) => b,
                    None => {
                        return self.finish_slot(Vec::new());
                    },
                };
                let step = b.on_reply(reply);
                let ghost bg = b;
                let ghost sg = step;
                assert(battery_read_step(before.battery20->0, reply, bg, sg));
                match step {
                    Step::Send(m) => {
                        self.battery20 = Some(b);
                        Step::Send(m)
                    },
                    Step::Done(result) => {
                        self.battery = match result {
                            Ok(v) => v,
                            Err(_) => None,
                        };
                        self.start_firmware20()
                    },
                }
            },
            EnumStage::Firmware20 => {
                let mut f = match self.firmware20.take() {
                    Some(f) => f,
                    None => {
                        return self.finish_slot(Vec::new());
                    },
                };
                let step = f.on_reply(reply);
                let ghost fg = f;
                let ghost sg = step;
                assert(firmware_read_step(before.firmware20->0, reply, fg, sg));
                match step {
                    Step::Send(m) => {
                        self.firmware20 = Some(f);
                        Step::Send(m)
                    },
                    Step::Done(result) => {
                        let firmware = match result {
                            Ok(v) => v,
                            Err(_) => Vec::new(),
                        };
                        self.finish_slot(firmware)
                    },
                }
            },
            EnumStage::Battery10 => {
                let mut b = match self.battery10.take() {
                    Some(b) => b,
                    None => {
                        return self.finish_slot(Vec::new());
                    },
                };
                let step = b.on_reply(reply);
                let ghost bg = b;
                let ghost sg = step;
                assert(battery10_read_step(before.battery10->0, reply, bg, sg));
                match step {
                    Step::Send(m) => {
                        self.battery10 = Some(b);
                        Step::Send(m)
                    },
                    Step::Done(result) => {
                        self.battery = match result {
                            Ok(v) => v,
                            Err(_) => None,
                        };
                        let (f, m) = FirmwareReader10::new(self.slot);
                        assert(firmware10_read_started(before.record().slot, f, m));
                        self.firmware10 = Some(f);
                        self.stage = EnumStage::Firmware10;
                        Step::Send(m)
                    },
                }
            },
            EnumStage::Firmware10 => {
                let mut f = match self.firmware10.take() {
                    Some(f) => f,
                    None => {
                        return self.finish_slot(Vec::new());
                    },
                };
                let step = f.on_reply(reply);
                let ghost fg = f;
                let ghost sg = step;
                assert(firmware10_read_step(before.firmware10->0, reply, fg, sg));
                match step {
                    Step::Send(m) => {
                        self.firmware10 = Some(f);
                        Step::Send(m)
                    },
                    Step::Done(result) => {
                        let firmware = match result {
                            Ok(v) => v,
                            Err(_) => Vec::new(),
                        };
                        self.finish_slot(firmware)
                    },
                }
            },
            EnumStage::Finished => Step::Done(Ok(Vec::new())),
        }
    }

    /// Starts the HID++ 2.0 battery read of the current device.
    fn start_battery20(&mut self) -> (r: Step<Vec<DeviceInfo>>)
        requires
            1 <= old(self).slot <= old(self).max,
        ensures
            final(self).wf(),
            final(self).kind == old(self).kind,
            final(self).max == old(self).max,
            battery20_start(old(self).record(), old(self).features@, r, *final(self)),
    {
        let (b, step) = BatteryReader::new(self.slot, &self.features);
        let ghost bg = b;
        let ghost sg = step;
        let ghost before = *self;
        let r = match step {
            Step::Send(m) => {
                self.battery20 = Some(b);
                self.stage = EnumStage::Battery20;
                Step::Send(m)
            },
            Step::Done(result) => {
                let ghost res = result;
                self.battery = match result {
                    Ok(v) => v,
                    Err(_) => None,
                };
                assert(self.battery == ok_or_none(res));
                self.start_firmware20()
            },
        };
        assert(battery_read_started(before.record().slot, before.features@, bg, sg));
        r
    }

    /// Starts the HID++ 2.0 firmware read of the current device.
    fn start_firmware20(&mut self) -> (r: Step<Vec<DeviceInfo>>)
        requires
            1 <= old(self).slot <= old(self).max,
        ensures
            final(self).wf(),
            final(self).kind == old(self).kind,
            final(self).max == old(self).max,
            firmware20_start(old(self).record(), old(self).features@, old(self).battery, r, *final(self)),
    {
        let (f, step) = FirmwareReader::new(self.slot, &self.features);
        let ghost fg = f;
        let ghost sg = step;
        let ghost before = *self;
        let r = match step {
            Step::Send(m) => {
                self.firmware20 = Some(f);
                self.stage = EnumStage::Firmware20;
                Step::Send(m)
            },
            Step::Done(result) => {
                let ghost res = result;
                let firmware = match result {
                    Ok(v) => v,
                    Err(_) => Vec::new(),
                };
                assert(firmware@ =~= firmware_or_empty(res));
                self.finish_slot(firmware)
            },
        };
        assert(firmware_read_started(before.record().slot, before.features@, fg, sg));
        r
    }
}

/// The stage that starts reading a slot of a receiver of `kind`.
pub open spec fn first_stage(kind: ReceiverKind) -> EnumStage {
    if kind == ReceiverKind::Bolt {
        EnumStage::BoltPairing
    } else {
        EnumStage::Pairing
    }
}

/// What an enumeration knows while it reads a slot: the receiver, the slot,
/// the devices found before it and the identity read for it.
pub struct SlotRecord {
    pub kind: ReceiverKind,
    pub max: u8,
    pub slot: u8,
    pub found: Seq<DeviceInfo>,
    pub wpid: [u8; 2],
    pub device_kind: DeviceKind,
    pub serial: Seq<char>,
    pub name: Seq<char>,
}

/// `new` still reads the slot that `rec` describes.
pub open spec fn same_slot(rec: SlotRecord, new: DeviceEnumeration) -> bool {
    new.record() == rec
}

/// The firmware list a firmware read gives: empty after an error.
pub open spec fn firmware_or_empty(res: Result<Vec<FirmwareInfo>, Error>) -> Seq<FirmwareInfo> {
    match res {
        Ok(v) => v@,
        Err(_) => Seq::empty(),
    }
}

/// `devices` is the list of `rec` with its device appended, with the given
/// battery and firmware.
pub open spec fn appended_entry(
    rec: SlotRecord,
    devices: Seq<DeviceInfo>,
    battery: Option<Battery>,
    firmware: Seq<FirmwareInfo>,
) -> bool {
    &&& devices.len() == rec.found.len() + 1
    &&& devices.take(rec.found.len() as int) == rec.found
    &&& devices.last().slot == rec.slot
    &&& devices.last().wpid == rec.wpid
    &&& devices.last().kind == rec.device_kind
    &&& devices.last().serial@ == rec.serial
    &&& devices.last().name@ == rec.name
    &&& devices.last().battery == battery
    &&& devices.last().firmware@ == firmware
}

/// The step recorded the device of `rec` and moved on to the next slot, or,
/// after the last slot, ended with the devices found.
pub open spec fn slot_recorded(
    rec: SlotRecord,
    battery: Option<Battery>,
    firmware: Seq<FirmwareInfo>,
    r: Step<Vec<DeviceInfo>>,
    new: DeviceEnumeration,
) -> bool {
    if rec.slot == rec.max {
        &&& new.stage() == EnumStage::Finished
        &&& r matches Step::Done(Ok(v)) && appended_entry(rec, v@, battery, firmware)
    } else {
        &&& new.slot() == rec.slot + 1
        &&& new.stage() == first_stage(rec.kind)
        &&& appended_entry(rec, new.found(), battery, firmware)
        &&& r matches Step::Send(m) && m@ == slot_first_frame(rec.kind, (rec.slot + 1) as u8)
    }
}

/// The HID++ 2.0 firmware read of the device starts; when it ends at once
/// the device is recorded with what it gives.
pub open spec fn firmware20_start(
    rec: SlotRecord,
    table: Map<u16, u8>,
    battery: Option<Battery>,
    r: Step<Vec<DeviceInfo>>,
    new: DeviceEnumeration,
) -> bool {
    exists|f: FirmwareReader, s: Step<Vec<FirmwareInfo>>|
        #[trigger] firmware_read_started(rec.slot, table, f, s) && match s {
            Step::Send(m) => r == Step::<Vec<DeviceInfo>>::Send(m) && new.stage() == EnumStage::Firmware20
                && new.firmware20_reader() == Some(f) && new.battery() == battery && same_slot(rec, new),
            Step::Done(res) => slot_recorded(rec, battery, firmware_or_empty(res), r, new),
        }
}

/// The HID++ 2.0 battery read of the device starts on its table; when it
/// ends at once the firmware read follows.
pub open spec fn battery20_start(
    rec: SlotRecord,
    table: Map<u16, u8>,
    r: Step<Vec<DeviceInfo>>,
    new: DeviceEnumeration,
) -> bool {
    exists|b: BatteryReader, s: Step<Option<Battery>>|
        #[trigger] battery_read_started(rec.slot, table, b, s) && match s {
            Step::Send(m) => r == Step::<Vec<DeviceInfo>>::Send(m) && new.stage() == EnumStage::Battery20
                && new.battery20_reader() == Some(b) && new.table() == table && same_slot(rec, new),
            Step::Done(res) => firmware20_start(rec, table, ok_or_none(res), r, new),
        }
}

/// The HID++ 1.0 battery read of the device starts.
pub open spec fn battery10_start(rec: SlotRecord, r: Step<Vec<DeviceInfo>>, new: DeviceEnumeration) -> bool {
    exists|b: BatteryReader10, m: Message|
        #[trigger] battery10_read_started(rec.slot, b, m) && r == Step::<Vec<DeviceInfo>>::Send(m)
            && new.stage() == EnumStage::Battery10 && new.battery10_reader() == Some(b) && same_slot(rec, new)
}

/// The HID++ 1.0 firmware read of the device starts, with its battery known.
pub open spec fn firmware10_start(
    rec: SlotRecord,
    battery: Option<Battery>,
    r: Step<Vec<DeviceInfo>>,
    new: DeviceEnumeration,
) -> bool {
    exists|f: FirmwareReader10, m: Message|
        #[trigger] firmware10_read_started(rec.slot, f, m) && r == Step::<Vec<DeviceInfo>>::Send(m)
            && new.stage() == EnumStage::Firmware10 && new.firmware10_reader() == Some(f)
            && new.battery() == battery && same_slot(rec, new)
}

/// The step moved on to the next slot (or ended) without recording a device.
pub open spec fn next_slot_step(old: DeviceEnumeration, new: DeviceEnumeration, r: Step<Vec<DeviceInfo>>) -> bool {
    &&& old.slot() == old.slot_count() ==> new.stage() == EnumStage::Finished && (r matches Step::Done(Ok(v)) && v@ == old.found())
    &&& old.slot() < old.slot_count() ==> {
        &&& new.slot() == old.slot() + 1
        &&& new.found() == old.found()
        &&& new.stage() == first_stage(old.receiver_kind())
        &&& r matches Step::Send(m) && m@ == slot_first_frame(old.receiver_kind(), (old.slot() + 1) as u8)
    }
}

/// The step recorded the serial and asked for the Unifying codename
/// (0x40 + slot - 1).
pub open spec fn name_request_step(old: DeviceEnumeration, new: DeviceEnumeration, r: Step<Vec<DeviceInfo>>, serial: Seq<char>) -> bool {
    &&& new.stage() == EnumStage::Name
    &&& new.slot() == old.slot()
    &&& new.found() == old.found()
    &&& new.wpid() == old.wpid()
    &&& new.device_kind() == old.device_kind()
    &&& new.serial() == serial
    &&& r matches Step::Send(m) && m@ == read_frame(
        RECEIVER_DEVICE,
        Register::ReceiverInfo,
        ((0x40 + old.slot() + 255) % 256) as u8,
    )
}

/// The step recorded the name and started the device's battery and firmware read.
pub open spec fn details_step(old: DeviceEnumeration, new: DeviceEnumeration, r: Step<Vec<DeviceInfo>>, name: Seq<char>) -> bool {
    &&& new.stage() == EnumStage::Features
    &&& new.slot() == old.slot()
    &&& new.found() == old.found()
    &&& new.wpid() == old.wpid()
    &&& new.device_kind() == old.device_kind()
    &&& new.serial() == old.serial()
    &&& new.name() == name
    &&& r matches Step::Send(m) && m@ == details_first_frame(old.slot()) && (
    new.discovery_reader() matches Some(d) && feature_discovery_started(old.slot(), d, m))
}

} // verus!
