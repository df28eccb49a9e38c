//! Direct (Bluetooth) device support.
//!
//! Logitech devices connected to the host via Bluetooth rather than through a
//! USB receiver show up as standalone HID devices. Candidates are the
//! interfaces with the Logitech vendor ID on one of the HID++ vendor usage
//! pages (0xFF00, 0xFF43) whose product ID is not a known receiver, one per
//! OS path. Name and kind come from the HID descriptor metadata; a HID++ 2.0
//! probe of the device may then improve on the name and read the battery.

use vstd::prelude::*;
use crate::devices::hid::HidInterface;
use crate::devices::types::{Battery, DeviceKind};
use crate::error::Error;
use crate::hidpp::hidpp20::{
    battery_read_started, battery_read_step, feature_discovery_started, feature_discovery_step,
    name_read_started, name_read_step, BatteryReader, DeviceNameReader, DiscoveryStage,
    FeatureDiscovery, NameStage,
};
use crate::hidpp::message::{Message, Step, ok_or_none, short_frame, RECEIVER_DEVICE};
use crate::hidpp::hidpp20::function_address;
use crate::receiver::{is_receiver_pid, receiver_kind_of_pid};
use crate::text::{hex2, push_hex2};

verus! {

pub const LOGITECH_VID: u16 = 0x046D;

/// All information read about a directly-connected (Bluetooth) Logitech device.
#[derive(Debug, Clone)]
pub struct DirectDeviceInfo {
    pub product_id: u16,
    pub name: String,
    pub serial: String,
    pub kind: DeviceKind,
    pub battery: Option<Battery>,
}

/// A device found on the HID device list that may be a direct device.
#[derive(Debug, Clone)]
pub struct DirectCandidate {
    pub path: String,
    pub product_id: u16,
    /// Serial number from the HID descriptor (empty when absent).
    pub serial: String,
}

/// A Logitech HID++ interface that does not belong to a receiver.
pub open spec fn is_direct_interface(d: HidInterface) -> bool {
    &&& d.vendor_id == LOGITECH_VID
    &&& d.usage_page == 0xFF00 || d.usage_page == 0xFF43
    &&& receiver_kind_of_pid(d.product_id) is None
}

/// Some direct interface among `s` has this path.
pub open spec fn path_seen(s: Seq<HidInterface>, path: Seq<char>) -> bool {
    exists|j: int| 0 <= j < s.len() && is_direct_interface(s[j]) && #[trigger] s[j].path@ == path
}

/// The direct interfaces of a device list, the first one of each path only.
pub open spec fn direct_candidates(s: Seq<HidInterface>) -> Seq<HidInterface>
    decreases s.len(),
{
    if s.len() == 0 {
        Seq::empty()
    } else {
        let rest = direct_candidates(s.drop_last());
        if is_direct_interface(s.last()) && !path_seen(s.drop_last(), s.last().path@) {
            rest.push(s.last())
        } else {
            rest
        }
    }
}

/// The serial text of an interface: its serial number, or empty.
pub open spec fn serial_text(d: HidInterface) -> Seq<char> {
    match d.serial_number {
        Some(s) => s@,
        None => Seq::empty(),
    }
}

/// A candidate stands for an interface.
pub open spec fn candidate_of(c: DirectCandidate, d: HidInterface) -> bool {
    c.path@ == d.path@ && c.product_id == d.product_id && c.serial@ == serial_text(d)
}

fn contains_path(paths: &Vec<String>, path: &String) -> (r: bool)
    ensures
        r == exists|j: int| 0 <= j < paths@.len() && #[trigger] paths@[j]@ == path@,
{
    let mut i: usize = 0;
    while i < paths.len()
        invariant
            i <= paths@.len(),
            forall|j: int| 0 <= j < i ==> #[trigger] paths@[j]@ != path@,
        decreases paths@.len() - i,
    {
        if paths[i] == *path {
            return true;
        }
        i = i + 1;
    }
    false
}

/// The direct-device candidates of a HID device list: Logitech interfaces on
/// usage page 0xFF00 or 0xFF43 that are not receivers, deduplicated by path
/// (the first interface of each path is kept), in list order.
pub fn direct_device_candidates(interfaces: &Vec<HidInterface>) -> (r: Vec<DirectCandidate>)
    ensures
        r@.len() == direct_candidates(interfaces@).len(),
        forall|i: int|
            0 <= i < r@.len() ==> candidate_of(#[trigger] r@[i], direct_candidates(interfaces@)[i]),
{
    let mut r: Vec<DirectCandidate> = Vec::new();
    let mut seen: Vec<String> = Vec::new();
    let mut i: usize = 0;
    while i < interfaces.len()
        invariant
            i <= interfaces@.len(),
            r@.len() == direct_candidates(interfaces@.take(i as int)).len(),
            forall|k: int|
                0 <= k < r@.len() ==> candidate_of(
                    #[trigger] r@[k],
                    direct_candidates(interfaces@.take(i as int))[k],
                ),
            forall|p: Seq<char>|
                path_seen(interfaces@.take(i as int), p) <==> exists|j: int|
                    0 <= j < seen@.len() && #[trigger] seen@[j]@ == p,
        decreases interfaces@.len() - i,
    {
        let d = &interfaces[i];
        let ghost old_seen = seen@;
        let ghost prefix = interfaces@.take(i as int);
        let ghost next = interfaces@.take(i + 1);
        proof {
            assert(next.drop_last() =~= prefix);
            assert(next.last() == interfaces@[i as int]);
        }
        let is_direct = d.vendor_id == LOGITECH_VID && (d.usage_page == 0xFF00 || d.usage_page
            == 0xFF43) && !is_receiver_pid(d.product_id);
        if is_direct {
            let already = contains_path(&seen, &d.path);
            if !already {
                let serial = match &d.serial_number {
                    Some(s) => s.clone(),
                    None => String::new(),
                };
                r.push(DirectCandidate { path: d.path.clone(), product_id: d.product_id, serial });
            }
            seen.push(d.path.clone());
        }
        proof {
            assert(is_direct == is_direct_interface(next[i as int]));
            assert forall|p: Seq<char>|
                path_seen(next, p) <==> exists|j: int|
                    0 <= j < seen@.len() && #[trigger] seen@[j]@ == p by {
                if path_seen(next, p) {
                    let j = choose|j: int|
                        0 <= j < next.len() && is_direct_interface(next[j]) && #[trigger] next[j].path@
                            == p;
                    if j < i {
                        assert(prefix[j] == next[j]);
                        assert(path_seen(prefix, p));
                        let k = choose|k: int| 0 <= k < old_seen.len() && #[trigger] old_seen[k]@ == p;
                        assert(seen@[k] == old_seen[k]);
                    } else {
                        assert(seen@[seen@.len() - 1]@ == p);
                    }
                }
                if exists|k: int| 0 <= k < seen@.len() && #[trigger] seen@[k]@ == p {
                    let k = choose|k: int| 0 <= k < seen@.len() && #[trigger] seen@[k]@ == p;
                    if k < old_seen.len() {
                        assert(old_seen[k] == seen@[k]);
                        assert(path_seen(prefix, p));
                        let j = choose|j: int|
                            0 <= j < prefix.len() && is_direct_interface(prefix[j])
                                && #[trigger] prefix[j].path@ == p;
                        assert(next[j] == prefix[j]);
                    } else {
                        assert(is_direct && d.path@ == p);
                        assert(next[i as int] == *d);
                    }
                }
            }
        }
        i = i + 1;
    }
    proof {
        assert(interfaces@.take(i as int) =~= interfaces@);
    }
    r
}

/// The descriptor name of a product: the product string of the first Logitech
/// interface with that product ID, or "Logitech Device XXXX" (hex product ID).
pub open spec fn descriptor_name(s: Seq<HidInterface>, product_id: u16) -> Seq<char>
    decreases s.len(),
{
    if s.len() == 0 {
        "Logitech Device "@ + hex2((product_id / 256) as u8) + hex2((product_id % 256) as u8)
    } else if s[0].vendor_id == LOGITECH_VID && s[0].product_id == product_id {
        match s[0].product_string {
            Some(n) => n@,
            None => "Logitech Device "@ + hex2((product_id / 256) as u8) + hex2(
                (product_id % 256) as u8,
            ),
        }
    } else {
        descriptor_name(s.drop_first(), product_id)
    }
}

/// Name of a direct device from HID descriptor metadata (no open needed).
pub fn name_from_descriptor(interfaces: &Vec<HidInterface>, product_id: u16) -> (r: String)
    ensures
        r@ == descriptor_name(interfaces@, product_id),
{
    let mut i: usize = 0;
    proof {
        assert(interfaces@.skip(0) =~= interfaces@);
    }
    while i < interfaces.len()
        invariant
            i <= interfaces@.len(),
            descriptor_name(interfaces@, product_id) == descriptor_name(
                interfaces@.skip(i as int),
                product_id,
            ),
        decreases interfaces@.len() - i,
    {
        let d = &interfaces[i];
        proof {
            assert(interfaces@.skip(i as int)[0] == interfaces@[i as int]);
            assert(interfaces@.skip(i as int).drop_first() =~= interfaces@.skip(i + 1));
        }
        if d.vendor_id == LOGITECH_VID && d.product_id == product_id {
            match &d.product_string {
                Some(n) => {
                    return n.clone();
                },
                None => {
                    return generic_device_name(product_id);
                },
            }
        }
        i = i + 1;
    }
    proof {
        assert(interfaces@.skip(i as int).len() == 0);
    }
    generic_device_name(product_id)
}

/// "Logitech Device XXXX": the fallback name of a product (hex product ID).
fn generic_device_name(product_id: u16) -> (r: String)
    ensures
        r@ == "Logitech Device "@ + hex2((product_id / 256) as u8) + hex2((product_id % 256) as u8),
{
    let mut r = "Logitech Device ".to_owned();
    push_hex2(&mut r, (product_id / 256) as u8);
    push_hex2(&mut r, (product_id % 256) as u8);
    r
}

/// Map a Generic Desktop (usage_page=0x0001) usage value to a DeviceKind.
pub open spec fn generic_desktop_kind(usage: u16) -> Option<DeviceKind> {
    match usage {
        0x02 => Some(DeviceKind::Mouse),
        0x04 => Some(DeviceKind::Joystick),
        0x05 => Some(DeviceKind::Gamepad),
        0x06 => Some(DeviceKind::Keyboard),
        _ => None,
    }
}

pub fn kind_from_generic_desktop_usage(usage: u16) -> (r: Option<DeviceKind>)
    ensures
        r == generic_desktop_kind(usage),
{
    match usage {
        0x02 => Some(DeviceKind::Mouse),
        0x04 => Some(DeviceKind::Joystick),
        0x05 => Some(DeviceKind::Gamepad),
        0x06 => Some(DeviceKind::Keyboard),
        _ => None,
    }
}

/// The kind of a product: that of the first of its Logitech Generic Desktop
/// interfaces whose usage names a kind, or Unknown.
pub open spec fn descriptor_kind(s: Seq<HidInterface>, product_id: u16) -> DeviceKind
    decreases s.len(),
{
    if s.len() == 0 {
        DeviceKind::Unknown
    } else if s[0].vendor_id == LOGITECH_VID && s[0].product_id == product_id && s[0].usage_page
        == 0x0001 && generic_desktop_kind(s[0].usage) is Some {
        generic_desktop_kind(s[0].usage).unwrap()
    } else {
        descriptor_kind(s.drop_first(), product_id)
    }
}

/// Kind of a direct device from HID descriptor metadata (no open needed).
pub fn kind_from_descriptor(interfaces: &Vec<HidInterface>, product_id: u16) -> (r: DeviceKind)
    ensures
        r == descriptor_kind(interfaces@, product_id),
{
    let mut i: usize = 0;
    proof {
        assert(interfaces@.skip(0) =~= interfaces@);
    }
    while i < interfaces.len()
        invariant
            i <= interfaces@.len(),
            descriptor_kind(interfaces@, product_id) == descriptor_kind(
                interfaces@.skip(i as int),
                product_id,
            ),
        decreases interfaces@.len() - i,
    {
        let d = &interfaces[i];
        proof {
            assert(interfaces@.skip(i as int)[0] == interfaces@[i as int]);
            assert(interfaces@.skip(i as int).drop_first() =~= interfaces@.skip(i + 1));
        }
        if d.vendor_id == LOGITECH_VID && d.product_id == product_id && d.usage_page == 0x0001 {
            match kind_from_generic_desktop_usage(d.usage) {
                Some(k) => {
                    return k;
                },
                None => {},
            }
        }
        i = i + 1;
    }
    DeviceKind::Unknown
}

// -- HID++ 2.0 probe ----------------------------------------------------------

/// Where a direct device probe stands.
#[derive(Debug, Clone, Copy, PartialEq, Eq, Structural)]
pub enum ProbeStage {
    Features,
    Name,
    Battery,
    Finished,
}

/// Probes a directly connected device over HID++ 2.0 (device index 0xFF):
/// feature discovery, then the device name, then the battery. A device
/// without a feature table (or whose discovery fails) keeps its descriptor
/// name and has no battery; a failed name read keeps the descriptor name; a
/// failed battery read leaves the battery out. The probe never fails.
pub struct DirectProbe {
    product_id: u16,
    serial: String,
    kind: DeviceKind,
    name: String,
    stage: ProbeStage,
    features: std::collections::HashMap<u16, u8>,
    discovery: Option<FeatureDiscovery>,
    name_reader: Option<DeviceNameReader>,
    battery_reader: Option<BatteryReader>,
}

/// `r` ends the probe of `p` with the device named `name` and the given battery.
pub open spec fn probe_result(r: Step<DirectDeviceInfo>, p: DirectProbe, name: Seq<char>, battery: Option<Battery>) -> bool {
    r matches Step::Done(Ok(info)) && info.product_id == p.product_id() && info.serial@
        == p.serial() && info.kind == p.kind() && info.name@ == name && info.battery == battery
}

/// `new` still describes the device of `old`.
pub open spec fn same_device(old: DirectProbe, new: DirectProbe) -> bool {
    &&& new.product_id() == old.product_id()
    &&& new.serial() == old.serial()
    &&& new.kind() == old.kind()
}

/// The name a name read gives: the name read, else `fallback`.
pub open spec fn name_or(res: Result<Option<String>, Error>, fallback: Seq<char>) -> Seq<char> {
    match res {
        Ok(Some(n)) => n@,
        _ => fallback,
    }
}

/// With the name known, the battery read starts on the table: it either
/// asks its first request, or, without battery features, ends the probe.
pub open spec fn probe_battery_start(p: DirectProbe, table: Map<u16, u8>, name: Seq<char>, r: Step<DirectDeviceInfo>, new: DirectProbe) -> bool {
    exists|b: BatteryReader, s: Step<Option<Battery>>|
        #[trigger] battery_read_started(RECEIVER_DEVICE, table, b, s) && match s {
            Step::Send(m) => r == Step::<DirectDeviceInfo>::Send(m) && new.stage()
                == ProbeStage::Battery && new.battery_reader() == Some(b) && new.name() == name
                && same_device(p, new),
            Step::Done(_) => probe_result(r, p, name, None),
        }
}

/// With a feature table, the name read starts: it either asks its first
/// request, or ends at once (no name feature) and the battery read starts.
pub open spec fn probe_name_start(p: DirectProbe, table: Map<u16, u8>, r: Step<DirectDeviceInfo>, new: DirectProbe) -> bool {
    exists|n: DeviceNameReader, s: Step<Option<String>>|
        #[trigger] name_read_started(RECEIVER_DEVICE, table, n, s) && match s {
            Step::Send(m) => r == Step::<DirectDeviceInfo>::Send(m) && new.stage()
                == ProbeStage::Name && new.name_reader() == Some(n) && new.table() == table
                && new.name() == p.name() && same_device(p, new),
            Step::Done(res) => probe_battery_start(p, table, name_or(res, p.name()), r, new),
        }
}

impl DirectProbe {
    /// The reader of the current stage is running.
    pub closed spec fn wf(&self) -> bool {
        &&& self.stage == ProbeStage::Features ==> (self.discovery matches Some(d) && d.stage()
            != DiscoveryStage::Finished)
        &&& self.stage == ProbeStage::Name ==> (self.name_reader matches Some(n) && n.stage()
            != NameStage::Finished)
        &&& self.stage == ProbeStage::Battery ==> (self.battery_reader matches Some(b) && b.source()
            < 3)
    }

    pub closed spec fn stage(&self) -> ProbeStage {
        self.stage
    }

    /// The device as known so far: product ID, serial, kind and name.
    pub closed spec fn product_id(&self) -> u16 {
        self.product_id
    }

    pub closed spec fn serial(&self) -> Seq<char> {
        self.serial@
    }

    pub closed spec fn kind(&self) -> DeviceKind {
        self.kind
    }

    pub closed spec fn name(&self) -> Seq<char> {
        self.name@
    }

    /// The feature table, once discovered.
    pub closed spec fn table(&self) -> Map<u16, u8> {
        self.features@
    }

    /// The running feature discovery.
    pub closed spec fn discovery_reader(&self) -> Option<FeatureDiscovery> {
        self.discovery
    }

    /// The running name read.
    pub closed spec fn name_reader(&self) -> Option<DeviceNameReader> {
        self.name_reader
    }

    /// The running battery read.
    pub closed spec fn battery_reader(&self) -> Option<BatteryReader> {
        self.battery_reader
    }

    /// A probe of a device known from its descriptor, with its first request
    /// (ROOT.GetFeature for FEATURE_SET, to device 0xFF).
    pub fn new(product_id: u16, serial: String, kind: DeviceKind, descriptor_name: String) -> (r: (Self, Message))
        ensures
            r.0.wf(),
            r.0.stage() == ProbeStage::Features,
            r.0.product_id() == product_id,
            r.0.serial() == serial@,
            r.0.kind() == kind,
            r.0.name() == descriptor_name@,
            r.0.discovery_reader() matches Some(d) && feature_discovery_started(
                RECEIVER_DEVICE,
                d,
                r.1,
            ),
    {
        let (d, m) = FeatureDiscovery::new(RECEIVER_DEVICE);
        (
            DirectProbe {
                product_id,
                serial,
                kind,
                name: descriptor_name,
                stage: ProbeStage::Features,
                features: std::collections::HashMap::new(),
                discovery: Some(d),
                name_reader: None,
                battery_reader: None,
            },
            m,
        )
    }

    /// The device with the given battery.
    fn finish(&mut self, battery: Option<Battery>) -> (r: Step<DirectDeviceInfo>)
        ensures
            final(self).wf(),
            final(self).stage == ProbeStage::Finished,
            same_device(*old(self), *final(self)),
            probe_result(r, *old(self), old(self).name@, battery),
    {
        self.stage = ProbeStage::Finished;
        let name = self.name.clone();
        let serial = self.serial.clone();
        Step::Done(Ok(DirectDeviceInfo { product_id: self.product_id, name, serial, kind: self.kind, battery }))
    }

    fn start_battery(&mut self) -> (r: Step<DirectDeviceInfo>)
        ensures
            final(self).wf(),
            probe_battery_start(*old(self), old(self).features@, old(self).name@, r, *final(self)),
    {
        let (b, step) = BatteryReader::new(RECEIVER_DEVICE, &self.features);
        let ghost bg = b;
        let ghost sg = step;
        let ghost before = *self;
        let r = match step {
            Step::Send(m) => {
                self.battery_reader = Some(b);
                self.stage = ProbeStage::Battery;
                Step::Send(m)
            },
            Step::Done(_) => self.finish(None),
        };
        assert(battery_read_started(RECEIVER_DEVICE, before.features@, bg, sg));
        r
    }

    fn start_name(&mut self) -> (r: Step<DirectDeviceInfo>)
        ensures
            final(self).wf(),
            probe_name_start(*old(self), old(self).features@, r, *final(self)),
    {
        let (n, step) = DeviceNameReader::new(RECEIVER_DEVICE, &self.features);
        let ghost ng = n;
        let ghost sg = step;
        let r = match step {
            Step::Send(m) => {
                self.name_reader = Some(n);
                self.stage = ProbeStage::Name;
                Step::Send(m)
            },
            Step::Done(result) => {
                match result {
                    Ok(Some(name)) => {
                        self.name = name;
                    },
                    _ => {},
                }
                self.start_battery()
            },
        };
        assert(name_read_started(RECEIVER_DEVICE, old(self).features@, ng, sg));
        r
    }

    /// Feeds the reply to the last request and gives the next step.
    ///
    /// - Discovery: the reply goes to the feature discovery; when it ends
    ///   with a nonempty table the name read starts, otherwise the probe ends
    ///   with the descriptor name and no battery.
    /// - Name: the reply goes to the name read; when it ends, the name read
    ///   (or the descriptor name) is kept and the battery read starts.
    /// - Battery: the reply goes to the battery read; when it ends, the
    ///   probe ends with its battery (none after an error).
    pub fn on_reply(&mut self, reply: Result<Message, Error>) -> (r: Step<DirectDeviceInfo>)
        requires
            old(self).wf(),
            old(self).stage() != ProbeStage::Finished,
        ensures
            final(self).wf(),
            old(self).stage() == ProbeStage::Features ==> exists|d: FeatureDiscovery, s: Step<()>|
                #[trigger] feature_discovery_step(old(self).discovery_reader()->0, reply, d, s)
                    && match s {
                    Step::Send(m) => r == Step::<DirectDeviceInfo>::Send(m) && final(self).stage()
                        == ProbeStage::Features && final(self).discovery_reader() == Some(d)
                        && final(self).name() == old(self).name() && same_device(
                        *old(self),
                        *final(self),
                    ),
                    Step::Done(res) => if res is Ok && !d.table().is_empty() {
                        probe_name_start(*old(self), d.table(), r, *final(self))
                    } else {
                        probe_result(r, *old(self), old(self).name(), None)
                    },
                },
            old(self).stage() == ProbeStage::Name ==> exists|n: DeviceNameReader, s: Step<Option<String>>|
                #[trigger] name_read_step(old(self).name_reader()->0, reply, n, s) && match s {
                    Step::Send(m) => r == Step::<DirectDeviceInfo>::Send(m) && final(self).stage()
                        == ProbeStage::Name && final(self).name_reader() == Some(n)
                        && final(self).table() == old(self).table() && final(self).name()
                        == old(self).name() && same_device(*old(self), *final(self)),
                    Step::Done(res) => probe_battery_start(
                        *old(self),
                        old(self).table(),
                        name_or(res, old(self).name()),
                        r,
                        *final(self),
                    ),
                },
            old(self).stage() == ProbeStage::Battery ==> exists|b: BatteryReader, s: Step<Option<Battery>>|
                #[trigger] battery_read_step(old(self).battery_reader()->0, reply, b, s) && match s {
                    Step::Send(m) => r == Step::<DirectDeviceInfo>::Send(m) && final(self).stage()
                        == ProbeStage::Battery && final(self).battery_reader() == Some(b)
                        && final(self).name() == old(self).name() && same_device(
                        *old(self),
                        *final(self),
                    ),
                    Step::Done(res) => probe_result(r, *old(self), old(self).name(), ok_or_none(res)),
                },
    {
        let ghost before = *self;
        match self.stage {
            ProbeStage::Features => {
                let mut d = match self.discovery.take() {
                    Some(d) => d,
                    None => {
                        return self.finish(None);
                    },
                };
                let step = d.on_reply(reply);
                let ghost dg = d;
                let ghost sg = step;
                assert(feature_discovery_step(before.discovery->0, reply, dg, sg));
                match step {
                    Step::Send(m) => {
                        self.discovery = Some(d);
                        Step::Send(m)
                    },
                    Step::Done(result) => {
                        let features = d.into_features();
                        let usable = match result {
                            Ok(()) => !features.is_empty(),
                            Err(_) => false,
                        };
                        if !usable {
                            return self.finish(None);
                        }
                        self.features = features;
                        self.start_name()
                    },
                }
            },
            ProbeStage::Name => {
                let mut n = match self.name_reader.take() {
                    Some(n) => n,
                    None => {
                        return self.finish(None);
                    },
                };
                let step = n.on_reply(reply);
                let ghost ng = n;
                let ghost sg = step;
                assert(name_read_step(before.name_reader->0, reply, ng, sg));
                match step {
                    Step::Send(m) => {
                        self.name_reader = Some(n);
                        Step::Send(m)
                    },
                    Step::Done(result) => {
                        match result {
                            Ok(Some(name)) => {
                                self.name = name;
                            },
                            _ => {},
                        }
                        self.start_battery()
                    },
                }
            },
            ProbeStage::Battery => {
                let mut b = match self.battery_reader.take() {
                    Some(b) => b,
                    None => {
                        return self.finish(None);
                    },
                };
                let step = b.on_reply(reply);
                let ghost bg = b;
                let ghost sg = step;
                assert(battery_read_step(before.battery_reader->0, reply, bg, sg));
                match step {
                    Step::Send(m) => {
                        self.battery_reader = Some(b);
                        Step::Send(m)
                    },
                    Step::Done(result) => {
                        let battery = match result {
                            Ok(v) => v,
                            Err(_) => None,
                        };
                        self.finish(battery)
                    },
                }
            },
            ProbeStage::Finished => self.finish(None),
        }
    }
}


// -- Paths that cannot be opened ---------------------------------------------------

/// The paths whose open failed once. Such a device is not opened again: it is
/// reported from its descriptor alone, with no battery (on some systems an
/// open of a Bluetooth device is refused each time it is tried).
pub struct Unprobeable {
    paths: Vec<String>,
}

impl View for Unprobeable {
    type V = Set<Seq<char>>;

    closed spec fn view(&self) -> Set<Seq<char>> {
        Set::new(|p: Seq<char>| exists|i: int| 0 <= i < self.paths@.len() && #[trigger] self.paths@[i]@ == p)
    }
}

impl Unprobeable {
    /// No path has failed yet.
    pub fn new() -> (u: Self)
        ensures
            u@ == Set::<Seq<char>>::empty(),
    {
        let u = Unprobeable { paths: Vec::new() };
        assert(u@ =~= Set::<Seq<char>>::empty());
        u
    }

    /// Whether the device at `path` is to be opened and probed: exactly when
    /// its open has not failed before.
    pub fn should_probe(&self, path: &String) -> (r: bool)
        ensures
            r == !self@.contains(path@),
    {
        let mut i: usize = 0;
        while i < self.paths.len()
            invariant
                i <= self.paths@.len(),
                forall|j: int| 0 <= j < i ==> #[trigger] self.paths@[j]@ != path@,
            decreases self.paths@.len() - i,
        {
            if self.paths[i] == *path {
                assert(self.paths@[i as int]@ == path@);
                return false;
            }
            i = i + 1;
        }
        true
    }

    /// Remembers that the open of `path` failed.
    pub fn open_failed(&mut self, path: &String)
        ensures
            final(self)@ == old(self)@.insert(path@),
    {
        if self.should_probe(path) {
            let ghost before = self.paths@;
            self.paths.push(path.clone());
            assert(forall|j: int| 0 <= j < before.len() ==> #[trigger] self.paths@[j] == before[j]);
            assert(self.paths@[before.len() as int]@ == path@);
            assert forall|p: Seq<char>| #[trigger] self@.contains(p) implies old(self)@.insert(path@).contains(p) by {
                let i = choose|i: int| 0 <= i < self.paths@.len() && #[trigger] self.paths@[i]@ == p;
                if i < before.len() {
                    assert(old(self).paths@[i]@ == p);
                }
            }
            assert forall|p: Seq<char>| #[trigger] old(self)@.insert(path@).contains(p) implies self@.contains(p) by {
                if p == path@ {
                    assert(self.paths@[before.len() as int]@ == p);
                } else {
                    let i = choose|i: int| 0 <= i < old(self).paths@.len() && #[trigger] old(self).paths@[i]@ == p;
                    assert(self.paths@[i]@ == p);
                }
            }
            assert(self@ =~= old(self)@.insert(path@));
        } else {
            assert(self@ =~= old(self)@.insert(path@));
        }
    }
}

/// The report of a device that is not probed: its descriptor name and kind,
/// and no battery.
pub fn descriptor_only_device(candidate: &DirectCandidate, name: String, kind: DeviceKind) -> (d: DirectDeviceInfo)
    ensures
        d.product_id == candidate.product_id,
        d.name@ == name@,
        d.serial@ == candidate.serial@,
        d.kind == kind,
        d.battery is None,
{
    DirectDeviceInfo {
        product_id: candidate.product_id,
        name,
        serial: candidate.serial.clone(),
        kind,
        battery: None,
    }
}

} // verus!
