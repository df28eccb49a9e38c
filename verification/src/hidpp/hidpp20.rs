//! HID++ 2.0 protocol: feature discovery, feature calls and the
//! interpretation of their replies.
//!
//! An operation that needs one exchange is split into the request it sends
//! and a function that computes the result from the reply. An operation whose
//! later requests depend on earlier replies is a reader: a state that is fed
//! each reply and answers with the next request or the final result.

use std::collections::HashMap;
use vstd::prelude::*;
use vstd::std_specs::hash::spec_values_iter;
use vstd::std_specs::iter::IteratorSpec;
use crate::error::{Error, Hidpp10Error};
use crate::devices::types::{Battery, BatteryLevel, BatteryStatus, FirmwareInfo, FirmwareKind, battery_level_percent};
use crate::hidpp::message::{Message, Step, frame_params, short_frame, long_frame, SOFTWARE_ID};
use crate::text::{
    decimal, hex2, lossy_utf8, push_char, push_decimal, push_hex2, trim_nul, trim_trailing_nul,
    utf8_lossy,
};

verus! {

broadcast use vstd::std_specs::hash::group_hash_axioms;

// Key HID++ 2.0 feature IDs.
pub const FEAT_ROOT: u16 = 0x0000;

pub const FEAT_FEATURE_SET: u16 = 0x0001;

pub const FEAT_FW_VERSION: u16 = 0x0003;

pub const FEAT_DEVICE_NAME: u16 = 0x0005;

pub const FEAT_BATTERY_STATUS: u16 = 0x1000;

pub const FEAT_BATTERY_VOLTAGE: u16 = 0x1001;

pub const FEAT_UNIFIED_BATTERY: u16 = 0x1004;

pub const FEAT_ADJUSTABLE_DPI: u16 = 0x2201;

pub const FEAT_HIRES_WHEEL: u16 = 0x2121;

pub const FEAT_SMART_SHIFT_ENHANCED: u16 = 0x2111;

pub const FEAT_CHANGE_HOST: u16 = 0x1814;

pub const FEAT_HOSTS_INFO: u16 = 0x1815;

pub const FEAT_FN_INVERSION: u16 = 0x40A0;

pub const FEAT_NEW_FN_INVERSION: u16 = 0x40A2;

pub const FEAT_K375S_FN_INVERSION: u16 = 0x40A3;

pub const FEAT_MULTIPLATFORM: u16 = 0x4531;

pub const FEAT_BACKLIGHT2: u16 = 0x1982;

/// REPROG_CONTROLS_V4: reprogrammable buttons, whose diverted presses arrive
/// as notifications.
pub const FEAT_REPROG_CONTROLS: u16 = 0x1B04;

/// The HID++ 2.0 address byte: (function << 4) | SOFTWARE_ID.
pub open spec fn function_address(function: u8) -> u8 {
    (function << 4u8) | SOFTWARE_ID
}

/// Build the HID++ 2.0 address byte: (function << 4) | SOFTWARE_ID.
pub fn fn_addr(function: u8) -> (r: u8)
    ensures
        r == function_address(function),
{
    (function << 4) | SOFTWARE_ID
}

/// The high byte of a 16-bit value.
pub open spec fn hi_byte(v: u16) -> u8 {
    (v / 256) as u8
}

/// The low byte of a 16-bit value.
pub open spec fn lo_byte(v: u16) -> u8 {
    (v % 256) as u8
}

/// The big-endian 16-bit value of two bytes.
pub open spec fn be16(hi: u8, lo: u8) -> u16 {
    (hi as int * 256 + lo as int) as u16
}

/// ((hi as u16) << 8) | lo: the big-endian 16-bit value of two bytes.
pub fn be16_of(hi: u8, lo: u8) -> (r: u16)
    ensures
        r == be16(hi, lo),
        r as int == hi as int * 256 + lo as int,
{
    let r = ((hi as u16) << 8) | (lo as u16);
    assert(((hi as u16) << 8u16) | (lo as u16) == (hi as int * 256 + lo as int) as u16)
        by (bit_vector);
    assert(hi as int * 256 + lo as int <= 0xFFFF) by (nonlinear_arith)
        requires
            hi <= 255,
            lo <= 255,
    ;
    r
}

// -- Feature table -----------------------------------------------------------

/// The index under which a feature table maps a feature ID, if any.
pub open spec fn feature_index_in(features: Map<u16, u8>, feature_id: u16) -> Option<u8> {
    if features.contains_key(feature_id) {
        Some(features[feature_id])
    } else {
        None
    }
}

/// Look a feature up in a discovered feature table.
pub fn feature_index_of(features: &HashMap<u16, u8>, feature_id: u16) -> (r: Option<u8>)
    ensures
        r == feature_index_in(features@, feature_id),
{
    match features.get(&feature_id) {
        Some(i) => Some(*i),
        None => None,
    }
}

/// True when some feature of the table sits at the given index.
pub fn has_feature_at(features: &HashMap<u16, u8>, index: u8) -> (r: bool)
    ensures
        r == features@.values().contains(index),
{
    let ghost all: Seq<u8> = spec_values_iter(features).remaining().unref();
    let mut found = false;
    for v in it: features.values()
        invariant
            it.seq().unref() == all,
            found == (exists|j: int| 0 <= j < it.index() && all[j] == index),
    {
        if *v == index {
            found = true;
        }
    }
    proof {
        assert(all.to_set() == features@.values());
        if found {
            let j = choose|j: int| 0 <= j < all.len() && all[j] == index;
            assert(all.contains(index));
        } else {
            if features@.values().contains(index) {
                assert(all.contains(index));
            }
        }
    }
    found
}

/// The frame of a feature call: a short message when the parameters fit in
/// three bytes (missing ones are zero), a long one otherwise.
pub open spec fn feature_call_frame(device: u8, feature_index: u8, function: u8, params: Seq<u8>) -> Seq<u8> {
    if params.len() <= 3 {
        short_frame(
            device,
            feature_index,
            function_address(function),
            if params.len() > 0 { params[0] } else { 0 },
            if params.len() > 1 { params[1] } else { 0 },
            if params.len() > 2 { params[2] } else { 0 },
        )
    } else {
        long_frame(device, feature_index, function_address(function), params)
    }
}

/// The request that calls a feature function.
pub fn feature_call_request(device: u8, feature_index: u8, function: u8, params: &[u8]) -> (m:
    Message)
    ensures
        m@ == feature_call_frame(device, feature_index, function, params@),
{
    if params.len() <= 3 {
        let p0 = if params.len() > 0 { params[0] } else { 0 };
        let p1 = if params.len() > 1 { params[1] } else { 0 };
        let p2 = if params.len() > 2 { params[2] } else { 0 };
        Message::short(device, feature_index, fn_addr(function), p0, p1, p2)
    } else {
        Message::long(device, feature_index, fn_addr(function), params)
    }
}

/// The request that asks ROOT (index 0, function 0) for the index of a feature.
pub fn feature_index_request(device: u8, feature_id: u16) -> (m: Message)
    ensures
        m@ == short_frame(device, 0, function_address(0), hi_byte(feature_id), lo_byte(feature_id), 0),
{
    Message::short(device, 0x00, fn_addr(0), (feature_id / 256) as u8, (feature_id % 256) as u8, 0)
}

/// The feature index in a ROOT.GetFeature reply: params[0], where 0 means
/// that the device lacks the feature.
pub fn feature_index_from_reply(msg: &Message) -> (r: Option<u8>)
    ensures
        r == (if frame_params(msg@)[0] == 0 {
            None::<u8>
        } else {
            Some(frame_params(msg@)[0])
        }),
{
    let idx = msg.params()[0];
    if idx == 0 {
        None
    } else {
        Some(idx)
    }
}

/// The request for ROOT.GetProtocolVersion (function 1).
pub fn protocol_version_request(device: u8) -> (m: Message)
    ensures
        m@ == short_frame(device, 0, function_address(1), 0, 0, 0),
{
    Message::short(device, 0x00, fn_addr(1), 0, 0, 0)
}

/// The protocol version (major, minor) from the reply: params[0], params[1].
/// A device that answers with an invalid-sub-ID error speaks HID++ 1.0 (None).
pub fn protocol_version_from_reply(reply: Result<Message, Error>) -> (r: Result<
    Option<(u8, u8)>,
    Error,
>)
    ensures
        match reply {
            Ok(msg) => r == Ok::<Option<(u8, u8)>, Error>(
                Some((frame_params(msg@)[0], frame_params(msg@)[1])),
            ),
            Err(e) => if e == Error::Hidpp10(Hidpp10Error::InvalidSubId) {
                r == Ok::<Option<(u8, u8)>, Error>(None)
            } else {
                r == Err::<Option<(u8, u8)>, Error>(e)
            },
        },
{
    match reply {
        Ok(msg) => {
            let p = msg.params();
            Ok(Some((p[0], p[1])))
        },
        Err(Error::Hidpp10(Hidpp10Error::InvalidSubId)) => Ok(None),
        Err(e) => Err(e),
    }
}

// -- Feature discovery -------------------------------------------------------

/// Where a feature discovery stands: waiting for the FEATURE_SET index, for
/// the feature count, for a table entry, or finished.
#[derive(Debug, Clone, Copy, PartialEq, Eq, Structural)]
pub enum DiscoveryStage {
    FeatureSetIndex,
    Count,
    Entry,
    Finished,
}

/// The first table index at or after `from` (below `count`) that no feature
/// of the table occupies yet; `count` when there is none.
pub open spec fn first_unlisted(table: Map<u16, u8>, from: int, count: int) -> int
    decreases count - from,
{
    if from >= count {
        count
    } else if !table.values().contains(from as u8) {
        from
    } else {
        first_unlisted(table, from + 1, count)
    }
}

/// The FEATURE_SET.GetFeature request (function 1) for one table index.
pub open spec fn table_entry_frame(device: u8, set_index: u8, index: u8) -> Seq<u8> {
    short_frame(device, set_index, function_address(1), index, 0, 0)
}

/// Scans the feature table of a HID++ 2.0 device: asks ROOT for the index
/// of FEATURE_SET, asks FEATURE_SET for the number of features, then asks for
/// the feature at each table index not yet known. A device without
/// FEATURE_SET (HID++ 1.0) gives an empty table.
pub struct FeatureDiscovery {
    device: u8,
    stage: DiscoveryStage,
    set_index: u8,
    count: u16,
    cursor: u16,
    features: HashMap<u16, u8>,
}

impl FeatureDiscovery {
    #[verifier::type_invariant]
    closed spec fn inv(self) -> bool {
        &&& self.count <= 256
        &&& self.cursor <= 256
    }

    /// The device whose table is scanned.
    pub closed spec fn target(&self) -> u8 {
        self.device
    }

    /// The current stage.
    pub closed spec fn stage(&self) -> DiscoveryStage {
        self.stage
    }

    /// The FEATURE_SET index, once known.
    pub closed spec fn set_index(&self) -> u8 {
        self.set_index
    }

    /// The number of table entries, ROOT included.
    pub closed spec fn entry_count(&self) -> int {
        self.count as int
    }

    /// The table index whose entry was last asked for.
    pub closed spec fn cursor(&self) -> int {
        self.cursor as int
    }

    /// The features found so far: feature ID to feature index.
    pub closed spec fn table(&self) -> Map<u16, u8> {
        self.features@
    }

    /// A new scan of `device`, with the first request to send
    /// (ROOT.GetFeature for FEATURE_SET).
    pub fn new(device: u8) -> (r: (Self, Message))
        ensures
            feature_discovery_started(device, r.0, r.1),

    {
        let d = FeatureDiscovery {
            device,
            stage: DiscoveryStage::FeatureSetIndex,
            set_index: 0,
            count: 0,
            cursor: 0,
            features: HashMap::new(),
        };
        let m = feature_index_request(device, FEAT_FEATURE_SET);
        (d, m)
    }

    /// The features found: feature ID to feature index.
    pub fn into_features(self) -> (r: HashMap<u16, u8>)
        ensures
            r@ == self.table(),
    {
        self.features
    }

    /// Moves on to the first unlisted table index at or after `from`.
    fn advance(&mut self, from: u16) -> (r: Step<()>)
        requires
            from <= 257,
        ensures
            final(self).device == old(self).device,
            final(self).set_index == old(self).set_index,
            final(self).count == old(self).count,
            final(self).features@ == old(self).features@,
            ({
                let j = first_unlisted(old(self).features@, from as int, old(self).count as int);
                if j < old(self).count {
                    &&& final(self).stage == DiscoveryStage::Entry
                    &&& final(self).cursor == j
                    &&& r matches Step::Send(m) && m@ == table_entry_frame(
                        old(self).device,
                        old(self).set_index,
                        j as u8,
                    )
                } else {
                    &&& final(self).stage == DiscoveryStage::Finished
                    &&& r matches Step::Done(Ok(()))
                }
            }),
    {
        proof {
            use_type_invariant(&*self);
        }
        let mut j = from;
        while j < self.count && has_feature_at(&self.features, j as u8)
            invariant
                from <= j <= 257,
                j == from || j <= self.count,
                self.count <= 256,
                first_unlisted(self.features@, from as int, self.count as int) == first_unlisted(
                    self.features@,
                    j as int,
                    self.count as int,
                ),
            decreases 257 - j,
        {
            j = j + 1;
        }
        if j < self.count {
            self.stage = DiscoveryStage::Entry;
            self.cursor = j;
            Step::Send(Message::short(self.device, self.set_index, fn_addr(1), j as u8, 0, 0))
        } else {
            self.stage = DiscoveryStage::Finished;
            Step::Done(Ok(()))
        }
    }

    /// Feeds the reply to the last request and gives the next step.
    ///
    /// - FEATURE_SET index: an error ends the scan with it; index 0 ends it
    ///   with an empty table; otherwise ROOT (0x0000) maps to 0, FEATURE_SET
    ///   to the index, and the count is asked for.
    /// - Count: an error ends the scan with it; otherwise the table has
    ///   params[0] + 1 entries and the scan moves to the first unlisted one.
    /// - Entry: a reply whose params[0..2] hold a nonzero feature ID maps that
    ///   ID to the entry's index; an error skips the entry. The scan moves to
    ///   the next unlisted index.
    pub fn on_reply(&mut self, reply: Result<Message, Error>) -> (r: Step<()>)
        requires
            old(self).stage() != DiscoveryStage::Finished,
        ensures
            feature_discovery_step(*old(self), reply, *final(self), r),

    {
        proof {
            use_type_invariant(&*self);
        }
        match self.stage {
            DiscoveryStage::FeatureSetIndex => match reply {
                Err(e) => {
                    self.stage = DiscoveryStage::Finished;
                    Step::Done(Err(e))
                },
                Ok(msg) => match feature_index_from_reply(&msg) {
                    None => {
                        self.stage = DiscoveryStage::Finished;
                        Step::Done(Ok(()))
                    },
                    Some(i) => {
                        let mut table = HashMap::new();
                        std::mem::swap(&mut table, &mut self.features);
                        table.insert(FEAT_ROOT, 0);
                        table.insert(FEAT_FEATURE_SET, i);
                        self.features = table;
                        self.set_index = i;
                        self.stage = DiscoveryStage::Count;
                        Step::Send(Message::short(self.device, i, fn_addr(0), 0, 0, 0))
                    },
                },
            },
            DiscoveryStage::Count => match reply {
                Err(e) => {
                    self.stage = DiscoveryStage::Finished;
                    Step::Done(Err(e))
                },
                Ok(msg) => {
                    self.count = msg.params()[0] as u16 + 1;
                    self.cursor = 0;
                    self.advance(0)
                },
            },
            DiscoveryStage::Entry => {
                match reply {
                    Ok(msg) => {
                        let p = msg.params();
                        let id = be16_of(p[0], p[1]);
                        if id != 0 {
                            let mut table = HashMap::new();
                            std::mem::swap(&mut table, &mut self.features);
                            table.insert(id, self.cursor as u8);
                            self.features = table;
                        }
                    },
                    Err(_) => {},
                }
                let from = self.cursor + 1;
                self.advance(from)
            },
            DiscoveryStage::Finished => Step::Done(Ok(())),
        }
    }
}

/// How feature_discovery starts: the reader's state and first step.
pub open spec fn feature_discovery_started(device: u8, reader: FeatureDiscovery, first: Message) -> bool {
    &&& (reader.target() == device)
    &&& (reader.stage() == DiscoveryStage::FeatureSetIndex)
    &&& (reader.table() == Map::<u16, u8>::empty())
    &&& (first@ == short_frame(device, 0, function_address(0), 0, 1, 0))
}

/// One step of feature_discovery: from state `old`, the reply `reply` leads to state
/// `new` and step `r`.
pub open spec fn feature_discovery_step(old: FeatureDiscovery, reply: Result<Message, Error>, new: FeatureDiscovery, r: Step<()>) -> bool {
    &&& (new.target() == old.target())
    &&& (r is Send ==> new.stage() != DiscoveryStage::Finished)
    &&& (old.stage() == DiscoveryStage::FeatureSetIndex ==> match reply {
        Err(e) => r == Step::<()>::Done(Err(e)) && new.stage()
            == DiscoveryStage::Finished && new.table() == old.table(),
        Ok(msg) => {
            let i = frame_params(msg@)[0];
            if i == 0 {
                &&& r matches Step::Done(Ok(()))
                &&& new.stage() == DiscoveryStage::Finished
                &&& new.table() == old.table()
            } else {
                &&& new.stage() == DiscoveryStage::Count
                &&& new.set_index() == i
                &&& new.table() == old.table().insert(FEAT_ROOT, 0).insert(
                    FEAT_FEATURE_SET,
                    i,
                )
                &&& r matches Step::Send(m) && m@ == short_frame(
                    old.target(),
                    i,
                    function_address(0),
                    0,
                    0,
                    0,
                )
            }
        },
    })
    &&& (old.stage() == DiscoveryStage::Count ==> match reply {
        Err(e) => r == Step::<()>::Done(Err(e)) && new.stage()
            == DiscoveryStage::Finished && new.table() == old.table(),
        Ok(msg) => {
            let count = frame_params(msg@)[0] + 1;
            let j = first_unlisted(old.table(), 0, count);
            &&& new.entry_count() == count
            &&& new.set_index() == old.set_index()
            &&& new.table() == old.table()
            &&& if j < count {
                &&& new.stage() == DiscoveryStage::Entry
                &&& new.cursor() == j
                &&& r matches Step::Send(m) && m@ == table_entry_frame(
                    old.target(),
                    old.set_index(),
                    j as u8,
                )
            } else {
                &&& new.stage() == DiscoveryStage::Finished
                &&& r matches Step::Done(Ok(()))
            }
        },
    })
    &&& (old.stage() == DiscoveryStage::Entry ==> {
        let table = match reply {
            Ok(msg) => {
                let id = be16(frame_params(msg@)[0], frame_params(msg@)[1]);
                if id != 0 {
                    old.table().insert(id, old.cursor() as u8)
                } else {
                    old.table()
                }
            },
            Err(_) => old.table(),
        };
        let count = old.entry_count();
        let j = first_unlisted(table, old.cursor() + 1, count);
        &&& new.table() == table
        &&& new.entry_count() == count
        &&& new.set_index() == old.set_index()
        &&& if j < count {
            &&& new.stage() == DiscoveryStage::Entry
            &&& new.cursor() == j
            &&& r matches Step::Send(m) && m@ == table_entry_frame(
                old.target(),
                old.set_index(),
                j as u8,
            )
        } else {
            &&& new.stage() == DiscoveryStage::Finished
            &&& r matches Step::Done(Ok(()))
        }
    })
}

// -- Device name (0x0005) -----------------------------------------------------

/// The request for a feature function without parameters.
pub open spec fn call_frame(device: u8, index: u8, function: u8) -> Seq<u8> {
    short_frame(device, index, function_address(function), 0, 0, 0)
}

/// The request for a feature function with one parameter byte.
pub open spec fn call_frame1(device: u8, index: u8, function: u8, p0: u8) -> Seq<u8> {
    short_frame(device, index, function_address(function), p0, 0, 0)
}

/// Where a name read stands.
#[derive(Debug, Clone, Copy, PartialEq, Eq, Structural)]
pub enum NameStage {
    Count,
    Chunk,
    Finished,
}

/// Reads a device name with FEAT_DEVICE_NAME: GetCount (function 0) gives
/// the name length in params[0]; GetDeviceName (function 1, params [offset])
/// gives the next chunk, of which at most the missing bytes are kept. The
/// name is the lossy UTF-8 decoding of the collected bytes.
pub struct DeviceNameReader {
    device: u8,
    index: u8,
    stage: NameStage,
    total: u8,
    bytes: Vec<u8>,
}

impl DeviceNameReader {
    #[verifier::type_invariant]
    closed spec fn inv(self) -> bool {
        self.bytes@.len() <= self.total
    }

    pub closed spec fn target(&self) -> u8 {
        self.device
    }

    /// The index of FEAT_DEVICE_NAME.
    pub closed spec fn feature_index(&self) -> u8 {
        self.index
    }

    pub closed spec fn stage(&self) -> NameStage {
        self.stage
    }

    /// The name length the device reported.
    pub closed spec fn total(&self) -> int {
        self.total as int
    }

    /// The name bytes collected so far.
    pub closed spec fn collected(&self) -> Seq<u8> {
        self.bytes@
    }

    /// A name read of `device`: without FEAT_DEVICE_NAME the result is None
    /// at once; otherwise the first request is GetCount.
    pub fn new(device: u8, features: &HashMap<u16, u8>) -> (r: (Self, Step<Option<String>>))
        ensures
            name_read_started(device, features@, r.0, r.1),

    {
        match feature_index_of(features, FEAT_DEVICE_NAME) {
            None => (
                DeviceNameReader {
                    device,
                    index: 0,
                    stage: NameStage::Finished,
                    total: 0,
                    bytes: Vec::new(),
                },
                Step::Done(Ok(None)),
            ),
            Some(i) => (
                DeviceNameReader {
                    device,
                    index: i,
                    stage: NameStage::Count,
                    total: 0,
                    bytes: Vec::new(),
                },
                Step::Send(Message::short(device, i, fn_addr(0), 0, 0, 0)),
            ),
        }
    }

    /// Feeds the reply to the last request and gives the next step. An error
    /// ends the read with it. A length of 0 gives None. Each chunk adds
    /// min(missing, params.len()) bytes; the read asks for the next offset
    /// until the name is complete.
    pub fn on_reply(&mut self, reply: Result<Message, Error>) -> (r: Step<Option<String>>)
        requires
            old(self).stage() != NameStage::Finished,
        ensures
            name_read_step(*old(self), reply, *final(self), r),

    {
        proof {
            use_type_invariant(&*self);
        }
        let msg = match reply {
            Err(e) => {
                self.stage = NameStage::Finished;
                return Step::Done(Err(e));
            },
            Ok(m) => m,
        };
        let p = msg.params();
        match self.stage {
            NameStage::Count => {
                self.bytes = Vec::new();
                self.total = p[0];
                if p[0] == 0 {
                    self.stage = NameStage::Finished;
                    Step::Done(Ok(None))
                } else {
                    self.stage = NameStage::Chunk;
                    Step::Send(Message::short(self.device, self.index, fn_addr(1), 0, 0, 0))
                }
            },
            _ => {
                let missing = (self.total as usize) - self.bytes.len();
                let take = if missing < p.len() {
                    missing
                } else {
                    p.len()
                };
                let mut bytes = Vec::new();
                std::mem::swap(&mut bytes, &mut self.bytes);
                let ghost before = bytes@;
                let mut k: usize = 0;
                while k < take
                    invariant
                        take <= p@.len(),
                        k <= take,
                        bytes@ == before + p@.take(k as int),
                    decreases take - k,
                {
                    bytes.push(p[k]);
                    proof {
                        assert(p@.take(k as int + 1) =~= p@.take(k as int).push(p@[k as int]));
                    }
                    k = k + 1;
                }
                let n = bytes.len();
                if n < self.total as usize {
                    self.bytes = bytes;
                    Step::Send(Message::short(self.device, self.index, fn_addr(1), n as u8, 0, 0))
                } else {
                    let name = utf8_lossy(bytes.as_slice());
                    self.bytes = bytes;
                    self.stage = NameStage::Finished;
                    Step::Done(Ok(Some(name)))
                }
            },
        }
    }
}

/// How name_read starts: the reader's state and first step.
pub open spec fn name_read_started(device: u8, features: Map<u16, u8>, reader: DeviceNameReader, step: Step<Option<String>>) -> bool {
    &&& (reader.target() == device)
    &&& (step is Send ==> reader.stage() != NameStage::Finished)
    &&& (reader.collected() == Seq::<u8>::empty())
    &&& (match feature_index_in(features, FEAT_DEVICE_NAME) {
        None => step matches Step::Done(Ok(None)) && reader.stage() == NameStage::Finished,
        Some(i) => step matches Step::Send(m) && m@ == call_frame(device, i, 0)
            && reader.stage() == NameStage::Count && reader.feature_index() == i,
    })
}

/// One step of name_read: from state `old`, the reply `reply` leads to state
/// `new` and step `r`.
pub open spec fn name_read_step(old: DeviceNameReader, reply: Result<Message, Error>, new: DeviceNameReader, r: Step<Option<String>>) -> bool {
    &&& (new.target() == old.target())
    &&& (r is Send ==> new.stage() != NameStage::Finished)
    &&& (new.feature_index() == old.feature_index())
    &&& (reply matches Err(e) ==> r == Step::<Option<String>>::Done(Err(e)) && new.stage()
        == NameStage::Finished)
    &&& (old.stage() == NameStage::Count ==> (reply matches Ok(msg) ==> {
        let total = frame_params(msg@)[0];
        &&& new.total() == total
        &&& new.collected() == Seq::<u8>::empty()
        &&& if total == 0 {
            r matches Step::Done(Ok(None)) && new.stage() == NameStage::Finished
        } else {
            &&& new.stage() == NameStage::Chunk
            &&& r matches Step::Send(m) && m@ == call_frame1(
                old.target(),
                old.feature_index(),
                1,
                0,
            )
        }
    }))
    &&& (old.stage() == NameStage::Chunk ==> (reply matches Ok(msg) ==> {
        let p = frame_params(msg@);
        let missing = old.total() - old.collected().len();
        let take = if missing < p.len() {
            missing
        } else {
            p.len() as int
        };
        let bytes = old.collected() + p.take(take);
        &&& new.total() == old.total()
        &&& new.collected() == bytes
        &&& if bytes.len() < old.total() {
            &&& new.stage() == NameStage::Chunk
            &&& r matches Step::Send(m) && m@ == call_frame1(
                old.target(),
                old.feature_index(),
                1,
                bytes.len() as u8,
            )
        } else {
            &&& new.stage() == NameStage::Finished
            &&& r matches Step::Done(Ok(Some(name))) && name@ == lossy_utf8(bytes)
        }
    }))
}

// -- Battery (0x1000, 0x1004, 0x1001) ----------------------------------------

/// The status a HID++ 2.0 battery charging byte names (unknown codes count
/// as discharging).
pub open spec fn battery_status_of_code(b: u8) -> BatteryStatus {
    match b {
        1 => BatteryStatus::Recharging,
        2 => BatteryStatus::AlmostFull,
        3 => BatteryStatus::Full,
        4 => BatteryStatus::SlowRecharge,
        5 => BatteryStatus::InvalidBattery,
        6 => BatteryStatus::ThermalError,
        _ => BatteryStatus::Discharging,
    }
}

fn battery_status_from_code(b: u8) -> (r: BatteryStatus)
    ensures
        r == battery_status_of_code(b),
{
    match b {
        1 => BatteryStatus::Recharging,
        2 => BatteryStatus::AlmostFull,
        3 => BatteryStatus::Full,
        4 => BatteryStatus::SlowRecharge,
        5 => BatteryStatus::InvalidBattery,
        6 => BatteryStatus::ThermalError,
        _ => BatteryStatus::Discharging,
    }
}

/// The request for a parameterless feature function, if the device has the feature.
pub open spec fn optional_call(device: u8, features: Map<u16, u8>, feature_id: u16, function: u8) -> Option<Seq<u8>> {
    match feature_index_in(features, feature_id) {
        Some(i) => Some(call_frame(device, i, function)),
        None => None,
    }
}

/// True when `r` is the request that `optional_call` describes.
pub open spec fn is_optional_call(r: Option<Message>, device: u8, features: Map<u16, u8>, feature_id: u16, function: u8) -> bool {
    match optional_call(device, features, feature_id, function) {
        Some(f) => r matches Some(m) && m@ == f,
        None => r is None,
    }
}

fn optional_call_request(device: u8, features: &HashMap<u16, u8>, feature_id: u16, function: u8) -> (r: Option<Message>)
    ensures
        is_optional_call(r, device, features@, feature_id, function),
{
    match feature_index_of(features, feature_id) {
        Some(i) => Some(Message::short(device, i, fn_addr(function), 0, 0, 0)),
        None => None,
    }
}

/// The BATTERY_STATUS GetBatteryLevelStatus request (function 0); None when
/// the device lacks the feature.
pub fn battery_status_request(device: u8, features: &HashMap<u16, u8>) -> (r: Option<Message>)
    ensures
        is_optional_call(r, device, features@, FEAT_BATTERY_STATUS, 0),
{
    optional_call_request(device, features, FEAT_BATTERY_STATUS, 0)
}

/// The battery in a GetBatteryLevelStatus reply: level params[0], status
/// from the charging byte params[2].
pub fn battery_status_from_reply(msg: &Message) -> (b: Battery)
    ensures
        b == (Battery {
            level: Some(frame_params(msg@)[0]),
            status: Some(battery_status_of_code(frame_params(msg@)[2])),
            voltage: None,
        }),
{
    let p = msg.params();
    Battery { level: Some(p[0]), status: Some(battery_status_from_code(p[2])), voltage: None }
}

/// The approximate percentage of a UNIFIED_BATTERY level code
/// (8 full, 4 good, 2 low, 1 critical, else empty).
pub open spec fn unified_level_percent(code: u8) -> u8 {
    match code {
        8 => 90,
        4 => 50,
        2 => 20,
        1 => 5,
        _ => 0,
    }
}

/// The UNIFIED_BATTERY GetStatus request (function 1); None when the device
/// lacks the feature.
pub fn unified_battery_request(device: u8, features: &HashMap<u16, u8>) -> (r: Option<Message>)
    ensures
        is_optional_call(r, device, features@, FEAT_UNIFIED_BATTERY, 1),
{
    optional_call_request(device, features, FEAT_UNIFIED_BATTERY, 1)
}

/// The battery in a GetStatus reply: the state of charge params[0] when it is
/// nonzero, else the approximation of the level code params[1]; status from
/// params[2].
pub fn unified_battery_from_reply(msg: &Message) -> (b: Battery)
    ensures
        b == (Battery {
            level: Some(
                if frame_params(msg@)[0] > 0 {
                    frame_params(msg@)[0]
                } else {
                    unified_level_percent(frame_params(msg@)[1])
                },
            ),
            status: Some(battery_status_of_code(frame_params(msg@)[2])),
            voltage: None,
        }),
        b == battery_from_source(0, msg@),
{
    let p = msg.params();
    let level = if p[0] > 0 {
        p[0]
    } else {
        match p[1] {
            8 => 90u8,
            4 => 50u8,
            2 => 20u8,
            1 => 5u8,
            _ => 0u8,
        }
    };
    Battery { level: Some(level), status: Some(battery_status_from_code(p[2])), voltage: None }
}

/// The BATTERY_VOLTAGE GetBatteryVoltage request (function 0); None when the
/// device lacks the feature.
pub fn battery_voltage_request(device: u8, features: &HashMap<u16, u8>) -> (r: Option<Message>)
    ensures
        is_optional_call(r, device, features@, FEAT_BATTERY_VOLTAGE, 0),
{
    optional_call_request(device, features, FEAT_BATTERY_VOLTAGE, 0)
}

/// The battery in a GetBatteryVoltage reply: the voltage in mV, big-endian
/// in params[0..2].
pub fn battery_voltage_from_reply(msg: &Message) -> (b: Battery)
    ensures
        b == (Battery {
            level: None,
            status: None,
            voltage: Some(be16(frame_params(msg@)[0], frame_params(msg@)[1])),
        }),
{
    let p = msg.params();
    Battery { level: None, status: None, voltage: Some(be16_of(p[0], p[1])) }
}

// -- Adjustable DPI (0x2201) --------------------------------------------------

/// DPI capabilities and current state for a device with FEAT_ADJUSTABLE_DPI.
#[derive(Debug)]
pub struct DpiInfo {
    /// The discrete DPI steps the sensor supports, in the order reported.
    pub dpi_list: Vec<u16>,
    /// Currently active DPI. 0 if the device did not report one.
    pub current_dpi: u16,
    /// Default DPI reported by the device. 0 if not reported.
    pub default_dpi: u16,
}

/// `a + b`, saturated at 0xFFFF.
pub open spec fn sat_add16(a: u16, b: u16) -> u16 {
    if a + b > 0xFFFF {
        0xFFFF
    } else {
        (a + b) as u16
    }
}

/// The values cur, cur + step, cur + 2 * step, ... that do not exceed `end`.
pub open spec fn range_steps(cur: int, step: int, end: int) -> Seq<u16>
    decreases (if cur <= end {
        end - cur + 1
    } else {
        0
    }),
{
    if step <= 0 || cur > end {
        Seq::empty()
    } else {
        seq![cur as u16] + range_steps(cur + step, step, end)
    }
}

/// Whether expanding a DPI range after `list` ends. Starting from the
/// saturated sum of the last value and the step, values are added while they
/// do not exceed `end`; with a zero step, or with `end` at 0xFFFF where the
/// saturated sum stays in range, that never stops.
pub open spec fn expansion_ends(list: Seq<u16>, step: u16, end: u16) -> bool {
    list.len() == 0 || sat_add16(list.last(), step) > end || (step > 0 && end < 0xFFFF)
}

/// The values a range marker adds after `list`: nothing when the list is
/// empty, else the steps from the last value (exclusive) up to `end`.
pub open spec fn range_expansion(list: Seq<u16>, step: u16, end: u16) -> Seq<u16> {
    if list.len() == 0 {
        Seq::empty()
    } else {
        range_steps(sat_add16(list.last(), step) as int, step as int, end as int)
    }
}

/// A DPI word with its top three bits set marks a range.
pub open spec fn is_range_marker(val: u16) -> bool {
    val / 0x2000 == 7
}

/// The result of scanning the big-endian DPI words of a GetSensorDpiList
/// page from byte `i`: the list grown by the page and whether a 0x0000 word
/// ended the list; None when a range expansion never ends. A plain word is
/// appended; a range marker (step in its low 13 bits) followed by an end
/// word appends the range; a marker without room for its end word is
/// dropped.
pub open spec fn dpi_page_scan(list: Seq<u16>, p: Seq<u8>, i: int) -> Option<(Seq<u16>, bool)>
    decreases p.len() - i,
{
    if i < 0 || i + 1 >= p.len() {
        Some((list, false))
    } else {
        let val = be16(p[i], p[i + 1]);
        if val == 0 {
            Some((list, true))
        } else if is_range_marker(val) {
            let step = (val % 0x2000) as u16;
            if i + 3 < p.len() {
                let end = be16(p[i + 2], p[i + 3]);
                if end == 0 {
                    Some((list, true))
                } else if !expansion_ends(list, step, end) {
                    None
                } else {
                    dpi_page_scan(list + range_expansion(list, step, end), p, i + 4)
                }
            } else {
                dpi_page_scan(list, p, i + 2)
            }
        } else {
            dpi_page_scan(list.push(val), p, i + 2)
        }
    }
}

proof fn lemma_range_steps_past_end(cur: int, step: int, end: int)
    requires
        cur > end,
    ensures
        range_steps(cur, step, end) == Seq::<u16>::empty(),
{
}

/// Every value a DPI range expands to lies between its start and the
/// range end, and each is one step above the one before.
pub proof fn lemma_range_steps_bounded(cur: int, step: int, end: int)
    requires
        0 <= cur,
        end <= 0xFFFF,
    ensures
        forall|i: int|
            0 <= i < range_steps(cur, step, end).len() ==> cur <= #[trigger] range_steps(
                cur,
                step,
                end,
            )[i] <= end && range_steps(cur, step, end)[i] == cur + i * step,
    decreases (if cur <= end {
        end - cur + 1
    } else {
        0
    }),
{
    if step <= 0 || cur > end {
    } else {
        lemma_range_steps_bounded(cur + step, step, end);
        let rest = range_steps(cur + step, step, end);
        assert forall|i: int| 0 <= i < range_steps(cur, step, end).len() implies cur
            <= #[trigger] range_steps(cur, step, end)[i] <= end && range_steps(cur, step, end)[i]
            == cur + i * step by {
            if i > 0 {
                assert(range_steps(cur, step, end)[i] == rest[i - 1]);
                assert(cur + step + (i - 1) * step == cur + i * step) by (nonlinear_arith);
            }
        }
    }
}

/// Appends the values of a range marker: false, with the list unchanged,
/// when the expansion would never end.
pub fn expand_range(list: &mut Vec<u16>, step: u16, end: u16) -> (r: bool)
    ensures
        r == expansion_ends(old(list)@, step, end),
        r ==> final(list)@ == old(list)@ + range_expansion(old(list)@, step, end),
        !r ==> final(list)@ == old(list)@,
{
    let n = list.len();
    if n == 0 {
        assert(old(list)@ + range_expansion(old(list)@, step, end) =~= old(list)@);
        return true;
    }
    let last = list[n - 1];
    let mut cur = last.saturating_add(step);
    if cur > end {
        proof {
            lemma_range_steps_past_end(cur as int, step as int, end as int);
        }
        assert(old(list)@ + range_expansion(old(list)@, step, end) =~= old(list)@);
        return true;
    }
    if !(step > 0 && end < 0xFFFF) {
        return false;
    }
    let ghost target = old(list)@ + range_expansion(old(list)@, step, end);
    assert(list@ + range_steps(cur as int, step as int, end as int) =~= target);
    while cur <= end
        invariant
            step > 0,
            end < 0xFFFF,
            list@ + range_steps(cur as int, step as int, end as int) == target,
        decreases 65536 - cur,
    {
        let ghost old_list = list@;
        list.push(cur);
        let next = cur.saturating_add(step);
        proof {
            assert(range_steps(cur as int, step as int, end as int) == seq![cur as u16]
                + range_steps(cur + step, step as int, end as int));
            if cur + step > 0xFFFF {
                lemma_range_steps_past_end(cur + step, step as int, end as int);
                lemma_range_steps_past_end(next as int, step as int, end as int);
            }
            assert(list@ + range_steps(next as int, step as int, end as int) =~= old_list + (seq![
                cur as u16,
            ] + range_steps(cur + step, step as int, end as int)));
        }
        cur = next;
    }
    proof {
        lemma_range_steps_past_end(cur as int, step as int, end as int);
    }
    assert(list@ =~= target);
    true
}

/// Scans one GetSensorDpiList page (the reply params, whose byte 0 echoes
/// the sensor) into `list`: Some(true) when a 0x0000 word ended the list,
/// Some(false) when the page ran out, None when a range expansion would
/// never end.
pub fn scan_dpi_page(list: &mut Vec<u16>, p: &[u8]) -> (r: Option<bool>)
    ensures
        match dpi_page_scan(old(list)@, p@, 1) {
            Some((l, t)) => r == Some(t) && final(list)@ == l,
            None => r is None,
        },
{
    let mut i: usize = 1;
    while i < p.len() && p.len() - i > 1
        invariant
            1 <= i <= p@.len() + 1,
            dpi_page_scan(list@, p@, i as int) == dpi_page_scan(old(list)@, p@, 1),
        decreases p.len() - i,
    {
        let val = be16_of(p[i], p[i + 1]);
        if val == 0 {
            return Some(true);
        }
        assert(val >> 13u16 == val / 0x2000) by (bit_vector);
        if val >> 13 == 7 {
            assert(val & 0x1FFFu16 == val % 0x2000) by (bit_vector);
            let step = val & 0x1FFF;
            if p.len() - i > 3 {
                let end = be16_of(p[i + 2], p[i + 3]);
                if end == 0 {
                    return Some(true);
                }
                if !expand_range(list, step, end) {
                    return None;
                }
                i = i + 4;
            } else {
                i = i + 2;
            }
        } else {
            list.push(val);
            i = i + 2;
        }
    }
    Some(false)
}

/// The (current, default) DPI of a GetSensorDpi reply: current at
/// params[1..3], default at params[3..5] when the reply is long enough; a
/// current of 0 means the default is in effect.
pub open spec fn dpi_settings(p: Seq<u8>) -> (u16, u16) {
    let current: u16 = if p.len() >= 3 {
        be16(p[1], p[2])
    } else {
        0
    };
    let default: u16 = if p.len() >= 5 {
        be16(p[3], p[4])
    } else {
        0
    };
    (if current == 0 {
        default
    } else {
        current
    }, default)
}

/// The GetSensorDpiList request (function 1) for a page: [sensor 0, 0, page].
pub open spec fn dpi_list_frame(device: u8, index: u8, page: u8) -> Seq<u8> {
    short_frame(device, index, function_address(1), 0, 0, page)
}

/// Where a DPI read stands.
#[derive(Debug, Clone, Copy, PartialEq, Eq, Structural)]
pub enum DpiStage {
    List,
    Current,
    Finished,
}

/// Reads the DPI capabilities with FEAT_ADJUSTABLE_DPI: the DPI list page by
/// page (pages 0, 8, 16, ...) until a 0x0000 word, the last page (248), or at
/// least 200 values; then GetSensorDpi (function 2, params [0]) for the
/// current and default values. An error while reading the list ends the read
/// with it; an error from GetSensorDpi leaves both values 0.
pub struct DpiReader {
    device: u8,
    index: u8,
    stage: DpiStage,
    page: u8,
    list: Vec<u16>,
}

impl DpiReader {
    pub closed spec fn target(&self) -> u8 {
        self.device
    }

    /// The index of FEAT_ADJUSTABLE_DPI.
    pub closed spec fn feature_index(&self) -> u8 {
        self.index
    }

    pub closed spec fn stage(&self) -> DpiStage {
        self.stage
    }

    /// The page asked for last.
    pub closed spec fn page(&self) -> u8 {
        self.page
    }

    /// The DPI values collected so far.
    pub closed spec fn values(&self) -> Seq<u16> {
        self.list@
    }

    /// A DPI read of `device`: None at once without FEAT_ADJUSTABLE_DPI,
    /// otherwise the request for page 0.
    pub fn new(device: u8, features: &HashMap<u16, u8>) -> (r: (Self, Step<Option<DpiInfo>>))
        ensures
            dpi_read_started(device, features@, r.0, r.1),

    {
        match feature_index_of(features, FEAT_ADJUSTABLE_DPI) {
            None => (
                DpiReader { device, index: 0, stage: DpiStage::Finished, page: 0, list: Vec::new() },
                Step::Done(Ok(None)),
            ),
            Some(i) => (
                DpiReader { device, index: i, stage: DpiStage::List, page: 0, list: Vec::new() },
                Step::Send(Message::short(device, i, fn_addr(1), 0, 0, 0)),
            ),
        }
    }

    /// Feeds the reply to the last request and gives the next step. A list
    /// page whose range expansion would never end is an invalid response.
    pub fn on_reply(&mut self, reply: Result<Message, Error>) -> (r: Step<Option<DpiInfo>>)
        requires
            old(self).stage() != DpiStage::Finished,
        ensures
            dpi_read_step(*old(self), reply, *final(self), r),

    {
        match self.stage {
            DpiStage::List => {
                let msg = match reply {
                    Err(e) => {
                        self.stage = DpiStage::Finished;
                        return Step::Done(Err(e));
                    },
                    Ok(m) => m,
                };
                match scan_dpi_page(&mut self.list, msg.params()) {
                    None => {
                        self.stage = DpiStage::Finished;
                        Step::Done(Err(Error::InvalidResponse))
                    },
                    Some(ended) => {
                        if !ended && self.page <= 247 && self.list.len() < 200 {
                            self.page = self.page + 8;
                            Step::Send(Message::short(self.device, self.index, fn_addr(1), 0, 0, self.page))
                        } else {
                            self.stage = DpiStage::Current;
                            Step::Send(Message::short(self.device, self.index, fn_addr(2), 0, 0, 0))
                        }
                    },
                }
            },
            _ => {
                let (current, default) = match reply {
                    Ok(msg) => {
                        let p = msg.params();
                        let current: u16 = if p.len() >= 3 {
                            be16_of(p[1], p[2])
                        } else {
                            0
                        };
                        let default: u16 = if p.len() >= 5 {
                            be16_of(p[3], p[4])
                        } else {
                            0
                        };
                        (if current == 0 {
                            default
                        } else {
                            current
                        }, default)
                    },
                    Err(_) => (0u16, 0u16),
                };
                let mut list = Vec::new();
                std::mem::swap(&mut list, &mut self.list);
                self.stage = DpiStage::Finished;
                Step::Done(Ok(Some(DpiInfo { dpi_list: list, current_dpi: current, default_dpi: default })))
            },
        }
    }
}

/// How dpi_read starts: the reader's state and first step.
pub open spec fn dpi_read_started(device: u8, features: Map<u16, u8>, reader: DpiReader, step: Step<Option<DpiInfo>>) -> bool {
    &&& (reader.target() == device)
    &&& (step is Send ==> reader.stage() != DpiStage::Finished)
    &&& (reader.values() == Seq::<u16>::empty())
    &&& (match feature_index_in(features, FEAT_ADJUSTABLE_DPI) {
        None => step matches Step::Done(Ok(None)) && reader.stage() == DpiStage::Finished,
        Some(i) => step matches Step::Send(m) && m@ == dpi_list_frame(device, i, 0)
            && reader.stage() == DpiStage::List && reader.feature_index() == i && reader.page()
            == 0,
    })
}

/// One step of dpi_read: from state `old`, the reply `reply` leads to state
/// `new` and step `r`.
pub open spec fn dpi_read_step(old: DpiReader, reply: Result<Message, Error>, new: DpiReader, r: Step<Option<DpiInfo>>) -> bool {
    &&& (new.target() == old.target())
    &&& (r is Send ==> new.stage() != DpiStage::Finished)
    &&& (new.feature_index() == old.feature_index())
    &&& (old.stage() == DpiStage::List ==> match reply {
        Err(e) => r == Step::<Option<DpiInfo>>::Done(Err(e)) && new.stage()
            == DpiStage::Finished,
        Ok(msg) => match dpi_page_scan(old.values(), frame_params(msg@), 1) {
            None => r matches Step::Done(Err(Error::InvalidResponse)) && new.stage()
                == DpiStage::Finished,
            Some((list, ended)) => {
                &&& new.values() == list
                &&& if !ended && old.page() + 8 <= 255 && list.len() < 200 {
                    &&& new.stage() == DpiStage::List
                    &&& new.page() == old.page() + 8
                    &&& r matches Step::Send(m) && m@ == dpi_list_frame(
                        old.target(),
                        old.feature_index(),
                        (old.page() + 8) as u8,
                    )
                } else {
                    &&& new.stage() == DpiStage::Current
                    &&& r matches Step::Send(m) && m@ == call_frame1(
                        old.target(),
                        old.feature_index(),
                        2,
                        0,
                    )
                }
            },
        },
    })
    &&& (old.stage() == DpiStage::Current ==> {
        let (current, default) = match reply {
            Ok(msg) => dpi_settings(frame_params(msg@)),
            Err(_) => (0u16, 0u16),
        };
        &&& new.stage() == DpiStage::Finished
        &&& r matches Step::Done(Ok(Some(info)))
        &&& info.dpi_list@ == old.values()
        &&& info.current_dpi == current
        &&& info.default_dpi == default
    })
}

/// The SetSensorDpi request (function 3, params [0, dpi_hi, dpi_lo]); None
/// when the device lacks FEAT_ADJUSTABLE_DPI (setting then does nothing).
pub fn set_dpi_request(device: u8, features: &HashMap<u16, u8>, dpi: u16) -> (r: Option<Message>)
    ensures
        match feature_index_in(features@, FEAT_ADJUSTABLE_DPI) {
            Some(i) => r matches Some(m) && m@ == short_frame(
                device,
                i,
                function_address(3),
                0,
                hi_byte(dpi),
                lo_byte(dpi),
            ),
            None => r is None,
        },
{
    match feature_index_of(features, FEAT_ADJUSTABLE_DPI) {
        Some(i) => Some(Message::short(device, i, fn_addr(3), 0, (dpi / 256) as u8, (dpi % 256) as u8)),
        None => None,
    }
}

// -- Hi-res wheel (0x2121) ----------------------------------------------------

/// Scroll wheel capabilities and current state for a device with FEAT_HIRES_WHEEL.
#[derive(Debug, Clone, Copy, PartialEq, Eq, Structural)]
pub struct ScrollInfo {
    pub has_invert: bool,
    pub has_hires: bool,
    pub inverted: bool,
    pub hires_enabled: bool,
}

/// The two requests of a scroll read, in order: GetCapabilities (function 0)
/// and GetMode (function 1); None when the device lacks FEAT_HIRES_WHEEL.
pub fn scroll_info_requests(device: u8, features: &HashMap<u16, u8>) -> (r: Option<(Message, Message)>)
    ensures
        match feature_index_in(features@, FEAT_HIRES_WHEEL) {
            Some(i) => r matches Some((a, b)) && a@ == call_frame(device, i, 0) && b@ == call_frame(
                device,
                i,
                1,
            ),
            None => r is None,
        },
{
    match feature_index_of(features, FEAT_HIRES_WHEEL) {
        Some(i) => Some(
            (
                Message::short(device, i, fn_addr(0), 0, 0, 0),
                Message::short(device, i, fn_addr(1), 0, 0, 0),
            ),
        ),
        None => None,
    }
}

/// The scroll state from the two replies: inversion is supported when bit
/// 0x08 of the capability flags (caps params[1]) is set; hi-res mode is
/// always available; the mode byte (mode params[0]) has bit 0x04 for
/// inverted and 0x02 for hi-res.
pub fn scroll_info_from_replies(caps: &Message, mode: &Message) -> (r: ScrollInfo)
    ensures
        r == (ScrollInfo {
            has_invert: frame_params(caps@)[1] & 0x08 != 0,
            has_hires: true,
            inverted: frame_params(mode@)[0] & 0x04 != 0,
            hires_enabled: frame_params(mode@)[0] & 0x02 != 0,
        }),
{
    let cap_byte = caps.params()[1];
    let mode_byte = mode.params()[0];
    ScrollInfo {
        has_invert: cap_byte & 0x08 != 0,
        has_hires: true,
        inverted: mode_byte & 0x04 != 0,
        hires_enabled: mode_byte & 0x02 != 0,
    }
}

/// The scroll mode byte: 0x04 for inverted, 0x02 for hi-res.
pub open spec fn scroll_mode_byte(inverted: bool, hires_enabled: bool) -> u8 {
    (if inverted {
        0x04u8
    } else {
        0u8
    }) | (if hires_enabled {
        0x02u8
    } else {
        0u8
    })
}

/// The SetMode request (function 2, params [mode byte]); None when the
/// device lacks FEAT_HIRES_WHEEL.
pub fn set_scroll_request(device: u8, features: &HashMap<u16, u8>, inverted: bool, hires_enabled: bool) -> (r: Option<Message>)
    ensures
        match feature_index_in(features@, FEAT_HIRES_WHEEL) {
            Some(i) => r matches Some(m) && m@ == call_frame1(
                device,
                i,
                2,
                scroll_mode_byte(inverted, hires_enabled),
            ),
            None => r is None,
        },
{
    match feature_index_of(features, FEAT_HIRES_WHEEL) {
        Some(i) => {
            let mode_byte = (if inverted {
                0x04u8
            } else {
                0u8
            }) | (if hires_enabled {
                0x02u8
            } else {
                0u8
            });
            Some(Message::short(device, i, fn_addr(2), mode_byte, 0, 0))
        },
        None => None,
    }
}

// -- SmartShift Enhanced (0x2111) ---------------------------------------------

/// Smart shift / scroll wheel ratchet state for a device with FEAT_SMART_SHIFT_ENHANCED.
///
/// wheel_mode:  1=always freespin, 2=smart-shift (auto switches based on speed).
/// has_torque:  true when the device supports tunable ratchet torque.
/// torque:      ratchet engagement torque, 1-100 (only valid when has_torque is true).
#[derive(Debug, Clone, Copy, PartialEq, Eq, Structural)]
pub struct SmartShiftInfo {
    pub wheel_mode: u8,
    pub has_torque: bool,
    pub torque: u8,
}

/// The two requests of a smart-shift read, in order: GetCapabilities
/// (function 0) and GetRatchetControlMode (function 1); None when the device
/// lacks FEAT_SMART_SHIFT_ENHANCED.
pub fn smart_shift_requests(device: u8, features: &HashMap<u16, u8>) -> (r: Option<(Message, Message)>)
    ensures
        match feature_index_in(features@, FEAT_SMART_SHIFT_ENHANCED) {
            Some(i) => r matches Some((a, b)) && a@ == call_frame(device, i, 0) && b@ == call_frame(
                device,
                i,
                1,
            ),
            None => r is None,
        },
{
    match feature_index_of(features, FEAT_SMART_SHIFT_ENHANCED) {
        Some(i) => Some(
            (
                Message::short(device, i, fn_addr(0), 0, 0, 0),
                Message::short(device, i, fn_addr(1), 0, 0, 0),
            ),
        ),
        None => None,
    }
}

/// The smart-shift state: tunable torque when bit 0 of caps params[0] is
/// set; wheel mode params[0] and torque params[2] of the mode reply.
pub fn smart_shift_from_replies(caps: &Message, mode: &Message) -> (r: SmartShiftInfo)
    ensures
        r == (SmartShiftInfo {
            wheel_mode: frame_params(mode@)[0],
            has_torque: frame_params(caps@)[0] & 0x01 != 0,
            torque: frame_params(mode@)[2],
        }),
{
    let has_torque = caps.params()[0] & 0x01 != 0;
    let p = mode.params();
    SmartShiftInfo { wheel_mode: p[0], has_torque, torque: p[2] }
}

/// The GetRatchetControlMode request (function 1) that a smart-shift write
/// reads first; None when the device lacks FEAT_SMART_SHIFT_ENHANCED.
pub fn smart_shift_read_request(device: u8, features: &HashMap<u16, u8>) -> (r: Option<Message>)
    ensures
        is_optional_call(r, device, features@, FEAT_SMART_SHIFT_ENHANCED, 1),
{
    optional_call_request(device, features, FEAT_SMART_SHIFT_ENHANCED, 1)
}

/// The SetRatchetControlMode request (function 2) to the device and feature
/// index of `read`: [wheel_mode, auto_disengage, torque], where
/// auto_disengage (params[1] of the current mode) is preserved.
pub fn smart_shift_write_request(read: &Message, current: &Message, wheel_mode: u8, torque: u8) -> (r: Message)
    ensures
        r@ == short_frame(
            read@[1],
            read@[2],
            function_address(2),
            wheel_mode,
            frame_params(current@)[1],
            torque,
        ),
{
    let auto_disengage = current.params()[1];
    Message::short(read.device(), read.sub_id(), fn_addr(2), wheel_mode, auto_disengage, torque)
}

// -- Change host (0x1814) -----------------------------------------------------

/// The SetCurrentHost request (function 1, params [slot]); None when the
/// device lacks FEAT_CHANGE_HOST. The device switches at once and does not
/// answer.
pub fn set_active_host_request(device: u8, features: &HashMap<u16, u8>, host_slot: u8) -> (r: Option<Message>)
    ensures
        match feature_index_in(features@, FEAT_CHANGE_HOST) {
            Some(i) => r matches Some(m) && m@ == call_frame1(device, i, 1, host_slot),
            None => r is None,
        },
{
    match feature_index_of(features, FEAT_CHANGE_HOST) {
        Some(i) => Some(Message::short(device, i, fn_addr(1), host_slot, 0, 0)),
        None => None,
    }
}

// -- FN key inversion (0x40A0 / 0x40A2 / 0x40A3) -----------------------------

/// FN key inversion state for keyboards.
///
/// fn_swapped: true when F1-F12 behave as multimedia keys by default;
///             false when they behave as standard function keys.
#[derive(Debug, Clone, Copy, PartialEq, Eq, Structural)]
pub struct FnInfo {
    pub fn_swapped: bool,
    pub default_fn_swapped: bool,
}

/// The FN inversion feature to use: the new one (0x40A2), else the first
/// (0x40A0), else the K375s one (0x40A3).
pub open spec fn fn_feature_in(features: Map<u16, u8>) -> Option<u8> {
    if features.contains_key(FEAT_NEW_FN_INVERSION) {
        Some(features[FEAT_NEW_FN_INVERSION])
    } else if features.contains_key(FEAT_FN_INVERSION) {
        Some(features[FEAT_FN_INVERSION])
    } else {
        feature_index_in(features, FEAT_K375S_FN_INVERSION)
    }
}

/// The index of the FN inversion feature to use (see `fn_feature_in`).
pub fn find_fn_feature(features: &HashMap<u16, u8>) -> (r: Option<u8>)
    ensures
        r == fn_feature_in(features@),
{
    match feature_index_of(features, FEAT_NEW_FN_INVERSION) {
        Some(i) => Some(i),
        None => match feature_index_of(features, FEAT_FN_INVERSION) {
            Some(i) => Some(i),
            None => feature_index_of(features, FEAT_K375S_FN_INVERSION),
        },
    }
}

/// The GetFnInversionState request (function 0); None without an FN
/// inversion feature.
pub fn fn_settings_request(device: u8, features: &HashMap<u16, u8>) -> (r: Option<Message>)
    ensures
        match fn_feature_in(features@) {
            Some(i) => r matches Some(m) && m@ == call_frame(device, i, 0),
            None => r is None,
        },
{
    match find_fn_feature(features) {
        Some(i) => Some(Message::short(device, i, fn_addr(0), 0, 0, 0)),
        None => None,
    }
}

/// The FN state: bit 0 of params[0] (current) and of params[1] (default).
pub fn fn_settings_from_reply(msg: &Message) -> (r: FnInfo)
    ensures
        r == (FnInfo {
            fn_swapped: frame_params(msg@)[0] & 0x01 != 0,
            default_fn_swapped: frame_params(msg@)[1] & 0x01 != 0,
        }),
{
    let p = msg.params();
    FnInfo { fn_swapped: p[0] & 0x01 != 0, default_fn_swapped: p[1] & 0x01 != 0 }
}

/// The SetFnInversionState request (function 1, params [swapped as 0/1]);
/// None without an FN inversion feature.
pub fn set_fn_swap_request(device: u8, features: &HashMap<u16, u8>, swapped: bool) -> (r: Option<Message>)
    ensures
        match fn_feature_in(features@) {
            Some(i) => r matches Some(m) && m@ == call_frame1(
                device,
                i,
                1,
                if swapped {
                    1
                } else {
                    0
                },
            ),
            None => r is None,
        },
{
    match find_fn_feature(features) {
        Some(i) => Some(
            Message::short(
                device,
                i,
                fn_addr(1),
                if swapped {
                    0x01
                } else {
                    0x00
                },
                0,
                0,
            ),
        ),
        None => None,
    }
}

// -- Multiplatform (0x4531): setting ------------------------------------------

/// The SetPlatform request (function 3, params [0xFF, platform_index]);
/// None when the device lacks FEAT_MULTIPLATFORM.
pub fn set_multiplatform_request(device: u8, features: &HashMap<u16, u8>, platform_index: u8) -> (r: Option<Message>)
    ensures
        match feature_index_in(features@, FEAT_MULTIPLATFORM) {
            Some(i) => r matches Some(m) && m@ == short_frame(
                device,
                i,
                function_address(3),
                0xFF,
                platform_index,
                0,
            ),
            None => r is None,
        },
{
    match feature_index_of(features, FEAT_MULTIPLATFORM) {
        Some(i) => Some(Message::short(device, i, fn_addr(3), 0xFF, platform_index, 0)),
        None => None,
    }
}

// -- Backlight2 (0x1982) ------------------------------------------------------

/// Backlight state for a keyboard with FEAT_BACKLIGHT2.
///
/// mode:             0=disabled, 1=automatic, 3=manual.
/// auto_supported:   true if automatic mode is available.
/// manual_supported: true if manual (permanent-on) mode is available.
/// level:            brightness 0-100 (relevant when mode=3).
#[derive(Debug, Clone, Copy, PartialEq, Eq, Structural)]
pub struct BacklightInfo {
    pub mode: u8,
    pub auto_supported: bool,
    pub manual_supported: bool,
    pub level: u8,
}

/// The GetBacklightState request (function 0), read both to report the
/// backlight and before changing it; None when the device lacks FEAT_BACKLIGHT2.
pub fn backlight_request(device: u8, features: &HashMap<u16, u8>) -> (r: Option<Message>)
    ensures
        is_optional_call(r, device, features@, FEAT_BACKLIGHT2, 0),
{
    optional_call_request(device, features, FEAT_BACKLIGHT2, 0)
}

/// The backlight in a GetBacklightState reply [enabled, options, supported,
/// effects(2), level, ...]: the mode is (options >> 3) & 3 when enabled,
/// else 0; bit 0x08 of supported is automatic mode, 0x20 manual; the level is
/// params[5] (0 in a short reply).
pub fn backlight_from_reply(msg: &Message) -> (r: BacklightInfo)
    ensures
        ({
            let p = frame_params(msg@);
            r == (BacklightInfo {
                mode: if p[0] != 0 {
                    (p[1] >> 3u8) & 0x03
                } else {
                    0
                },
                auto_supported: p[2] & 0x08 != 0,
                manual_supported: p[2] & 0x20 != 0,
                level: if p.len() > 5 {
                    p[5]
                } else {
                    0
                },
            })
        }),
{
    let p = msg.params();
    let enabled = p[0] != 0;
    let options = p[1];
    let supported = p[2];
    let level = if p.len() > 5 {
        p[5]
    } else {
        0
    };
    let mode = if enabled {
        (options >> 3) & 0x03
    } else {
        0
    };
    BacklightInfo {
        mode,
        auto_supported: supported & 0x08 != 0,
        manual_supported: supported & 0x20 != 0,
        level,
    }
}

/// The SetBacklightState parameters that change mode and level while
/// preserving the option base bits and the timing fields of the current
/// state `cp`: [enabled, (options & 7) | (mode << 3), 0xFF, level (manual
/// mode only), cp[6..12]].
pub open spec fn backlight_write_params(cp: Seq<u8>, mode: u8, level: u8) -> Seq<u8> {
    seq![
        if mode == 0 { 0u8 } else { 1u8 },
        (cp[1] & 0x07) | (mode << 3u8),
        0xFF,
        if mode == 3 { level } else { 0u8 },
        cp[6],
        cp[7],
        cp[8],
        cp[9],
        cp[10],
        cp[11],
    ]
}

/// The SetBacklightState request (function 1) to the device and feature
/// index of `read`, built from the current state; None when the current
/// state is too short (the write is then skipped).
pub fn backlight_write_request(read: &Message, current: &Message, mode: u8, level: u8) -> (r: Option<Message>)
    ensures
        frame_params(current@).len() < 6 ==> r is None,
        frame_params(current@).len() >= 6 ==> (r matches Some(m) && m@ == long_frame(
            read@[1],
            read@[2],
            function_address(1),
            backlight_write_params(frame_params(current@), mode, level),
        )),
{
    let cp = current.params();
    if cp.len() < 6 {
        return None;
    }
    let new_enabled: u8 = if mode == 0 {
        0
    } else {
        1
    };
    let new_options = (cp[1] & 0x07) | (mode << 3);
    let new_level = if mode == 3 {
        level
    } else {
        0
    };
    let params: [u8; 10] = [
        new_enabled,
        new_options,
        0xFF,
        new_level,
        cp[6],
        cp[7],
        cp[8],
        cp[9],
        cp[10],
        cp[11],
    ];
    assert(params@ =~= backlight_write_params(cp@, mode, level));
    Some(Message::long(read.device(), read.sub_id(), fn_addr(1), &params))
}

// -- Hosts (0x1814 + 0x1815) --------------------------------------------------

/// Info about one host slot as reported by FEAT_HOSTS_INFO (0x1815).
#[derive(Debug, Clone)]
pub struct HostInfo {
    pub slot: u8,
    pub name: String,
    pub is_active: bool,
}

/// The name of a host slot whose name cannot be read: "Host N", N = slot + 1.
pub open spec fn default_host_name(slot: u8) -> Seq<char> {
    "Host "@ + decimal(slot as nat + 1)
}

/// "Host N" for a 0-based slot.
pub fn default_host_name_string(slot: u8) -> (r: String)
    requires
        slot < 255,
    ensures
        r@ == default_host_name(slot),
{
    let mut s = "Host ".to_owned();
    push_decimal(&mut s, slot as u32 + 1);
    s
}

/// The name length in a GetHostInfo reply: params[4], 0 in a short reply.
pub open spec fn info_name_len(p: Seq<u8>) -> u8 {
    if p.len() > 4 {
        p[4]
    } else {
        0
    }
}

/// The name bytes of a GetHostName reply: from params[2], at most
/// `name_len` of them, cut at the end of the report.
pub open spec fn host_name_bytes(np: Seq<u8>, name_len: u8) -> Seq<u8> {
    let avail: int = if np.len() >= 2 {
        np.len() - 2
    } else {
        0
    };
    let end: int = 2 + (if name_len < avail {
        name_len as int
    } else {
        avail
    });
    if end > 2 {
        np.subrange(2, end)
    } else {
        np.subrange(2, np.len() as int)
    }
}

/// The host name in a GetHostName reply: the lossy UTF-8 decoding of its
/// name bytes, trailing NULs removed.
pub open spec fn host_name(np: Seq<u8>, name_len: u8) -> Seq<char> {
    trim_trailing_nul(lossy_utf8(host_name_bytes(np, name_len)))
}

/// Where a host list read stands: waiting for the host count, or, for the
/// current slot, for the HOSTS_INFO capabilities, the host info, or the name.
#[derive(Debug, Clone, Copy, PartialEq, Eq, Structural)]
pub enum HostsStage {
    Count,
    Caps,
    Info,
    Name,
    Finished,
}

/// The name that the reply decides for the current slot, or None when the
/// next request of the slot is needed. Any error gives the default name;
/// HOSTS_INFO without name support (bit 0 of caps params[0]) or a zero name
/// length gives the default name too.
pub open spec fn host_step_name(stage: HostsStage, reply: Result<Message, Error>, slot: u8, name_len: u8) -> Option<Seq<char>> {
    match reply {
        Err(_) => Some(default_host_name(slot)),
        Ok(msg) => {
            let p = frame_params(msg@);
            match stage {
                HostsStage::Caps => if p[0] & 0x01 == 0 {
                    Some(default_host_name(slot))
                } else {
                    None
                },
                HostsStage::Info => if info_name_len(p) == 0 {
                    Some(default_host_name(slot))
                } else {
                    None
                },
                _ => Some(host_name(p, name_len)),
            }
        },
    }
}

/// `after` is `before` with one host appended: the given slot and name,
/// active when the slot is the current host.
pub open spec fn appended_host(before: Seq<HostInfo>, after: Seq<HostInfo>, slot: u8, name: Seq<char>, current: u8) -> bool {
    &&& after.len() == before.len() + 1
    &&& after.take(before.len() as int) == before
    &&& after.last().slot == slot
    &&& after.last().name@ == name
    &&& after.last().is_active == (slot == current)
}

/// Reads the host slots with FEAT_CHANGE_HOST (GetCount, function 0: number
/// of hosts params[0], current host params[1]) and, for each slot, its name
/// with FEAT_HOSTS_INFO: capabilities (function 0), host info (function 1,
/// [slot]) and name (function 3, [slot, 0]). Without FEAT_HOSTS_INFO every
/// slot gets its default name.
pub struct HostsReader {
    device: u8,
    ch_index: u8,
    hi_index: Option<u8>,
    stage: HostsStage,
    num: u8,
    current: u8,
    slot: u8,
    name_len: u8,
    hosts: Vec<HostInfo>,
}

impl HostsReader {
    #[verifier::type_invariant]
    closed spec fn inv(self) -> bool {
        (self.stage == HostsStage::Caps || self.stage == HostsStage::Info || self.stage
            == HostsStage::Name) ==> self.slot < self.num && self.hi_index is Some
    }

    pub closed spec fn target(&self) -> u8 {
        self.device
    }

    /// The index of FEAT_CHANGE_HOST.
    pub closed spec fn change_host_index(&self) -> u8 {
        self.ch_index
    }

    /// The index of FEAT_HOSTS_INFO, if the device has it.
    pub closed spec fn hosts_info_index(&self) -> Option<u8> {
        self.hi_index
    }

    pub closed spec fn stage(&self) -> HostsStage {
        self.stage
    }

    /// The number of host slots.
    pub closed spec fn host_count(&self) -> u8 {
        self.num
    }

    /// The current host slot.
    pub closed spec fn current_host(&self) -> u8 {
        self.current
    }

    /// The slot being read.
    pub closed spec fn slot(&self) -> u8 {
        self.slot
    }

    /// The name length from the current slot's host info.
    pub closed spec fn name_length(&self) -> u8 {
        self.name_len
    }

    /// The hosts read so far.
    pub closed spec fn listed(&self) -> Seq<HostInfo> {
        self.hosts@
    }

    /// A host list read of `device`: None at once without FEAT_CHANGE_HOST,
    /// otherwise the GetCount request.
    pub fn new(device: u8, features: &HashMap<u16, u8>) -> (r: (Self, Step<Option<Vec<HostInfo>>>))
        ensures
            hosts_read_started(device, features@, r.0, r.1),

    {
        let hi_index = feature_index_of(features, FEAT_HOSTS_INFO);
        match feature_index_of(features, FEAT_CHANGE_HOST) {
            None => (
                HostsReader {
                    device,
                    ch_index: 0,
                    hi_index,
                    stage: HostsStage::Finished,
                    num: 0,
                    current: 0,
                    slot: 0,
                    name_len: 0,
                    hosts: Vec::new(),
                },
                Step::Done(Ok(None)),
            ),
            Some(i) => (
                HostsReader {
                    device,
                    ch_index: i,
                    hi_index,
                    stage: HostsStage::Count,
                    num: 0,
                    current: 0,
                    slot: 0,
                    name_len: 0,
                    hosts: Vec::new(),
                },
                Step::Send(Message::short(device, i, fn_addr(0), 0, 0, 0)),
            ),
        }
    }

    /// Records the name of the current slot and moves to the next one.
    fn finish_slot(&mut self, name: String) -> (r: Step<Option<Vec<HostInfo>>>)
        requires
            old(self).slot < old(self).num,
            old(self).hi_index is Some,
        ensures
            final(self).device == old(self).device,
            final(self).hi_index == old(self).hi_index,
            final(self).num == old(self).num,
            final(self).current == old(self).current,
            ({
                let slot = old(self).slot;
                if slot + 1 == old(self).num {
                    &&& final(self).stage == HostsStage::Finished
                    &&& r matches Step::Done(Ok(Some(v))) && appended_host(
                        old(self).hosts@,
                        v@,
                        slot,
                        name@,
                        old(self).current,
                    )
                } else {
                    &&& final(self).stage == HostsStage::Caps
                    &&& final(self).slot == slot + 1
                    &&& appended_host(old(self).hosts@, final(self).hosts@, slot, name@, old(self).current)
                    &&& r matches Step::Send(m) && m@ == call_frame(
                        old(self).device,
                        old(self).hi_index->0,
                        0,
                    )
                }
            }),
    {
        let slot = self.slot;
        let mut hosts = Vec::new();
        std::mem::swap(&mut hosts, &mut self.hosts);
        let ghost before = hosts@;
        hosts.push(HostInfo { slot, name, is_active: slot == self.current });
        assert(hosts@.take(before.len() as int) =~= before);
        if slot + 1 == self.num {
            self.stage = HostsStage::Finished;
            Step::Done(Ok(Some(hosts)))
        } else {
            self.hosts = hosts;
            self.stage = HostsStage::Finished;
            self.slot = slot + 1;
            self.stage = HostsStage::Caps;
            let hi = match self.hi_index {
                Some(h) => h,
                None => 0,
            };
            Step::Send(Message::short(self.device, hi, fn_addr(0), 0, 0, 0))
        }
    }

    /// Feeds the reply to the last request and gives the next step (see
    /// `host_step_name` for how each slot's name is decided).
    pub fn on_reply(&mut self, reply: Result<Message, Error>) -> (r: Step<Option<Vec<HostInfo>>>)
        requires
            old(self).stage() != HostsStage::Finished,
        ensures
            hosts_read_step(*old(self), reply, *final(self), r),

    {
        proof {
            use_type_invariant(&*self);
        }
        match self.stage {
            HostsStage::Count => {
                let msg = match reply {
                    Err(e) => {
                        self.stage = HostsStage::Finished;
                        return Step::Done(Err(e));
                    },
                    Ok(m) => m,
                };
                let p = msg.params();
                let num = p[0];
                let current = p[1];
                if num == 0 {
                    self.stage = HostsStage::Finished;
                    return Step::Done(Ok(None));
                }
                match self.hi_index {
                    None => {
                        let mut hosts: Vec<HostInfo> = Vec::new();
                        let mut slot: u8 = 0;
                        while slot < num
                            invariant
                                slot <= num,
                                hosts@.len() == slot,
                                forall|k: int|
                                    0 <= k < slot ==> #[trigger] hosts@[k].slot == k
                                        && hosts@[k].name@ == default_host_name(k as u8)
                                        && hosts@[k].is_active == (k == current),
                            decreases num - slot,
                        {
                            let name = default_host_name_string(slot);
                            hosts.push(HostInfo { slot, name, is_active: slot == current });
                            slot = slot + 1;
                        }
                        self.stage = HostsStage::Finished;
                        Step::Done(Ok(Some(hosts)))
                    },
                    Some(h) => {
                        self.hosts = Vec::new();
                        self.num = num;
                        self.current = current;
                        self.slot = 0;
                        self.stage = HostsStage::Caps;
                        Step::Send(Message::short(self.device, h, fn_addr(0), 0, 0, 0))
                    },
                }
            },
            HostsStage::Caps => {
                let h = match self.hi_index {
                    Some(h) => h,
                    None => 0,
                };
                match reply {
                    Ok(msg) => {
                        if msg.params()[0] & 0x01 != 0 {
                            self.stage = HostsStage::Info;
                            return Step::Send(Message::short(self.device, h, fn_addr(1), self.slot, 0, 0));
                        }
                    },
                    Err(_) => {},
                }
                let name = default_host_name_string(self.slot);
                self.finish_slot(name)
            },
            HostsStage::Info => {
                let h = match self.hi_index {
                    Some(h) => h,
                    None => 0,
                };
                match reply {
                    Ok(msg) => {
                        let p = msg.params();
                        let name_len = if p.len() > 4 {
                            p[4]
                        } else {
                            0
                        };
                        if name_len != 0 {
                            self.name_len = name_len;
                            self.stage = HostsStage::Name;
                            return Step::Send(Message::short(self.device, h, fn_addr(3), self.slot, 0, 0));
                        }
                    },
                    Err(_) => {},
                }
                let name = default_host_name_string(self.slot);
                self.finish_slot(name)
            },
            _ => {
                let name = match reply {
                    Ok(msg) => {
                        let np = msg.params();
                        let avail = np.len() - 2;
                        let end = 2 + if (self.name_len as usize) < avail {
                            self.name_len as usize
                        } else {
                            avail
                        };
                        let raw = if end > 2 {
                            utf8_lossy(&np[2..end])
                        } else {
                            utf8_lossy(&np[2..np.len()])
                        };
                        trim_nul(raw.as_str())
                    },
                    Err(_) => default_host_name_string(self.slot),
                };
                self.finish_slot(name)
            },
        }
    }
}

/// How hosts_read starts: the reader's state and first step.
pub open spec fn hosts_read_started(device: u8, features: Map<u16, u8>, reader: HostsReader, step: Step<Option<Vec<HostInfo>>>) -> bool {
    &&& (reader.target() == device)
    &&& (step is Send ==> reader.stage() != HostsStage::Finished)
    &&& (reader.hosts_info_index() == feature_index_in(features, FEAT_HOSTS_INFO))
    &&& (reader.listed() == Seq::<HostInfo>::empty())
    &&& (match feature_index_in(features, FEAT_CHANGE_HOST) {
        None => step matches Step::Done(Ok(None)) && reader.stage() == HostsStage::Finished,
        Some(i) => step matches Step::Send(m) && m@ == call_frame(device, i, 0)
            && reader.stage() == HostsStage::Count && reader.change_host_index() == i,
    })
}

/// One step of hosts_read: from state `old`, the reply `reply` leads to state
/// `new` and step `r`.
pub open spec fn hosts_read_step(old: HostsReader, reply: Result<Message, Error>, new: HostsReader, r: Step<Option<Vec<HostInfo>>>) -> bool {
    &&& (new.target() == old.target())
    &&& (r is Send ==> new.stage() != HostsStage::Finished)
    &&& (new.hosts_info_index() == old.hosts_info_index())
    &&& (old.stage() == HostsStage::Count ==> match reply {
        Err(e) => r == Step::<Option<Vec<HostInfo>>>::Done(Err(e)) && new.stage()
            == HostsStage::Finished,
        Ok(msg) => {
            let num = frame_params(msg@)[0];
            let current = frame_params(msg@)[1];
            if num == 0 {
                r matches Step::Done(Ok(None)) && new.stage() == HostsStage::Finished
            } else {
                match old.hosts_info_index() {
                    None => {
                        &&& new.stage() == HostsStage::Finished
                        &&& r matches Step::Done(Ok(Some(v)))
                        &&& v@.len() == num
                        &&& forall|k: int|
                            0 <= k < num ==> #[trigger] v@[k].slot == k && v@[k].name@
                                == default_host_name(k as u8) && v@[k].is_active == (k
                                == current)
                    },
                    Some(h) => {
                        &&& new.stage() == HostsStage::Caps
                        &&& new.host_count() == num
                        &&& new.current_host() == current
                        &&& new.slot() == 0
                        &&& new.listed() == Seq::<HostInfo>::empty()
                        &&& r matches Step::Send(m) && m@ == call_frame(
                            old.target(),
                            h,
                            0,
                        )
                    },
                }
            }
        },
    })
    &&& (old.stage() != HostsStage::Count ==> {
        let slot = old.slot();
        let h = old.hosts_info_index()->0;
        let dev = old.target();
        &&& new.host_count() == old.host_count()
        &&& new.current_host() == old.current_host()
        &&& match host_step_name(old.stage(), reply, slot, old.name_length()) {
            Some(name) => if slot + 1 == old.host_count() {
                &&& new.stage() == HostsStage::Finished
                &&& r matches Step::Done(Ok(Some(v))) && appended_host(
                    old.listed(),
                    v@,
                    slot,
                    name,
                    old.current_host(),
                )
            } else {
                &&& new.stage() == HostsStage::Caps
                &&& new.slot() == slot + 1
                &&& appended_host(
                    old.listed(),
                    new.listed(),
                    slot,
                    name,
                    old.current_host(),
                )
                &&& r matches Step::Send(m) && m@ == call_frame(dev, h, 0)
            },
            None => {
                &&& new.slot() == slot
                &&& new.listed() == old.listed()
                &&& old.stage() == HostsStage::Caps ==> (new.stage()
                    == HostsStage::Info && (r matches Step::Send(m) && m@ == call_frame1(
                    dev,
                    h,
                    1,
                    slot,
                )))
                &&& old.stage() == HostsStage::Info ==> (reply is Ok
                    && new.stage() == HostsStage::Name && new.name_length()
                    == info_name_len(frame_params(reply->Ok_0@)) && (r matches Step::Send(m)
                    && m@ == short_frame(dev, h, function_address(3), slot, 0, 0)))
            },
        }
    })
}

// -- Multiplatform (0x4531): reading -----------------------------------------

/// One platform descriptor returned by FEAT_MULTIPLATFORM.
#[derive(Debug, Clone)]
pub struct PlatformDescriptor {
    pub index: u8,
    /// Human-readable OS name derived from the os_flags bitmask.
    pub name: String,
}

/// Multiplatform / OS layout selection state.
///
/// can_set:   false when the device does not allow changing the platform.
/// current:   index of the currently active platform descriptor.
/// platforms: list of available platform descriptors in descriptor order.
#[derive(Debug, Clone)]
pub struct MultiplatformInfo {
    pub can_set: bool,
    pub current: u8,
    pub platforms: Vec<PlatformDescriptor>,
}

/// The OS that an os_flags bitmask names, checked in the order macOS
/// (0x2000), Windows (0x0100), Linux (0x0400), iOS (0x4000), Android
/// (0x1000); "Other" when none is set.
pub open spec fn os_name(flags: u16) -> Seq<char> {
    if flags & 0x2000 != 0 {
        "macOS"@
    } else if flags & 0x0100 != 0 {
        "Windows"@
    } else if flags & 0x0400 != 0 {
        "Linux"@
    } else if flags & 0x4000 != 0 {
        "iOS"@
    } else if flags & 0x1000 != 0 {
        "Android"@
    } else {
        "Other"@
    }
}

/// Human-readable OS name of an os_flags bitmask (see `os_name`).
pub fn os_name_from_flags(flags: u16) -> (r: String)
    ensures
        r@ == os_name(flags),
{
    if flags & 0x2000 != 0 {
        "macOS".to_owned()
    } else if flags & 0x0100 != 0 {
        "Windows".to_owned()
    } else if flags & 0x0400 != 0 {
        "Linux".to_owned()
    } else if flags & 0x4000 != 0 {
        "iOS".to_owned()
    } else if flags & 0x1000 != 0 {
        "Android".to_owned()
    } else {
        "Other".to_owned()
    }
}

/// The os_flags of a GetPlatformDescriptor reply: params[2..4] big-endian
/// (0 in a short reply).
pub open spec fn descriptor_os_flags(p: Seq<u8>) -> u16 {
    if p.len() >= 4 {
        be16(p[2], p[3])
    } else {
        0
    }
}

/// `after` is `before` with the descriptor of a GetPlatformDescriptor reply
/// appended: platform index params[0], name from the os_flags.
pub open spec fn appended_platform(before: Seq<PlatformDescriptor>, after: Seq<PlatformDescriptor>, p: Seq<u8>) -> bool {
    &&& after.len() == before.len() + 1
    &&& after.take(before.len() as int) == before
    &&& after.last().index == p[0]
    &&& after.last().name@ == os_name(descriptor_os_flags(p))
}

/// Where a multiplatform read stands.
#[derive(Debug, Clone, Copy, PartialEq, Eq, Structural)]
pub enum PlatformStage {
    Info,
    Descriptor,
    Finished,
}

/// Reads the platforms with FEAT_MULTIPLATFORM: GetMultiplatformInfo
/// (function 0: flags params[0], bit 0x02 = can set; descriptor count
/// params[2]; current platform params[6]), then GetPlatformDescriptor
/// (function 1, [i]) for each descriptor: platform index params[0], os_flags
/// params[2..4].
pub struct PlatformReader {
    device: u8,
    index: u8,
    stage: PlatformStage,
    num: u8,
    current: u8,
    next: u8,
    platforms: Vec<PlatformDescriptor>,
}

impl PlatformReader {
    #[verifier::type_invariant]
    closed spec fn inv(self) -> bool {
        self.stage == PlatformStage::Descriptor ==> self.next < self.num
    }

    pub closed spec fn target(&self) -> u8 {
        self.device
    }

    /// The index of FEAT_MULTIPLATFORM.
    pub closed spec fn feature_index(&self) -> u8 {
        self.index
    }

    pub closed spec fn stage(&self) -> PlatformStage {
        self.stage
    }

    /// The number of platform descriptors.
    pub closed spec fn descriptor_count(&self) -> u8 {
        self.num
    }

    /// The current platform.
    pub closed spec fn current(&self) -> u8 {
        self.current
    }

    /// The descriptor asked for last.
    pub closed spec fn next(&self) -> u8 {
        self.next
    }

    /// The descriptors read so far.
    pub closed spec fn listed(&self) -> Seq<PlatformDescriptor> {
        self.platforms@
    }

    /// A multiplatform read of `device`: None at once without
    /// FEAT_MULTIPLATFORM, otherwise the GetMultiplatformInfo request.
    pub fn new(device: u8, features: &HashMap<u16, u8>) -> (r: (Self, Step<Option<MultiplatformInfo>>))
        ensures
            platform_read_started(device, features@, r.0, r.1),

    {
        match feature_index_of(features, FEAT_MULTIPLATFORM) {
            None => (
                PlatformReader {
                    device,
                    index: 0,
                    stage: PlatformStage::Finished,
                    num: 0,
                    current: 0,
                    next: 0,
                    platforms: Vec::new(),
                },
                Step::Done(Ok(None)),
            ),
            Some(i) => (
                PlatformReader {
                    device,
                    index: i,
                    stage: PlatformStage::Info,
                    num: 0,
                    current: 0,
                    next: 0,
                    platforms: Vec::new(),
                },
                Step::Send(Message::short(device, i, fn_addr(0), 0, 0, 0)),
            ),
        }
    }

    /// Feeds the reply to the last request and gives the next step. Any
    /// error ends the read with it; a device that cannot set the platform
    /// gives None.
    pub fn on_reply(&mut self, reply: Result<Message, Error>) -> (r: Step<Option<MultiplatformInfo>>)
        requires
            old(self).stage() != PlatformStage::Finished,
        ensures
            platform_read_step(*old(self), reply, *final(self), r),

    {
        proof {
            use_type_invariant(&*self);
        }
        let msg = match reply {
            Err(e) => {
                self.stage = PlatformStage::Finished;
                return Step::Done(Err(e));
            },
            Ok(m) => m,
        };
        let p = msg.params();
        match self.stage {
            PlatformStage::Info => {
                let num = p[2];
                let current = if p.len() > 6 {
                    p[6]
                } else {
                    0
                };
                if p[0] & 0x02 == 0 || num == 0 {
                    self.stage = PlatformStage::Finished;
                    return Step::Done(Ok(None));
                }
                self.platforms = Vec::new();
                self.num = num;
                self.current = current;
                self.next = 0;
                self.stage = PlatformStage::Descriptor;
                Step::Send(Message::short(self.device, self.index, fn_addr(1), 0, 0, 0))
            },
            _ => {
                let os_flags: u16 = if p.len() >= 4 {
                    be16_of(p[2], p[3])
                } else {
                    0
                };
                let name = os_name_from_flags(os_flags);
                let mut platforms = Vec::new();
                std::mem::swap(&mut platforms, &mut self.platforms);
                let ghost before = platforms@;
                platforms.push(PlatformDescriptor { index: p[0], name });
                assert(platforms@.take(before.len() as int) =~= before);
                let i = self.next;
                if i + 1 == self.num {
                    self.stage = PlatformStage::Finished;
                    if platforms.len() < 2 {
                        Step::Done(Ok(None))
                    } else {
                        Step::Done(Ok(Some(MultiplatformInfo { can_set: true, current: self.current, platforms })))
                    }
                } else {
                    self.platforms = platforms;
                    self.next = i + 1;
                    Step::Send(Message::short(self.device, self.index, fn_addr(1), i + 1, 0, 0))
                }
            },
        }
    }
}

/// How platform_read starts: the reader's state and first step.
pub open spec fn platform_read_started(device: u8, features: Map<u16, u8>, reader: PlatformReader, step: Step<Option<MultiplatformInfo>>) -> bool {
    &&& (reader.target() == device)
    &&& (step is Send ==> reader.stage() != PlatformStage::Finished)
    &&& (reader.listed() == Seq::<PlatformDescriptor>::empty())
    &&& (match feature_index_in(features, FEAT_MULTIPLATFORM) {
        None => step matches Step::Done(Ok(None)) && reader.stage() == PlatformStage::Finished,
        Some(i) => step matches Step::Send(m) && m@ == call_frame(device, i, 0)
            && reader.stage() == PlatformStage::Info && reader.feature_index() == i,
    })
}

/// One step of platform_read: from state `old`, the reply `reply` leads to state
/// `new` and step `r`.
pub open spec fn platform_read_step(old: PlatformReader, reply: Result<Message, Error>, new: PlatformReader, r: Step<Option<MultiplatformInfo>>) -> bool {
    &&& (new.target() == old.target())
    &&& (r is Send ==> new.stage() != PlatformStage::Finished)
    &&& (new.feature_index() == old.feature_index())
    &&& (reply matches Err(e) ==> r == Step::<Option<MultiplatformInfo>>::Done(Err(e))
        && new.stage() == PlatformStage::Finished)
    &&& (old.stage() == PlatformStage::Info ==> (reply matches Ok(msg) ==> {
        let p = frame_params(msg@);
        let num = p[2];
        let current: u8 = if p.len() > 6 {
            p[6]
        } else {
            0
        };
        if p[0] & 0x02 == 0 || num == 0 {
            r matches Step::Done(Ok(None)) && new.stage() == PlatformStage::Finished
        } else {
            &&& new.stage() == PlatformStage::Descriptor
            &&& new.descriptor_count() == num
            &&& new.current() == current
            &&& new.next() == 0
            &&& new.listed() == Seq::<PlatformDescriptor>::empty()
            &&& r matches Step::Send(m) && m@ == call_frame1(
                old.target(),
                old.feature_index(),
                1,
                0,
            )
        }
    }))
    &&& (old.stage() == PlatformStage::Descriptor ==> (reply matches Ok(msg) ==> {
        let p = frame_params(msg@);
        let i = old.next();
        let n = old.listed().len();
        if i + 1 == old.descriptor_count() {
            &&& new.stage() == PlatformStage::Finished
            &&& (n + 1 < 2 ==> r matches Step::Done(Ok(None)))
            &&& (n + 1 >= 2 ==> (r matches Step::Done(Ok(Some(info))) && info.can_set
                && info.current == old.current() && appended_platform(
                old.listed(),
                info.platforms@,
                p,
            )))
        } else {
            &&& new.stage() == PlatformStage::Descriptor
            &&& new.next() == i + 1
            &&& new.descriptor_count() == old.descriptor_count()
            &&& new.current() == old.current()
            &&& appended_platform(old.listed(), new.listed(), p)
            &&& r matches Step::Send(m) && m@ == call_frame1(
                old.target(),
                old.feature_index(),
                1,
                (i + 1) as u8,
            )
        }
    }))
}

// -- Firmware (0x0003) --------------------------------------------------------

/// The firmware kind of an entity type byte (0 firmware, 1 bootloader).
pub open spec fn firmware_kind_of(b: u8) -> FirmwareKind {
    match b {
        0 => FirmwareKind::Firmware,
        1 => FirmwareKind::Bootloader,
        _ => FirmwareKind::Other,
    }
}

/// "XX.YY.BZZWW" of a GetFwInfo entity reply: params[3], params[4], then
/// params[6] and params[7].
pub open spec fn firmware_version_text(p: Seq<u8>) -> Seq<char> {
    hex2(p[3]) + seq!['.'] + hex2(p[4]) + seq!['.', 'B'] + hex2(p[6]) + hex2(p[7])
}

/// The firmware entry of a GetFwInfo entity reply.
pub fn firmware_entry_from_params(p: &[u8]) -> (r: FirmwareInfo)
    requires
        p@.len() >= 8,
    ensures
        r.kind == firmware_kind_of(p@[0]),
        r.version@ == firmware_version_text(p@),
{
    let kind = match p[0] {
        0 => FirmwareKind::Firmware,
        1 => FirmwareKind::Bootloader,
        _ => FirmwareKind::Other,
    };
    let mut version = String::new();
    push_hex2(&mut version, p[3]);
    push_char(&mut version, '.');
    push_hex2(&mut version, p[4]);
    push_char(&mut version, '.');
    push_char(&mut version, 'B');
    push_hex2(&mut version, p[6]);
    push_hex2(&mut version, p[7]);
    assert(version@ =~= firmware_version_text(p@));
    FirmwareInfo { kind, version }
}

/// Where a firmware read stands.
#[derive(Debug, Clone, Copy, PartialEq, Eq, Structural)]
pub enum FirmwareStage {
    Count,
    Entity,
    Finished,
}

/// Reads the firmware list with FEAT_FW_VERSION: GetEntityCount (function
/// 0, params[0]) and GetFwInfo (function 1, [i]) for each entity. An entity
/// whose read fails, or whose reply is short, is skipped.
pub struct FirmwareReader {
    device: u8,
    index: u8,
    stage: FirmwareStage,
    count: u8,
    next: u8,
    entries: Vec<FirmwareInfo>,
}

impl FirmwareReader {
    #[verifier::type_invariant]
    closed spec fn inv(self) -> bool {
        self.stage == FirmwareStage::Entity ==> self.next < self.count
    }

    pub closed spec fn target(&self) -> u8 {
        self.device
    }

    /// The index of FEAT_FW_VERSION.
    pub closed spec fn feature_index(&self) -> u8 {
        self.index
    }

    pub closed spec fn stage(&self) -> FirmwareStage {
        self.stage
    }

    /// The number of firmware entities.
    pub closed spec fn entity_count(&self) -> u8 {
        self.count
    }

    /// The entity asked for last.
    pub closed spec fn next(&self) -> u8 {
        self.next
    }

    /// The entries read so far.
    pub closed spec fn listed(&self) -> Seq<FirmwareInfo> {
        self.entries@
    }

    /// A firmware read of `device`: an empty list at once without
    /// FEAT_FW_VERSION, otherwise the GetEntityCount request.
    pub fn new(device: u8, features: &HashMap<u16, u8>) -> (r: (Self, Step<Vec<FirmwareInfo>>))
        ensures
            firmware_read_started(device, features@, r.0, r.1),

    {
        match feature_index_of(features, FEAT_FW_VERSION) {
            None => (
                FirmwareReader {
                    device,
                    index: 0,
                    stage: FirmwareStage::Finished,
                    count: 0,
                    next: 0,
                    entries: Vec::new(),
                },
                Step::Done(Ok(Vec::new())),
            ),
            Some(i) => (
                FirmwareReader {
                    device,
                    index: i,
                    stage: FirmwareStage::Count,
                    count: 0,
                    next: 0,
                    entries: Vec::new(),
                },
                Step::Send(Message::short(device, i, fn_addr(0), 0, 0, 0)),
            ),
        }
    }

    /// Feeds the reply to the last request and gives the next step. An
    /// error on the count ends the read with it.
    pub fn on_reply(&mut self, reply: Result<Message, Error>) -> (r: Step<Vec<FirmwareInfo>>)
        requires
            old(self).stage() != FirmwareStage::Finished,
        ensures
            firmware_read_step(*old(self), reply, *final(self), r),

    {
        proof {
            use_type_invariant(&*self);
        }
        match self.stage {
            FirmwareStage::Count => {
                let msg = match reply {
                    Err(e) => {
                        self.stage = FirmwareStage::Finished;
                        return Step::Done(Err(e));
                    },
                    Ok(m) => m,
                };
                let count = msg.params()[0];
                if count == 0 {
                    self.stage = FirmwareStage::Finished;
                    return Step::Done(Ok(Vec::new()));
                }
                self.entries = Vec::new();
                self.count = count;
                self.next = 0;
                self.stage = FirmwareStage::Entity;
                Step::Send(Message::short(self.device, self.index, fn_addr(1), 0, 0, 0))
            },
            _ => {
                let mut entries = Vec::new();
                std::mem::swap(&mut entries, &mut self.entries);
                match reply {
                    Ok(msg) => {
                        let p = msg.params();
                        if p.len() >= 5 {
                            let ghost before = entries@;
                            entries.push(firmware_entry_from_params(p));
                            assert(entries@.take(before.len() as int) =~= before);
                        }
                    },
                    Err(_) => {},
                }
                let i = self.next;
                if i + 1 == self.count {
                    self.stage = FirmwareStage::Finished;
                    Step::Done(Ok(entries))
                } else {
                    self.entries = entries;
                    self.next = i + 1;
                    Step::Send(Message::short(self.device, self.index, fn_addr(1), i + 1, 0, 0))
                }
            },
        }
    }
}

/// How firmware_read starts: the reader's state and first step.
pub open spec fn firmware_read_started(device: u8, features: Map<u16, u8>, reader: FirmwareReader, step: Step<Vec<FirmwareInfo>>) -> bool {
    &&& (reader.target() == device)
    &&& (step is Send ==> reader.stage() != FirmwareStage::Finished)
    &&& (reader.listed() == Seq::<FirmwareInfo>::empty())
    &&& (match feature_index_in(features, FEAT_FW_VERSION) {
        None => step matches Step::Done(Ok(v)) && v@.len() == 0 && reader.stage()
            == FirmwareStage::Finished,
        Some(i) => step matches Step::Send(m) && m@ == call_frame(device, i, 0)
            && reader.stage() == FirmwareStage::Count && reader.feature_index() == i,
    })
}

/// One step of firmware_read: from state `old`, the reply `reply` leads to state
/// `new` and step `r`.
pub open spec fn firmware_read_step(old: FirmwareReader, reply: Result<Message, Error>, new: FirmwareReader, r: Step<Vec<FirmwareInfo>>) -> bool {
    &&& (new.target() == old.target())
    &&& (r is Send ==> new.stage() != FirmwareStage::Finished)
    &&& (new.feature_index() == old.feature_index())
    &&& (old.stage() == FirmwareStage::Count ==> match reply {
        Err(e) => r == Step::<Vec<FirmwareInfo>>::Done(Err(e)) && new.stage()
            == FirmwareStage::Finished,
        Ok(msg) => {
            let count = frame_params(msg@)[0];
            if count == 0 {
                r matches Step::Done(Ok(v)) && v@.len() == 0 && new.stage()
                    == FirmwareStage::Finished
            } else {
                &&& new.stage() == FirmwareStage::Entity
                &&& new.entity_count() == count
                &&& new.next() == 0
                &&& new.listed() == Seq::<FirmwareInfo>::empty()
                &&& r matches Step::Send(m) && m@ == call_frame1(
                    old.target(),
                    old.feature_index(),
                    1,
                    0,
                )
            }
        },
    })
    &&& (old.stage() == FirmwareStage::Entity ==> {
        let i = old.next();
        let list = if i + 1 == old.entity_count() {
            r->Done_0->Ok_0@
        } else {
            new.listed()
        };
        &&& match reply {
            Ok(msg) if frame_params(msg@).len() >= 5 => {
                let p = frame_params(msg@);
                &&& list.len() == old.listed().len() + 1
                &&& list.take(old.listed().len() as int) == old.listed()
                &&& list.last().kind == firmware_kind_of(p[0])
                &&& list.last().version@ == firmware_version_text(p)
            },
            _ => list == old.listed(),
        }
        &&& if i + 1 == old.entity_count() {
            new.stage() == FirmwareStage::Finished && r is Done && r->Done_0 is Ok
        } else {
            &&& new.stage() == FirmwareStage::Entity
            &&& new.next() == i + 1
            &&& new.entity_count() == old.entity_count()
            &&& r matches Step::Send(m) && m@ == call_frame1(
                old.target(),
                old.feature_index(),
                1,
                (i + 1) as u8,
            )
        }
    })
}

// -- Battery with fallbacks ---------------------------------------------------

/// The battery features in the order they are tried: UNIFIED_BATTERY
/// (GetStatus, function 1), BATTERY_STATUS (function 0), BATTERY_VOLTAGE
/// (function 0).
pub open spec fn battery_feature(k: int) -> u16 {
    if k == 0 {
        FEAT_UNIFIED_BATTERY
    } else if k == 1 {
        FEAT_BATTERY_STATUS
    } else {
        FEAT_BATTERY_VOLTAGE
    }
}

/// The function that reads the battery from each battery feature.
pub open spec fn battery_function(k: int) -> u8 {
    if k == 0 {
        1
    } else {
        0
    }
}

/// The first battery feature (in trying order) at or after `from` that the
/// table holds; 3 when there is none.
pub open spec fn first_battery_source(features: Map<u16, u8>, from: int) -> int
    decreases 3 - from,
{
    if from >= 3 {
        3
    } else if features.contains_key(battery_feature(from)) {
        from
    } else {
        first_battery_source(features, from + 1)
    }
}

/// The battery a reply of battery feature `k` reports.
pub open spec fn battery_from_source(k: int, msg: Seq<u8>) -> Battery {
    let p = frame_params(msg);
    if k == 0 {
        Battery {
            level: Some(if p[0] > 0 { p[0] } else { unified_level_percent(p[1]) }),
            status: Some(battery_status_of_code(p[2])),
            voltage: None,
        }
    } else if k == 1 {
        Battery {
            level: Some(p[0]),
            status: Some(battery_status_of_code(p[2])),
            voltage: None,
        }
    } else {
        Battery { level: None, status: None, voltage: Some(be16(p[0], p[1])) }
    }
}

/// Reads a HID++ 2.0 battery: the battery features the device has are tried
/// in order (unified, status, voltage); the first one that answers gives the
/// battery, a failed read moves on to the next, and with none left the
/// battery is unknown (None). The read itself never fails.
pub struct BatteryReader {
    device: u8,
    features: Ghost<Map<u16, u8>>,
    indices: [Option<u8>; 3],
    source: u8,
}

impl BatteryReader {
    #[verifier::type_invariant]
    closed spec fn inv(self) -> bool {
        &&& self.source <= 3
        &&& forall|k: int|
            0 <= k < 3 ==> #[trigger] self.indices@[k] == feature_index_in(
                self.features@,
                battery_feature(k),
            )
    }

    pub closed spec fn target(&self) -> u8 {
        self.device
    }

    /// The feature table the reader chose from.
    pub closed spec fn table(&self) -> Map<u16, u8> {
        self.features@
    }

    /// The battery feature being read (3 once finished).
    pub closed spec fn source(&self) -> int {
        self.source as int
    }

    /// Starts reading the battery from the first source in `from..3`.
    fn start_at(&mut self, from: u8) -> (r: Step<Option<Battery>>)
        requires
            from <= 3,
            old(self).source <= 3,
            forall|k: int|
                0 <= k < 3 ==> #[trigger] old(self).indices@[k] == feature_index_in(
                    old(self).features@,
                    battery_feature(k),
                ),
        ensures
            final(self).device == old(self).device,
            final(self).features == old(self).features@,
            final(self).indices == old(self).indices,
            final(self).source <= 3,
            ({
                let k = first_battery_source(old(self).features@, from as int);
                &&& final(self).source == k
                &&& if k == 3 {
                    r matches Step::Done(Ok(None))
                } else {
                    r matches Step::Send(m) && m@ == call_frame(
                        old(self).device,
                        old(self).features@[battery_feature(k)],
                        battery_function(k),
                    )
                }
            }),
    {
        let mut k = from;
        while k < 3 && self.indices[k as usize].is_none()
            invariant
                from <= k <= 3,
                forall|j: int|
                    0 <= j < 3 ==> #[trigger] self.indices@[j] == feature_index_in(
                        self.features@,
                        battery_feature(j),
                    ),
                first_battery_source(self.features@, from as int) == first_battery_source(
                    self.features@,
                    k as int,
                ),
            decreases 3 - k,
        {
            assert(self.indices@[k as int] == feature_index_in(self.features@, battery_feature(k as int)));
            k = k + 1;
        }
        self.source = k;
        if k == 3 {
            return Step::Done(Ok(None));
        }
        assert(self.indices@[k as int] == feature_index_in(self.features@, battery_feature(k as int)));
        let idx = match self.indices[k as usize] {
            Some(i) => i,
            None => 0,
        };
        let function: u8 = if k == 0 {
            1
        } else {
            0
        };
        Step::Send(Message::short(self.device, idx, fn_addr(function), 0, 0, 0))
    }

    /// A battery read of `device` with the given feature table, with its
    /// first step.
    pub fn new(device: u8, features: &HashMap<u16, u8>) -> (r: (Self, Step<Option<Battery>>))
        ensures
            battery_read_started(device, features@, r.0, r.1),

    {
        let indices = [
            feature_index_of(features, FEAT_UNIFIED_BATTERY),
            feature_index_of(features, FEAT_BATTERY_STATUS),
            feature_index_of(features, FEAT_BATTERY_VOLTAGE),
        ];
        let mut reader = BatteryReader { device, features: Ghost(features@), indices, source: 0 };
        let step = reader.start_at(0);
        (reader, step)
    }

    /// Feeds the reply of the current source: a reply gives the battery, an
    /// error moves on to the next source.
    pub fn on_reply(&mut self, reply: Result<Message, Error>) -> (r: Step<Option<Battery>>)
        requires
            old(self).source() < 3,
        ensures
            battery_read_step(*old(self), reply, *final(self), r),

    {
        proof {
            use_type_invariant(&*self);
        }
        let k = self.source;
        match reply {
            Ok(msg) => {
                let b = if k == 0 {
                    unified_battery_from_reply(&msg)
                } else if k == 1 {
                    battery_status_from_reply(&msg)
                } else {
                    battery_voltage_from_reply(&msg)
                };
                self.source = 3;
                Step::Done(Ok(Some(b)))
            },
            Err(_) => {
                let mut copy = BatteryReader {
                    device: self.device,
                    features: self.features,
                    indices: self.indices,
                    source: self.source,
                };
                let step = copy.start_at(k + 1);
                *self = copy;
                step
            },
        }
    }
}

/// How battery_read starts: the reader's state and first step.
pub open spec fn battery_read_started(device: u8, features: Map<u16, u8>, reader: BatteryReader, step: Step<Option<Battery>>) -> bool {
    &&& (reader.target() == device)
    &&& (reader.table() == features)
    &&& (step is Send ==> reader.source() < 3)
    &&& (({
        let k = first_battery_source(features, 0);
        &&& reader.source() == k
        &&& if k == 3 {
            step matches Step::Done(Ok(None))
        } else {
            step matches Step::Send(m) && m@ == call_frame(
                device,
                features[battery_feature(k)],
                battery_function(k),
            )
        }
    }))
}

/// One step of battery_read: from state `old`, the reply `reply` leads to state
/// `new` and step `r`.
pub open spec fn battery_read_step(old: BatteryReader, reply: Result<Message, Error>, new: BatteryReader, r: Step<Option<Battery>>) -> bool {
    &&& (new.target() == old.target())
    &&& (new.table() == old.table())
    &&& (r is Send ==> new.source() < 3)
    &&& (match reply {
        Ok(msg) => new.source() == 3 && r == Step::<Option<Battery>>::Done(
            Ok(Some(battery_from_source(old.source(), msg@))),
        ),
        Err(_) => {
            let k = first_battery_source(old.table(), old.source() + 1);
            &&& new.source() == k
            &&& if k == 3 {
                r matches Step::Done(Ok(None))
            } else {
                r matches Step::Send(m) && m@ == call_frame(
                    old.target(),
                    old.table()[battery_feature(k)],
                    battery_function(k),
                )
            }
        },
    })
}

// -- Laws of the settings replies and requests ----------------------------------

/// A GetSensorDpi reply answers a DPI read with its current DPI
/// (params[1..3], big-endian) whenever that value is nonzero; only a current
/// of 0 (or a reply too short to hold one) falls back to the default DPI
/// (params[3..5], big-endian), which is always reported as the default.
pub proof fn lemma_dpi_reply_reports_current(
    old: DpiReader,
    msg: Message,
    new: DpiReader,
    r: Step<Option<DpiInfo>>,
)
    requires
        old.stage() == DpiStage::Current,
        dpi_read_step(old, Ok(msg), new, r),
    ensures
        ({
            let p = frame_params(msg@);
            let current = if p.len() >= 3 { p[1] as int * 256 + p[2] as int } else { 0 };
            let default = if p.len() >= 5 { p[3] as int * 256 + p[4] as int } else { 0 };
            &&& r matches Step::Done(Ok(Some(info)))
            &&& info.default_dpi == default
            &&& current != 0 ==> info.current_dpi == current
            &&& current == 0 ==> info.current_dpi == default
        }),
{
}

/// Without a state of charge, a UNIFIED_BATTERY level code is reported as the
/// percentage of its category: 8 (full) 90, 4 (good) 50, 2 (low) 20,
/// 1 (critical) 5, anything else (empty) 0. Between documented codes the
/// percentage grows with the code.
pub proof fn lemma_unified_level_follows_code(a: u8, b: u8)
    ensures
        unified_level_percent(8) == 90 && 90 == battery_level_percent(BatteryLevel::Full),
        unified_level_percent(4) == 50 && 50 == battery_level_percent(BatteryLevel::Good),
        unified_level_percent(2) == 20 && 20 == battery_level_percent(BatteryLevel::Low),
        unified_level_percent(1) == 5 && 5 == battery_level_percent(BatteryLevel::Critical),
        (a != 1 && a != 2 && a != 4 && a != 8) ==> unified_level_percent(a) == 0
            && unified_level_percent(a) == battery_level_percent(BatteryLevel::Empty),
        (a == 0 || a == 1 || a == 2 || a == 4 || a == 8) && (b == 0 || b == 1 || b == 2 || b == 4
            || b == 8) && a <= b ==> unified_level_percent(a) <= unified_level_percent(b),
{
}

/// The SetMode byte of a scroll write has bit 0x04 exactly when the wheel is
/// inverted and bit 0x02 exactly when hi-res is on, and no other bit; so the
/// mode that a read then reports (bits 0x04 and 0x02 of the GetMode byte)
/// is the mode written.
pub proof fn lemma_scroll_mode_byte_round_trip(inverted: bool, hires_enabled: bool)
    ensures
        (scroll_mode_byte(inverted, hires_enabled) & 0x04 != 0) == inverted,
        (scroll_mode_byte(inverted, hires_enabled) & 0x02 != 0) == hires_enabled,
        scroll_mode_byte(inverted, hires_enabled) & 0xF9 == 0,
{
    assert((0x04u8 | 0x02u8) & 0x04 != 0 && (0x04u8 | 0x02u8) & 0x02 != 0 && (0x04u8 | 0x02u8) & 0xF9 == 0) by (bit_vector);
    assert((0x04u8 | 0u8) & 0x04 != 0 && (0x04u8 | 0u8) & 0x02 == 0 && (0x04u8 | 0u8) & 0xF9 == 0) by (bit_vector);
    assert((0u8 | 0x02u8) & 0x04 == 0 && (0u8 | 0x02u8) & 0x02 != 0 && (0u8 | 0x02u8) & 0xF9 == 0) by (bit_vector);
    assert((0u8 | 0u8) & 0x04 == 0 && (0u8 | 0u8) & 0x02 == 0 && (0u8 | 0u8) & 0xF9 == 0) by (bit_vector);
}

/// A multiplatform descriptor names the OS of the first documented bit it
/// has, in the order macOS (0x2000), Windows (0x0100), Linux (0x0400), iOS
/// (0x4000), Android (0x1000); a descriptor with a single OS bit names that
/// OS, and one with none is "Other".
pub proof fn lemma_os_name_of_bits(flags: u16)
    ensures
        flags & 0x2000 != 0 ==> os_name(flags) == "macOS"@,
        flags & 0x2000 == 0 && flags & 0x0100 != 0 ==> os_name(flags) == "Windows"@,
        flags & 0x2000 == 0 && flags & 0x0100 == 0 && flags & 0x0400 != 0 ==> os_name(flags)
            == "Linux"@,
        flags & 0x2000 == 0 && flags & 0x0100 == 0 && flags & 0x0400 == 0 && flags & 0x4000 != 0
            ==> os_name(flags) == "iOS"@,
        flags & 0x2000 == 0 && flags & 0x0100 == 0 && flags & 0x0400 == 0 && flags & 0x4000 == 0
            && flags & 0x1000 != 0 ==> os_name(flags) == "Android"@,
        flags & 0x7500 == 0 ==> os_name(flags) == "Other"@,
        os_name(0x2000) == "macOS"@,
        os_name(0x0100) == "Windows"@,
        os_name(0x0400) == "Linux"@,
        os_name(0x4000) == "iOS"@,
        os_name(0x1000) == "Android"@,
{
    assert(flags & 0x7500 == 0 ==> flags & 0x2000 == 0 && flags & 0x0100 == 0 && flags & 0x0400
        == 0 && flags & 0x4000 == 0 && flags & 0x1000 == 0) by (bit_vector);
    assert(0x2000u16 & 0x2000 != 0) by (bit_vector);
    assert(0x0100u16 & 0x2000 == 0 && 0x0100u16 & 0x0100 != 0) by (bit_vector);
    assert(0x0400u16 & 0x2000 == 0 && 0x0400u16 & 0x0100 == 0 && 0x0400u16 & 0x0400 != 0) by (bit_vector);
    assert(0x4000u16 & 0x2000 == 0 && 0x4000u16 & 0x0100 == 0 && 0x4000u16 & 0x0400 == 0
        && 0x4000u16 & 0x4000 != 0) by (bit_vector);
    assert(0x1000u16 & 0x2000 == 0 && 0x1000u16 & 0x0100 == 0 && 0x1000u16 & 0x0400 == 0
        && 0x1000u16 & 0x4000 == 0 && 0x1000u16 & 0x1000 != 0) by (bit_vector);
}

/// A UNIFIED_BATTERY GetStatus reply gives its state of charge (params[0])
/// as the level when that is nonzero; otherwise the level approximates the
/// level code (params[1]): full 90, good 50, low 20, critical 5, else 0. The
/// charging byte (params[2]) gives the status; there is no voltage.
pub proof fn lemma_unified_battery_reply(msg: Seq<u8>)
    ensures
        ({
            let p = frame_params(msg);
            let b = battery_from_source(0, msg);
            &&& p[0] != 0 ==> b.level == Some(p[0])
            &&& p[0] == 0 && p[1] == 8 ==> b.level == Some(90u8)
            &&& p[0] == 0 && p[1] == 4 ==> b.level == Some(50u8)
            &&& p[0] == 0 && p[1] == 2 ==> b.level == Some(20u8)
            &&& p[0] == 0 && p[1] == 1 ==> b.level == Some(5u8)
            &&& p[0] == 0 && p[1] != 1 && p[1] != 2 && p[1] != 4 && p[1] != 8 ==> b.level == Some(0u8)
            &&& b.status == Some(battery_status_of_code(p[2]))
            &&& b.voltage is None
        }),
{
}

/// The HID++ 2.0 charging byte decodes by its table: 0 discharging, 1
/// recharging, 2 almost full, 3 full, 4 slow recharge, 5 invalid battery, 6
/// thermal error; any other byte counts as discharging.
pub proof fn lemma_battery_status_table(b: u8)
    ensures
        battery_status_of_code(0) == BatteryStatus::Discharging,
        battery_status_of_code(1) == BatteryStatus::Recharging,
        battery_status_of_code(2) == BatteryStatus::AlmostFull,
        battery_status_of_code(3) == BatteryStatus::Full,
        battery_status_of_code(4) == BatteryStatus::SlowRecharge,
        battery_status_of_code(5) == BatteryStatus::InvalidBattery,
        battery_status_of_code(6) == BatteryStatus::ThermalError,
        b > 6 ==> battery_status_of_code(b) == BatteryStatus::Discharging,
{
}

/// A DPI written with SetSensorDpi ([0, hi, lo]) reads back as the current
/// DPI of a GetSensorDpi reply carrying the same bytes, for any nonzero DPI.
pub proof fn lemma_dpi_write_read_round_trip(dpi: u16, p: Seq<u8>)
    requires
        dpi != 0,
        p.len() >= 3,
        p[1] == hi_byte(dpi),
        p[2] == lo_byte(dpi),
    ensures
        dpi_settings(p).0 == dpi,
{
    assert(hi_byte(dpi) as int * 256 + lo_byte(dpi) as int == dpi);
}

/// The FN swap written (1 when swapped, else 0) reads back, as bit 0 of the
/// GetFnInversionState byte, as the value written.
pub proof fn lemma_fn_swap_round_trip(swapped: bool)
    ensures
        ((if swapped { 1u8 } else { 0u8 }) & 0x01 != 0) == swapped,
{
    assert(1u8 & 0x01 != 0 && 0u8 & 0x01 == 0) by (bit_vector);
}

/// A backlight write of mode 0..=3 reads back as that mode: the enabled byte
/// is set exactly for a nonzero mode, and bits 3..5 of the options byte hold
/// the mode (the base bits 0..2 of the current options are kept).
pub proof fn lemma_backlight_mode_round_trip(cp: Seq<u8>, mode: u8, level: u8)
    requires
        cp.len() >= 12,
        mode <= 3,
    ensures
        ({
            let w = backlight_write_params(cp, mode, level);
            &&& (w[0] != 0) == (mode != 0)
            &&& (if w[0] != 0 { (w[1] >> 3u8) & 0x03 } else { 0 }) == mode
            &&& w[1] & 0x07 == cp[1] & 0x07
        }),
{
    let c = cp[1];
    assert(mode <= 3 ==> (((c & 0x07) | (mode << 3u8)) >> 3u8) & 0x03 == mode) by (bit_vector);
    assert(((c & 0x07) | (mode << 3u8)) & 0x07 == c & 0x07) by (bit_vector);
}

} // verus!
