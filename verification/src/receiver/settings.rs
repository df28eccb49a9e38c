//! Reading every configurable setting of a device after one feature discovery.

use std::collections::HashMap;
use vstd::prelude::*;
use crate::error::Error;
use crate::hidpp::hidpp20::{
    backlight_from_reply, backlight_request, call_frame, dpi_read_started, dpi_read_step,
    feature_discovery_started, feature_discovery_step, feature_index_in, feature_index_of,
    fn_feature_in, fn_settings_from_reply, fn_settings_request, hosts_read_started,
    hosts_read_step, optional_call, platform_read_started, platform_read_step,
    scroll_info_from_replies, scroll_info_requests, smart_shift_from_replies,
    smart_shift_requests, BacklightInfo, DiscoveryStage, DpiInfo, DpiReader, DpiStage,
    FeatureDiscovery, FnInfo, HostInfo, HostsReader, HostsStage, MultiplatformInfo,
    PlatformReader, PlatformStage, ScrollInfo, SmartShiftInfo, FEAT_BACKLIGHT2,
    FEAT_HIRES_WHEEL, FEAT_REPROG_CONTROLS, FEAT_SMART_SHIFT_ENHANCED,
};
use crate::hidpp::message::{Message, Step, frame_params, ok_or_none};
use crate::receiver::AllDeviceSettings;

verus! {

/// Where a settings read stands.
#[derive(Debug, Clone, Copy, PartialEq, Eq, Structural)]
pub enum SettingsStage {
    Discovery,
    Dpi,
    ScrollCaps,
    ScrollMode,
    ShiftCaps,
    ShiftMode,
    Hosts,
    FnState,
    Platforms,
    Backlight,
    Finished,
}

/// Reads all settings of a device: one feature discovery (whose error ends
/// the read with it), then DPI, scroll wheel, smart shift, hosts, FN
/// inversion, multiplatform and backlight, in that order. A setting whose
/// feature is absent, or whose read fails, is None.
pub struct SettingsReader {
    device: u8,
    stage: SettingsStage,
    features: HashMap<u16, u8>,
    discovery: Option<FeatureDiscovery>,
    dpi_reader: Option<DpiReader>,
    hosts_reader: Option<HostsReader>,
    platform_reader: Option<PlatformReader>,
    pending: Option<Message>,
    first_reply: Option<Message>,
    reprog: u8,
    dpi: Option<DpiInfo>,
    scroll: Option<ScrollInfo>,
    smart_shift: Option<SmartShiftInfo>,
    hosts: Option<Vec<HostInfo>>,
    fn_settings: Option<FnInfo>,
    multiplatform: Option<MultiplatformInfo>,
    backlight: Option<BacklightInfo>,
}

/// No setting read yet, with the REPROG_CONTROLS index.
pub open spec fn no_settings(reprog: u8) -> AllDeviceSettings {
    AllDeviceSettings {
        dpi: None,
        scroll: None,
        smart_shift: None,
        hosts: None,
        fn_settings: None,
        multiplatform: None,
        backlight: None,
        reprog_controls_idx: reprog,
    }
}

/// The REPROG_CONTROLS index of a feature table, 0 when absent.
pub open spec fn reprog_index_in(table: Map<u16, u8>) -> u8 {
    match feature_index_in(table, FEAT_REPROG_CONTROLS) {
        Some(i) => i,
        None => 0,
    }
}

/// `new` reads `device` with the given table at `stage`, with `acc` read so far.
pub open spec fn settings_at(
    new: SettingsReader,
    stage: SettingsStage,
    device: u8,
    table: Map<u16, u8>,
    acc: AllDeviceSettings,
) -> bool {
    &&& new.stage() == stage
    &&& new.target() == device
    &&& new.table() == table
    &&& new.collected() == acc
}

/// The read ends with `acc`.
pub open spec fn settings_done(acc: AllDeviceSettings, r: Step<AllDeviceSettings>, new: SettingsReader) -> bool {
    &&& r == Step::<AllDeviceSettings>::Done(Ok(acc))
    &&& new.stage() == SettingsStage::Finished
}

/// The backlight read starts: GetBacklightState, or without the feature the
/// read ends with no backlight.
pub open spec fn backlight_start(
    device: u8,
    table: Map<u16, u8>,
    acc: AllDeviceSettings,
    r: Step<AllDeviceSettings>,
    new: SettingsReader,
) -> bool {
    match optional_call(device, table, FEAT_BACKLIGHT2, 0) {
        Some(f) => r matches Step::Send(m) && m@ == f && settings_at(
            new,
            SettingsStage::Backlight,
            device,
            table,
            acc,
        ),
        None => settings_done(AllDeviceSettings { backlight: None, ..acc }, r, new),
    }
}

/// The multiplatform read starts; when it ends at once the backlight read follows.
pub open spec fn platforms_start(
    device: u8,
    table: Map<u16, u8>,
    acc: AllDeviceSettings,
    r: Step<AllDeviceSettings>,
    new: SettingsReader,
) -> bool {
    exists|p: PlatformReader, s: Step<Option<MultiplatformInfo>>|
        #[trigger] platform_read_started(device, table, p, s) && match s {
            Step::Send(m) => r == Step::<AllDeviceSettings>::Send(m) && settings_at(
                new,
                SettingsStage::Platforms,
                device,
                table,
                acc,
            ) && new.platform_reader() == Some(p),
            Step::Done(res) => backlight_start(
                device,
                table,
                AllDeviceSettings { multiplatform: ok_or_none(res), ..acc },
                r,
                new,
            ),
        }
}

/// The FN inversion read starts: GetFnInversionState, or without the
/// feature the multiplatform read follows.
pub open spec fn fn_start(
    device: u8,
    table: Map<u16, u8>,
    acc: AllDeviceSettings,
    r: Step<AllDeviceSettings>,
    new: SettingsReader,
) -> bool {
    match fn_feature_in(table) {
        Some(i) => r matches Step::Send(m) && m@ == call_frame(device, i, 0) && settings_at(
            new,
            SettingsStage::FnState,
            device,
            table,
            acc,
        ),
        None => platforms_start(device, table, AllDeviceSettings { fn_settings: None, ..acc }, r, new),
    }
}

/// The hosts read starts; when it ends at once the FN read follows.
pub open spec fn hosts_start(
    device: u8,
    table: Map<u16, u8>,
    acc: AllDeviceSettings,
    r: Step<AllDeviceSettings>,
    new: SettingsReader,
) -> bool {
    exists|h: HostsReader, s: Step<Option<Vec<HostInfo>>>|
        #[trigger] hosts_read_started(device, table, h, s) && match s {
            Step::Send(m) => r == Step::<AllDeviceSettings>::Send(m) && settings_at(
                new,
                SettingsStage::Hosts,
                device,
                table,
                acc,
            ) && new.hosts_reader() == Some(h),
            Step::Done(res) => fn_start(device, table, AllDeviceSettings { hosts: ok_or_none(res), ..acc }, r, new),
        }
}

/// The smart-shift read starts with GetCapabilities, GetRatchetControlMode
/// waiting; without the feature the hosts read follows.
pub open spec fn shift_start(
    device: u8,
    table: Map<u16, u8>,
    acc: AllDeviceSettings,
    r: Step<AllDeviceSettings>,
    new: SettingsReader,
) -> bool {
    match feature_index_in(table, FEAT_SMART_SHIFT_ENHANCED) {
        Some(i) => {
            &&& r matches Step::Send(m) && m@ == call_frame(device, i, 0)
            &&& settings_at(new, SettingsStage::ShiftCaps, device, table, acc)
            &&& new.pending() matches Some(q) && q@ == call_frame(device, i, 1)
        },
        None => hosts_start(device, table, AllDeviceSettings { smart_shift: None, ..acc }, r, new),
    }
}

/// The scroll read starts with GetCapabilities, GetMode waiting; without
/// the feature the smart-shift read follows.
pub open spec fn scroll_start(
    device: u8,
    table: Map<u16, u8>,
    acc: AllDeviceSettings,
    r: Step<AllDeviceSettings>,
    new: SettingsReader,
) -> bool {
    match feature_index_in(table, FEAT_HIRES_WHEEL) {
        Some(i) => {
            &&& r matches Step::Send(m) && m@ == call_frame(device, i, 0)
            &&& settings_at(new, SettingsStage::ScrollCaps, device, table, acc)
            &&& new.pending() matches Some(q) && q@ == call_frame(device, i, 1)
        },
        None => shift_start(device, table, AllDeviceSettings { scroll: None, ..acc }, r, new),
    }
}

/// The DPI read starts; when it ends at once the scroll read follows.
pub open spec fn dpi_start(
    device: u8,
    table: Map<u16, u8>,
    acc: AllDeviceSettings,
    r: Step<AllDeviceSettings>,
    new: SettingsReader,
) -> bool {
    exists|d: DpiReader, s: Step<Option<DpiInfo>>|
        #[trigger] dpi_read_started(device, table, d, s) && match s {
            Step::Send(m) => r == Step::<AllDeviceSettings>::Send(m) && settings_at(
                new,
                SettingsStage::Dpi,
                device,
                table,
                acc,
            ) && new.dpi_reader() == Some(d),
            Step::Done(res) => scroll_start(device, table, AllDeviceSettings { dpi: ok_or_none(res), ..acc }, r, new),
        }
}

/// One step of a settings read: from `old`, the reply `reply` leads to
/// `new` and step `r`.
pub open spec fn settings_read_step(
    old: SettingsReader,
    reply: Result<Message, Error>,
    new: SettingsReader,
    r: Step<AllDeviceSettings>,
) -> bool {
    let device = old.target();
    let table = old.table();
    let acc = old.collected();
    match old.stage() {
        SettingsStage::Discovery => exists|d: FeatureDiscovery, s: Step<()>|
            #[trigger] feature_discovery_step(old.discovery_reader()->0, reply, d, s) && match s {
                Step::Send(m) => r == Step::<AllDeviceSettings>::Send(m) && new.stage()
                    == SettingsStage::Discovery && new.target() == device && new.collected() == acc
                    && new.discovery_reader() == Some(d),
                Step::Done(Err(e)) => r == Step::<AllDeviceSettings>::Done(Err(e)) && new.stage()
                    == SettingsStage::Finished,
                Step::Done(Ok(_)) => dpi_start(
                    device,
                    d.table(),
                    no_settings(reprog_index_in(d.table())),
                    r,
                    new,
                ),
            },
        SettingsStage::Dpi => exists|d: DpiReader, s: Step<Option<DpiInfo>>|
            #[trigger] dpi_read_step(old.dpi_reader()->0, reply, d, s) && match s {
                Step::Send(m) => r == Step::<AllDeviceSettings>::Send(m) && settings_at(
                    new,
                    SettingsStage::Dpi,
                    device,
                    table,
                    acc,
                ) && new.dpi_reader() == Some(d),
                Step::Done(res) => scroll_start(device, table, AllDeviceSettings { dpi: ok_or_none(res), ..acc }, r, new),
            },
        SettingsStage::ScrollCaps => match reply {
            Ok(caps) => r == Step::<AllDeviceSettings>::Send(old.pending()->0) && settings_at(
                new,
                SettingsStage::ScrollMode,
                device,
                table,
                acc,
            ) && new.first_reply() == Some(caps),
            Err(_) => shift_start(device, table, AllDeviceSettings { scroll: None, ..acc }, r, new),
        },
        SettingsStage::ScrollMode => shift_start(
            device,
            table,
            AllDeviceSettings {
                scroll: match reply {
                    Ok(mode) => Some(scroll_info_from_spec(old.first_reply()->0, mode)),
                    Err(_) => None,
                },
                ..acc
            },
            r,
            new,
        ),
        SettingsStage::ShiftCaps => match reply {
            Ok(caps) => r == Step::<AllDeviceSettings>::Send(old.pending()->0) && settings_at(
                new,
                SettingsStage::ShiftMode,
                device,
                table,
                acc,
            ) && new.first_reply() == Some(caps),
            Err(_) => hosts_start(device, table, AllDeviceSettings { smart_shift: None, ..acc }, r, new),
        },
        SettingsStage::ShiftMode => hosts_start(
            device,
            table,
            AllDeviceSettings {
                smart_shift: match reply {
                    Ok(mode) => Some(smart_shift_from_spec(old.first_reply()->0, mode)),
                    Err(_) => None,
                },
                ..acc
            },
            r,
            new,
        ),
        SettingsStage::Hosts => exists|h: HostsReader, s: Step<Option<Vec<HostInfo>>>|
            #[trigger] hosts_read_step(old.hosts_reader()->0, reply, h, s) && match s {
                Step::Send(m) => r == Step::<AllDeviceSettings>::Send(m) && settings_at(
                    new,
                    SettingsStage::Hosts,
                    device,
                    table,
                    acc,
                ) && new.hosts_reader() == Some(h),
                Step::Done(res) => fn_start(device, table, AllDeviceSettings { hosts: ok_or_none(res), ..acc }, r, new),
            },
        SettingsStage::FnState => platforms_start(
            device,
            table,
            AllDeviceSettings {
                fn_settings: match reply {
                    Ok(msg) => Some(
                        FnInfo {
                            fn_swapped: frame_params(msg@)[0] & 0x01 != 0,
                            default_fn_swapped: frame_params(msg@)[1] & 0x01 != 0,
                        },
                    ),
                    Err(_) => None,
                },
                ..acc
            },
            r,
            new,
        ),
        SettingsStage::Platforms => exists|p: PlatformReader, s: Step<Option<MultiplatformInfo>>|
            #[trigger] platform_read_step(old.platform_reader()->0, reply, p, s) && match s {
                Step::Send(m) => r == Step::<AllDeviceSettings>::Send(m) && settings_at(
                    new,
                    SettingsStage::Platforms,
                    device,
                    table,
                    acc,
                ) && new.platform_reader() == Some(p),
                Step::Done(res) => backlight_start(
                    device,
                    table,
                    AllDeviceSettings { multiplatform: ok_or_none(res), ..acc },
                    r,
                    new,
                ),
            },
        SettingsStage::Backlight => settings_done(
            AllDeviceSettings {
                backlight: match reply {
                    Ok(msg) => Some(backlight_from_spec(msg)),
                    Err(_) => None,
                },
                ..acc
            },
            r,
            new,
        ),
        SettingsStage::Finished => true,
    }
}

impl SettingsReader {
    /// The reader of the current stage is running, the second request of a
    /// two-request setting is ready, and nothing is read before the table.
    pub closed spec fn wf(&self) -> bool {
        &&& self.stage == SettingsStage::Discovery ==> (self.discovery matches Some(d) && d.stage()
            != DiscoveryStage::Finished && self.dpi is None && self.scroll is None
            && self.smart_shift is None && self.hosts is None && self.fn_settings is None
            && self.multiplatform is None && self.backlight is None)
        &&& self.stage == SettingsStage::Dpi ==> (self.dpi_reader matches Some(d) && d.stage()
            != DpiStage::Finished)
        &&& self.stage == SettingsStage::Hosts ==> (self.hosts_reader matches Some(h) && h.stage()
            != HostsStage::Finished)
        &&& self.stage == SettingsStage::Platforms ==> (self.platform_reader matches Some(p)
            && p.stage() != PlatformStage::Finished)
        &&& (self.stage == SettingsStage::ScrollCaps || self.stage == SettingsStage::ShiftCaps)
            ==> self.pending is Some
        &&& (self.stage == SettingsStage::ScrollMode || self.stage == SettingsStage::ShiftMode)
            ==> self.first_reply is Some
    }

    pub closed spec fn target(&self) -> u8 {
        self.device
    }

    pub closed spec fn stage(&self) -> SettingsStage {
        self.stage
    }

    /// The discovered feature table.
    pub closed spec fn table(&self) -> Map<u16, u8> {
        self.features@
    }

    /// The settings read so far, with the REPROG_CONTROLS index.
    pub closed spec fn collected(&self) -> AllDeviceSettings {
        AllDeviceSettings {
            dpi: self.dpi,
            scroll: self.scroll,
            smart_shift: self.smart_shift,
            hosts: self.hosts,
            fn_settings: self.fn_settings,
            multiplatform: self.multiplatform,
            backlight: self.backlight,
            reprog_controls_idx: self.reprog,
        }
    }

    /// The second request of the two-request setting being read.
    pub closed spec fn pending(&self) -> Option<Message> {
        self.pending
    }

    /// The capability reply of the two-request setting being read.
    pub closed spec fn first_reply(&self) -> Option<Message> {
        self.first_reply
    }

    /// The running feature discovery.
    pub closed spec fn discovery_reader(&self) -> Option<FeatureDiscovery> {
        self.discovery
    }

    /// The running DPI read.
    pub closed spec fn dpi_reader(&self) -> Option<DpiReader> {
        self.dpi_reader
    }

    /// The running hosts read.
    pub closed spec fn hosts_reader(&self) -> Option<HostsReader> {
        self.hosts_reader
    }

    /// The running multiplatform read.
    pub closed spec fn platform_reader(&self) -> Option<PlatformReader> {
        self.platform_reader
    }

    /// A settings read of `device` and its first request (the feature discovery's).
    pub fn new(device: u8) -> (r: (Self, Message))
        ensures
            r.0.wf(),
            r.0.target() == device,
            r.0.stage() == SettingsStage::Discovery,
            r.0.collected() == no_settings(0),
            r.0.discovery_reader() matches Some(d) && feature_discovery_started(device, d, r.1),
    {
        let (d, m) = FeatureDiscovery::new(device);
        (
            SettingsReader {
                device,
                stage: SettingsStage::Discovery,
                features: HashMap::new(),
                discovery: Some(d),
                dpi_reader: None,
                hosts_reader: None,
                platform_reader: None,
                pending: None,
                first_reply: None,
                reprog: 0,
                dpi: None,
                scroll: None,
                smart_shift: None,
                hosts: None,
                fn_settings: None,
                multiplatform: None,
                backlight: None,
            },
            m,
        )
    }

    /// Ends the read with everything read.
    fn finish(&mut self) -> (r: Step<AllDeviceSettings>)
        ensures
            final(self).wf(),
            final(self).device == old(self).device,
            settings_done(old(self).collected(), r, *final(self)),
    {
        self.stage = SettingsStage::Finished;
        let dpi = self.dpi.take();
        let hosts = self.hosts.take();
        let multiplatform = self.multiplatform.take();
        Step::Done(
            Ok(
                AllDeviceSettings {
                    dpi,
                    scroll: self.scroll,
                    smart_shift: self.smart_shift,
                    hosts,
                    fn_settings: self.fn_settings,
                    multiplatform,
                    backlight: self.backlight,
                    reprog_controls_idx: self.reprog,
                },
            ),
        )
    }

    fn start_backlight(&mut self) -> (r: Step<AllDeviceSettings>)
        ensures
            final(self).wf(),
            final(self).device == old(self).device,
            backlight_start(old(self).device, old(self).features@, old(self).collected(), r, *final(self)),
    {
        match backlight_request(self.device, &self.features) {
            Some(m) => {
                self.stage = SettingsStage::Backlight;
                Step::Send(m)
            },
            None => {
                self.backlight = None;
                self.finish()
            },
        }
    }

    fn start_platforms(&mut self) -> (r: Step<AllDeviceSettings>)
        ensures
            final(self).wf(),
            final(self).device == old(self).device,
            platforms_start(old(self).device, old(self).features@, old(self).collected(), r, *final(self)),
    {
        let (p, step) = PlatformReader::new(self.device, &self.features);
        let ghost pg = p;
        let ghost sg = step;
        let ghost before = *self;
        let r = match step {
            Step::Send(m) => {
                self.platform_reader = Some(p);
                self.stage = SettingsStage::Platforms;
                Step::Send(m)
            },
            Step::Done(result) => {
                self.multiplatform = match result {
                    Ok(v) => v,
                    Err(_) => None,
                };
                self.start_backlight()
            },
        };
        assert(platform_read_started(before.device, before.features@, pg, sg));
        r
    }

    fn start_fn(&mut self) -> (r: Step<AllDeviceSettings>)
        ensures
            final(self).wf(),
            final(self).device == old(self).device,
            fn_start(old(self).device, old(self).features@, old(self).collected(), r, *final(self)),
    {
        match fn_settings_request(self.device, &self.features) {
            Some(m) => {
                self.stage = SettingsStage::FnState;
                Step::Send(m)
            },
            None => {
                self.fn_settings = None;
                self.start_platforms()
            },
        }
    }

    fn start_hosts(&mut self) -> (r: Step<AllDeviceSettings>)
        ensures
            final(self).wf(),
            final(self).device == old(self).device,
            hosts_start(old(self).device, old(self).features@, old(self).collected(), r, *final(self)),
    {
        let (h, step) = HostsReader::new(self.device, &self.features);
        let ghost hg = h;
        let ghost sg = step;
        let ghost before = *self;
        let r = match step {
            Step::Send(m) => {
                self.hosts_reader = Some(h);
                self.stage = SettingsStage::Hosts;
                Step::Send(m)
            },
            Step::Done(result) => {
                self.hosts = match result {
                    Ok(v) => v,
                    Err(_) => None,
                };
                self.start_fn()
            },
        };
        assert(hosts_read_started(before.device, before.features@, hg, sg));
        r
    }

    fn start_shift(&mut self) -> (r: Step<AllDeviceSettings>)
        ensures
            final(self).wf(),
            final(self).device == old(self).device,
            shift_start(old(self).device, old(self).features@, old(self).collected(), r, *final(self)),
    {
        match smart_shift_requests(self.device, &self.features) {
            Some((caps, mode)) => {
                self.pending = Some(mode);
                self.stage = SettingsStage::ShiftCaps;
                Step::Send(caps)
            },
            None => {
                self.smart_shift = None;
                self.start_hosts()
            },
        }
    }

    fn start_scroll(&mut self) -> (r: Step<AllDeviceSettings>)
        ensures
            final(self).wf(),
            final(self).device == old(self).device,
            scroll_start(old(self).device, old(self).features@, old(self).collected(), r, *final(self)),
    {
        match scroll_info_requests(self.device, &self.features) {
            Some((caps, mode)) => {
                self.pending = Some(mode);
                self.stage = SettingsStage::ScrollCaps;
                Step::Send(caps)
            },
            None => {
                self.scroll = None;
                self.start_shift()
            },
        }
    }

    fn start_dpi(&mut self) -> (r: Step<AllDeviceSettings>)
        ensures
            final(self).wf(),
            final(self).device == old(self).device,
            dpi_start(old(self).device, old(self).features@, old(self).collected(), r, *final(self)),
    {
        let (d, step) = DpiReader::new(self.device, &self.features);
        let ghost dg = d;
        let ghost sg = step;
        let ghost before = *self;
        let r = match step {
            Step::Send(m) => {
                self.dpi_reader = Some(d);
                self.stage = SettingsStage::Dpi;
                Step::Send(m)
            },
            Step::Done(result) => {
                self.dpi = match result {
                    Ok(v) => v,
                    Err(_) => None,
                };
                self.start_scroll()
            },
        };
        assert(dpi_read_started(before.device, before.features@, dg, sg));
        r
    }

    /// Feeds the reply to the last request and gives the next step, as
    /// `settings_read_step` describes: the discovery, DPI, hosts and
    /// multiplatform readers decide by their own contracts; a capability
    /// reply is kept and the second request follows; the mode reply then
    /// gives the setting; any error makes the setting None; each setting
    /// whose feature is absent is skipped.
    pub fn on_reply(&mut self, reply: Result<Message, Error>) -> (r: Step<AllDeviceSettings>)
        requires
            old(self).wf(),
            old(self).stage() != SettingsStage::Finished,
        ensures
            final(self).wf(),
            final(self).target() == old(self).target(),
            r is Done ==> final(self).stage() == SettingsStage::Finished,
            settings_read_step(*old(self), reply, *final(self), r),
    {
        let ghost before = *self;
        match self.stage {
            SettingsStage::Discovery => {
                let mut d = match self.discovery.take() {
                    Some(d) => d,
                    None => {
                        return self.finish();
                    },
                };
                let step = d.on_reply(reply);
                let ghost dg = d;
                let ghost sg = step;
                assert(feature_discovery_step(before.discovery->0, reply, dg, sg));
                match step {
                    Step::Send(m) => {
                        self.discovery = Some(d);
                        Step::Send(m)
                    },
                    Step::Done(Err(e)) => {
                        self.stage = SettingsStage::Finished;
                        Step::Done(Err(e))
                    },
                    Step::Done(Ok(())) => {
                        self.features = d.into_features();
                        self.reprog = match feature_index_of(&self.features, FEAT_REPROG_CONTROLS) {
                            Some(i) => i,
                            None => 0,
                        };
                        self.start_dpi()
                    },
                }
            },
            SettingsStage::Dpi => {
                let mut d = match self.dpi_reader.take() {
                    Some(d) => d,
                    None => {
                        return self.start_scroll();
                    },
                };
                let step = d.on_reply(reply);
                let ghost dg = d;
                let ghost sg = step;
                assert(dpi_read_step(before.dpi_reader->0, reply, dg, sg));
                match step {
                    Step::Send(m) => {
                        self.dpi_reader = Some(d);
                        Step::Send(m)
                    },
                    Step::Done(result) => {
                        self.dpi = match result {
                            Ok(v) => v,
                            Err(_) => None,
                        };
                        self.start_scroll()
                    },
                }
            },
            SettingsStage::ScrollCaps => match reply {
                Ok(caps) => {
                    let mode = match self.pending.take() {
                        Some(m) => m,
                        None => {
                            return self.start_shift();
                        },
                    };
                    self.first_reply = Some(caps);
                    self.stage = SettingsStage::ScrollMode;
                    Step::Send(mode)
                },
                Err(_) => {
                    self.scroll = None;
                    self.start_shift()
                },
            },
            SettingsStage::ScrollMode => {
                self.scroll = match (reply, &self.first_reply) {
                    (Ok(mode), Some(caps)) => Some(scroll_info_from_replies(caps, &mode)),
                    _ => None,
                };
                self.start_shift()
            },
            SettingsStage::ShiftCaps => match reply {
                Ok(caps) => {
                    let mode = match self.pending.take() {
                        Some(m) => m,
                        None => {
                            return self.start_hosts();
                        },
                    };
                    self.first_reply = Some(caps);
                    self.stage = SettingsStage::ShiftMode;
                    Step::Send(mode)
                },
                Err(_) => {
                    self.smart_shift = None;
                    self.start_hosts()
                },
            },
            SettingsStage::ShiftMode => {
                self.smart_shift = match (reply, &self.first_reply) {
                    (Ok(mode), Some(caps)) => Some(smart_shift_from_replies(caps, &mode)),
                    _ => None,
                };
                self.start_hosts()
            },
            SettingsStage::Hosts => {
                let mut h = match self.hosts_reader.take() {
                    Some(h) => h,
                    None => {
                        return self.start_fn();
                    },
                };
                let step = h.on_reply(reply);
                let ghost hg = h;
                let ghost sg = step;
                assert(hosts_read_step(before.hosts_reader->0, reply, hg, sg));
                match step {
                    Step::Send(m) => {
                        self.hosts_reader = Some(h);
                        Step::Send(m)
                    },
                    Step::Done(result) => {
                        self.hosts = match result {
                            Ok(v) => v,
                            Err(_) => None,
                        };
                        self.start_fn()
                    },
                }
            },
            SettingsStage::FnState => {
                self.fn_settings = match reply {
                    Ok(msg) => Some(fn_settings_from_reply(&msg)),
                    Err(_) => None,
                };
                self.start_platforms()
            },
            SettingsStage::Platforms => {
                let mut p = match self.platform_reader.take() {
                    Some(p) => p,
                    None => {
                        return self.start_backlight();
                    },
                };
                let step = p.on_reply(reply);
                let ghost pg = p;
                let ghost sg = step;
                assert(platform_read_step(before.platform_reader->0, reply, pg, sg));
                match step {
                    Step::Send(m) => {
                        self.platform_reader = Some(p);
                        Step::Send(m)
                    },
                    Step::Done(result) => {
                        self.multiplatform = match result {
                            Ok(v) => v,
                            Err(_) => None,
                        };
                        self.start_backlight()
                    },
                }
            },
            SettingsStage::Backlight => {
                self.backlight = match reply {
                    Ok(msg) => Some(backlight_from_reply(&msg)),
                    Err(_) => None,
                };
                self.finish()
            },
            SettingsStage::Finished => self.finish(),
        }
    }
}

/// The scroll state of a capability reply and a mode reply.
pub open spec fn scroll_info_from_spec(caps: Message, mode: Message) -> ScrollInfo {
    ScrollInfo {
        has_invert: frame_params(caps@)[1] & 0x08 != 0,
        has_hires: true,
        inverted: frame_params(mode@)[0] & 0x04 != 0,
        hires_enabled: frame_params(mode@)[0] & 0x02 != 0,
    }
}

/// The smart-shift state of a capability reply and a mode reply.
pub open spec fn smart_shift_from_spec(caps: Message, mode: Message) -> SmartShiftInfo {
    SmartShiftInfo {
        wheel_mode: frame_params(mode@)[0],
        has_torque: frame_params(caps@)[0] & 0x01 != 0,
        torque: frame_params(mode@)[2],
    }
}

/// The backlight state of a GetBacklightState reply.
pub open spec fn backlight_from_spec(msg: Message) -> BacklightInfo {
    let p = frame_params(msg@);
    BacklightInfo {
        mode: if p[0] != 0 {
            (p[1] >> 3u8) & 0x03
        } else {
            0
        },
        auto_supported: p[2] & 0x08 != 0,
        manual_supported: p[2] & 0x20 != 0,
        level: if p.len() > 5 {
            p[5]
        } else {
            0
        },
    }
}

} // verus!
