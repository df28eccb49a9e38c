use pulsaar_core::devices::types::{Battery, BatteryStatus, DeviceInfo, DeviceKind};
use pulsaar_core::diag::{buf_to_str, decode, feature_label};
use pulsaar_core::direct::DirectDeviceInfo;
use pulsaar_core::error::{Error, Hidpp10Error};
use pulsaar_core::ffi::{
    all_settings_to_c, battery_status_to_u8, battery_to_c, connection_event_to_c,
    device_info_to_c, device_kind_to_u8, direct_device_info_to_c, dpi_settings_to_c,
    host_list_to_c, multiplatform_to_c, opened_receiver_to_c, pairing_status_to_c,
    receiver_handle_to_c, receiver_kind_to_u8, str_to_buf, PulsaarConnectionEvent,
    PulsaarPairingState, PulsaarStatus,
};
use pulsaar_core::hidpp::hidpp20::{
    DpiInfo, FnInfo, HostInfo, MultiplatformInfo, PlatformDescriptor, ScrollInfo,
};
use pulsaar_core::receiver::pairing::PairingEvent;
use pulsaar_core::receiver::{
    AllDeviceSettings, DeviceEvent, OpenedReceiver, ReceiverHandle, ReceiverKind,
};

#[test]
fn status_codes() {
    assert_eq!(PulsaarStatus::Success.code(), 0);
    assert_eq!(PulsaarStatus::InvalidArg.code(), 5);
    assert_eq!(PulsaarStatus::Unknown.code(), 99);
    assert_eq!(PulsaarStatus::from_error(&Error::Hid("gone".to_string())), PulsaarStatus::HidError);
    assert_eq!(PulsaarStatus::from_error(&Error::Timeout), PulsaarStatus::Timeout);
    assert_eq!(PulsaarStatus::from_error(&Error::NoReceiver), PulsaarStatus::NoReceiver);
    assert_eq!(PulsaarStatus::from_error(&Error::EmptySlot), PulsaarStatus::EmptySlot);
    assert_eq!(PulsaarStatus::from_error(&Error::Hidpp10(Hidpp10Error::Busy)), PulsaarStatus::Unknown);
    assert_eq!(PulsaarStatus::from_error(&Error::InvalidResponse), PulsaarStatus::Unknown);
}

#[test]
fn strings_become_null_terminated_buffers() {
    let b: [u8; 8] = str_to_buf("abc");
    assert_eq!(b, [b'a', b'b', b'c', 0, 0, 0, 0, 0]);
    let t: [u8; 4] = str_to_buf("abcdef");
    assert_eq!(t, [b'a', b'b', b'c', 0]);
    let z: [u8; 0] = str_to_buf("abc");
    assert_eq!(z.len(), 0);
    assert_eq!(buf_to_str(&b), "abc");
    assert_eq!(buf_to_str(&[b'h', b'i']), "hi");
    assert_eq!(buf_to_str(&[0xFF, 0xFE, 0]), "<invalid utf8>");
    let round: [u8; 64] = str_to_buf("Bolt Receiver");
    assert_eq!(buf_to_str(&round), "Bolt Receiver");
}

#[test]
fn enum_codes() {
    assert_eq!(receiver_kind_to_u8(ReceiverKind::LightSpeed), 3);
    assert_eq!(device_kind_to_u8(DeviceKind::Receiver), 13);
    assert_eq!(device_kind_to_u8(DeviceKind::Remote), 5);
    assert_eq!(battery_status_to_u8(BatteryStatus::ThermalError), 6);
}

#[test]
fn batteries_in_c() {
    let (has, c) = battery_to_c(None);
    assert_eq!(has, 0);
    assert_eq!((c.level, c.status, c.voltage), (0xFF, 0xFF, 0));
    let b = Battery { level: Some(40), status: None, voltage: Some(3900) };
    let (has, c) = battery_to_c(Some(&b));
    assert_eq!(has, 1);
    assert_eq!((c.level, c.status, c.voltage), (40, 0xFF, 3900));
    let b = Battery { level: None, status: Some(BatteryStatus::Full), voltage: None };
    let (_, c) = battery_to_c(Some(&b));
    assert_eq!((c.level, c.status, c.voltage), (0xFF, 3, 0));
}

#[test]
fn receivers_and_devices_in_c() {
    let h = ReceiverHandle { path: "/dev/hidraw3".to_string(), product_id: 0xC548, kind: ReceiverKind::Bolt, name: "Bolt Receiver" };
    let c = receiver_handle_to_c(&h);
    assert_eq!((c.product_id, c.kind), (0xC548, 1));
    assert_eq!(buf_to_str(&c.name), "Bolt Receiver");
    assert_eq!(buf_to_str(&c.path), "/dev/hidraw3");
    let r = OpenedReceiver { kind: ReceiverKind::Unifying, name: "Unifying Receiver", product_id: 0xC52B, serial: "1234ABCD".to_string(), max_devices: 6 };
    let c = opened_receiver_to_c(&r);
    assert_eq!((c.kind, c.max_devices), (0, 6));
    assert_eq!(buf_to_str(&c.serial), "1234ABCD");
    let d = DeviceInfo {
        slot: 2,
        name: "MX Master 3S".to_string(),
        kind: DeviceKind::Mouse,
        serial: "A1B2C3D4".to_string(),
        wpid: [0x40, 0x82],
        battery: Some(Battery { level: Some(55), status: Some(BatteryStatus::Discharging), voltage: None }),
        firmware: Vec::new(),
    };
    let c = device_info_to_c(&d);
    assert_eq!((c.slot, c.kind, c.wpid, c.has_battery), (2, 2, [0x40, 0x82], 1));
    assert_eq!((c.battery.level, c.battery.status), (55, 0));
    assert_eq!(buf_to_str(&c.name), "MX Master 3S");
    let dd = DirectDeviceInfo { product_id: 0xB023, name: "MX Keys".to_string(), serial: String::new(), kind: DeviceKind::Keyboard, battery: None };
    let c = direct_device_info_to_c(&dd);
    assert_eq!((c.kind, c.has_battery), (1, 0));
    assert_eq!(buf_to_str(&c.serial), "");
}

#[test]
fn dpi_hosts_and_platforms_in_c() {
    let info = DpiInfo { dpi_list: (1..=250u16).collect(), current_dpi: 800, default_dpi: 1000 };
    let c = dpi_settings_to_c(Some(&info));
    assert_eq!(c.dpi_count, 200);
    assert_eq!(c.dpi_list[0], 1);
    assert_eq!(c.dpi_list[199], 200);
    assert_eq!((c.current_dpi, c.default_dpi), (800, 1000));
    let none = dpi_settings_to_c(None);
    assert_eq!(none.dpi_count, 0);
    assert!(none.dpi_list.iter().all(|&v| v == 0));

    let hosts: Vec<HostInfo> = (0..10u8)
        .map(|i| HostInfo { slot: i, name: format!("Host {}", i + 1), is_active: i == 1 })
        .collect();
    let c = host_list_to_c(Some(&hosts));
    assert_eq!(c.count, 8);
    assert_eq!(c.hosts[1].is_active, 1);
    assert_eq!(buf_to_str(&c.hosts[7].name), "Host 8");
    assert_eq!(host_list_to_c(None).count, 0);

    let mp = MultiplatformInfo {
        can_set: true,
        current: 4,
        platforms: vec![
            PlatformDescriptor { index: 2, name: "Windows".to_string() },
            PlatformDescriptor { index: 4, name: "macOS".to_string() },
        ],
    };
    let c = multiplatform_to_c(Some(&mp));
    assert_eq!((c.count, c.current), (2, 1));
    assert_eq!(c.platform_indices[..2], [2, 4]);
    assert_eq!(buf_to_str(&c.platform_names[1]), "macOS");
    let missing = MultiplatformInfo { current: 9, ..mp };
    assert_eq!(multiplatform_to_c(Some(&missing)).current, 0);
}

#[test]
fn all_settings_in_c() {
    let all = AllDeviceSettings {
        dpi: None,
        scroll: Some(ScrollInfo { has_invert: true, has_hires: true, inverted: false, hires_enabled: true }),
        smart_shift: None,
        hosts: None,
        fn_settings: Some(FnInfo { fn_swapped: true, default_fn_swapped: false }),
        multiplatform: None,
        backlight: None,
        reprog_controls_idx: 7,
    };
    let c = all_settings_to_c(&all);
    assert_eq!((c.scroll.has_invert, c.scroll.inverted, c.scroll.hires_enabled), (1, 0, 1));
    assert_eq!((c.fn_s.has_feature, c.fn_s.fn_swapped), (1, 1));
    assert_eq!((c.ss.wheel_mode, c.backlight.has_feature, c.dpi.dpi_count, c.hosts.count), (0, 0, 0, 0));
    assert_eq!(c.reprog_controls_idx, 7);
}

#[test]
fn pairing_status_in_c() {
    let (s, done) = pairing_status_to_c(&PairingEvent::Waiting);
    assert_eq!(s.state, PulsaarPairingState::Waiting);
    assert!(s.device_name.iter().chain(s.passkey.iter()).chain(s.error.iter()).all(|b| *b == 0));
    assert!(!done);
    let (s, done) = pairing_status_to_c(&PairingEvent::BoltDeviceFound("MX Keys".to_string()));
    assert_eq!(s.state, PulsaarPairingState::DeviceFound);
    assert_eq!(buf_to_str(&s.device_name), "MX Keys");
    assert!(!done);
    let (s, _) = pairing_status_to_c(&PairingEvent::PasskeyButton("LRLRLRLRLRLRLRLRLR".to_string()));
    assert_eq!(buf_to_str(&s.passkey), "LRLRLRLRLRLRLRL");
    let (s, done) = pairing_status_to_c(&PairingEvent::Paired(4));
    assert_eq!((s.state, s.device_name[0]), (PulsaarPairingState::Paired, 4));
    assert!(s.device_name[1..].iter().chain(s.passkey.iter()).chain(s.error.iter()).all(|b| *b == 0));
    assert!(done);
    let (s, done) = pairing_status_to_c(&PairingEvent::Failed("pairing error 0x02".to_string()));
    assert_eq!(s.state, PulsaarPairingState::Failed);
    assert_eq!(buf_to_str(&s.error), "pairing error 0x02");
    assert!(done);
}

#[test]
fn connection_events_in_c() {
    let e = connection_event_to_c(None);
    assert_eq!((e.event, e.slot, e.feature_index), (PulsaarConnectionEvent::NoEvent, 0, 0));
    let e = connection_event_to_c(Some(DeviceEvent::LinkChange { slot: 3, online: false }));
    assert_eq!((e.event, e.slot), (PulsaarConnectionEvent::Offline, 3));
    let e = connection_event_to_c(Some(DeviceEvent::SettingsChanged { slot: 1, feature_index: 9 }));
    assert_eq!((e.event, e.slot, e.feature_index), (PulsaarConnectionEvent::SettingsChanged, 1, 9));
}

#[test]
fn feature_labels() {
    assert_eq!(feature_label(0x0000), "ROOT");
    assert_eq!(feature_label(0x2201), "ADJUSTABLE_DPI");
    assert_eq!(feature_label(0x6010), "BACKLIGHT-GAMING");
    assert_eq!(feature_label(0x1234), "unknown");
}

#[test]
fn report_summaries() {
    assert_eq!(decode(&[0x10, 0x01]), "(short) 10 01");
    assert_eq!(decode(&[]), "(short) ");
    assert_eq!(decode(&[0x20, 1, 2, 3]), "UNKNOWN(0x20) 20 01 02 03");
    assert_eq!(
        decode(&[0x10, 0x02, 0x41, 0x04, 0x61, 0x00, 0x00]),
        "VERY-SHORT  dev=0x02  feat=0x41  fn/evt=0x04 << LINK_CHANGE  [device=2 online=false encrypted=true]  raw=[10 02 41 04 61 00 00]"
    );
    assert_eq!(
        decode(&[0x10, 0x03, 0x41, 0x04, 0x21, 0x00, 0x00]),
        "VERY-SHORT  dev=0x03  feat=0x41  fn/evt=0x04 << LINK_CHANGE  [device=3 online=true encrypted=true]  raw=[10 03 41 04 21 00 00]"
    );
    assert_eq!(
        decode(&[0x11, 0xFF, 0x00, 0x1A]),
        "SHORT       dev=0xFF  feat=0x00  fn/evt=0x1A (root/ping)  raw=[11 FF 00 1A]"
    );
}
