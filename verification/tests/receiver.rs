use std::collections::HashMap;

use pulsaar_core::devices::hid::HidInterface;
use pulsaar_core::devices::types::{BatteryStatus, DeviceKind, FirmwareKind};
use pulsaar_core::direct::{
    descriptor_only_device, direct_device_candidates, kind_from_descriptor,
    kind_from_generic_desktop_usage, name_from_descriptor, DirectProbe, Unprobeable,
};
use pulsaar_core::error::{Error, Hidpp10Error};
use pulsaar_core::hidpp::hidpp10::{NOTIF_SOFTWARE_PRESENT, NOTIF_WIRELESS};
use pulsaar_core::hidpp::message::{Message, Step};
use pulsaar_core::receiver::enumerate::DeviceEnumeration;
use pulsaar_core::receiver::pairing::{
    passkey_to_buttons, pairing_step, PairingAction, PairingEvent, PairingSession,
};
use pulsaar_core::receiver::settings::SettingsReader;
use pulsaar_core::receiver::{
    cancel_pairing_request, device_event_from_notification, enumerate_receivers,
    identity_from_reply, identity_request, is_receiver_pid, notification_flags_update,
    start_pairing_request, unpair_device_request, DeviceEvent, ReceiverKind,
};

fn long(device: u8, sub_id: u8, address: u8, params: &[u8]) -> Message {
    Message::long(device, sub_id, address, params)
}

fn sent<T: std::fmt::Debug>(step: Step<T>) -> Vec<u8> {
    match step {
        Step::Send(m) => m.as_bytes().to_vec(),
        Step::Done(r) => panic!("expected a request, got {:?}", r),
    }
}

fn iface(pid: u16, page: u16, usage: u16, path: &str) -> HidInterface {
    HidInterface {
        vendor_id: 0x046D,
        product_id: pid,
        usage_page: page,
        usage,
        path: path.to_string(),
        serial_number: None,
        product_string: None,
    }
}

#[test]
fn receivers_are_the_vendor_interfaces_of_known_pids() {
    let list = vec![
        iface(0xC548, 0xFF00, 0x0001, "bolt"),
        iface(0xC548, 0xFF00, 0x0002, "bolt-input"),
        iface(0xC52B, 0x0001, 0x0002, "unifying-mouse"),
        iface(0xB023, 0xFF00, 0x0001, "bt-mouse"),
        iface(0xC52B, 0xFF00, 0x0001, "unifying"),
    ];
    let r = enumerate_receivers(&list);
    assert_eq!(r.len(), 2);
    assert_eq!(r[0].path, "bolt");
    assert_eq!(r[0].kind, ReceiverKind::Bolt);
    assert_eq!(r[0].name, "Bolt Receiver");
    assert_eq!(r[1].kind, ReceiverKind::Unifying);
    assert!(is_receiver_pid(0xC54D));
    assert!(!is_receiver_pid(0xB023));
}

#[test]
fn receiver_identity() {
    assert_eq!(identity_request(ReceiverKind::Bolt).as_bytes(), &[0x10, 0xFF, 0x83, 0xFB, 0, 0, 0]);
    assert_eq!(identity_request(ReceiverKind::Nano).as_bytes(), &[0x10, 0xFF, 0x83, 0xB5, 3, 0, 0]);
    let (s, n) = identity_from_reply(ReceiverKind::Bolt, Ok(Message::short(0xFF, 0x83, 0xFB, 0xAB, 0xCD, 0x01)));
    assert_eq!((s.as_str(), n), ("ABCD01", 6));
    let (s, n) = identity_from_reply(ReceiverKind::Bolt, Err(Error::Timeout));
    assert_eq!((s.as_str(), n), ("unknown", 6));
    let info = long(0xFF, 0x83, 0xB5, &[3, 0x12, 0x34, 0x56, 0x78, 0, 6]);
    let (s, n) = identity_from_reply(ReceiverKind::Unifying, Ok(info));
    assert_eq!((s.as_str(), n), ("12345678", 6));
    let (s, n) = identity_from_reply(ReceiverKind::Unifying, Ok(Message::short(0xFF, 0x83, 0xB5, 3, 0, 0)));
    assert_eq!((s.as_str(), n), ("unknown", 1));
}

#[test]
fn notification_flags_are_set_only_when_they_differ() {
    let wanted = NOTIF_WIRELESS | NOTIF_SOFTWARE_PRESENT;
    let current = Message::short(0xFF, 0x81, 0x00, 0x01, 0x09, 0x00);
    let w = notification_flags_update(Ok(current), wanted).unwrap();
    assert_eq!(w.as_bytes(), &[0x10, 0xFF, 0x80, 0x00, 0x00, 0x09, 0x00]);
    let same = Message::short(0xFF, 0x81, 0x00, 0x00, 0x09, 0x00);
    assert!(notification_flags_update(Ok(same), wanted).is_none());
    assert!(notification_flags_update(Err(Error::Timeout), wanted).is_none());
}

#[test]
fn pairing_control_requests() {
    assert_eq!(start_pairing_request(ReceiverKind::Bolt, 30).as_bytes(), &[0x10, 0xFF, 0x80, 0xC0, 30, 0x01, 0]);
    assert_eq!(start_pairing_request(ReceiverKind::Unifying, 30).as_bytes(), &[0x10, 0xFF, 0x80, 0xB2, 0x01, 0, 30]);
    assert_eq!(cancel_pairing_request(ReceiverKind::Bolt).as_bytes(), &[0x10, 0xFF, 0x80, 0xC0, 0, 0x02, 0]);
    assert_eq!(cancel_pairing_request(ReceiverKind::Nano).as_bytes(), &[0x10, 0xFF, 0x80, 0xB2, 0x02, 0, 0]);
    assert_eq!(unpair_device_request(ReceiverKind::Unifying, 3).as_bytes(), &[0x10, 0xFF, 0x80, 0xB2, 0x03, 3, 0]);
    let b = unpair_device_request(ReceiverKind::Bolt, 2);
    assert_eq!((b.sub_id(), b.address()), (0x82, 0xC1));
    assert_eq!(&b.params()[..3], &[0x03, 2, 0]);
}

#[test]
fn device_events() {
    let up = Message::short(2, 0x41, 0x04, 0x01, 0, 0);
    assert_eq!(device_event_from_notification(&up), Some(DeviceEvent::LinkChange { slot: 2, online: true }));
    let down = Message::short(2, 0x41, 0x04, 0x41, 0, 0);
    assert_eq!(device_event_from_notification(&down), Some(DeviceEvent::LinkChange { slot: 2, online: false }));
    assert_eq!(device_event_from_notification(&Message::short(2, 0x41, 0x00, 0, 0, 0)), None);
    assert_eq!(device_event_from_notification(&Message::short(3, 0x4B, 0x01, 0, 0, 0)), Some(DeviceEvent::LinkChange { slot: 3, online: true }));
    assert_eq!(device_event_from_notification(&Message::short(3, 0x4B, 0x00, 0, 0, 0)), None);
    assert_eq!(device_event_from_notification(&Message::short(1, 0x09, 0x10, 0, 0, 0)), Some(DeviceEvent::SettingsChanged { slot: 1, feature_index: 9 }));
    assert_eq!(device_event_from_notification(&Message::short(1, 0x09, 0x1A, 0, 0, 0)), None);
    assert_eq!(device_event_from_notification(&Message::short(0xFF, 0x41, 0x04, 0, 0, 0)), None);
    assert_eq!(device_event_from_notification(&Message::short(1, 0x81, 0x00, 0, 0, 0)), None);
}

#[test]
fn passkey_buttons() {
    assert_eq!(passkey_to_buttons("048"), "LLLLRRLLLL");
    assert_eq!(passkey_to_buttons("512\0\0"), "RLLLLLLLLL");
    assert_eq!(passkey_to_buttons("abc"), "LLLLLLLLLL");
    assert_eq!(passkey_to_buttons("+12"), "LLLLLLRRLL");
    assert_eq!(passkey_to_buttons("4294967296"), "LLLLLLLLLL");
    assert_eq!(passkey_to_buttons("4294967295"), "RRRRRRRRRR");
}

fn report(act: PairingAction) -> PairingEvent {
    match act {
        PairingAction::Report(e) => e,
        other => panic!("{:?}", other),
    }
}

#[test]
fn unifying_pairing_reports_the_announced_slot() {
    let mut s = PairingSession::new();
    let connect = Message::short(3, 0x41, 0x04, 0x01, 0, 0);
    assert!(matches!(report(pairing_step(ReceiverKind::Unifying, &mut s, &connect)), PairingEvent::Waiting));
    assert_eq!(s.unifying_new_slot, Some(3));
    let open = Message::short(0xFF, 0x4A, 0x01, 0, 0, 0);
    assert!(matches!(report(pairing_step(ReceiverKind::Unifying, &mut s, &open)), PairingEvent::Waiting));
    let closed = Message::short(0xFF, 0x4A, 0x00, 0, 0, 0);
    assert!(matches!(report(pairing_step(ReceiverKind::Unifying, &mut s, &closed)), PairingEvent::Paired(3)));
    let mut fresh = PairingSession::new();
    match report(pairing_step(ReceiverKind::Unifying, &mut fresh, &closed)) {
        PairingEvent::Failed(m) => assert_eq!(m, "no device connected before lock closed"),
        other => panic!("{:?}", other),
    }
    let err = Message::short(0xFF, 0x4A, 0x00, 0x02, 0, 0);
    match report(pairing_step(ReceiverKind::Unifying, &mut fresh, &err)) {
        PairingEvent::Failed(m) => assert_eq!(m, "pairing error 0x02"),
        other => panic!("{:?}", other),
    }
}

#[test]
fn bolt_pairing_discovers_then_pairs() {
    let mut s = PairingSession::new();
    let mut chunk0 = [0u8; 16];
    chunk0[1] = 0;
    chunk0[3] = 1;
    chunk0[6..12].copy_from_slice(&[1, 2, 3, 4, 5, 6]);
    chunk0[14] = 0x01;
    let a = pairing_step(ReceiverKind::Bolt, &mut s, &long(0xFF, 0x4F, 0, &chunk0));
    assert!(matches!(report(a), PairingEvent::Waiting));
    let chunk1 = long(0xFF, 0x4F, 0, &[0, 1, 4, b'K', b'3', b'8', b'0', 0, 0]);
    match pairing_step(ReceiverKind::Bolt, &mut s, &chunk1) {
        PairingAction::PairBoltDevice { address, authentication, entropy, name } => {
            assert_eq!(address, [1, 2, 3, 4, 5, 6]);
            assert_eq!(authentication, 1);
            assert_eq!(entropy, 20);
            assert_eq!(name, "K380");
        },
        other => panic!("{:?}", other),
    }
    let pk = long(0xFF, 0x4D, 0, b"123456");
    match report(pairing_step(ReceiverKind::Bolt, &mut s, &pk)) {
        PairingEvent::PasskeyNumeric(k) => assert_eq!(k, "123456"),
        other => panic!("{:?}", other),
    }
    let mut done = [0u8; 16];
    done[7] = 2;
    assert!(matches!(report(pairing_step(ReceiverKind::Bolt, &mut s, &long(0xFF, 0x54, 0x02, &done))), PairingEvent::Paired(2)));
    match report(pairing_step(ReceiverKind::Bolt, &mut s, &Message::short(0xFF, 0x53, 0x01, 0x05, 0, 0))) {
        PairingEvent::Failed(m) => assert_eq!(m, "discovery error 0x05"),
        other => panic!("{:?}", other),
    }
}

#[test]
fn enumeration_of_a_unifying_receiver() {
    let (mut e, step) = DeviceEnumeration::new(ReceiverKind::Unifying, 2);
    assert_eq!(sent(step), vec![0x10, 0xFF, 0x83, 0xB5, 0x20, 0, 0]);
    // Slot 1 is empty.
    let s2 = e.on_reply(Err(Error::Hidpp10(Hidpp10Error::UnknownDevice)));
    assert_eq!(sent(s2), vec![0x10, 0xFF, 0x83, 0xB5, 0x21, 0, 0]);
    let ext = e.on_reply(Ok(long(0xFF, 0x83, 0xB5, &[0x21, 0, 8, 0x40, 0x82, 0, 0, 0x02])));
    assert_eq!(sent(ext), vec![0x10, 0xFF, 0x83, 0xB5, 0x31, 0, 0]);
    let name = e.on_reply(Ok(long(0xFF, 0x83, 0xB5, &[0x31, 0xA1, 0xB2, 0xC3, 0xD4])));
    assert_eq!(sent(name), vec![0x10, 0xFF, 0x83, 0xB5, 0x41, 0, 0]);
    let features = e.on_reply(Err(Error::Hidpp10(Hidpp10Error::UnknownDevice)));
    assert_eq!(sent(features), vec![0x10, 2, 0x00, 0x0A, 0x00, 0x01, 0]);
    // A HID++ 1.0 device: ROOT answers with an invalid-sub-ID error.
    let charge = e.on_reply(Err(Error::Hidpp10(Hidpp10Error::InvalidSubId)));
    assert_eq!(sent(charge), vec![0x10, 2, 0x81, 0x0D, 0, 0, 0]);
    let fw = e.on_reply(Ok(Message::short(2, 0x81, 0x0D, 64, 0, 0x30)));
    assert_eq!(sent(fw), vec![0x10, 2, 0x81, 0xF1, 0x01, 0, 0]);
    let build = e.on_reply(Ok(Message::short(2, 0x81, 0xF1, 0x01, 0x01, 0x02)));
    assert_eq!(sent(build), vec![0x10, 2, 0x81, 0xF1, 0x02, 0, 0]);
    let boot = e.on_reply(Err(Error::Timeout));
    assert_eq!(sent(boot), vec![0x10, 2, 0x81, 0xF1, 0x04, 0, 0]);
    match e.on_reply(Err(Error::Timeout)) {
        Step::Done(Ok(devices)) => {
            assert_eq!(devices.len(), 1);
            let d = &devices[0];
            assert_eq!(d.slot, 2);
            assert_eq!(d.name, "Device 2");
            assert_eq!(d.kind, DeviceKind::Mouse);
            assert_eq!(d.serial, "A1B2C3D4");
            assert_eq!(d.wpid, [0x40, 0x82]);
            let b = d.battery.unwrap();
            assert_eq!(b.level, Some(64));
            assert_eq!(b.status, Some(BatteryStatus::Discharging));
            assert_eq!(d.firmware.len(), 1);
            assert_eq!(d.firmware[0].kind, FirmwareKind::Firmware);
            assert_eq!(d.firmware[0].version, "01.02");
        },
        other => panic!("{:?}", other),
    }
}

#[test]
fn enumeration_stops_on_a_pairing_error() {
    let (mut e, _) = DeviceEnumeration::new(ReceiverKind::Unifying, 1);
    assert!(matches!(e.on_reply(Err(Error::Timeout)), Step::Done(Err(Error::Timeout))));
    let (_, none) = DeviceEnumeration::new(ReceiverKind::Nano, 0);
    assert!(matches!(none, Step::Done(Ok(ref v)) if v.is_empty()));
}

#[test]
fn enumeration_of_a_bolt_receiver_over_hidpp20() {
    let (mut e, step) = DeviceEnumeration::new(ReceiverKind::Bolt, 1);
    assert_eq!(sent(step), vec![0x10, 0xFF, 0x83, 0xB5, 0x51, 0, 0]);
    let name = e.on_reply(Ok(long(0xFF, 0x83, 0xB5, &[0x51, 0x01, 0x40, 0xB3, 1, 2, 3, 4])));
    assert_eq!(sent(name), vec![0x10, 0xFF, 0x83, 0xB5, 0x61, 0x01, 0]);
    let root = e.on_reply(Ok(long(0xFF, 0x83, 0xB5, &[0x61, 0x01, 4, b'M', b'X', b' ', b'K'])));
    assert_eq!(sent(root), vec![0x10, 1, 0x00, 0x0A, 0x00, 0x01, 0]);
    let count = e.on_reply(Ok(Message::short(1, 0, 0x0A, 1, 0, 0)));
    assert_eq!(sent(count), vec![0x10, 1, 1, 0x0A, 0, 0, 0]);
    let entry = e.on_reply(Ok(Message::short(1, 1, 0x0A, 2, 0, 0)));
    assert_eq!(sent(entry), vec![0x10, 1, 1, 0x1A, 2, 0, 0]);
    let battery = e.on_reply(Ok(long(1, 1, 0x1A, &[0x10, 0x00])));
    assert_eq!(sent(battery), vec![0x10, 1, 2, 0x0A, 0, 0, 0]);
    // No FW_VERSION feature: the device entry is complete after the battery.
    match e.on_reply(Ok(Message::short(1, 2, 0x0A, 90, 0, 3))) {
        Step::Done(Ok(devices)) => {
            assert_eq!(devices.len(), 1);
            let d = &devices[0];
            assert_eq!(d.name, "MX K");
            assert_eq!(d.kind, DeviceKind::Keyboard);
            assert_eq!(d.serial, "01020304");
            assert_eq!(d.wpid, [0xB3, 0x40]);
            assert_eq!(d.battery.unwrap().level, Some(90));
            assert_eq!(d.battery.unwrap().status, Some(BatteryStatus::Full));
            assert!(d.firmware.is_empty());
        },
        other => panic!("{:?}", other),
    }
}

#[test]
fn all_settings_after_one_discovery() {
    let (mut r, first) = SettingsReader::new(1);
    assert_eq!(first.as_bytes(), &[0x10, 1, 0, 0x0A, 0x00, 0x01, 0]);
    let count = r.on_reply(Ok(Message::short(1, 0, 0x0A, 1, 0, 0)));
    assert_eq!(sent(count), vec![0x10, 1, 1, 0x0A, 0, 0, 0]);
    let e2 = r.on_reply(Ok(Message::short(1, 1, 0x0A, 3, 0, 0)));
    assert_eq!(sent(e2), vec![0x10, 1, 1, 0x1A, 2, 0, 0]);
    let e3 = r.on_reply(Ok(long(1, 1, 0x1A, &[0x21, 0x21])));
    assert_eq!(sent(e3), vec![0x10, 1, 1, 0x1A, 3, 0, 0]);
    // The last entry is the FN inversion feature; the scroll read starts.
    let caps = r.on_reply(Ok(long(1, 1, 0x1A, &[0x40, 0xA0])));
    assert_eq!(sent(caps), vec![0x10, 1, 2, 0x0A, 0, 0, 0]);
    let mode = r.on_reply(Ok(Message::short(1, 2, 0x0A, 8, 0x08, 0)));
    assert_eq!(sent(mode), vec![0x10, 1, 2, 0x1A, 0, 0, 0]);
    let fn_req = r.on_reply(Ok(Message::short(1, 2, 0x1A, 0x02, 0, 0)));
    assert_eq!(sent(fn_req), vec![0x10, 1, 3, 0x0A, 0, 0, 0]);
    match r.on_reply(Err(Error::Timeout)) {
        Step::Done(Ok(all)) => {
            assert!(all.dpi.is_none());
            let s = all.scroll.unwrap();
            assert!(s.has_invert && !s.inverted && s.hires_enabled);
            assert!(all.smart_shift.is_none());
            assert!(all.hosts.is_none());
            assert!(all.fn_settings.is_none());
            assert!(all.multiplatform.is_none());
            assert!(all.backlight.is_none());
            assert_eq!(all.reprog_controls_idx, 0);
        },
        other => panic!("{:?}", other),
    }
    let (mut failing, _) = SettingsReader::new(1);
    assert!(matches!(failing.on_reply(Err(Error::Timeout)), Step::Done(Err(Error::Timeout))));
}

#[test]
fn direct_device_candidates_and_descriptors() {
    let mut a = iface(0xB023, 0xFF43, 0x0202, "/dev/a");
    a.serial_number = Some("SN1".to_string());
    a.product_string = Some("MX Master 3".to_string());
    let list = vec![
        a.clone(),
        a.clone(),
        iface(0xC548, 0xFF00, 0x0001, "/dev/receiver"),
        iface(0xB023, 0x0001, 0x0002, "/dev/a-mouse"),
        iface(0xB350, 0xFF00, 0x0001, "/dev/b"),
    ];
    let c = direct_device_candidates(&list);
    assert_eq!(c.len(), 2);
    assert_eq!(c[0].path, "/dev/a");
    assert_eq!(c[0].serial, "SN1");
    assert_eq!(c[1].serial, "");
    assert_eq!(name_from_descriptor(&list, 0xB023), "MX Master 3");
    assert_eq!(name_from_descriptor(&list, 0xB350), "Logitech Device B350");
    assert_eq!(kind_from_descriptor(&list, 0xB023), DeviceKind::Mouse);
    assert_eq!(kind_from_descriptor(&list, 0xB350), DeviceKind::Unknown);
    assert_eq!(kind_from_generic_desktop_usage(0x06), Some(DeviceKind::Keyboard));
    assert_eq!(kind_from_generic_desktop_usage(0x03), None);
}

#[test]
fn paths_that_failed_to_open_are_not_probed_again() {
    let a = "/dev/a".to_string();
    let b = "/dev/b".to_string();
    let mut u = Unprobeable::new();
    assert!(u.should_probe(&a));
    u.open_failed(&a);
    assert!(!u.should_probe(&a));
    assert!(u.should_probe(&b));
    u.open_failed(&a);
    assert!(!u.should_probe(&a));
    assert!(u.should_probe(&b));
    let mut c = iface(0xB023, 0xFF43, 0x0202, "/dev/a");
    c.serial_number = Some("SN1".to_string());
    let cand = &direct_device_candidates(&vec![c])[0];
    let d = descriptor_only_device(cand, "MX Master 3".to_string(), DeviceKind::Mouse);
    assert_eq!(d.product_id, 0xB023);
    assert_eq!(d.name, "MX Master 3");
    assert_eq!(d.serial, "SN1");
    assert_eq!(d.kind, DeviceKind::Mouse);
    assert!(d.battery.is_none());
}

#[test]
fn direct_probe_keeps_descriptor_data_without_hidpp20() {
    let (mut p, first) = DirectProbe::new(0xB023, "SN1".to_string(), DeviceKind::Mouse, "MX Master 3".to_string());
    assert_eq!(first.as_bytes(), &[0x10, 0xFF, 0x00, 0x0A, 0x00, 0x01, 0]);
    match p.on_reply(Err(Error::Timeout)) {
        Step::Done(Ok(d)) => {
            assert_eq!(d.name, "MX Master 3");
            assert_eq!(d.serial, "SN1");
            assert_eq!(d.product_id, 0xB023);
            assert!(d.battery.is_none());
        },
        other => panic!("{:?}", other),
    }
}

#[test]
fn direct_probe_reads_name_and_battery() {
    let (mut p, _) = DirectProbe::new(0xB023, String::new(), DeviceKind::Mouse, "Logitech Device B023".to_string());
    let count = p.on_reply(Ok(Message::short(0xFF, 0, 0x0A, 1, 0, 0)));
    assert_eq!(sent(count), vec![0x10, 0xFF, 1, 0x0A, 0, 0, 0]);
    let e2 = p.on_reply(Ok(Message::short(0xFF, 1, 0x0A, 3, 0, 0)));
    assert_eq!(sent(e2), vec![0x10, 0xFF, 1, 0x1A, 2, 0, 0]);
    let e3 = p.on_reply(Ok(long(0xFF, 1, 0x1A, &[0x00, 0x05])));
    assert_eq!(sent(e3), vec![0x10, 0xFF, 1, 0x1A, 3, 0, 0]);
    let name_count = p.on_reply(Ok(long(0xFF, 1, 0x1A, &[0x10, 0x01])));
    assert_eq!(sent(name_count), vec![0x10, 0xFF, 2, 0x0A, 0, 0, 0]);
    let chunk = p.on_reply(Ok(Message::short(0xFF, 2, 0x0A, 3, 0, 0)));
    assert_eq!(sent(chunk), vec![0x10, 0xFF, 2, 0x1A, 0, 0, 0]);
    let battery = p.on_reply(Ok(Message::short(0xFF, 2, 0x1A, b'M', b'3', b'S')));
    assert_eq!(sent(battery), vec![0x10, 0xFF, 3, 0x0A, 0, 0, 0]);
    match p.on_reply(Ok(Message::short(0xFF, 3, 0x0A, 0x0F, 0xA0, 0))) {
        Step::Done(Ok(d)) => {
            assert_eq!(d.name, "M3S");
            assert_eq!(d.battery.unwrap().voltage, Some(4000));
        },
        other => panic!("{:?}", other),
    }
    let _ = HashMap::<u16, u8>::new();
}
