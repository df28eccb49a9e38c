use std::collections::HashMap;

use pulsaar_core::devices::types::{BatteryStatus, DeviceKind, FirmwareKind};
use pulsaar_core::error::{Error, Hidpp10Error, Hidpp20Error};
use pulsaar_core::hidpp::hidpp10::{
    battery_charge_outcome, battery_status_outcome, bolt_device_codename_from_reply,
    bolt_pair_request, bolt_pairing_info_from_reply, device_codename_from_reply,
    extended_pairing_info_from_reply, firmware_from_replies, notification_flags_from_reply,
    pairing_info_from_reply, pairing_lock_request, parse_battery_charge, parse_battery_status,
    read_ids, receiver_info_from_reply, set_notification_flags_request, write_ids,
    bolt_device_codename_request, bolt_pairing_info_request, slot_info_request,
    BatteryProbe, BatteryReader10, FirmwareReader10, InfoSubReg, Register,
};
use pulsaar_core::hidpp::hidpp20::{
    backlight_from_reply, backlight_write_request, battery_status_from_reply,
    battery_voltage_from_reply, expand_range, feature_call_request, feature_index_from_reply,
    feature_index_of, find_fn_feature, fn_addr, os_name_from_flags, protocol_version_from_reply,
    scan_dpi_page, scroll_info_from_replies, set_dpi_request, smart_shift_from_replies,
    smart_shift_write_request, unified_battery_from_reply, BatteryReader, DeviceNameReader,
    DpiReader, FeatureDiscovery, FirmwareReader, HostsReader, PlatformReader,
    FEAT_ADJUSTABLE_DPI, FEAT_BATTERY_STATUS, FEAT_BATTERY_VOLTAGE, FEAT_CHANGE_HOST,
    FEAT_DEVICE_NAME, FEAT_FN_INVERSION, FEAT_FW_VERSION, FEAT_HOSTS_INFO,
    FEAT_K375S_FN_INVERSION, FEAT_MULTIPLATFORM, FEAT_NEW_FN_INVERSION, FEAT_UNIFIED_BATTERY,
};
use pulsaar_core::hidpp::message::{Message, Step};
use pulsaar_core::text::{bytes_to_hex, trim_nul};
use pulsaar_core::transport::{
    expected_sub_register, match_reply, request_timeout_ms, ReplyVerdict,
};

fn long(device: u8, sub_id: u8, address: u8, params: &[u8]) -> Message {
    Message::long(device, sub_id, address, params)
}

fn sent(step: Step<impl std::fmt::Debug>) -> Vec<u8> {
    match step {
        Step::Send(m) => m.as_bytes().to_vec(),
        Step::Done(r) => panic!("expected a request, got {:?}", r),
    }
}

// -- message -----------------------------------------------------------------

#[test]
fn short_message_layout() {
    let m = Message::short(0xFF, 0x81, 0x0D, 1, 2, 3);
    assert_eq!(m.as_bytes(), &[0x10, 0xFF, 0x81, 0x0D, 1, 2, 3]);
    assert_eq!(m.report_id(), 0x10);
    assert_eq!(m.device(), 0xFF);
    assert_eq!(m.sub_id(), 0x81);
    assert_eq!(m.address(), 0x0D);
    assert_eq!(m.params(), &[1, 2, 3]);
}

#[test]
fn long_message_pads_and_truncates_params() {
    let m = long(2, 0x05, 0x1A, &[9, 8, 7]);
    assert_eq!(m.as_bytes().len(), 20);
    assert_eq!(m.as_bytes()[0], 0x11);
    assert_eq!(&m.params()[..4], &[9, 8, 7, 0]);
    let many: Vec<u8> = (0u8..20).collect();
    let m = long(2, 0x05, 0x1A, &many);
    assert_eq!(m.params(), &many[..16]);
}

#[test]
fn from_bytes_reads_one_frame() {
    let raw = [0x10, 0x01, 0x41, 0x04, 0xA1, 0x40, 0x10, 0xEE, 0xEE];
    let m = Message::from_bytes(&raw).unwrap();
    assert_eq!(m.as_bytes(), &raw[..7]);
    assert!(Message::from_bytes(&[0x10, 0x01, 0x41]).is_none());
    assert!(Message::from_bytes(&[0x12, 0, 0, 0, 0, 0, 0]).is_none());
    assert!(Message::from_bytes(&[]).is_none());
    let l = long(0xFF, 0x83, 0xB5, &[3, 1, 2]);
    let back = Message::from_bytes(l.as_bytes()).unwrap();
    assert_eq!(back.as_bytes(), l.as_bytes());
}

#[test]
fn error_report_flags() {
    assert!(Message::short(0xFF, 0x8F, 0x81, 0x0D, 0x01, 0).is_hidpp10_error());
    assert!(!Message::short(0xFF, 0x81, 0x0D, 0, 0, 0).is_hidpp10_error());
    assert!(long(1, 0xFF, 0x05, &[0x1A, 0x07]).is_hidpp20_error());
}

#[test]
fn error_codes_from_bytes() {
    assert_eq!(Hidpp10Error::from_byte(0x01), Hidpp10Error::InvalidSubId);
    assert_eq!(Hidpp10Error::from_byte(0x08), Hidpp10Error::UnknownDevice);
    assert_eq!(Hidpp10Error::from_byte(0x0C), Hidpp10Error::WrongPinCode);
    assert_eq!(Hidpp10Error::from_byte(0x42), Hidpp10Error::Other(0x42));
    assert_eq!(Hidpp20Error::from_byte(0x02), Hidpp20Error::InvalidArgument);
    assert_eq!(Hidpp20Error::from_byte(0x09), Hidpp20Error::Unsupported);
    assert_eq!(Hidpp20Error::from_byte(0x00), Hidpp20Error::Other(0));
}

#[test]
fn device_kinds_and_battery_helpers() {
    assert_eq!(DeviceKind::from_byte(0x02), DeviceKind::Mouse);
    assert_eq!(DeviceKind::from_byte(0x07), DeviceKind::Remote);
    assert_eq!(DeviceKind::from_byte(0x05), DeviceKind::Unknown);
    assert_eq!(DeviceKind::RemoteControl.as_str(), "remote_control");
    assert!(BatteryStatus::SlowRecharge.is_charging());
    assert!(!BatteryStatus::ThermalError.is_charging());
}

#[test]
fn text_helpers() {
    assert_eq!(bytes_to_hex(&[0x0A, 0xFF, 0x00]), "0AFF00");
    assert_eq!(bytes_to_hex(&[]), "");
    assert_eq!(trim_nul("abc\0\0"), "abc");
    assert_eq!(trim_nul("\0"), "");
}

// -- HID++ 1.0 -----------------------------------------------------------------

#[test]
fn register_ids() {
    assert_eq!(read_ids(0x2B5), (0x83, 0xB5));
    assert_eq!(read_ids(0x0D), (0x81, 0x0D));
    assert_eq!(write_ids(0xB2), (0x80, 0xB2));
    assert_eq!(write_ids(0x2C1), (0x82, 0xC1));
    assert_eq!(Register::ReceiverInfo.address(), 0x2B5);
}

#[test]
fn receiver_info_reply() {
    let msg = long(0xFF, 0x83, 0xB5, &[0x03, 0xDE, 0xAD, 0xBE, 0xEF, 0, 6]);
    let (serial, max) = receiver_info_from_reply(&msg).unwrap();
    assert_eq!(serial, "DEADBEEF");
    assert_eq!(max, 6);
    let short = Message::short(0xFF, 0x83, 0xB5, 3, 0, 0);
    assert!(matches!(receiver_info_from_reply(&short), Err(Error::InvalidResponse)));
}

#[test]
fn pairing_info_replies() {
    let msg = long(0xFF, 0x83, 0xB5, &[0x20, 0, 8, 0x40, 0x82, 0, 0, 0x02]);
    let info = pairing_info_from_reply(Ok(msg)).unwrap().unwrap();
    assert_eq!(info.wpid, [0x40, 0x82]);
    assert_eq!(info.kind, DeviceKind::Mouse);
    assert_eq!(info.polling_rate_ms, 8);
    let empty = pairing_info_from_reply(Err(Error::Hidpp10(Hidpp10Error::UnknownDevice)));
    assert!(matches!(empty, Ok(None)));
    let err = pairing_info_from_reply(Err(Error::Timeout));
    assert!(matches!(err, Err(Error::Timeout)));
    let short = pairing_info_from_reply(Ok(Message::short(0xFF, 0x83, 0xB5, 0x20, 0, 0)));
    assert!(matches!(short, Err(Error::InvalidResponse)));
}

#[test]
fn extended_and_codename_replies() {
    let ext = long(0xFF, 0x83, 0xB5, &[0x30, 1, 2, 3, 4]);
    assert_eq!(extended_pairing_info_from_reply(Ok(ext)).unwrap(), Some([1, 2, 3, 4]));
    let name = long(0xFF, 0x83, 0xB5, &[0x40, 4, b'M', b'X', b' ', b'3', b'!']);
    assert_eq!(device_codename_from_reply(Ok(name)).unwrap().unwrap(), "MX 3");
    let long_len = long(0xFF, 0x83, 0xB5, &[0x40, 200, b'A', b'B']);
    assert_eq!(device_codename_from_reply(Ok(long_len)).unwrap().unwrap().len(), 14);
    let gone = device_codename_from_reply(Err(Error::Hidpp10(Hidpp10Error::InvalidValue)));
    assert!(matches!(gone, Ok(None)));
}

#[test]
fn bolt_replies() {
    let msg = long(0xFF, 0x83, 0xB5, &[0x51, 0x01, 0x40, 0xB3, 0xA1, 0xB2, 0xC3, 0xD4]);
    let info = bolt_pairing_info_from_reply(Ok(msg)).unwrap().unwrap();
    assert_eq!(info.wpid, [0xB3, 0x40]);
    assert_eq!(info.kind, DeviceKind::Keyboard);
    assert_eq!(info.serial, [0xA1, 0xB2, 0xC3, 0xD4]);
    let short = bolt_pairing_info_from_reply(Ok(Message::short(0xFF, 0x83, 0xB5, 0x51, 0, 0)));
    assert!(matches!(short, Ok(None)));
    let gone = bolt_pairing_info_from_reply(Err(Error::Hidpp10(Hidpp10Error::UnsupportedParam)));
    assert!(matches!(gone, Ok(None)));
    let name = long(0xFF, 0x83, 0xB5, &[0x61, 0x01, 3, b'K', b'8', b'5', b'x']);
    assert_eq!(bolt_device_codename_from_reply(Ok(name)).unwrap().unwrap(), "K85");
}

#[test]
fn battery_charge_and_status_payloads() {
    let b = parse_battery_charge(&[77, 0, 0x50]);
    assert_eq!(b.level, Some(77));
    assert_eq!(b.status, Some(BatteryStatus::Recharging));
    let b = parse_battery_charge(&[100, 0, 0x90]);
    assert_eq!(b.status, Some(BatteryStatus::Full));
    let b = parse_battery_status(&[5, 0x21, 0]);
    assert_eq!(b.level, Some(50));
    assert_eq!(b.status, Some(BatteryStatus::Recharging));
    let b = parse_battery_status(&[2, 0x04, 0]);
    assert_eq!(b.level, None);
    assert_eq!(b.status, None);
    let b = parse_battery_status(&[]);
    assert_eq!(b.status, Some(BatteryStatus::Discharging));
}

#[test]
fn battery_register_fallback() {
    let missing = Err(Error::Hidpp10(Hidpp10Error::InvalidSubId));
    assert!(matches!(battery_charge_outcome(missing), BatteryProbe::TryStatusRegister));
    let busy = Err(Error::Hidpp10(Hidpp10Error::Busy));
    assert!(matches!(battery_charge_outcome(busy), BatteryProbe::Done(Err(_))));
    let none = battery_status_outcome(Err(Error::Hidpp10(Hidpp10Error::RequestUnavailable)));
    assert!(matches!(none, Ok(None)));

    let (mut r, first) = BatteryReader10::new(2);
    assert_eq!(first.as_bytes(), &[0x10, 2, 0x81, 0x0D, 0, 0, 0]);
    let next = r.on_reply(Err(Error::Hidpp10(Hidpp10Error::InvalidSubId)));
    assert_eq!(sent(next), vec![0x10, 2, 0x81, 0x07, 0, 0, 0]);
    match r.on_reply(Ok(Message::short(2, 0x81, 0x07, 7, 0x22, 0))) {
        Step::Done(Ok(Some(b))) => {
            assert_eq!(b.level, Some(90));
            assert_eq!(b.status, Some(BatteryStatus::Full));
        },
        other => panic!("{:?}", other),
    }
}

#[test]
fn firmware_registers() {
    let v = Message::short(1, 0x81, 0xF1, 0x01, 0x12, 0x03);
    let b = Message::short(1, 0x81, 0xF1, 0x02, 0x00, 0x2A);
    let l = Message::short(1, 0x81, 0xF1, 0x04, 0x02, 0x01);
    let fw = firmware_from_replies(Some(&v), Some(&b), Some(&l));
    assert_eq!(fw.len(), 2);
    assert_eq!(fw[0].kind, FirmwareKind::Firmware);
    assert_eq!(fw[0].version, "12.03.B002A");
    assert_eq!(fw[1].kind, FirmwareKind::Bootloader);
    assert_eq!(fw[1].version, "02.01");
    assert!(firmware_from_replies(None, None, None).is_empty());

    let (mut r, first) = FirmwareReader10::new(1);
    assert_eq!(first.as_bytes(), &[0x10, 1, 0x81, 0xF1, 0x01, 0, 0]);
    let next = r.on_reply(Err(Error::Timeout));
    assert_eq!(sent(next), vec![0x10, 1, 0x81, 0xF1, 0x04, 0, 0]);
    match r.on_reply(Ok(l)) {
        Step::Done(Ok(list)) => {
            assert_eq!(list.len(), 1);
            assert_eq!(list[0].version, "02.01");
        },
        other => panic!("{:?}", other),
    }
}

#[test]
fn receiver_control_requests() {
    let flags = Message::short(0xFF, 0x81, 0x00, 0x01, 0x09, 0x00);
    assert_eq!(notification_flags_from_reply(&flags), 0x010900);
    assert_eq!(set_notification_flags_request(0x000900).as_bytes(), &[0x10, 0xFF, 0x80, 0x00, 0x00, 0x09, 0x00]);
    assert_eq!(pairing_lock_request(true, 30).as_bytes(), &[0x10, 0xFF, 0x80, 0xB2, 0x01, 0, 30]);
    let m = bolt_pair_request(0, &[1, 2, 3, 4, 5, 6], 0x01, 20);
    assert_eq!(m.sub_id(), 0x82);
    assert_eq!(m.address(), 0xC1);
    assert_eq!(&m.params()[..10], &[0x01, 0, 1, 2, 3, 4, 5, 6, 0x01, 20]);
}

// -- HID++ 2.0 -----------------------------------------------------------------

fn table(entries: &[(u16, u8)]) -> HashMap<u16, u8> {
    entries.iter().copied().collect()
}

#[test]
fn feature_calls() {
    assert_eq!(fn_addr(0), 0x0A);
    assert_eq!(fn_addr(3), 0x3A);
    let m = feature_call_request(2, 5, 1, &[7]);
    assert_eq!(m.as_bytes(), &[0x10, 2, 5, 0x1A, 7, 0, 0]);
    let m = feature_call_request(2, 5, 1, &[1, 2, 3, 4]);
    assert_eq!(m.as_bytes().len(), 20);
    assert_eq!(&m.params()[..5], &[1, 2, 3, 4, 0]);
    assert_eq!(feature_index_from_reply(&Message::short(2, 0, 0x0A, 0, 0, 0)), None);
    assert_eq!(feature_index_from_reply(&Message::short(2, 0, 0x0A, 4, 0, 0)), Some(4));
    let v = protocol_version_from_reply(Ok(Message::short(2, 0, 0x1A, 4, 5, 0))).unwrap();
    assert_eq!(v, Some((4, 5)));
    let v10 = protocol_version_from_reply(Err(Error::Hidpp10(Hidpp10Error::InvalidSubId)));
    assert!(matches!(v10, Ok(None)));
}

#[test]
fn feature_discovery_scans_the_table() {
    let (mut d, first) = FeatureDiscovery::new(1);
    assert_eq!(first.as_bytes(), &[0x10, 1, 0, 0x0A, 0x00, 0x01, 0]);
    // FEATURE_SET at index 1.
    let count_req = sent(d.on_reply(Ok(Message::short(1, 0, 0x0A, 1, 0, 0))));
    assert_eq!(count_req, vec![0x10, 1, 1, 0x0A, 0, 0, 0]);
    // Three features besides ROOT: indices 0..=3; 0 and 1 are known.
    let e2 = sent(d.on_reply(Ok(Message::short(1, 1, 0x0A, 3, 0, 0))));
    assert_eq!(e2, vec![0x10, 1, 1, 0x1A, 2, 0, 0]);
    let e3 = sent(d.on_reply(Ok(long(1, 1, 0x1A, &[0x10, 0x04, 0, 1]))));
    assert_eq!(e3, vec![0x10, 1, 1, 0x1A, 3, 0, 0]);
    match d.on_reply(Err(Error::Timeout)) {
        Step::Done(Ok(())) => {},
        other => panic!("{:?}", other),
    }
    let f = d.into_features();
    assert_eq!(f.len(), 3);
    assert_eq!(f.get(&0x0000), Some(&0));
    assert_eq!(f.get(&0x0001), Some(&1));
    assert_eq!(f.get(&FEAT_UNIFIED_BATTERY), Some(&2));
}

#[test]
fn feature_discovery_of_a_hidpp10_device_is_empty() {
    let (mut d, _) = FeatureDiscovery::new(3);
    match d.on_reply(Ok(Message::short(3, 0, 0x0A, 0, 0, 0))) {
        Step::Done(Ok(())) => {},
        other => panic!("{:?}", other),
    }
    assert!(d.into_features().is_empty());
}

#[test]
fn device_name_in_chunks() {
    let f = table(&[(FEAT_DEVICE_NAME, 3)]);
    let (mut r, step) = DeviceNameReader::new(1, &f);
    assert_eq!(sent(step), vec![0x10, 1, 3, 0x0A, 0, 0, 0]);
    let c0 = sent(r.on_reply(Ok(Message::short(1, 3, 0x0A, 21, 0, 0))));
    assert_eq!(c0, vec![0x10, 1, 3, 0x1A, 0, 0, 0]);
    let c1 = sent(r.on_reply(Ok(long(1, 3, 0x1A, b"MX Master 3S Wir"))));
    assert_eq!(c1, vec![0x10, 1, 3, 0x1A, 16, 0, 0]);
    match r.on_reply(Ok(long(1, 3, 0x1A, b"eless Mouse"))) {
        Step::Done(Ok(Some(name))) => assert_eq!(name, "MX Master 3S Wireless"),
        other => panic!("{:?}", other),
    }
    let (_, absent) = DeviceNameReader::new(1, &table(&[]));
    assert!(matches!(absent, Step::Done(Ok(None))));
}

#[test]
fn batteries_of_hidpp20_features() {
    let b = battery_status_from_reply(&Message::short(1, 4, 0x0A, 80, 50, 1));
    assert_eq!(b.level, Some(80));
    assert_eq!(b.status, Some(BatteryStatus::Recharging));
    let b = unified_battery_from_reply(&Message::short(1, 4, 0x1A, 0, 4, 3));
    assert_eq!(b.level, Some(50));
    assert_eq!(b.status, Some(BatteryStatus::Full));
    let b = unified_battery_from_reply(&Message::short(1, 4, 0x1A, 63, 8, 9));
    assert_eq!(b.level, Some(63));
    assert_eq!(b.status, Some(BatteryStatus::Discharging));
    let b = battery_voltage_from_reply(&Message::short(1, 4, 0x0A, 0x0F, 0xA0, 0));
    assert_eq!(b.voltage, Some(4000));
}

#[test]
fn battery_reader_falls_back_in_order() {
    let f = table(&[(FEAT_UNIFIED_BATTERY, 4), (FEAT_BATTERY_VOLTAGE, 6)]);
    let (mut r, step) = BatteryReader::new(1, &f);
    assert_eq!(sent(step), vec![0x10, 1, 4, 0x1A, 0, 0, 0]);
    let next = r.on_reply(Err(Error::Timeout));
    assert_eq!(sent(next), vec![0x10, 1, 6, 0x0A, 0, 0, 0]);
    match r.on_reply(Ok(Message::short(1, 6, 0x0A, 0x0E, 0x10, 0))) {
        Step::Done(Ok(Some(b))) => assert_eq!(b.voltage, Some(3600)),
        other => panic!("{:?}", other),
    }
    let (mut r, step) = BatteryReader::new(1, &table(&[(FEAT_BATTERY_STATUS, 2)]));
    assert_eq!(sent(step), vec![0x10, 1, 2, 0x0A, 0, 0, 0]);
    assert!(matches!(r.on_reply(Err(Error::Timeout)), Step::Done(Ok(None))));
    let (_, none) = BatteryReader::new(1, &table(&[]));
    assert!(matches!(none, Step::Done(Ok(None))));
}

#[test]
fn dpi_range_expansion() {
    let mut list = vec![400u16];
    assert!(expand_range(&mut list, 400, 1600));
    assert_eq!(list, vec![400, 800, 1200, 1600]);
    let mut empty: Vec<u16> = Vec::new();
    assert!(expand_range(&mut empty, 100, 1000));
    assert!(empty.is_empty());
    let mut stuck = vec![800u16];
    assert!(!expand_range(&mut stuck, 0, 1600));
    assert_eq!(stuck, vec![800]);
    let mut top = vec![800u16];
    assert!(!expand_range(&mut top, 100, 0xFFFF));
}

#[test]
fn dpi_pages() {
    let mut list = Vec::new();
    // sensor echo, 400, range marker step 200, end 1000, 0 terminator.
    let page = [0x00, 0x01, 0x90, 0xE0, 0xC8, 0x03, 0xE8, 0x00, 0x00];
    assert_eq!(scan_dpi_page(&mut list, &page), Some(true));
    assert_eq!(list, vec![400, 600, 800, 1000]);
    let mut list = Vec::new();
    assert_eq!(scan_dpi_page(&mut list, &[0x00, 0x03, 0x20, 0x06, 0x40]), Some(false));
    assert_eq!(list, vec![800, 1600]);
    let mut list = vec![800u16];
    assert_eq!(scan_dpi_page(&mut list, &[0x00, 0xE0, 0x00, 0x06, 0x40]), None);
}

#[test]
fn dpi_reader_reads_pages_then_current() {
    let f = table(&[(FEAT_ADJUSTABLE_DPI, 9)]);
    let (mut r, step) = DpiReader::new(1, &f);
    assert_eq!(sent(step), vec![0x10, 1, 9, 0x1A, 0, 0, 0]);
    let mut page0 = [0u8; 16];
    page0[1..].copy_from_slice(&[0x01, 0x90, 0x03, 0x20, 0x06, 0x40, 0x0C, 0x80, 0x0F, 0xA0, 0x12, 0xC0, 0x19, 0x00, 0x1F]);
    // 16 params: echo then seven words and a lone half word: no terminator.
    let next = r.on_reply(Ok(long(1, 9, 0x1A, &page0)));
    assert_eq!(sent(next), vec![0x10, 1, 9, 0x1A, 0, 0, 8]);
    let page1 = [0u8, 0x1F, 0x40, 0x00, 0x00];
    let cur = r.on_reply(Ok(long(1, 9, 0x1A, &page1)));
    assert_eq!(sent(cur), vec![0x10, 1, 9, 0x2A, 0, 0, 0]);
    match r.on_reply(Ok(long(1, 9, 0x2A, &[0, 0x06, 0x40, 0x03, 0x20]))) {
        Step::Done(Ok(Some(info))) => {
            assert_eq!(info.dpi_list, vec![400, 800, 1600, 3200, 4000, 4800, 6400, 8000]);
            assert_eq!(info.current_dpi, 1600);
            assert_eq!(info.default_dpi, 800);
        },
        other => panic!("{:?}", other),
    }
}

#[test]
fn dpi_current_falls_back_to_default() {
    let f = table(&[(FEAT_ADJUSTABLE_DPI, 9)]);
    let (mut r, _) = DpiReader::new(1, &f);
    let _ = r.on_reply(Ok(long(1, 9, 0x1A, &[0, 0x03, 0x20, 0, 0])));
    match r.on_reply(Ok(long(1, 9, 0x2A, &[0, 0, 0, 0x03, 0x20]))) {
        Step::Done(Ok(Some(info))) => {
            assert_eq!(info.current_dpi, 800);
            assert_eq!(info.default_dpi, 800);
        },
        other => panic!("{:?}", other),
    }
    let (mut r, _) = DpiReader::new(1, &f);
    let _ = r.on_reply(Ok(long(1, 9, 0x1A, &[0, 0x03, 0x20, 0, 0])));
    match r.on_reply(Err(Error::Timeout)) {
        Step::Done(Ok(Some(info))) => {
            assert_eq!(info.dpi_list, vec![800]);
            assert_eq!(info.current_dpi, 0);
        },
        other => panic!("{:?}", other),
    }
    let m = set_dpi_request(1, &f, 1600).unwrap();
    assert_eq!(m.as_bytes(), &[0x10, 1, 9, 0x3A, 0, 0x06, 0x40]);
    assert!(set_dpi_request(1, &table(&[]), 1600).is_none());
}

#[test]
fn wheel_and_keyboard_settings() {
    let caps = Message::short(1, 7, 0x0A, 8, 0x08, 0);
    let mode = Message::short(1, 7, 0x1A, 0x06, 0, 0);
    let s = scroll_info_from_replies(&caps, &mode);
    assert!(s.has_invert && s.has_hires && s.inverted && s.hires_enabled);
    let ss = smart_shift_from_replies(&Message::short(1, 8, 0x0A, 1, 0, 0), &Message::short(1, 8, 0x1A, 2, 30, 70));
    assert_eq!((ss.wheel_mode, ss.has_torque, ss.torque), (2, true, 70));
    let read = Message::short(1, 8, 0x1A, 0, 0, 0);
    let w = smart_shift_write_request(&read, &Message::short(1, 8, 0x1A, 2, 30, 70), 1, 50);
    assert_eq!(w.as_bytes(), &[0x10, 1, 8, 0x2A, 1, 30, 50]);
    let both = table(&[(FEAT_FN_INVERSION, 3), (FEAT_NEW_FN_INVERSION, 5)]);
    assert_eq!(find_fn_feature(&both), Some(5));
    assert_eq!(find_fn_feature(&table(&[(FEAT_K375S_FN_INVERSION, 6)])), Some(6));
    assert_eq!(feature_index_of(&both, FEAT_FN_INVERSION), Some(3));
}

#[test]
fn backlight_state_and_write() {
    let mut p = [0u8; 16];
    p[..12].copy_from_slice(&[1, 0x1C, 0x28, 0, 0, 60, 0x10, 0x27, 0x20, 0x4E, 0x30, 0x75]);
    let current = long(1, 11, 0x0A, &p);
    let b = backlight_from_reply(&current);
    assert_eq!((b.mode, b.auto_supported, b.manual_supported, b.level), (3, true, true, 60));
    let read = Message::short(1, 11, 0x0A, 0, 0, 0);
    let w = backlight_write_request(&read, &current, 1, 80).unwrap();
    assert_eq!(w.sub_id(), 11);
    assert_eq!(w.address(), 0x1A);
    assert_eq!(&w.params()[..10], &[1, 0x0C, 0xFF, 0, 0x10, 0x27, 0x20, 0x4E, 0x30, 0x75]);
    let off = backlight_from_reply(&Message::short(1, 11, 0x0A, 0, 0x18, 0));
    assert_eq!(off.mode, 0);
    assert!(backlight_write_request(&read, &Message::short(1, 11, 0x0A, 1, 0, 0), 3, 50).is_none());
}

#[test]
fn hosts_with_names_and_defaults() {
    let f = table(&[(FEAT_CHANGE_HOST, 4), (FEAT_HOSTS_INFO, 5)]);
    let (mut r, step) = HostsReader::new(1, &f);
    assert_eq!(sent(step), vec![0x10, 1, 4, 0x0A, 0, 0, 0]);
    let caps0 = sent(r.on_reply(Ok(Message::short(1, 4, 0x0A, 2, 1, 0))));
    assert_eq!(caps0, vec![0x10, 1, 5, 0x0A, 0, 0, 0]);
    let info0 = sent(r.on_reply(Ok(Message::short(1, 5, 0x0A, 1, 0, 0))));
    assert_eq!(info0, vec![0x10, 1, 5, 0x1A, 0, 0, 0]);
    let name0 = sent(r.on_reply(Ok(long(1, 5, 0x1A, &[0, 1, 0, 0, 6]))));
    assert_eq!(name0, vec![0x10, 1, 5, 0x3A, 0, 0, 0]);
    let caps1 = sent(r.on_reply(Ok(long(1, 5, 0x3A, b"\x00\x00laptop\x00\x00"))));
    assert_eq!(caps1, vec![0x10, 1, 5, 0x0A, 0, 0, 0]);
    match r.on_reply(Err(Error::Timeout)) {
        Step::Done(Ok(Some(hosts))) => {
            assert_eq!(hosts.len(), 2);
            assert_eq!(hosts[0].name, "laptop");
            assert!(!hosts[0].is_active);
            assert_eq!(hosts[1].name, "Host 2");
            assert!(hosts[1].is_active);
        },
        other => panic!("{:?}", other),
    }
    let (mut r, _) = HostsReader::new(1, &table(&[(FEAT_CHANGE_HOST, 4)]));
    match r.on_reply(Ok(Message::short(1, 4, 0x0A, 3, 0, 0))) {
        Step::Done(Ok(Some(hosts))) => {
            let names: Vec<&str> = hosts.iter().map(|h| h.name.as_str()).collect();
            assert_eq!(names, vec!["Host 1", "Host 2", "Host 3"]);
            assert!(hosts[0].is_active);
        },
        other => panic!("{:?}", other),
    }
}

#[test]
fn platforms_and_os_names() {
    assert_eq!(os_name_from_flags(0x2100), "macOS");
    assert_eq!(os_name_from_flags(0x0500), "Windows");
    assert_eq!(os_name_from_flags(0x0400), "Linux");
    assert_eq!(os_name_from_flags(0x0001), "Other");
    let f = table(&[(FEAT_MULTIPLATFORM, 10)]);
    let (mut r, step) = PlatformReader::new(1, &f);
    assert_eq!(sent(step), vec![0x10, 1, 10, 0x0A, 0, 0, 0]);
    let d0 = sent(r.on_reply(Ok(long(1, 10, 0x0A, &[0x02, 0, 2, 0, 0, 0, 1]))));
    assert_eq!(d0, vec![0x10, 1, 10, 0x1A, 0, 0, 0]);
    let d1 = sent(r.on_reply(Ok(long(1, 10, 0x1A, &[0, 0, 0x01, 0x00]))));
    assert_eq!(d1, vec![0x10, 1, 10, 0x1A, 1, 0, 0]);
    match r.on_reply(Ok(long(1, 10, 0x1A, &[1, 0, 0x20, 0x00]))) {
        Step::Done(Ok(Some(info))) => {
            assert!(info.can_set);
            assert_eq!(info.current, 1);
            assert_eq!(info.platforms[0].name, "Windows");
            assert_eq!(info.platforms[1].name, "macOS");
            assert_eq!(info.platforms[1].index, 1);
        },
        other => panic!("{:?}", other),
    }
    let (mut r, _) = PlatformReader::new(1, &f);
    assert!(matches!(r.on_reply(Ok(long(1, 10, 0x0A, &[0, 0, 2]))), Step::Done(Ok(None))));
}

#[test]
fn hidpp20_firmware_entities() {
    let f = table(&[(FEAT_FW_VERSION, 2)]);
    let (mut r, step) = FirmwareReader::new(1, &f);
    assert_eq!(sent(step), vec![0x10, 1, 2, 0x0A, 0, 0, 0]);
    let e0 = sent(r.on_reply(Ok(Message::short(1, 2, 0x0A, 2, 0, 0))));
    assert_eq!(e0, vec![0x10, 1, 2, 0x1A, 0, 0, 0]);
    let e1 = sent(r.on_reply(Ok(long(1, 2, 0x1A, &[0, b'M', b'P', 0x12, 0x05, 0, 0x00, 0x3B]))));
    assert_eq!(e1, vec![0x10, 1, 2, 0x1A, 1, 0, 0]);
    match r.on_reply(Ok(Message::short(1, 2, 0x1A, 1, 0, 0))) {
        Step::Done(Ok(list)) => {
            assert_eq!(list.len(), 1);
            assert_eq!(list[0].kind, FirmwareKind::Firmware);
            assert_eq!(list[0].version, "12.05.B003B");
        },
        other => panic!("{:?}", other),
    }
}

// -- transport -------------------------------------------------------------------

#[test]
fn reply_timeouts() {
    let to_receiver = Message::short(0xFF, 0x83, 0xB5, 3, 0, 0);
    assert_eq!(request_timeout_ms(&to_receiver, None), 300);
    let to_device = Message::short(1, 0x83, 0xB5, 3, 0, 0);
    assert_eq!(request_timeout_ms(&to_device, None), 8000);
    assert_eq!(request_timeout_ms(&Message::short(1, 5, 0x1A, 0, 0, 0), None), 4000);
    assert_eq!(request_timeout_ms(&to_device, Some(100)), 100);
}

#[test]
fn reply_matching() {
    let req = Message::short(0xFF, 0x83, 0xB5, 0x03, 0, 0);
    let expected = expected_sub_register(&req);
    assert_eq!(expected, Some(0x03));
    let good = long(0xFF, 0x83, 0xB5, &[0x03, 1, 2]);
    assert!(matches!(match_reply(&req, expected, &good), ReplyVerdict::Accept));
    let other_sub = long(0xFF, 0x83, 0xB5, &[0x20, 1, 2]);
    assert!(matches!(match_reply(&req, expected, &other_sub), ReplyVerdict::Ignore));
    let err = Message::short(0xFF, 0x8F, 0x83, 0xB5, 0x08, 0);
    match match_reply(&req, expected, &err) {
        ReplyVerdict::Fail(Error::Hidpp10(e)) => assert_eq!(e, Hidpp10Error::UnknownDevice),
        other => panic!("{:?}", other),
    }
    let dreq = Message::short(2, 5, 0x1A, 0, 0, 0);
    let derr = Message::short(2, 0xFF, 5, 0x1A, 0x07, 0);
    match match_reply(&dreq, None, &derr) {
        ReplyVerdict::Fail(Error::Hidpp20(e)) => assert_eq!(e, Hidpp20Error::InvalidFunction),
        other => panic!("{:?}", other),
    }
    let elsewhere = Message::short(3, 5, 0x1A, 0, 0, 0);
    assert!(matches!(match_reply(&dreq, None, &elsewhere), ReplyVerdict::Ignore));
    let bt = Message::short(0x00, 0x81, 0x07, 0, 0, 0);
    assert!(matches!(match_reply(&Message::short(0xFF, 0x81, 0x07, 0, 0, 0), None, &bt), ReplyVerdict::Accept));
}

#[test]
fn slot_sub_registers_wrap_in_byte_arithmetic() {
    assert_eq!(slot_info_request(InfoSubReg::PairingInformation, 1).as_bytes(), &[0x10, 0xFF, 0x83, 0xB5, 0x20, 0, 0]);
    assert_eq!(slot_info_request(InfoSubReg::DeviceName, 0xC5).as_bytes(), &[0x10, 0xFF, 0x83, 0xB5, 0x04, 0, 0]);
    assert_eq!(bolt_pairing_info_request(0xB2).as_bytes(), &[0x10, 0xFF, 0x83, 0xB5, 0x02, 0, 0]);
    assert_eq!(bolt_device_codename_request(0xA1).as_bytes(), &[0x10, 0xFF, 0x83, 0xB5, 0x01, 0x01, 0]);
}
