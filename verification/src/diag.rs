//! Diagnostic renderings used by the command-line tools: feature names, a
//! one-line summary of a raw HID++ report, and the text of a C string buffer.

use vstd::prelude::*;
use vstd::utf8::{decode_utf8, valid_utf8};
use crate::text::{decimal, hex2, push_char, push_decimal, push_hex2, utf8_str};

verus! {

/// The name of a HID++ 2.0 feature ID ("unknown" for IDs not listed).
pub open spec fn feature_name(id: u16) -> Seq<char> {
    match id {
        0x0000 => "ROOT"@,
        0x0001 => "FEATURE_SET"@,
        0x0003 => "FW_VERSION"@,
        0x0005 => "DEVICE_NAME"@,
        0x0007 => "DEVICE_FRIENDLY_NAME"@,
        0x0008 => "RESET_PAIRING"@,
        0x0020 => "RESET"@,
        0x1000 => "BATTERY_STATUS"@,
        0x1001 => "BATTERY_VOLTAGE"@,
        0x1004 => "UNIFIED_BATTERY"@,
        0x1806 => "CONFIG_DEVICE_PROPS"@,
        0x1814 => "CHANGE_HOST"@,
        0x1815 => "HOSTS_INFO"@,
        0x1981 => "BACKLIGHT"@,
        0x1982 => "BACKLIGHT2"@,
        0x1983 => "BACKLIGHT3"@,
        0x1B04 => "SPECIAL_KEYS_BUTTONS"@,
        0x1B10 => "SPECIAL_KEYS_BUTTONS_v3"@,
        0x1D4B => "WIRELESS_DEVICE_STATUS"@,
        0x1DE0 => "KEEP_ALIVE"@,
        0x1E00 => "ENABLE_HIDDEN_FEATURES"@,
        0x1F20 => "CONFIGURATION_CHANGE"@,
        0x1500 => "FORCE_PAIRING"@,
        0x2100 => "VERTICAL_SCROLLING"@,
        0x2110 => "SMART_SHIFT"@,
        0x2111 => "SMART_SHIFT_ENHANCED"@,
        0x2120 => "HI_RES_SCROLLING"@,
        0x2121 => "HIRES_WHEEL"@,
        0x2130 => "LOWRES_WHEEL"@,
        0x2150 => "THUMB_WHEEL"@,
        0x2201 => "ADJUSTABLE_DPI"@,
        0x2202 => "EXTENDED_ADJUSTABLE_DPI"@,
        0x2400 => "POINTER_SPEED"@,
        0x40A0 => "FN_INVERSION"@,
        0x40A2 => "NEW_FN_INVERSION"@,
        0x40A3 => "K375S_FN_INVERSION"@,
        0x4100 => "ENCRYPTION"@,
        0x4220 => "LOCK_KEY_STATE"@,
        0x4301 => "SOLAR_DASHBOARD"@,
        0x4520 => "KEYBOARD_LAYOUT"@,
        0x4522 => "KEYBOARD_DISABLE_KEYS"@,
        0x4531 => "MULTIPLATFORM"@,
        0x4600 => "DUALPLATFORM"@,
        0x4610 => "MULTIPLATFORM_OLD"@,
        0x4621 => "KEYBOARD_LAYOUT2"@,
        0x6010 => "BACKLIGHT-GAMING"@,
        0x6020 => "BACKLIGHT2-GAMING"@,
        0x6030 => "BACKLIGHT3-GAMING"@,
        0x6100 => "ILLUMINATION"@,
        0x6110 => "FORCE_PAIRING2"@,
        0x8010 => "GAMING_ATTACHMENTS"@,
        0x8020 => "CONFIG_CHANGE"@,
        0x8100 => "ONBOARD_PROFILES"@,
        0x8110 => "MOUSE_BUTTON_SPY"@,
        _ => "unknown"@,
    }
}

/// The name of a HID++ 2.0 feature ID ("unknown" for IDs not listed).
pub fn feature_label(id: u16) -> (r: &'static str)
    ensures
        r@ == feature_name(id),
{
    match id {
        0x0000 => "ROOT",
        0x0001 => "FEATURE_SET",
        0x0003 => "FW_VERSION",
        0x0005 => "DEVICE_NAME",
        0x0007 => "DEVICE_FRIENDLY_NAME",
        0x0008 => "RESET_PAIRING",
        0x0020 => "RESET",
        0x1000 => "BATTERY_STATUS",
        0x1001 => "BATTERY_VOLTAGE",
        0x1004 => "UNIFIED_BATTERY",
        0x1806 => "CONFIG_DEVICE_PROPS",
        0x1814 => "CHANGE_HOST",
        0x1815 => "HOSTS_INFO",
        0x1981 => "BACKLIGHT",
        0x1982 => "BACKLIGHT2",
        0x1983 => "BACKLIGHT3",
        0x1B04 => "SPECIAL_KEYS_BUTTONS",
        0x1B10 => "SPECIAL_KEYS_BUTTONS_v3",
        0x1D4B => "WIRELESS_DEVICE_STATUS",
        0x1DE0 => "KEEP_ALIVE",
        0x1E00 => "ENABLE_HIDDEN_FEATURES",
        0x1F20 => "CONFIGURATION_CHANGE",
        0x1500 => "FORCE_PAIRING",
        0x2100 => "VERTICAL_SCROLLING",
        0x2110 => "SMART_SHIFT",
        0x2111 => "SMART_SHIFT_ENHANCED",
        0x2120 => "HI_RES_SCROLLING",
        0x2121 => "HIRES_WHEEL",
        0x2130 => "LOWRES_WHEEL",
        0x2150 => "THUMB_WHEEL",
        0x2201 => "ADJUSTABLE_DPI",
        0x2202 => "EXTENDED_ADJUSTABLE_DPI",
        0x2400 => "POINTER_SPEED",
        0x40A0 => "FN_INVERSION",
        0x40A2 => "NEW_FN_INVERSION",
        0x40A3 => "K375S_FN_INVERSION",
        0x4100 => "ENCRYPTION",
        0x4220 => "LOCK_KEY_STATE",
        0x4301 => "SOLAR_DASHBOARD",
        0x4520 => "KEYBOARD_LAYOUT",
        0x4522 => "KEYBOARD_DISABLE_KEYS",
        0x4531 => "MULTIPLATFORM",
        0x4600 => "DUALPLATFORM",
        0x4610 => "MULTIPLATFORM_OLD",
        0x4621 => "KEYBOARD_LAYOUT2",
        0x6010 => "BACKLIGHT-GAMING",
        0x6020 => "BACKLIGHT2-GAMING",
        0x6030 => "BACKLIGHT3-GAMING",
        0x6100 => "ILLUMINATION",
        0x6110 => "FORCE_PAIRING2",
        0x8010 => "GAMING_ATTACHMENTS",
        0x8020 => "CONFIG_CHANGE",
        0x8100 => "ONBOARD_PROFILES",
        0x8110 => "MOUSE_BUTTON_SPY",
        _ => "unknown",
    }
}

/// The bytes of a report in upper-case hex, separated by single spaces.
pub open spec fn hex_spaced(data: Seq<u8>) -> Seq<char>
    decreases data.len(),
{
    if data.len() == 0 {
        Seq::empty()
    } else if data.len() == 1 {
        hex2(data[0])
    } else {
        hex_spaced(data.drop_last()) + seq![' '] + hex2(data.last())
    }
}

fn push_hex_spaced(s: &mut String, data: &[u8])
    ensures
        final(s)@ == old(s)@ + hex_spaced(data@),
{
    let mut i: usize = 0;
    while i < data.len()
        invariant
            i <= data@.len(),
            s@ == old(s)@ + hex_spaced(data@.take(i as int)),
        decreases data@.len() - i,
    {
        let ghost before = s@;
        if i > 0 {
            push_char(s, ' ');
        }
        push_hex2(s, data[i]);
        proof {
            let t = data@.take(i as int + 1);
            assert(t.drop_last() =~= data@.take(i as int));
            assert(t.last() == data@[i as int]);
            if i == 0 {
                assert(hex_spaced(t) == hex2(data@[0]));
                assert(s@ =~= old(s)@ + hex_spaced(t));
            } else {
                assert(s@ =~= old(s)@ + hex_spaced(t));
            }
        }
        i = i + 1;
    }
    proof {
        assert(data@.take(i as int) =~= data@);
    }
}

/// "true" or "false".
pub open spec fn bool_text(b: bool) -> Seq<char> {
    if b {
        "true"@
    } else {
        "false"@
    }
}

fn push_bool(s: &mut String, b: bool)
    ensures
        final(s)@ == old(s)@ + bool_text(b),
{
    if b {
        s.append("true");
    } else {
        s.append("false");
    }
}

/// The report-type column of a summary, for the known report IDs.
pub open spec fn report_kind_text(report_id: u8) -> Option<Seq<char>> {
    match report_id {
        0x10 => Some("VERY-SHORT"@),
        0x11 => Some("SHORT     "@),
        0x12 => Some("LONG      "@),
        _ => None,
    }
}

/// The note added for well-known sub-IDs: link changes (0x41) and ROOT (0x00).
pub open spec fn feature_note(feature: u8) -> Seq<char> {
    if feature == 0x41 {
        " << LINK_CHANGE"@
    } else if feature == 0x00 {
        " (root/ping)"@
    } else {
        Seq::empty()
    }
}

/// For a link change with a protocol byte, the device, whether it is online
/// (bit 0x40 clear: the link is established; set: the device went offline)
/// and the encrypted flag (bit 0x20).
pub open spec fn link_detail(data: Seq<u8>) -> Seq<char> {
    if data[2] == 0x41 && data.len() > 4 {
        "  [device="@ + decimal(data[1] as nat) + " online="@ + bool_text(data[4] & 0x40 == 0)
            + " encrypted="@ + bool_text(data[4] & 0x20 != 0) + "]"@
    } else {
        Seq::empty()
    }
}

/// A one-line summary of a raw report: reports under 4 bytes are shown as
/// short hex; unknown report IDs with their ID and hex; others with their
/// type, device, sub-ID and function columns, a note, the link detail and
/// the raw hex.
pub open spec fn report_summary(data: Seq<u8>) -> Seq<char> {
    let hex = hex_spaced(data);
    if data.len() < 4 {
        "(short) "@ + hex
    } else {
        match report_kind_text(data[0]) {
            None => "UNKNOWN(0x"@ + hex2(data[0]) + ") "@ + hex,
            Some(kind) => kind + "  dev=0x"@ + hex2(data[1]) + "  feat=0x"@ + hex2(data[2])
                + "  fn/evt=0x"@ + hex2(data[3]) + feature_note(data[2]) + link_detail(data)
                + "  raw=["@ + hex + "]"@,
        }
    }
}

/// A one-line summary of a raw HID++ report (see `report_summary`).
pub fn decode(data: &[u8]) -> (r: String)
    ensures
        r@ == report_summary(data@),
{
    let mut out = String::new();
    if data.len() < 4 {
        out.append("(short) ");
        push_hex_spaced(&mut out, data);
        assert(out@ =~= report_summary(data@));
        return out;
    }
    let report_id = data[0];
    let device_idx = data[1];
    let feature = data[2];
    let func_evt = data[3];
    let kind = match report_id {
        0x10 => "VERY-SHORT",
        0x11 => "SHORT     ",
        0x12 => "LONG      ",
        _ => {
            out.append("UNKNOWN(0x");
            push_hex2(&mut out, report_id);
            out.append(") ");
            push_hex_spaced(&mut out, data);
            assert(out@ =~= report_summary(data@));
            return out;
        },
    };
    out.append(kind);
    out.append("  dev=0x");
    push_hex2(&mut out, device_idx);
    out.append("  feat=0x");
    push_hex2(&mut out, feature);
    out.append("  fn/evt=0x");
    push_hex2(&mut out, func_evt);
    let ghost before_note = out@;
    if feature == 0x41 {
        out.append(" << LINK_CHANGE");
    } else if feature == 0x00 {
        out.append(" (root/ping)");
    }
    assert(out@ =~= before_note + feature_note(feature));
    let ghost before_link = out@;
    if feature == 0x41 && data.len() > 4 {
        let proto = data[4];
        out.append("  [device=");
        push_decimal(&mut out, device_idx as u32);
        out.append(" online=");
        push_bool(&mut out, (proto & 0x40) == 0);
        out.append(" encrypted=");
        push_bool(&mut out, (proto & 0x20) != 0);
        out.append("]");
    }
    assert(out@ =~= before_link + link_detail(data@));
    out.append("  raw=[");
    push_hex_spaced(&mut out, data);
    out.append("]");
    assert(out@ =~= report_summary(data@));
    out
}

/// The bytes of a C string buffer before its first NUL (all of them when
/// there is none).
pub open spec fn c_text(buf: Seq<u8>) -> Seq<u8>
    decreases buf.len(),
{
    if buf.len() == 0 {
        Seq::empty()
    } else if buf[0] == 0 {
        Seq::empty()
    } else {
        seq![buf[0]] + c_text(buf.drop_first())
    }
}

/// The text of a C string buffer: its bytes before the first NUL, decoded as
/// UTF-8, or "<invalid utf8>" when they are not valid UTF-8.
pub open spec fn c_buffer_text(buf: Seq<u8>) -> Seq<char> {
    if valid_utf8(c_text(buf)) {
        decode_utf8(c_text(buf))
    } else {
        "<invalid utf8>"@
    }
}

/// The text of a buffer is its prefix up to the first NUL.
pub proof fn lemma_c_text_prefix(buf: Seq<u8>, end: int)
    requires
        0 <= end <= buf.len(),
        forall|k: int| 0 <= k < end ==> buf[k] != 0,
        end == buf.len() || buf[end] == 0,
    ensures
        c_text(buf) == buf.take(end),
    decreases buf.len(),
{
    if buf.len() == 0 || end == 0 {
        assert(buf.take(end) =~= Seq::<u8>::empty());
    } else {
        lemma_c_text_prefix(buf.drop_first(), end - 1);
        assert(buf.take(end) =~= seq![buf[0]] + buf.drop_first().take(end - 1));
    }
}

/// The text of a null-terminated buffer (see `c_buffer_text`).
pub fn buf_to_str(buf: &[u8]) -> (r: &str)
    ensures
        r@ == c_buffer_text(buf@),
{
    let mut end: usize = 0;
    while end < buf.len() && buf[end] != 0
        invariant
            end <= buf@.len(),
            forall|k: int| 0 <= k < end ==> buf@[k] != 0,
        decreases buf@.len() - end,
    {
        end = end + 1;
    }
    proof {
        lemma_c_text_prefix(buf@, end as int);
    }
    let text = &buf[0..end];
    assert(text@ == buf@.take(end as int));
    match utf8_str(text) {
        Some(s) => s,
        None => "<invalid utf8>",
    }
}

} // verus!
