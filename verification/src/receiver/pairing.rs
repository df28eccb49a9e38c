//! The pairing protocol: how receiver notifications drive a pairing session.

use vstd::prelude::*;
use crate::hidpp::message::{Message, frame_params};
use crate::receiver::ReceiverKind;
use crate::text::{
    hex2, lossy_utf8, push_char, push_hex2, trim_nul, trim_trailing_nul, utf8_lossy,
};

verus! {

// Sub-IDs for receiver notifications.
pub const NOTIF_DJ_PAIRING: u8 = 0x41;
pub const NOTIF_PAIRING_LOCK: u8 = 0x4A;
pub const NOTIF_POWER: u8 = 0x4B;
pub const NOTIF_PASSKEY_REQUEST: u8 = 0x4D;
pub const NOTIF_DEVICE_DISCOVERY: u8 = 0x4F;
pub const NOTIF_DISCOVERY_STATUS: u8 = 0x53;
pub const NOTIF_PAIRING_STATUS: u8 = 0x54;

/// Device discovered by a Bolt receiver during the discovery phase.
/// Collected across up to two 0x4F notification chunks before pairing is initiated.
#[derive(Debug)]
pub struct BoltDiscoveredDevice {
    pub address: [u8; 6],
    pub authentication: u8,
    pub kind: u8,
    pub name: String,
}

/// State kept across calls to Receiver::poll_pairing.
#[derive(Debug)]
pub struct PairingSession {
    /// Unifying: slot of a newly connected device (set on 0x41 notification).
    pub unifying_new_slot: Option<u8>,
    /// Bolt: data collected from 0x4F discovery notifications.
    pub bolt_discovered: Option<BoltDiscoveredDevice>,
    /// Bolt: passkey string (numeric digits to type, or button sequence).
    pub passkey: Option<String>,
}

impl PairingSession {
    pub fn new() -> (s: Self)
        ensures
            s.unifying_new_slot is None,
            s.bolt_discovered is None,
            s.passkey is None,
    {
        PairingSession { unifying_new_slot: None, bolt_discovered: None, passkey: None }
    }
}

/// Events returned by Receiver::poll_pairing.
#[derive(Debug)]
pub enum PairingEvent {
    /// Still waiting; no relevant notification received within the timeout.
    Waiting,
    /// Bolt: a compatible device was found and pairing has been initiated.
    BoltDeviceFound(String),
    /// Bolt: numeric passkey -- user must type these digits on the keyboard, then press Enter.
    PasskeyNumeric(String),
    /// Bolt: button passkey -- encoded as a string of 'L'/'R' characters.
    PasskeyButton(String),
    /// Pairing complete. slot is the 1-based slot of the new device.
    Paired(u8),
    /// Pairing failed.
    Failed(String),
}

/// What the receiver's pairing logic asks for after one notification.
#[derive(Debug)]
pub enum PairingAction {
    /// Report this event to the caller.
    Report(PairingEvent),
    /// Bolt: both discovery chunks have arrived; ask the receiver to pair the
    /// discovered device (slot 0), then report `BoltDeviceFound(name)`.
    PairBoltDevice { address: [u8; 6], authentication: u8, entropy: u8, name: String },
}

// ---------------------------------------------------------------------------
// Passkeys
// ---------------------------------------------------------------------------

/// A non-empty run of ASCII decimal digits.
pub open spec fn is_decimal_digits(s: Seq<char>) -> bool {
    s.len() > 0 && forall|i: int| 0 <= i < s.len() ==> '0' <= #[trigger] s[i] <= '9'
}

/// The value of a run of ASCII decimal digits.
pub open spec fn decimal_value(s: Seq<char>) -> nat
    decreases s.len(),
{
    if s.len() == 0 {
        0
    } else {
        decimal_value(s.drop_last()) * 10 + (s.last() as nat - 48) as nat
    }
}

/// What `str::parse::<u32>` gives for a string, as its documentation
/// describes the format: an optional `+` followed by one or more ASCII
/// digits, whose value fits in a u32; anything else is an error.
pub open spec fn u32_from_str(s: Seq<char>) -> Option<u32> {
    let digits = if s.len() > 0 && s[0] == '+' {
        s.drop_first()
    } else {
        s
    };
    if is_decimal_digits(digits) && decimal_value(digits) <= u32::MAX {
        Some(decimal_value(digits) as u32)
    } else {
        None
    }
}

/// A prefix of a run of characters never has a larger decimal value.
proof fn lemma_decimal_value_prefix(t: Seq<char>, m: int)
    requires
        0 <= m <= t.len(),
    ensures
        decimal_value(t.take(m)) <= decimal_value(t),
    decreases t.len(),
{
    if m < t.len() {
        lemma_decimal_value_prefix(t.drop_last(), m);
        assert(t.drop_last().take(m) =~= t.take(m));
    } else {
        assert(t.take(m) =~= t);
    }
}

/// Parses a string as a u32 the way `str::parse::<u32>` does: an optional
/// `+`, then one or more ASCII digits whose value fits in a u32.
fn parse_u32(s: &str) -> (r: Option<u32>)
    ensures
        r == u32_from_str(s@),
{
    let n = s.unicode_len();
    let start: usize = if n > 0 && s.get_char(0) == '+' {
        1
    } else {
        0
    };
    let ghost digits = if s@.len() > 0 && s@[0] == '+' {
        s@.drop_first()
    } else {
        s@
    };
    proof {
        assert(digits =~= s@.subrange(start as int, n as int));
        assert(u32_from_str(s@) == if is_decimal_digits(digits) && decimal_value(digits) <= u32::MAX {
            Some(decimal_value(digits) as u32)
        } else {
            None
        });
    }
    if start >= n {
        return None;
    }
    let mut v: u32 = 0;
    let mut i: usize = start;
    proof {
        assert(digits.take(0) =~= Seq::<char>::empty());
    }
    while i < n
        invariant
            start <= i <= n,
            start < n,
            n == s@.len(),
            digits == s@.subrange(start as int, n as int),
            u32_from_str(s@) == if is_decimal_digits(digits) && decimal_value(digits) <= u32::MAX {
                Some(decimal_value(digits) as u32)
            } else {
                None
            },
            forall|j: int| 0 <= j < i - start ==> '0' <= #[trigger] digits[j] <= '9',
            v == decimal_value(digits.take(i - start)),
        decreases n - i,
    {
        let c = s.get_char(i);
        let ghost k: int = i - start;
        proof {
            assert(digits[k] == c);
        }
        let cu = c as u32;
        if cu < 48 || cu > 57 {
            assert(!('0' <= digits[k] <= '9'));
            assert(!is_decimal_digits(digits));
            assert(u32_from_str(s@) is None);
            return None;
        }
        let w: u64 = (v as u64) * 10 + (cu - 48) as u64;
        proof {
            assert(digits.take(k + 1).drop_last() =~= digits.take(k));
            assert(digits.take(k + 1).last() == c);
            assert(w == decimal_value(digits.take(k + 1)));
        }
        if w > 0xFFFF_FFFF {
            proof {
                lemma_decimal_value_prefix(digits, k + 1);
                assert(decimal_value(digits) > u32::MAX);
                assert(u32_from_str(s@) is None);
            }
            return None;
        }
        v = w as u32;
        i = i + 1;
    }
    proof {
        assert(digits.take(n - start) =~= digits);
    }
    Some(v)
}

/// The L/R button sequence for a passkey value: its 10 least-significant
/// bits, most significant first, '1' = 'R' (right button), '0' = 'L'.
pub open spec fn button_sequence(n: u32) -> Seq<char> {
    Seq::new(10, |i: int| if (n >> ((9 - i) as u32)) & 1u32 != 0 { 'R' } else { 'L' })
}

/// The passkey value of a passkey string: its decimal value after trailing
/// NULs are removed, or 0 when it does not parse.
pub open spec fn passkey_value(s: Seq<char>) -> u32 {
    match u32_from_str(trim_trailing_nul(s)) {
        Some(v) => v,
        None => 0,
    }
}

/// Convert a Bolt button-passkey string to an L/R sequence.
///
/// The receiver sends the passkey as an ASCII decimal string (e.g. "048").
/// Parse it as a u32, then read the 10 least-significant bits MSB-first:
/// bit=1 -> 'R' (right button), bit=0 -> 'L' (left button).
pub fn passkey_to_buttons(passkey_str: &str) -> (r: String)
    ensures
        r@ == button_sequence(passkey_value(passkey_str@)),
{
    let trimmed = trim_nul(passkey_str);
    let n: u32 = match parse_u32(trimmed.as_str()) {
        Some(v) => v,
        None => 0,
    };
    let mut r = String::new();
    let mut i: u32 = 0;
    while i < 10
        invariant
            i <= 10,
            n == passkey_value(passkey_str@),
            r@ == button_sequence(n).take(i as int),
        decreases 10 - i,
    {
        let c = if (n >> (9 - i)) & 1 != 0 {
            'R'
        } else {
            'L'
        };
        push_char(&mut r, c);
        i = i + 1;
        assert(r@ =~= button_sequence(n).take(i as int));
    }
    assert(r@ =~= button_sequence(n));
    r
}

// ---------------------------------------------------------------------------
// Pairing step
// ---------------------------------------------------------------------------

/// The name bytes of a Bolt discovery name chunk: params[2] is the name
/// length, the name starts at params[3] and is cut at the end of the report.
pub open spec fn bolt_name_bytes(p: Seq<u8>) -> Seq<u8> {
    let end: int = if 3 + p[2] < p.len() {
        3 + p[2]
    } else {
        p.len() as int
    };
    p.subrange(3, end)
}

/// The passkey text of a passkey request: params[0..6] decoded, trailing NULs removed.
pub open spec fn passkey_text(p: Seq<u8>) -> Seq<char> {
    let end: int = if p.len() < 6 {
        p.len() as int
    } else {
        6
    };
    trim_trailing_nul(lossy_utf8(p.subrange(0, end)))
}

/// The action reports that the pairing is still waiting.
pub open spec fn reports_waiting(a: PairingAction) -> bool {
    a matches PairingAction::Report(PairingEvent::Waiting)
}

/// The action reports a failure with the given message.
pub open spec fn reports_failure(a: PairingAction, text: Seq<char>) -> bool {
    a matches PairingAction::Report(PairingEvent::Failed(m)) && m@ == text
}

/// The session is left unchanged.
pub open spec fn session_unchanged(old: PairingSession, new: PairingSession) -> bool {
    new == old
}

/// The decision that a Bolt receiver takes on notification `msg`.
pub open spec fn bolt_step(
    old: PairingSession,
    msg: Seq<u8>,
    new: PairingSession,
    act: PairingAction,
) -> bool {
    let sub_id = msg[2];
    let address = msg[3];
    let p = frame_params(msg);
    if sub_id == NOTIF_DISCOVERY_STATUS {
        &&& session_unchanged(old, new)
        &&& if address != 0 && p[0] != 0 {
            reports_failure(act, "discovery error 0x"@ + hex2(p[0]))
        } else {
            reports_waiting(act)
        }
    } else if sub_id == NOTIF_DEVICE_DISCOVERY {
        if p[1] == 0 && p.len() >= 15 {
            // Address/authentication/kind chunk: start a new discovered device.
            &&& new.unifying_new_slot == old.unifying_new_slot
            &&& new.passkey == old.passkey
            &&& new.bolt_discovered matches Some(d) && d.address@ == p.subrange(6, 12)
                && d.authentication == p[14] && d.kind == p[3] && d.name@.len() == 0
            &&& reports_waiting(act)
        } else if p[1] == 1 {
            // Name chunk: name the discovered device, if any, then pair it
            // once it has a name.
            &&& new.unifying_new_slot == old.unifying_new_slot
            &&& new.passkey == old.passkey
            &&& match old.bolt_discovered {
                None => new.bolt_discovered is None && reports_waiting(act),
                Some(d) => {
                    &&& new.bolt_discovered matches Some(n) && n.address == d.address
                        && n.authentication == d.authentication && n.kind == d.kind && n.name@
                        == lossy_utf8(bolt_name_bytes(p))
                    &&& if lossy_utf8(bolt_name_bytes(p)).len() == 0 {
                        reports_waiting(act)
                    } else {
                        act matches PairingAction::PairBoltDevice {
                            address: a,
                            authentication: au,
                            entropy: e,
                            name: nm,
                        } && a == d.address && au == d.authentication && e == (if d.kind == 1 {
                            20u8
                        } else {
                            10u8
                        }) && nm@ == lossy_utf8(bolt_name_bytes(p))
                    }
                },
            }
        } else {
            session_unchanged(old, new) && reports_waiting(act)
        }
    } else if sub_id == NOTIF_PASSKEY_REQUEST {
        let text = passkey_text(p);
        let auth: u8 = match old.bolt_discovered {
            Some(d) => d.authentication,
            None => 0,
        };
        &&& new.unifying_new_slot == old.unifying_new_slot
        &&& new.bolt_discovered == old.bolt_discovered
        &&& new.passkey matches Some(k) && k@ == text
        &&& if auth & 1 != 0 {
            act matches PairingAction::Report(PairingEvent::PasskeyNumeric(k)) && k@ == text
        } else {
            act matches PairingAction::Report(PairingEvent::PasskeyButton(k)) && k@
                == button_sequence(passkey_value(text))
        }
    } else if sub_id == NOTIF_PAIRING_STATUS {
        &&& session_unchanged(old, new)
        &&& if p[0] != 0 {
            reports_failure(act, "pairing error 0x"@ + hex2(p[0]))
        } else if address == 0 {
            reports_waiting(act)
        } else if address == 2 {
            act == PairingAction::Report(
                PairingEvent::Paired(if p.len() > 7 { p[7] } else { 0 }),
            )
        } else {
            reports_failure(act, "pairing lock closed without a new device"@)
        }
    } else {
        session_unchanged(old, new) && reports_waiting(act)
    }
}

/// The decision that a Unifying, Nano or Lightspeed receiver takes on notification `msg`.
pub open spec fn unifying_step(
    old: PairingSession,
    msg: Seq<u8>,
    new: PairingSession,
    act: PairingAction,
) -> bool {
    let sub_id = msg[2];
    let p = frame_params(msg);
    if sub_id == NOTIF_DJ_PAIRING && msg[1] != 0xFF {
        &&& new.unifying_new_slot == Some(msg[1])
        &&& new.bolt_discovered == old.bolt_discovered
        &&& new.passkey == old.passkey
        &&& reports_waiting(act)
    } else if sub_id == NOTIF_PAIRING_LOCK {
        &&& session_unchanged(old, new)
        &&& if msg[3] & 1 != 0 {
            reports_waiting(act)
        } else if p[0] != 0 {
            reports_failure(act, "pairing error 0x"@ + hex2(p[0]))
        } else {
            match old.unifying_new_slot {
                Some(slot) => act == PairingAction::Report(PairingEvent::Paired(slot)),
                None => reports_failure(act, "no device connected before lock closed"@),
            }
        }
    } else {
        session_unchanged(old, new) && reports_waiting(act)
    }
}

/// The decision taken on one notification read during pairing.
pub open spec fn pairing_step_spec(
    kind: ReceiverKind,
    old: PairingSession,
    msg: Seq<u8>,
    new: PairingSession,
    act: PairingAction,
) -> bool {
    if msg[2] >= 0x80 {
        // HID++ reply messages are not notifications.
        session_unchanged(old, new) && reports_waiting(act)
    } else if kind == ReceiverKind::Bolt {
        bolt_step(old, msg, new, act)
    } else {
        unifying_step(old, msg, new, act)
    }
}

fn waiting() -> (a: PairingAction)
    ensures
        reports_waiting(a),
{
    PairingAction::Report(PairingEvent::Waiting)
}

fn failure_with_code(prefix: &str, code: u8) -> (a: PairingAction)
    ensures
        reports_failure(a, prefix@ + hex2(code)),
{
    let mut m = prefix.to_owned();
    push_hex2(&mut m, code);
    PairingAction::Report(PairingEvent::Failed(m))
}

fn failure(text: &str) -> (a: PairingAction)
    ensures
        reports_failure(a, text@),
{
    PairingAction::Report(PairingEvent::Failed(text.to_owned()))
}

fn bolt_pairing_step(session: &mut PairingSession, msg: &Message) -> (act: PairingAction)
    requires
        msg@[2] < 0x80,
    ensures
        bolt_step(*old(session), msg@, *final(session), act),
{
    let sub_id = msg.sub_id();
    let address = msg.address();
    let params = msg.params();
    if sub_id == NOTIF_DISCOVERY_STATUS {
        // address 0x00: discovering; anything else: stopped.
        let error = params[0];
        if address != 0x00 && error != 0 {
            return failure_with_code("discovery error 0x", error);
        }
        waiting()
    } else if sub_id == NOTIF_DEVICE_DISCOVERY {
        // Two chunks arrive for each discovered device.
        // Chunk type is at params[1]: 0 = address/auth/kind, 1 = name.
        let chunk = params[1];
        if chunk == 0 && params.len() >= 15 {
            let addr: [u8; 6] = [params[6], params[7], params[8], params[9], params[10], params[11]];
            assert(addr@ =~= params@.subrange(6, 12));
            session.bolt_discovered = Some(
                BoltDiscoveredDevice {
                    address: addr,
                    authentication: params[14],
                    kind: params[3],
                    name: String::new(),
                },
            );
            waiting()
        } else if chunk == 1 {
            let found = match &session.bolt_discovered {
                None => None,
                Some(dev) => {
                    let name_len = params[2] as usize;
                    let end = if 3 + name_len < params.len() {
                        3 + name_len
                    } else {
                        params.len()
                    };
                    let name = utf8_lossy(&params[3..end]);
                    assert(params@.subrange(3, end as int) == bolt_name_bytes(params@));
                    Some(
                        BoltDiscoveredDevice {
                            address: dev.address,
                            authentication: dev.authentication,
                            kind: dev.kind,
                            name,
                        },
                    )
                },
            };
            match found {
                None => waiting(),
                Some(dev) => {
                    let is_empty = dev.name.as_str().is_empty();
                    let address = dev.address;
                    let authentication = dev.authentication;
                    // Keyboards get 20 bits of entropy (numeric passkey);
                    // other devices get 10 (button passkey).
                    let entropy: u8 = if dev.kind == 1 {
                        20
                    } else {
                        10
                    };
                    let name = dev.name.clone();
                    session.bolt_discovered = Some(dev);
                    if is_empty {
                        waiting()
                    } else {
                        PairingAction::PairBoltDevice { address, authentication, entropy, name }
                    }
                },
            }
        } else {
            waiting()
        }
    } else if sub_id == NOTIF_PASSKEY_REQUEST {
        // params[0..6] = passkey as an ASCII decimal string (e.g. "048" or "512").
        // Keyboards (auth bit 0 set) display it directly; other devices interpret
        // the integer as a 10-bit L/R button sequence.
        let end: usize = if params.len() < 6 {
            params.len()
        } else {
            6
        };
        let raw_text = utf8_lossy(&params[0..end]);
        let passkey = trim_nul(raw_text.as_str());
        let auth: u8 = match &session.bolt_discovered {
            Some(d) => d.authentication,
            None => 0,
        };
        let keep = passkey.clone();
        session.passkey = Some(keep);
        if auth & 0x01 != 0 {
            PairingAction::Report(PairingEvent::PasskeyNumeric(passkey))
        } else {
            PairingAction::Report(PairingEvent::PasskeyButton(passkey_to_buttons(passkey.as_str())))
        }
    } else if sub_id == NOTIF_PAIRING_STATUS {
        // address: 0x00=lock open (still pairing), 0x02=paired, other=lock closed.
        // params[0]: 0=no error, 1=timeout, 2=failed. On success the slot is at params[7].
        let pair_error = params[0];
        if pair_error != 0 {
            return failure_with_code("pairing error 0x", pair_error);
        }
        if address == 0x00 {
            waiting()
        } else if address == 0x02 {
            let slot = if params.len() > 7 {
                params[7]
            } else {
                0
            };
            PairingAction::Report(PairingEvent::Paired(slot))
        } else {
            failure("pairing lock closed without a new device")
        }
    } else {
        waiting()
    }
}

fn unifying_pairing_step(session: &mut PairingSession, msg: &Message) -> (act: PairingAction)
    requires
        msg@[2] < 0x80,
    ensures
        unifying_step(*old(session), msg@, *final(session), act),
{
    let sub_id = msg.sub_id();
    if sub_id == NOTIF_DJ_PAIRING && msg.device() != 0xFF {
        // New device connected; device() holds its 1-based slot.
        session.unifying_new_slot = Some(msg.device());
        waiting()
    } else if sub_id == NOTIF_PAIRING_LOCK {
        let lock_open = msg.address() & 0x01 != 0;
        let params = msg.params();
        let error = params[0];
        if lock_open {
            return waiting();
        }
        if error != 0 {
            return failure_with_code("pairing error 0x", error);
        }
        match session.unifying_new_slot {
            Some(slot) => PairingAction::Report(PairingEvent::Paired(slot)),
            None => failure("no device connected before lock closed"),
        }
    } else {
        waiting()
    }
}

/// Decide what one notification read during pairing means, updating the session.
pub fn pairing_step(kind: ReceiverKind, session: &mut PairingSession, msg: &Message) -> (act:
    PairingAction)
    ensures
        pairing_step_spec(kind, *old(session), msg@, *final(session), act),
{
    // Ignore HID++ reply messages (sub_id >= 0x80); only notifications matter.
    if msg.sub_id() >= 0x80 {
        return waiting();
    }
    if kind == ReceiverKind::Bolt {
        bolt_pairing_step(session, msg)
    } else {
        unifying_pairing_step(session, msg)
    }
}

/// A Unifying pairing only ever reports success with the slot that a device
/// connection notification recorded earlier in the same session.
pub proof fn lemma_unifying_paired_slot_was_announced(
    kind: ReceiverKind,
    old: PairingSession,
    msg: Seq<u8>,
    new: PairingSession,
    act: PairingAction,
    slot: u8,
)
    requires
        kind != ReceiverKind::Bolt,
        pairing_step_spec(kind, old, msg, new, act),
        act == PairingAction::Report(PairingEvent::Paired(slot)),
    ensures
        old.unifying_new_slot == Some(slot),
        new == old,
{
}

} // verus!
