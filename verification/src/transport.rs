//! Request/reply matching for the HID++ transport.
//!
//! The transport writes a request and then reads reports until one of them
//! answers it. The decisions taken on each report, and the time allowed for
//! the exchange, are made here; reading and writing the HID device is left to
//! the caller.

use vstd::prelude::*;
use crate::error::{Error, Hidpp10Error, Hidpp20Error, hidpp10_error_of, hidpp20_error_of};
use crate::hidpp::message::{
    Message, frame_params, is_frame, RECEIVER_DEVICE, HIDPP10_ERROR, HIDPP20_ERROR,
};

verus! {

/// Receiver responds quickly (short USB round-trip): 300 ms.
pub const RECEIVER_TIMEOUT_MS: u64 = 300;

/// Wireless devices can be slow to respond: 4000 ms.
pub const DEVICE_TIMEOUT_MS: u64 = 4000;

/// True for a request that reads a long register from a device other than the receiver.
pub open spec fn is_device_long_read(req: Seq<u8>) -> bool {
    req[2] == 0x83 && req[1] != RECEIVER_DEVICE
}

/// The time (ms) allowed for a request. An override, when given, applies
/// unconditionally to receiver and device requests alike. Without one, the
/// receiver gets `RECEIVER_TIMEOUT_MS` and devices `DEVICE_TIMEOUT_MS`,
/// doubled for long register reads sent to a device.
pub open spec fn request_timeout(req: Seq<u8>, timeout_override_ms: Option<u64>) -> int {
    match timeout_override_ms {
        Some(t) => t as int,
        None => if req[1] == RECEIVER_DEVICE {
            RECEIVER_TIMEOUT_MS as int
        } else if is_device_long_read(req) {
            2 * DEVICE_TIMEOUT_MS as int
        } else {
            DEVICE_TIMEOUT_MS as int
        },
    }
}

/// The time in milliseconds to wait for the reply to `req` (see `request_timeout`).
pub fn request_timeout_ms(req: &Message, timeout_override_ms: Option<u64>) -> (r: u64)
    ensures
        r == request_timeout(req@, timeout_override_ms),
{
    match timeout_override_ms {
        Some(t) => t,
        None => {
            let device = req.device();
            if device == RECEIVER_DEVICE {
                RECEIVER_TIMEOUT_MS
            } else if req.sub_id() == 0x83 {
                2 * DEVICE_TIMEOUT_MS
            } else {
                DEVICE_TIMEOUT_MS
            }
        },
    }
}

/// For receiver register reads 0x83B5 (RECEIVER_INFO) and 0x81F1 (FIRMWARE)
/// the reply must echo the sub-register byte (the first request parameter).
pub open spec fn expected_sub_register_of(req: Seq<u8>) -> Option<u8> {
    if req[1] == RECEIVER_DEVICE && ((req[2] == 0x83 && req[3] == 0xB5) || (req[2] == 0x81
        && req[3] == 0xF1)) {
        Some(frame_params(req)[0])
    } else {
        None
    }
}

/// The sub-register byte that a reply to `req` must echo, if any.
pub fn expected_sub_register(req: &Message) -> (r: Option<u8>)
    ensures
        r == expected_sub_register_of(req@),
{
    let dev = req.device();
    let sub = req.sub_id();
    let addr = req.address();
    if dev == RECEIVER_DEVICE && ((sub == 0x83 && addr == 0xB5) || (sub == 0x81 && addr == 0xF1)) {
        let p = req.params();
        Some(p[0])
    } else {
        None
    }
}

/// What to do with one report read while waiting for a reply.
#[derive(Debug)]
pub enum ReplyVerdict {
    /// Not an answer to this request; keep reading.
    Ignore,
    /// The reply to this request.
    Accept,
    /// The device refused this request with an error.
    Fail(Error),
}

/// A report comes from the addressed device. Bluetooth devices sometimes
/// return 0x00 instead of 0xFF for the receiver.
pub open spec fn from_addressed_device(req: Seq<u8>, msg: Seq<u8>) -> bool {
    msg[1] == req[1] || (req[1] == RECEIVER_DEVICE && msg[1] == 0x00)
}

/// An error report names the failed request: its address byte is the
/// request's sub-ID and its first parameter is the request's address.
pub open spec fn error_names_request(req: Seq<u8>, msg: Seq<u8>) -> bool {
    msg[3] == req[2] && frame_params(msg)[0] == req[3]
}

/// The decision taken on report `msg` while waiting for the reply to `req`.
pub open spec fn reply_verdict(req: Seq<u8>, expected: Option<u8>, msg: Seq<u8>) -> ReplyVerdict {
    if !from_addressed_device(req, msg) {
        ReplyVerdict::Ignore
    } else if msg[2] == HIDPP10_ERROR {
        if error_names_request(req, msg) {
            ReplyVerdict::Fail(Error::Hidpp10(hidpp10_error_of(frame_params(msg)[1])))
        } else {
            ReplyVerdict::Ignore
        }
    } else if msg[2] == HIDPP20_ERROR {
        if error_names_request(req, msg) {
            ReplyVerdict::Fail(Error::Hidpp20(hidpp20_error_of(frame_params(msg)[1])))
        } else {
            ReplyVerdict::Ignore
        }
    } else if msg[2] != req[2] || msg[3] != req[3] {
        ReplyVerdict::Ignore
    } else {
        match expected {
            Some(e) => if frame_params(msg)[0] != e {
                ReplyVerdict::Ignore
            } else {
                ReplyVerdict::Accept
            },
            None => ReplyVerdict::Accept,
        }
    }
}

/// Decide what a report read while waiting for the reply to `req` means.
///
/// HID++ 1.0 error responses have sub_id 0x8F, then [req_sub_id, req_address, error_code].
/// HID++ 2.0 error responses have sub_id 0xFF, then [req_sub_id, req_address, error_code].
/// Normal replies match on (device, sub_id, address), and on the sub-register
/// echo when `expected` holds one.
pub fn match_reply(req: &Message, expected: Option<u8>, msg: &Message) -> (r: ReplyVerdict)
    ensures
        r == reply_verdict(req@, expected, msg@),
{
    let rep_dev = msg.device();
    let req_dev = req.device();
    if rep_dev != req_dev && !(req_dev == RECEIVER_DEVICE && rep_dev == 0x00) {
        return ReplyVerdict::Ignore;
    }
    if msg.is_hidpp10_error() {
        let p = msg.params();
        if msg.address() == req.sub_id() && p[0] == req.address() {
            return ReplyVerdict::Fail(Error::Hidpp10(Hidpp10Error::from_byte(p[1])));
        }
        return ReplyVerdict::Ignore;
    }
    if msg.is_hidpp20_error() {
        let p = msg.params();
        if msg.address() == req.sub_id() && p[0] == req.address() {
            return ReplyVerdict::Fail(Error::Hidpp20(Hidpp20Error::from_byte(p[1])));
        }
        return ReplyVerdict::Ignore;
    }
    if msg.sub_id() != req.sub_id() || msg.address() != req.address() {
        return ReplyVerdict::Ignore;
    }
    match expected {
        Some(e) => {
            let p = msg.params();
            if p[0] != e {
                ReplyVerdict::Ignore
            } else {
                ReplyVerdict::Accept
            }
        },
        None => ReplyVerdict::Accept,
    }
}

/// A report is only taken as the reply to a request when it comes from the
/// addressed device, echoes the request's sub-ID and address, and echoes the
/// sub-register when one is expected.
pub proof fn lemma_accepted_reply_answers_request(
    req: Seq<u8>,
    expected: Option<u8>,
    msg: Seq<u8>,
)
    requires
        is_frame(req),
        is_frame(msg),
        reply_verdict(req, expected, msg) is Accept,
    ensures
        from_addressed_device(req, msg),
        msg[2] == req[2],
        msg[3] == req[3],
        expected matches Some(e) ==> frame_params(msg)[0] == e,
        msg[2] != HIDPP10_ERROR && msg[2] != HIDPP20_ERROR,
{
}

/// A request fails only on an error report from the addressed device that
/// names this request; the error carries the code the device sent.
pub proof fn lemma_failed_request_reports_device_error(
    req: Seq<u8>,
    expected: Option<u8>,
    msg: Seq<u8>,
)
    requires
        is_frame(req),
        is_frame(msg),
        reply_verdict(req, expected, msg) is Fail,
    ensures
        from_addressed_device(req, msg),
        error_names_request(req, msg),
        msg[2] == HIDPP10_ERROR ==> reply_verdict(req, expected, msg) == ReplyVerdict::Fail(
            Error::Hidpp10(hidpp10_error_of(frame_params(msg)[1])),
        ),
        msg[2] == HIDPP20_ERROR ==> reply_verdict(req, expected, msg) == ReplyVerdict::Fail(
            Error::Hidpp20(hidpp20_error_of(frame_params(msg)[1])),
        ),
        msg[2] == HIDPP10_ERROR || msg[2] == HIDPP20_ERROR,
{
}

} // verus!
