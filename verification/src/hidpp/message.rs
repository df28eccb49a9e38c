//! HID++ message framing: short (7-byte) and long (20-byte) reports.

use vstd::prelude::*;
use crate::error::Error;

verus! {

// HID report IDs and sizes per the HID++ protocol.
pub const SHORT_REPORT_ID: u8 = 0x10;
pub const LONG_REPORT_ID: u8 = 0x11;
pub const SHORT_MESSAGE_SIZE: usize = 7;
pub const LONG_MESSAGE_SIZE: usize = 20;
pub const MAX_READ_SIZE: usize = 32;

/// The HID++ device number used when addressing the receiver itself.
pub const RECEIVER_DEVICE: u8 = 0xFF;

/// Software ID embedded in the low 4 bits of the HID++ 2.0 function/address byte.
pub const SOFTWARE_ID: u8 = 0x0A;

// Sub-IDs for HID++ 1.0 register operations.
pub const HIDPP10_SHORT_WRITE: u8 = 0x80;
pub const HIDPP10_SHORT_READ: u8 = 0x81;
pub const HIDPP10_LONG_WRITE: u8 = 0x82;
pub const HIDPP10_LONG_READ: u8 = 0x83;

/// Sub-ID that marks a HID++ 1.0 error response.
pub const HIDPP10_ERROR: u8 = 0x8F;

/// Sub-ID that marks a HID++ 2.0 error response.
pub const HIDPP20_ERROR: u8 = 0xFF;

/// A well-formed frame: a short report of 7 bytes or a long report of 20 bytes,
/// each starting with its report ID.
pub open spec fn is_frame(f: Seq<u8>) -> bool {
    ||| f.len() == 7 && f[0] == SHORT_REPORT_ID
    ||| f.len() == 20 && f[0] == LONG_REPORT_ID
}

/// The parameter bytes of a frame (everything after the 4-byte header).
pub open spec fn frame_params(f: Seq<u8>) -> Seq<u8> {
    f.subrange(4, f.len() as int)
}

/// The frame of a short message.
pub open spec fn short_frame(device: u8, sub_id: u8, address: u8, p0: u8, p1: u8, p2: u8) -> Seq<u8> {
    seq![SHORT_REPORT_ID, device, sub_id, address, p0, p1, p2]
}

/// Parameters of a long message: the first 16 given bytes, zero-padded to 16.
pub open spec fn pad16(params: Seq<u8>) -> Seq<u8> {
    Seq::new(16, |i: int| if i < params.len() { params[i] } else { 0u8 })
}

/// The frame of a long message.
pub open spec fn long_frame(device: u8, sub_id: u8, address: u8, params: Seq<u8>) -> Seq<u8> {
    seq![LONG_REPORT_ID, device, sub_id, address] + pad16(params)
}

/// The frame that a raw read buffer holds, if its first byte is a known report
/// ID and the buffer is long enough for that report.
pub open spec fn parse_frame(raw: Seq<u8>) -> Option<Seq<u8>> {
    if raw.len() >= 1 && raw[0] == SHORT_REPORT_ID && raw.len() >= 7 {
        Some(raw.take(7))
    } else if raw.len() >= 1 && raw[0] == LONG_REPORT_ID && raw.len() >= 20 {
        Some(raw.take(20))
    } else {
        None
    }
}

/// What a reader of a multi-request exchange asks for next: a request to
/// send, or its final result.
#[derive(Debug)]
pub enum Step<T> {
    Send(Message),
    Done(Result<T, Error>),
}

/// What a finished read gives an optional value: the value read, none after an error.
pub open spec fn ok_or_none<T>(res: Result<Option<T>, Error>) -> Option<T> {
    match res {
        Ok(v) => v,
        Err(_) => None,
    }
}

/// A HID++ short (7-byte) or long (20-byte) message.
///
/// Raw layout:
///   buf[0] = report_id  (0x10 short, 0x11 long)
///   buf[1] = device     (0xFF for receiver, 1-6 for paired devices)
///   buf[2] = sub_id     (register operation or feature index)
///   buf[3] = address    (register address or function | software_id)
///   buf[4..] = params   (3 bytes short, 16 bytes long)
#[derive(Debug, Clone, Copy)]
pub struct Message {
    buf: [u8; 20],
    len: usize,
}

impl Message {
    #[verifier::type_invariant]
    closed spec fn inv(self) -> bool {
        &&& (self.len == 7 && self.buf@[0] == SHORT_REPORT_ID) || (self.len == 20
            && self.buf@[0] == LONG_REPORT_ID)
        &&& forall|i: int| self.len <= i < 20 ==> self.buf@[i] == 0
    }

    /// The bytes of the message, as sent on the wire.
    pub closed spec fn frame(&self) -> Seq<u8> {
        self.buf@.subrange(0, self.len as int)
    }

    /// Construct a short (7-byte) message.
    pub fn short(device: u8, sub_id: u8, address: u8, p0: u8, p1: u8, p2: u8) -> (m: Self)
        ensures
            m@ == short_frame(device, sub_id, address, p0, p1, p2),
    {
        let mut buf = [0u8; 20];
        buf[0] = SHORT_REPORT_ID;
        buf[1] = device;
        buf[2] = sub_id;
        buf[3] = address;
        buf[4] = p0;
        buf[5] = p1;
        buf[6] = p2;
        let m = Message { buf, len: SHORT_MESSAGE_SIZE };
        assert(m@ =~= short_frame(device, sub_id, address, p0, p1, p2));
        m
    }

    /// Construct a long (20-byte) message. Parameters beyond the first 16 bytes
    /// are dropped; missing ones are zero.
    pub fn long(device: u8, sub_id: u8, address: u8, params: &[u8]) -> (m: Self)
        ensures
            m@ == long_frame(device, sub_id, address, params@),
    {
        let mut buf = [0u8; 20];
        buf[0] = LONG_REPORT_ID;
        buf[1] = device;
        buf[2] = sub_id;
        buf[3] = address;
        let n = if params.len() < 16 {
            params.len()
        } else {
            16
        };
        let mut i: usize = 0;
        while i < n
            invariant
                n <= 16,
                n <= params@.len(),
                i <= n,
                buf@.len() == 20,
                buf@[0] == LONG_REPORT_ID,
                buf@[1] == device,
                buf@[2] == sub_id,
                buf@[3] == address,
                forall|j: int| 0 <= j < i ==> buf@[4 + j] == params@[j],
                forall|j: int| 4 + i <= j < 20 ==> buf@[j] == 0,
            decreases n - i,
        {
            buf[4 + i] = params[i];
            i = i + 1;
        }
        let m = Message { buf, len: LONG_MESSAGE_SIZE };
        assert(m@ =~= long_frame(device, sub_id, address, params@));
        m
    }

    /// Parse a raw HID read buffer into a Message. Returns None if the
    /// buffer is too short or starts with an unrecognised report ID.
    pub fn from_bytes(raw: &[u8]) -> (r: Option<Self>)
        ensures
            match r {
                Some(m) => parse_frame(raw@) == Some(m@),
                None => parse_frame(raw@) is None,
            },
    {
        if raw.len() == 0 {
            return None;
        }
        let len: usize = if raw[0] == SHORT_REPORT_ID && raw.len() >= SHORT_MESSAGE_SIZE {
            SHORT_MESSAGE_SIZE
        } else if raw[0] == LONG_REPORT_ID && raw.len() >= LONG_MESSAGE_SIZE {
            LONG_MESSAGE_SIZE
        } else {
            return None;
        };
        let mut buf = [0u8; 20];
        let mut i: usize = 0;
        while i < len
            invariant
                len == 7 || len == 20,
                len <= raw@.len(),
                i <= len,
                buf@.len() == 20,
                forall|j: int| 0 <= j < i ==> buf@[j] == raw@[j],
                forall|j: int| i <= j < 20 ==> buf@[j] == 0,
            decreases len - i,
        {
            buf[i] = raw[i];
            i = i + 1;
        }
        let m = Message { buf, len };
        assert(m@ =~= raw@.take(len as int));
        Some(m)
    }

    /// The bytes of the message, as sent on the wire.
    pub fn as_bytes(&self) -> (r: &[u8])
        ensures
            r@ == self@,
            is_frame(self@),
    {
        proof {
            use_type_invariant(self);
        }
        &self.buf[0..self.len]
    }

    pub fn report_id(&self) -> (r: u8)
        ensures
            r == self@[0],
            is_frame(self@),
    {
        proof {
            use_type_invariant(self);
        }
        self.buf[0]
    }

    pub fn device(&self) -> (r: u8)
        ensures
            r == self@[1],
            is_frame(self@),
    {
        proof {
            use_type_invariant(self);
        }
        self.buf[1]
    }

    pub fn sub_id(&self) -> (r: u8)
        ensures
            r == self@[2],
            is_frame(self@),
    {
        proof {
            use_type_invariant(self);
        }
        self.buf[2]
    }

    pub fn address(&self) -> (r: u8)
        ensures
            r == self@[3],
            is_frame(self@),
    {
        proof {
            use_type_invariant(self);
        }
        self.buf[3]
    }

    /// The parameter bytes after the header (buf[4..len]).
    pub fn params(&self) -> (r: &[u8])
        ensures
            r@ == frame_params(self@),
            r@.len() == 3 || r@.len() == 16,
            is_frame(self@),
    {
        proof {
            use_type_invariant(self);
        }
        &self.buf[4..self.len]
    }

    /// True if this is a HID++ 1.0 error response (sub_id 0x8F).
    pub fn is_hidpp10_error(&self) -> (r: bool)
        ensures
            r == (self@[2] == HIDPP10_ERROR),
            is_frame(self@),
    {
        proof {
            use_type_invariant(self);
        }
        self.buf[2] == HIDPP10_ERROR
    }

    /// True if this is a HID++ 2.0 error response (sub_id 0xFF).
    pub fn is_hidpp20_error(&self) -> (r: bool)
        ensures
            r == (self@[2] == HIDPP20_ERROR),
            is_frame(self@),
    {
        proof {
            use_type_invariant(self);
        }
        self.buf[2] == HIDPP20_ERROR
    }
}

impl View for Message {
    type V = Seq<u8>;

    closed spec fn view(&self) -> Seq<u8> {
        self.frame()
    }
}

/// Reading back a frame: a buffer that holds exactly one well-formed frame
/// parses to that frame.
pub proof fn lemma_parse_frame_roundtrip(f: Seq<u8>)
    requires
        is_frame(f),
    ensures
        parse_frame(f) == Some(f),
{
    assert(f.take(f.len() as int) =~= f);
}

/// Trailing bytes after a frame do not change what it parses to.
pub proof fn lemma_parse_frame_prefix(f: Seq<u8>, rest: Seq<u8>)
    requires
        is_frame(f),
    ensures
        parse_frame(f + rest) == Some(f),
{
    assert((f + rest).take(f.len() as int) =~= f);
}

/// The fields of a short message read back as they were written.
pub proof fn lemma_short_frame_fields(device: u8, sub_id: u8, address: u8, p0: u8, p1: u8, p2: u8)
    ensures
        is_frame(short_frame(device, sub_id, address, p0, p1, p2)),
        short_frame(device, sub_id, address, p0, p1, p2)[1] == device,
        short_frame(device, sub_id, address, p0, p1, p2)[2] == sub_id,
        short_frame(device, sub_id, address, p0, p1, p2)[3] == address,
        frame_params(short_frame(device, sub_id, address, p0, p1, p2)) == seq![p0, p1, p2],
{
    assert(frame_params(short_frame(device, sub_id, address, p0, p1, p2)) =~= seq![p0, p1, p2]);
}

/// The fields of a long message read back as they were written, with the
/// parameters zero-padded (or cut) to 16 bytes.
pub proof fn lemma_long_frame_fields(device: u8, sub_id: u8, address: u8, params: Seq<u8>)
    ensures
        is_frame(long_frame(device, sub_id, address, params)),
        long_frame(device, sub_id, address, params)[1] == device,
        long_frame(device, sub_id, address, params)[2] == sub_id,
        long_frame(device, sub_id, address, params)[3] == address,
        frame_params(long_frame(device, sub_id, address, params)) == pad16(params),
        params.len() <= 16 ==> frame_params(long_frame(device, sub_id, address, params)).take(
            params.len() as int,
        ) == params,
{
    assert(frame_params(long_frame(device, sub_id, address, params)) =~= pad16(params));
    if params.len() <= 16 {
        assert(pad16(params).take(params.len() as int) =~= params);
    }
}

} // verus!
