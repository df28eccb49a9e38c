//! Error types of the HID++ layer.

use vstd::prelude::*;

verus! {

/// HID++ 1.0 error codes, as returned in error response sub-ID 0x8F.
#[derive(Debug, Clone, Copy, PartialEq, Eq, Structural)]
pub enum Hidpp10Error {
    /// Also used as a ping response from HID++ 1.0 devices (not a real error).
    InvalidSubId,
    InvalidAddress,
    InvalidValue,
    ConnectionFailed,
    TooManyDevices,
    AlreadyExists,
    Busy,
    /// Slot is empty or device not paired.
    UnknownDevice,
    ResourceError,
    RequestUnavailable,
    UnsupportedParam,
    WrongPinCode,
    Other(u8),
}

/// The HID++ 1.0 error that a code byte denotes.
pub open spec fn hidpp10_error_of(b: u8) -> Hidpp10Error {
    match b {
        0x01 => Hidpp10Error::InvalidSubId,
        0x02 => Hidpp10Error::InvalidAddress,
        0x03 => Hidpp10Error::InvalidValue,
        0x04 => Hidpp10Error::ConnectionFailed,
        0x05 => Hidpp10Error::TooManyDevices,
        0x06 => Hidpp10Error::AlreadyExists,
        0x07 => Hidpp10Error::Busy,
        0x08 => Hidpp10Error::UnknownDevice,
        0x09 => Hidpp10Error::ResourceError,
        0x0A => Hidpp10Error::RequestUnavailable,
        0x0B => Hidpp10Error::UnsupportedParam,
        0x0C => Hidpp10Error::WrongPinCode,
        other => Hidpp10Error::Other(other),
    }
}

impl Hidpp10Error {
    pub fn from_byte(b: u8) -> (r: Self)
        ensures
            r == hidpp10_error_of(b),
            r is Other <==> !(0x01 <= b <= 0x0C),
            r matches Hidpp10Error::Other(x) ==> x == b,
    {
        match b {
            0x01 => Self::InvalidSubId,
            0x02 => Self::InvalidAddress,
            0x03 => Self::InvalidValue,
            0x04 => Self::ConnectionFailed,
            0x05 => Self::TooManyDevices,
            0x06 => Self::AlreadyExists,
            0x07 => Self::Busy,
            0x08 => Self::UnknownDevice,
            0x09 => Self::ResourceError,
            0x0A => Self::RequestUnavailable,
            0x0B => Self::UnsupportedParam,
            0x0C => Self::WrongPinCode,
            other => Self::Other(other),
        }
    }
}

/// Distinct error codes decode to distinct HID++ 1.0 errors.
pub proof fn lemma_hidpp10_error_of_injective(a: u8, b: u8)
    requires
        hidpp10_error_of(a) == hidpp10_error_of(b),
    ensures
        a == b,
{
}

/// HID++ 2.0 feature call error codes, as returned in error response sub-ID 0xFF.
#[derive(Debug, Clone, Copy, PartialEq, Eq, Structural)]
pub enum Hidpp20Error {
    Unknown,
    InvalidArgument,
    OutOfRange,
    HardwareError,
    LogitechError,
    InvalidFeature,
    InvalidFunction,
    Busy,
    Unsupported,
    Other(u8),
}

/// The HID++ 2.0 error that a code byte denotes.
pub open spec fn hidpp20_error_of(b: u8) -> Hidpp20Error {
    match b {
        0x01 => Hidpp20Error::Unknown,
        0x02 => Hidpp20Error::InvalidArgument,
        0x03 => Hidpp20Error::OutOfRange,
        0x04 => Hidpp20Error::HardwareError,
        0x05 => Hidpp20Error::LogitechError,
        0x06 => Hidpp20Error::InvalidFeature,
        0x07 => Hidpp20Error::InvalidFunction,
        0x08 => Hidpp20Error::Busy,
        0x09 => Hidpp20Error::Unsupported,
        other => Hidpp20Error::Other(other),
    }
}

impl Hidpp20Error {
    pub fn from_byte(b: u8) -> (r: Self)
        ensures
            r == hidpp20_error_of(b),
            r is Other <==> !(0x01 <= b <= 0x09),
            r matches Hidpp20Error::Other(x) ==> x == b,
    {
        match b {
            0x01 => Self::Unknown,
            0x02 => Self::InvalidArgument,
            0x03 => Self::OutOfRange,
            0x04 => Self::HardwareError,
            0x05 => Self::LogitechError,
            0x06 => Self::InvalidFeature,
            0x07 => Self::InvalidFunction,
            0x08 => Self::Busy,
            0x09 => Self::Unsupported,
            other => Self::Other(other),
        }
    }
}

/// Distinct error codes decode to distinct HID++ 2.0 errors.
pub proof fn lemma_hidpp20_error_of_injective(a: u8, b: u8)
    requires
        hidpp20_error_of(a) == hidpp20_error_of(b),
    ensures
        a == b,
{
}

/// Errors of the HID++ layer.
#[derive(Debug)]
pub enum Error {
    /// An error reported by the HID transport, with its message.
    Hid(String),
    Hidpp10(Hidpp10Error),
    Hidpp20(Hidpp20Error),
    Timeout,
    NoReceiver,
    InvalidResponse,
    FeatureNotSupported(u16),
    EmptySlot,
}

} // verus!
