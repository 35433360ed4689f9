//! Error codes of the native library, and the translation of raw call
//! returns into results.
//!
//! The native library reports failure through plain integers: a call that
//! returns zero succeeded, any other value is the raw error code, surfaced
//! unchanged. The error taxonomy itself is mirrored value for value.

use vstd::prelude::*;

verus! {

/// Error codes of the native library, mirrored value for value.
#[derive(Debug, Copy, Clone, PartialEq, Eq, Structural)]
pub enum Code {
    /// No error.
    Success,
    /// Access failure.
    Access,
    /// Unknown command.
    Command,
    /// Invalid argument.
    Invalid,
    /// Entity exists.
    Exist,
    /// No such entity.
    NoEntity,
    /// Connection refused.
    ConnectionRefused,
    /// Protocol error.
    Protocol,
    /// Timeout.
    Timeout,
    /// No authentication key.
    AuthKey,
    /// Internal error.
    Internal,
    /// Connection terminated.
    ConnectionTerminated,
    /// Entity killed.
    Killed,
    /// Invalid server.
    InvalidServer,
    /// Module initialization failed.
    ModInitFailed,
    /// Bad state.
    BadState,
    /// No data: a query was made before any data was available.
    NoData,
    /// Incompatible protocol version.
    Version,
    /// Data too large.
    TooLarge,
    /// Operation not supported.
    NotSupported,
    /// The error code was unknown to the client.
    Unknown,
    /// Extension does not exist.
    NoExtension,
    /// Obsolete functionality.
    Obsolete,
    /// Missing implementation.
    NotImplemented,
    /// The caller forked without calling execve() and tried to reuse the context.
    Forked,
    /// An IO error happened.
    Io,
    /// Device or resource busy.
    Busy,
}

impl Code {
    /// The native numeric value of this error code.
    pub fn to_raw(self) -> (r: u32)
        ensures
            r == self.raw(),
    {
        match self {
            Code::Success => 0,
            Code::Access => 1,
            Code::Command => 2,
            Code::Invalid => 3,
            Code::Exist => 4,
            Code::NoEntity => 5,
            Code::ConnectionRefused => 6,
            Code::Protocol => 7,
            Code::Timeout => 8,
            Code::AuthKey => 9,
            Code::Internal => 10,
            Code::ConnectionTerminated => 11,
            Code::Killed => 12,
            Code::InvalidServer => 13,
            Code::ModInitFailed => 14,
            Code::BadState => 15,
            Code::NoData => 16,
            Code::Version => 17,
            Code::TooLarge => 18,
            Code::NotSupported => 19,
            Code::Unknown => 20,
            Code::NoExtension => 21,
            Code::Obsolete => 22,
            Code::NotImplemented => 23,
            Code::Forked => 24,
            Code::Io => 25,
            Code::Busy => 26,
        }
    }

    /// The native numeric value, as a specification.
    pub open spec fn raw(self) -> u32 {
        match self {
            Code::Success => 0,
            Code::Access => 1,
            Code::Command => 2,
            Code::Invalid => 3,
            Code::Exist => 4,
            Code::NoEntity => 5,
            Code::ConnectionRefused => 6,
            Code::Protocol => 7,
            Code::Timeout => 8,
            Code::AuthKey => 9,
            Code::Internal => 10,
            Code::ConnectionTerminated => 11,
            Code::Killed => 12,
            Code::InvalidServer => 13,
            Code::ModInitFailed => 14,
            Code::BadState => 15,
            Code::NoData => 16,
            Code::Version => 17,
            Code::TooLarge => 18,
            Code::NotSupported => 19,
            Code::Unknown => 20,
            Code::NoExtension => 21,
            Code::Obsolete => 22,
            Code::NotImplemented => 23,
            Code::Forked => 24,
            Code::Io => 25,
            Code::Busy => 26,
        }
    }

    /// The wrapped code for a native numeric value, `None` for a value the
    /// taxonomy does not define.
    pub fn from_raw(raw: u32) -> (r: Option<Code>)
        ensures
            r == Self::decoded(raw),
    {
        match raw {
            0 => Some(Code::Success),
            1 => Some(Code::Access),
            2 => Some(Code::Command),
            3 => Some(Code::Invalid),
            4 => Some(Code::Exist),
            5 => Some(Code::NoEntity),
            6 => Some(Code::ConnectionRefused),
            7 => Some(Code::Protocol),
            8 => Some(Code::Timeout),
            9 => Some(Code::AuthKey),
            10 => Some(Code::Internal),
            11 => Some(Code::ConnectionTerminated),
            12 => Some(Code::Killed),
            13 => Some(Code::InvalidServer),
            14 => Some(Code::ModInitFailed),
            15 => Some(Code::BadState),
            16 => Some(Code::NoData),
            17 => Some(Code::Version),
            18 => Some(Code::TooLarge),
            19 => Some(Code::NotSupported),
            20 => Some(Code::Unknown),
            21 => Some(Code::NoExtension),
            22 => Some(Code::Obsolete),
            23 => Some(Code::NotImplemented),
            24 => Some(Code::Forked),
            25 => Some(Code::Io),
            26 => Some(Code::Busy),
            _ => None,
        }
    }

    /// The decoding of a native numeric value, as a specification.
    pub open spec fn decoded(raw: u32) -> Option<Code> {
        if raw == 0 { Some(Code::Success) }
        else if raw == 1 { Some(Code::Access) }
        else if raw == 2 { Some(Code::Command) }
        else if raw == 3 { Some(Code::Invalid) }
        else if raw == 4 { Some(Code::Exist) }
        else if raw == 5 { Some(Code::NoEntity) }
        else if raw == 6 { Some(Code::ConnectionRefused) }
        else if raw == 7 { Some(Code::Protocol) }
        else if raw == 8 { Some(Code::Timeout) }
        else if raw == 9 { Some(Code::AuthKey) }
        else if raw == 10 { Some(Code::Internal) }
        else if raw == 11 { Some(Code::ConnectionTerminated) }
        else if raw == 12 { Some(Code::Killed) }
        else if raw == 13 { Some(Code::InvalidServer) }
        else if raw == 14 { Some(Code::ModInitFailed) }
        else if raw == 15 { Some(Code::BadState) }
        else if raw == 16 { Some(Code::NoData) }
        else if raw == 17 { Some(Code::Version) }
        else if raw == 18 { Some(Code::TooLarge) }
        else if raw == 19 { Some(Code::NotSupported) }
        else if raw == 20 { Some(Code::Unknown) }
        else if raw == 21 { Some(Code::NoExtension) }
        else if raw == 22 { Some(Code::Obsolete) }
        else if raw == 23 { Some(Code::NotImplemented) }
        else if raw == 24 { Some(Code::Forked) }
        else if raw == 25 { Some(Code::Io) }
        else if raw == 26 { Some(Code::Busy) }
        else { None }
    }
}

/// Every native numeric error value that the taxonomy defines maps to a
/// wrapped code and back to the identical numeric value, and every wrapped
/// code survives the round trip through its numeric value.
pub proof fn lemma_code_round_trip(c: Code, raw: u32)
    ensures
        Code::decoded(c.raw()) == Some(c),
        Code::decoded(raw) matches Some(d) ==> d.raw() == raw,
{
}

/// Translates the raw return of a native call: zero is success, any other
/// value is the raw error code, surfaced unchanged.
pub fn op_result(code: i32) -> (r: Result<(), i32>)
    ensures
        r == call_result(code),
        code == 0 <==> r is Ok,
        r matches Err(e) ==> e == code,
{
    if code == 0 {
        Ok(())
    } else {
        Err(code)
    }
}

/// What the raw return of a native call translates to.
pub open spec fn call_result(code: i32) -> Result<(), i32> {
    if code == 0 {
        Ok(())
    } else {
        Err(code)
    }
}

} // verus!
