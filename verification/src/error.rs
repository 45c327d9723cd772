//! Failures that the session engine reports to its caller.

use vstd::prelude::*;

verus! {

/// Why an operation of the session engine was abandoned.
#[derive(Clone, Copy, Debug, PartialEq, Eq, Structural)]
pub enum ImeError {
    /// The host denied an edit session, or a call into the host failed. The
    /// operation is abandoned and the document is left as it was.
    HostRejectedSession,
    /// A write to or a read from the conversion engine failed. The keystroke
    /// brings no new candidates; the session goes on.
    TransportFailed,
    /// The conversion engine's answer is not UTF-8 text.
    DecodeFailed,
    /// The conversion engine could not be reached when the session was
    /// activated. Activation is abandoned.
    InitialConnectFailed,
}

/// Why a request of the host's object model is refused.
#[derive(Clone, Copy, Debug, PartialEq, Eq, Structural)]
pub enum ComError {
    /// The interface that was asked for is not there.
    NoInterface,
    /// An argument is not what the call takes.
    InvalidArg,
    /// The cookie names no connection.
    CannotConnect,
    /// The class that was asked for is not served here.
    ClassNotAvailable,
    /// The request is not one that is expected here.
    Unexpected,
}

impl ComError {
    /// The code under which the host knows the failure.
    pub open spec fn code(self) -> u32 {
        match self {
            ComError::NoInterface => 0x80004002,
            ComError::InvalidArg => 0x80070057,
            ComError::CannotConnect => 0x80040202,
            ComError::ClassNotAvailable => 0x80040111,
            ComError::Unexpected => 0x8000FFFF,
        }
    }

    /// The code under which the host knows the failure.
    pub fn hresult(&self) -> (code: u32)
        ensures
            code == self.code(),
    {
        match self {
            ComError::NoInterface => 0x80004002,
            ComError::InvalidArg => 0x80070057,
            ComError::CannotConnect => 0x80040202,
            ComError::ClassNotAvailable => 0x80040111,
            ComError::Unexpected => 0x8000FFFF,
        }
    }
}

} // verus!
