//! Status codes that explain why an endpoint closes a WebSocket connection.
use vstd::prelude::*;

verus! {

/// Status code used to indicate why an endpoint is closing the WebSocket connection.
#[derive(Debug, PartialEq, Eq, Clone, Copy, Structural)]
pub enum CloseCode {
    /// Normal closure: the purpose of the connection has been fulfilled.
    Normal,
    /// An endpoint is going away (a server going down, a page navigated away).
    Away,
    /// An endpoint is terminating the connection due to a protocol error.
    Protocol,
    /// An endpoint received a type of data it cannot accept.
    Unsupported,
    /// No status code was included in a closing frame.
    Status,
    /// The connection was dropped without a closing frame.
    Abnormal,
    /// A message held data inconsistent with its type (non-UTF-8 text).
    Invalid,
    /// A message violated the endpoint's policy.
    Policy,
    /// A message was too big to process.
    Size,
    /// The client expected the server to negotiate an extension.
    Extension,
    /// The server met an unexpected condition.
    Error,
    /// The server is restarting.
    Restart,
    /// The server is overloaded; try again later.
    Again,
    /// The TLS handshake failed.
    Tls,
    /// No code was given at all.
    Empty,
    /// Any code outside the named ones.
    Other(u16),
}

/// The numeric code of each named close code.
pub open spec fn code_of(c: CloseCode) -> u16 {
    match c {
        CloseCode::Normal => 1000,
        CloseCode::Away => 1001,
        CloseCode::Protocol => 1002,
        CloseCode::Unsupported => 1003,
        CloseCode::Status => 1005,
        CloseCode::Abnormal => 1006,
        CloseCode::Invalid => 1007,
        CloseCode::Policy => 1008,
        CloseCode::Size => 1009,
        CloseCode::Extension => 1010,
        CloseCode::Error => 1011,
        CloseCode::Restart => 1012,
        CloseCode::Again => 1013,
        CloseCode::Tls => 1015,
        CloseCode::Empty => 0,
        CloseCode::Other(code) => code,
    }
}

/// The close code that a number stands for; unnamed numbers become `Other`.
pub open spec fn close_code_of(code: u16) -> CloseCode {
    if code == 1000 {
        CloseCode::Normal
    } else if code == 1001 {
        CloseCode::Away
    } else if code == 1002 {
        CloseCode::Protocol
    } else if code == 1003 {
        CloseCode::Unsupported
    } else if code == 1005 {
        CloseCode::Status
    } else if code == 1006 {
        CloseCode::Abnormal
    } else if code == 1007 {
        CloseCode::Invalid
    } else if code == 1008 {
        CloseCode::Policy
    } else if code == 1009 {
        CloseCode::Size
    } else if code == 1010 {
        CloseCode::Extension
    } else if code == 1011 {
        CloseCode::Error
    } else if code == 1012 {
        CloseCode::Restart
    } else if code == 1013 {
        CloseCode::Again
    } else if code == 1015 {
        CloseCode::Tls
    } else if code == 0 {
        CloseCode::Empty
    } else {
        CloseCode::Other(code)
    }
}

/// Whether a number has a close code of its own (and so is never carried by `Other`).
pub open spec fn is_named_code(code: u16) -> bool {
    code == 0 || (1000 <= code <= 1013 && code != 1004) || code == 1015
}

/// A close code in its canonical form: `Other` never carries a named number.
pub open spec fn is_canonical(c: CloseCode) -> bool {
    match c {
        CloseCode::Other(code) => !is_named_code(code),
        _ => true,
    }
}

impl CloseCode {
    /// The numeric code sent on the wire.
    pub fn to_code(self) -> (r: u16)
        ensures
            r == code_of(self),
    {
        match self {
            CloseCode::Normal => 1000,
            CloseCode::Away => 1001,
            CloseCode::Protocol => 1002,
            CloseCode::Unsupported => 1003,
            CloseCode::Status => 1005,
            CloseCode::Abnormal => 1006,
            CloseCode::Invalid => 1007,
            CloseCode::Policy => 1008,
            CloseCode::Size => 1009,
            CloseCode::Extension => 1010,
            CloseCode::Error => 1011,
            CloseCode::Restart => 1012,
            CloseCode::Again => 1013,
            CloseCode::Tls => 1015,
            CloseCode::Empty => 0,
            CloseCode::Other(code) => code,
        }
    }

    /// The close code for a numeric code; never fails.
    pub fn from_code(code: u16) -> (r: CloseCode)
        ensures
            r == close_code_of(code),
            is_canonical(r),
    {
        match code {
            1000 => CloseCode::Normal,
            1001 => CloseCode::Away,
            1002 => CloseCode::Protocol,
            1003 => CloseCode::Unsupported,
            1005 => CloseCode::Status,
            1006 => CloseCode::Abnormal,
            1007 => CloseCode::Invalid,
            1008 => CloseCode::Policy,
            1009 => CloseCode::Size,
            1010 => CloseCode::Extension,
            1011 => CloseCode::Error,
            1012 => CloseCode::Restart,
            1013 => CloseCode::Again,
            1015 => CloseCode::Tls,
            0 => CloseCode::Empty,
            _ => CloseCode::Other(code),
        }
    }
}

impl From<u16> for CloseCode {
    fn from(code: u16) -> (r: CloseCode) {
        CloseCode::from_code(code)
    }
}

impl vstd::std_specs::convert::FromSpecImpl<u16> for CloseCode {
    open spec fn obeys_from_spec() -> bool {
        true
    }

    open spec fn from_spec(code: u16) -> CloseCode {
        close_code_of(code)
    }
}

impl From<CloseCode> for u16 {
    fn from(c: CloseCode) -> (r: u16) {
        c.to_code()
    }
}

impl vstd::std_specs::convert::FromSpecImpl<CloseCode> for u16 {
    open spec fn obeys_from_spec() -> bool {
        true
    }

    open spec fn from_spec(c: CloseCode) -> u16 {
        code_of(c)
    }
}

/// Every number survives the trip to a close code and back.
pub proof fn lemma_code_round_trip(code: u16)
    ensures
        code_of(close_code_of(code)) == code,
{
}

/// Every canonical close code survives the trip to a number and back.
pub proof fn lemma_close_code_round_trip(c: CloseCode)
    requires
        is_canonical(c),
    ensures
        close_code_of(code_of(c)) == c,
{
}

/// A number without a name of its own is carried by `Other`, and `Other` gives it back.
pub proof fn lemma_unnamed_code_is_other(code: u16)
    requires
        !is_named_code(code),
    ensures
        close_code_of(code) == CloseCode::Other(code),
        code_of(CloseCode::Other(code)) == code,
{
}

} // verus!
