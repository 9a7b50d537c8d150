//! The errors of this crate.
use vstd::prelude::*;

verus! {

/// What went wrong on a connection.
#[derive(Debug)]
pub enum Error {
    /// The transport rejected a read, a write or the handshake, or the
    /// connection is not open for the operation.
    Transport(String),
    /// The remote endpoint sent a malformed frame.
    ProtocolViolation(String),
    /// A handler callback itself reported a failure.
    Application(String),
    /// An argument is outside what the protocol allows.
    InvalidArgument(String),
}

/// The `Result` type used throughout the crate.
pub type Result<T> = std::result::Result<T, Error>;

} // verus!
