//! The callbacks through which a connection drives an application.
use vstd::prelude::*;
use crate::close_code::CloseCode;
use crate::error::{Error, Result};
use crate::message::Message;
use crate::sender::Sender;

verus! {

/// Implementing this trait provides the business logic of the WebSocket
/// application. Each callback that may send gets the connection's sender.
pub trait Handler: Sized {
    /// Creates a new handler.
    fn new() -> Self;

    /// Called once, when the handshake has completed and the connection is
    /// open for sending and receiving messages.
    fn on_open(&mut self, _out: &mut Sender) -> Result<()> {
        Ok(())
    }

    /// Called on each incoming message, in the order received.
    fn on_message(&mut self, _out: &mut Sender, _msg: Message) -> Result<()> {
        Ok(())
    }

    /// Called once, when the connection has closed, with the code and reason
    /// that ended it.
    fn on_close(&mut self, _code: CloseCode, _reason: &str) {
    }

    /// Called with every error of a callback or of the transport.
    fn on_error(&mut self, _err: Error) {
    }
}

} // verus!
