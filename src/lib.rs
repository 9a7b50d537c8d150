//! # libweb
//!
//! A WebSocket client core: close codes, messages, an outbound sender and the
//! connection lifecycle that drives a user-supplied handler. The transport
//! itself (sockets, handshake, framing) is supplied by the caller.

pub mod close_code;
pub mod message;
pub mod error;
pub mod sender;
pub mod handler;
pub mod connection;
