//! The decision core of a small dual-protocol server: plain HTTP requests are
//! answered with one fixed HTML page, WebSocket upgrade requests are taken
//! through the opening handshake, and every text message of an established
//! session is answered with its upper-cased form.
//!
//! Nothing in this crate touches a socket. The embedding program reads
//! requests and messages, hands them over as plain values, and carries out
//! the responses and actions it gets back.

pub mod ascii;
pub mod header;
pub mod request;
pub mod response;
pub mod handshake;
pub mod dispatch;
pub mod message;
pub mod session;
pub mod trace;
pub mod failure;
pub mod listener;
