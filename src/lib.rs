//! A minimal HTTP/1.1 client core for a packet-level network stack: request
//! serialization, a per-tick connection state machine, bounded device
//! acquisition and a decoder for percent- and entity-encoded text.

pub mod acquire;
pub mod decimal;
pub mod decode;
pub mod http;
pub mod request;
pub mod session;
