//! Record framing for a TLS-style transport.
//!
//! A record is a header of content type, protocol version and payload
//! length, followed by the payload. This crate holds the wire
//! enumerations with their open variant, the byte cursor they are read
//! from, and the record type: strict validation of a received header, and
//! a payload buffer with room in front for the header to be written in
//! place.
//!
//! Every function is verified against a contract over a mathematical
//! model of the bytes: see [`record`] for the model and for what is
//! proved of it.

pub mod base;
pub mod codec;
pub mod enums;
pub mod error;
pub mod message;
pub mod record;

pub use crate::enums::{ContentType, ProtocolVersion};
