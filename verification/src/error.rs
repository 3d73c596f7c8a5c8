//! What can go wrong while bytes are turned into values.

use vstd::prelude::*;

verus! {

/// A field could not be decoded from the bytes at hand.
#[non_exhaustive]
#[derive(Debug, Clone, Copy, PartialEq, Eq)]
pub enum InvalidMessage {
    /// The input ended before the named field was complete.
    MissingData(&'static str),
}

/// Why a record could not be taken from the input.
///
/// The two `TooShort` kinds say that the input may still grow into a
/// record; every other kind says that it never will.
#[derive(Debug, Clone, Copy, PartialEq, Eq, Structural)]
pub enum MessageError {
    /// Fewer bytes than a whole header.
    TooShortForHeader,
    /// A sound header, but fewer payload bytes than it announces.
    TooShortForLength,
    /// A record without payload whose content type does not allow that.
    InvalidEmptyPayload,
    /// The announced payload length is beyond the limit.
    MessageTooLarge,
    /// The content type is none of the defined ones.
    InvalidContentType,
    /// The version is neither a defined one nor of the `0x03xx` family.
    UnknownProtocolVersion,
}

} // verus!
