//! The record format as mathematics: what bytes a record is written as,
//! what a run of bytes is read as, and how the two fit together.

use vstd::prelude::*;

use crate::codec::{lemma_u16_round_trip, Codec};
use crate::enums::{ContentType, ProtocolVersion};
use crate::error::MessageError;
use crate::message::OutboundOpaqueMessage;

verus! {

/// What a record says, apart from how its bytes are held in memory.
pub struct Record {
    pub typ: ContentType,
    pub version: ProtocolVersion,
    pub payload: Seq<u8>,
}

impl Record {
    /// The header of a record with a length field of `len`: content type,
    /// version and length, big-endian.
    pub open spec fn header(typ: ContentType, version: ProtocolVersion, len: u16) -> Seq<u8> {
        typ.spec_encode() + version.spec_encode() + len.spec_encode()
    }

    /// The record on the wire: the header, then the payload. The length
    /// field has 16 bits and holds the payload length modulo 2^16.
    pub open spec fn wire(self) -> Seq<u8> {
        Self::header(self.typ, self.version, (self.payload.len() % 0x1_0000) as u16)
            + self.payload
    }

    /// Whether a receiver takes this record: a named content type, an
    /// accepted version, a payload under the limit, and no empty payload
    /// but for application data.
    pub open spec fn is_acceptable(self) -> bool {
        &&& self.typ !is Unknown
        &&& spec_version_accepted(self.version)
        &&& self.payload.len() < OutboundOpaqueMessage::MAX_PAYLOAD
        &&& (self.payload.len() == 0 ==> self.typ == ContentType::ApplicationData)
    }
}

/// A named version is accepted as it is; any other only from the `0x03xx`
/// family.
pub open spec fn spec_version_accepted(version: ProtocolVersion) -> bool {
    version matches ProtocolVersion::Unknown(v) ==> 0x0300 <= v <= 0x03ff
}

/// What the start of `bytes` is as a record header. The checks are made
/// in the order of the fields, and the first that fails decides: a field
/// that is refused hides that the input ends before the next one.
pub open spec fn spec_read_header(bytes: Seq<u8>) -> Result<
    (ContentType, ProtocolVersion, u16),
    MessageError,
> {
    let typ = ContentType::spec_decode(bytes.subrange(0, 1));
    let version = ProtocolVersion::spec_decode(bytes.subrange(1, 3));
    let len = u16::spec_decode(bytes.subrange(3, 5));
    if bytes.len() < 1 {
        Err(MessageError::TooShortForHeader)
    } else if typ is Unknown {
        Err(MessageError::InvalidContentType)
    } else if bytes.len() < 3 {
        Err(MessageError::TooShortForHeader)
    } else if !spec_version_accepted(version) {
        Err(MessageError::UnknownProtocolVersion)
    } else if bytes.len() < 5 {
        Err(MessageError::TooShortForHeader)
    } else if typ != ContentType::ApplicationData && len == 0 {
        Err(MessageError::InvalidEmptyPayload)
    } else if len >= OutboundOpaqueMessage::MAX_PAYLOAD {
        Err(MessageError::MessageTooLarge)
    } else {
        Ok((typ, version, len))
    }
}

/// How many bytes reading a header takes from `bytes`: every field that
/// was read whole, up to and including the one that was refused.
pub open spec fn spec_header_consumed(bytes: Seq<u8>) -> nat {
    let typ = ContentType::spec_decode(bytes.subrange(0, 1));
    let version = ProtocolVersion::spec_decode(bytes.subrange(1, 3));
    if bytes.len() < 1 {
        0
    } else if typ is Unknown || bytes.len() < 3 {
        1
    } else if !spec_version_accepted(version) || bytes.len() < 5 {
        3
    } else {
        5
    }
}

/// What the start of `bytes` is as a record.
pub open spec fn spec_read(bytes: Seq<u8>) -> Result<Record, MessageError> {
    match spec_read_header(bytes) {
        Err(e) => Err(e),
        Ok((typ, version, len)) => {
            let start = OutboundOpaqueMessage::HEADER_SIZE as int;
            if bytes.len() < start + len {
                Err(MessageError::TooShortForLength)
            } else {
                Ok(Record { typ, version, payload: bytes.subrange(start, start + len) })
            }
        },
    }
}

/// How many bytes reading a record takes from `bytes`: header and payload
/// of a record that is there in full, and no payload byte otherwise.
pub open spec fn spec_read_consumed(bytes: Seq<u8>) -> nat {
    match spec_read(bytes) {
        Ok(rec) => OutboundOpaqueMessage::HEADER_SIZE as nat + rec.payload.len(),
        Err(_) => spec_header_consumed(bytes),
    }
}

/// The header of an acceptable record is read back as it was written,
/// whatever follows it, but that the version comes back in its canonical
/// form.
proof fn lemma_header_of_encoded(rec: Record, rest: Seq<u8>)
    requires
        rec.is_acceptable(),
    ensures
        rec.wire().len() == OutboundOpaqueMessage::HEADER_SIZE + rec.payload.len(),
        spec_read_header(rec.wire() + rest) == Ok::<
            (ContentType, ProtocolVersion, u16),
            MessageError,
        >(
            (
                rec.typ,
                ProtocolVersion::spec_from_u16(rec.version.spec_get_u16()),
                rec.payload.len() as u16,
            ),
        ),
        spec_header_consumed(rec.wire() + rest) == OutboundOpaqueMessage::HEADER_SIZE,
{
    let len = rec.payload.len() as u16;
    let bytes = rec.wire() + rest;
    assert(bytes.subrange(0, 1) =~= rec.typ.spec_encode());
    assert(bytes.subrange(1, 3) =~= rec.version.spec_encode());
    assert(bytes.subrange(3, 5) =~= len.spec_encode());
    lemma_u16_round_trip(rec.version.spec_get_u16());
    lemma_u16_round_trip(len);
}

/// Round trip: an acceptable record in canonical form is read back from
/// its own encoding exactly as it was, and all of the encoding is
/// consumed, whatever follows it in the input.
pub proof fn lemma_read_of_encoded(rec: Record, rest: Seq<u8>)
    requires
        rec.is_acceptable(),
        rec.version.is_canonical(),
    ensures
        spec_read(rec.wire() + rest) == Ok::<Record, MessageError>(rec),
        spec_read_consumed(rec.wire() + rest) == rec.wire().len(),
{
    lemma_header_of_encoded(rec, rest);
    let bytes = rec.wire() + rest;
    let start = OutboundOpaqueMessage::HEADER_SIZE as int;
    assert(bytes.subrange(start, start + rec.payload.len()) =~= rec.payload);
}

/// The other way round: whatever is read as a record is acceptable and in
/// canonical form, and it is written as the very bytes that were
/// consumed. Reading never takes more than there is.
pub proof fn lemma_encoded_of_read(bytes: Seq<u8>)
    ensures
        spec_read_consumed(bytes) <= bytes.len(),
        spec_read(bytes) matches Ok(rec) ==> {
            &&& rec.is_acceptable()
            &&& rec.typ.is_canonical()
            &&& rec.version.is_canonical()
            &&& rec.wire() == bytes.take(spec_read_consumed(bytes) as int)
        },
{
    if let Ok(rec) = spec_read(bytes) {
        ContentType::lemma_decode_encode(bytes.subrange(0, 1));
        ProtocolVersion::lemma_decode_encode(bytes.subrange(1, 3));
        u16::lemma_decode_encode(bytes.subrange(3, 5));
        assert(rec.wire() =~= bytes.take(spec_read_consumed(bytes) as int));
    }
}

/// Truncation: a proper prefix of an acceptable record's encoding is never
/// read as a record, and never refused for good either. Under a whole
/// header it is too short for a header; from a whole header on it is too
/// short for the length that the header gives. The two are told apart.
pub proof fn lemma_read_of_truncated(rec: Record, n: int)
    requires
        rec.is_acceptable(),
        0 <= n < rec.wire().len(),
    ensures
        n < OutboundOpaqueMessage::HEADER_SIZE ==> spec_read(rec.wire().take(n)) == Err::<
            Record,
            MessageError,
        >(MessageError::TooShortForHeader),
        n >= OutboundOpaqueMessage::HEADER_SIZE ==> spec_read(rec.wire().take(n)) == Err::<
            Record,
            MessageError,
        >(MessageError::TooShortForLength),
        MessageError::TooShortForHeader != MessageError::TooShortForLength,
{
    lemma_header_of_encoded(rec, Seq::empty());
    let whole = rec.wire();
    let part = whole.take(n);
    assert(whole + Seq::<u8>::empty() =~= whole);
    if n >= 1 {
        assert(part.subrange(0, 1) =~= whole.subrange(0, 1));
    }
    if n >= 3 {
        assert(part.subrange(1, 3) =~= whole.subrange(1, 3));
    }
    if n >= 5 {
        assert(part.subrange(3, 5) =~= whole.subrange(3, 5));
    }
}

} // verus!
