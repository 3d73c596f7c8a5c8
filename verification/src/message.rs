//! The record: content type, version and a payload that is stored behind
//! room for its own header.

use vstd::prelude::*;
use vstd::slice::slice_to_vec;
use vstd::std_specs::convert::FromSpecImpl;

use crate::base::Payload;
use crate::codec::{Codec, Reader};
use crate::enums::{ContentType, ProtocolVersion};
use crate::error::MessageError;
use crate::record::{
    lemma_encoded_of_read, spec_header_consumed, spec_read, spec_read_consumed,
    spec_read_header, Record,
};

verus! {

/// A payload that keeps room for a record header in front of its bytes.
///
/// The room is part of the same buffer, so that the header can be written
/// once the payload is final, without moving the payload. Nothing but the
/// record's own encoding writes to it, and no accessor hands it out.
#[derive(Clone, Debug)]
pub struct PrefixedPayload(Vec<u8>);

impl View for PrefixedPayload {
    type V = Seq<u8>;

    /// The payload proper: the buffer without the room for the header.
    open spec fn view(&self) -> Seq<u8> {
        self.buffer().skip(OutboundOpaqueMessage::HEADER_SIZE as int)
    }
}

impl PrefixedPayload {
    /// The whole buffer: room for the header, then the payload.
    pub closed spec fn buffer(&self) -> Seq<u8> {
        self.0@
    }

    /// The buffer holds the room for the header. Every constructor
    /// establishes this, and every method keeps it.
    pub open spec fn wf(&self) -> bool {
        self.buffer().len() >= OutboundOpaqueMessage::HEADER_SIZE
    }

    /// The room for the header as it is filled before encoding.
    pub open spec fn spec_blank_prefix() -> Seq<u8> {
        seq![0u8, 0u8, 0u8, 0u8, 0u8]
    }

    /// The buffer of a payload whose room was reserved and to which each
    /// of `chunks` was then appended in turn.
    pub open spec fn spec_grown(chunks: Seq<Seq<u8>>) -> Seq<u8>
        decreases chunks.len(),
    {
        if chunks.len() == 0 {
            Self::spec_blank_prefix()
        } else {
            Self::spec_grown(chunks.drop_last()) + chunks.last()
        }
    }

    /// An empty payload, with memory set aside for `capacity` bytes of
    /// payload to come. The room and the capacity together must be an
    /// amount that can be allocated.
    pub fn with_capacity(capacity: usize) -> (p: Self)
        requires
            capacity + OutboundOpaqueMessage::HEADER_SIZE <= isize::MAX,
        ensures
            p.wf(),
            p.buffer() == Self::spec_blank_prefix(),
            p@ == Seq::<u8>::empty(),
    {
        let mut prefixed_payload: Vec<u8> = Vec::with_capacity(
            OutboundOpaqueMessage::HEADER_SIZE + capacity,
        );
        prefixed_payload.resize(OutboundOpaqueMessage::HEADER_SIZE, 0);
        assert(prefixed_payload@ =~= Self::spec_blank_prefix());
        PrefixedPayload(prefixed_payload)
    }

    /// The payload: all of the buffer behind the room for the header.
    pub fn as_ref(&self) -> (bytes: &[u8])
        requires
            self.wf(),
        ensures
            bytes@ == self@,
            bytes@ == self.buffer().subrange(
                OutboundOpaqueMessage::HEADER_SIZE as int,
                self.buffer().len() as int,
            ),
    {
        let (_, payload) = self.0.as_slice().split_at(OutboundOpaqueMessage::HEADER_SIZE);
        payload
    }

    /// The payload, to be changed in place. Whatever is written to it, the
    /// room in front of it stays as it is.
    pub fn as_mut(&mut self) -> (bytes: &mut [u8])
        requires
            old(self).wf(),
        ensures
            bytes@ == old(self)@,
            final(self).wf(),
            final(self)@ == final(bytes)@,
            final(self).buffer() == old(self).buffer().take(
                OutboundOpaqueMessage::HEADER_SIZE as int,
            ) + final(bytes)@,
    {
        let (_, payload) = self.0.as_mut_slice().split_at_mut(OutboundOpaqueMessage::HEADER_SIZE);
        payload
    }

    /// Appends `bytes` to the payload. The room in front of the payload
    /// stays where and as it is.
    pub fn extend(&mut self, bytes: &[u8])
        requires
            old(self).wf(),
        ensures
            final(self).wf(),
            final(self).buffer() == old(self).buffer() + bytes@,
            final(self)@ == old(self)@ + bytes@,
    {
        self.0.extend_from_slice(bytes);
    }
}

impl<'a> From<&'a [u8]> for PrefixedPayload {
    /// A copy of `content` behind blank room for the header.
    fn from(content: &'a [u8]) -> (p: Self)
        ensures
            p.wf(),
            p.buffer() == PrefixedPayload::spec_blank_prefix() + content@,
            p@ == content@,
    {
        let mut buffer: Vec<u8> = Vec::new();
        buffer.resize(OutboundOpaqueMessage::HEADER_SIZE, 0);
        buffer.extend_from_slice(content);
        PrefixedPayload(buffer)
    }
}

/// Two payloads with the same bytes need not be one value, so the
/// conversion is described by what it ensures and not as a function.
impl<'a> FromSpecImpl<&'a [u8]> for PrefixedPayload {
    open spec fn obeys_from_spec() -> bool {
        false
    }

    open spec fn from_spec(content: &'a [u8]) -> Self {
        arbitrary()
    }
}

impl<'a, const N: usize> From<&'a [u8; N]> for PrefixedPayload {
    /// A copy of `content` behind blank room for the header.
    fn from(content: &'a [u8; N]) -> (p: Self)
        ensures
            p.wf(),
            p.buffer() == PrefixedPayload::spec_blank_prefix() + content@,
            p@ == content@,
    {
        let content: &[u8] = content.as_slice();
        Self::from(content)
    }
}

/// As for a slice: described by what the conversion ensures.
impl<'a, const N: usize> FromSpecImpl<&'a [u8; N]> for PrefixedPayload {
    open spec fn obeys_from_spec() -> bool {
        false
    }

    open spec fn from_spec(content: &'a [u8; N]) -> Self {
        arbitrary()
    }
}

/// Buffer layout: however often a payload has been appended to since its
/// room was reserved, the room is the first bytes of the buffer, still
/// blank, and the payload is all that follows: the appended runs, in
/// order.
pub proof fn lemma_layout_after_appends(chunks: Seq<Seq<u8>>)
    ensures
        PrefixedPayload::spec_grown(chunks).len() >= OutboundOpaqueMessage::HEADER_SIZE,
        PrefixedPayload::spec_grown(chunks).take(OutboundOpaqueMessage::HEADER_SIZE as int)
            == PrefixedPayload::spec_blank_prefix(),
        PrefixedPayload::spec_grown(chunks).skip(OutboundOpaqueMessage::HEADER_SIZE as int)
            == chunks.flatten(),
    decreases chunks.len(),
{
    let size = OutboundOpaqueMessage::HEADER_SIZE as int;
    let grown = PrefixedPayload::spec_grown(chunks);
    if chunks.len() == 0 {
        assert(grown.take(size) =~= PrefixedPayload::spec_blank_prefix());
        assert(grown.skip(size) =~= chunks.flatten());
    } else {
        let before = PrefixedPayload::spec_grown(chunks.drop_last());
        lemma_layout_after_appends(chunks.drop_last());
        assert(grown.take(size) =~= before.take(size));
        assert(grown.skip(size) =~= before.skip(size) + chunks.last());
        chunks.drop_last().lemma_flatten_push(chunks.last());
        assert(chunks.drop_last().push(chunks.last()) =~= chunks);
    }
}

/// Reads and checks a record header: content type, version and payload
/// length. Each field is checked as soon as it is read, so that the first
/// fault decides and nothing behind it is looked at.
pub fn read_opaque_message_header(r: &mut Reader<'_>) -> (res: Result<
    (ContentType, ProtocolVersion, u16),
    MessageError,
>)
    ensures
        res == spec_read_header(old(r).remaining()),
        final(r).buffer() == old(r).buffer(),
        final(r).used() == old(r).used() + spec_header_consumed(old(r).remaining()),
{
    let ghost input = r.remaining();
    proof {
        use_type_invariant(&*r);
    }
    let typ = match ContentType::read(r) {
        Ok(typ) => typ,
        Err(_) => {
            return Err(MessageError::TooShortForHeader);
        },
    };
    assert(input.take(1) =~= input.subrange(0, 1));
    // Don't accept any new content-types.
    if let ContentType::Unknown(_) = typ {
        return Err(MessageError::InvalidContentType);
    }
    assert(r.remaining() =~= input.skip(1));
    assert(input.len() >= 3 ==> input.skip(1).take(2) =~= input.subrange(1, 3));
    let version = match ProtocolVersion::read(r) {
        Ok(version) => version,
        Err(_) => {
            return Err(MessageError::TooShortForHeader);
        },
    };
    // Accept only versions 0x03XX for any XX.
    match version {
        ProtocolVersion::Unknown(v) => {
            assert((v & 0xff00) != 0x0300 <==> !(0x0300 <= v <= 0x03ff)) by (bit_vector);
            if (v & 0xff00) != 0x0300 {
                return Err(MessageError::UnknownProtocolVersion);
            }
        },
        _ => {},
    };
    assert(r.remaining() =~= input.skip(3));
    assert(input.len() >= 5 ==> input.skip(3).take(2) =~= input.subrange(3, 5));
    let len = match u16::read(r) {
        Ok(len) => len,
        Err(_) => {
            return Err(MessageError::TooShortForHeader);
        },
    };
    // Reject undersize messages.
    if typ != ContentType::ApplicationData && len == 0 {
        return Err(MessageError::InvalidEmptyPayload);
    }
    // Reject oversize messages.
    if len >= OutboundOpaqueMessage::MAX_PAYLOAD {
        return Err(MessageError::MessageTooLarge);
    }
    Ok((typ, version, len))
}

/// A record whose payload needs no further transform: plain text.
#[derive(Clone, Debug)]
pub struct PlainMessage {
    pub typ: ContentType,
    pub version: ProtocolVersion,
    pub payload: Payload<'static>,
}

impl View for PlainMessage {
    type V = Record;

    open spec fn view(&self) -> Record {
        Record { typ: self.typ, version: self.version, payload: self.payload@ }
    }
}

/// A record on its way out, or one taken from the wire as it came.
///
/// It owns its payload, which can be changed in place, and which sits
/// behind room for the header: encoding fills in the header and hands
/// out the one buffer.
#[derive(Clone, Debug)]
pub struct OutboundOpaqueMessage {
    pub typ: ContentType,
    pub version: ProtocolVersion,
    pub payload: PrefixedPayload,
}

impl View for OutboundOpaqueMessage {
    type V = Record;

    open spec fn view(&self) -> Record {
        Record { typ: self.typ, version: self.version, payload: self.payload@ }
    }
}

impl OutboundOpaqueMessage {
    /// A payload of this length or more is refused on the way in: 2^14
    /// bytes and an allowance of 2 KB for what a cipher adds.
    pub const MAX_PAYLOAD: u16 = 16_384 + 2048;

    /// Bytes of a record header: content type, version and payload length.
    pub const HEADER_SIZE: usize = 1 + 2 + 2;

    /// The most bytes that one record takes on the wire.
    pub const MAX_WIRE_SIZE: usize = Self::MAX_PAYLOAD as usize + Self::HEADER_SIZE;

    /// The payload holds the room for the header.
    pub open spec fn wf(&self) -> bool {
        self.payload.wf()
    }

    /// A record of the given parts. `payload` is moved into it. Nothing
    /// is checked here: the limits on a record are a receiver's.
    pub fn new(typ: ContentType, version: ProtocolVersion, payload: PrefixedPayload) -> (m: Self)
        ensures
            m.typ == typ,
            m.version == version,
            m.payload == payload,
    {
        Self { typ, version, payload }
    }

    /// The payload as a slice: all of the buffer behind the room for the
    /// header.
    pub fn payload(&self) -> (bytes: &[u8])
        requires
            self.wf(),
        ensures
            bytes@ == self@.payload,
            bytes@ == self.payload.buffer().subrange(
                Self::HEADER_SIZE as int,
                self.payload.buffer().len() as int,
            ),
    {
        self.payload.as_ref()
    }

    /// The payload as a slice to be changed in place. Nothing else of the
    /// record changes with it, and the room for the header stays as it is.
    pub fn payload_mut(&mut self) -> (bytes: &mut [u8])
        requires
            old(self).wf(),
        ensures
            bytes@ == old(self)@.payload,
            final(self).wf(),
            final(self)@ == (Record { payload: final(bytes)@, ..old(self)@ }),
            final(self).payload.buffer() == old(self).payload.buffer().take(
                Self::HEADER_SIZE as int,
            ) + final(bytes)@,
    {
        self.payload.as_mut()
    }

    /// Takes one record from `r`: a header that passes every check, then
    /// as many payload bytes as it announces. No payload byte is consumed
    /// unless the record is there in full.
    ///
    /// Of the errors, `TooShortForHeader` and `TooShortForLength` say that
    /// more input may complete the record; the others, that the input is
    /// no record.
    pub fn read(r: &mut Reader<'_>) -> (res: Result<Self, MessageError>)
        ensures
            final(r).buffer() == old(r).buffer(),
            final(r).used() == old(r).used() + spec_read_consumed(old(r).remaining()),
            match res {
                Ok(m) => {
                    &&& spec_read(old(r).remaining()) == Ok::<Record, MessageError>(m@)
                    &&& m@.is_acceptable()
                    &&& m.wf()
                    &&& m.payload.buffer() == PrefixedPayload::spec_blank_prefix() + m@.payload
                },
                Err(e) => spec_read(old(r).remaining()) == Err::<Record, MessageError>(e),
            },
    {
        let ghost input = r.remaining();
        proof {
            use_type_invariant(&*r);
            lemma_encoded_of_read(input);
        }
        let (typ, version, len) = read_opaque_message_header(r)?;
        assert(r.remaining() =~= input.skip(Self::HEADER_SIZE as int));
        let content = r.take(len as usize).ok_or(MessageError::TooShortForLength)?;
        assert(content@ =~= input.subrange(
            Self::HEADER_SIZE as int,
            Self::HEADER_SIZE + len,
        ));
        Ok(Self { typ, version, payload: PrefixedPayload::from(content) })
    }

    /// The record on the wire. The header is written into the room in
    /// front of the payload, and the buffer is handed out as it is: no
    /// payload byte is moved.
    ///
    /// The length field has 16 bits: it holds the length of a payload of
    /// up to 65535 bytes, and of a longer one the length modulo 2^16.
    pub fn encode(self) -> (encoded: Vec<u8>)
        requires
            self.wf(),
        ensures
            encoded@ == self@.wire(),
            encoded@.len() == Self::HEADER_SIZE + self@.payload.len(),
            self@.payload.len() <= Self::MAX_PAYLOAD ==> encoded@.len() <= Self::MAX_WIRE_SIZE,
    {
        let size: usize = self.payload().len();
        let length: u16 = #[verifier::truncate] (size as u16);
        assert(length == size % 0x1_0000) by (bit_vector)
            requires
                length == size as u16,
        ;
        let typ: u8 = self.typ.get_u8();
        let version: [u8; 2] = self.version.get_array();
        let mut encoded_payload = self.payload.0;
        encoded_payload[0] = typ;
        encoded_payload[1] = version[0];
        encoded_payload[2] = version[1];
        encoded_payload[3] = (length / 256) as u8;
        encoded_payload[4] = (length % 256) as u8;
        assert(encoded_payload@ =~= self@.wire());
        encoded_payload
    }

    /// The same record as plain text, with a payload of its own.
    ///
    /// For a record whose payload is known to be plain text already.
    pub fn into_plain_message(self) -> (plain: PlainMessage)
        requires
            self.wf(),
        ensures
            plain@ == self@,
            plain.payload is Owned,
    {
        PlainMessage {
            version: self.version,
            typ: self.typ,
            payload: Payload::Owned(slice_to_vec(self.payload())),
        }
    }
}

} // verus!
