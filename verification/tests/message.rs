use tls_record::base::Payload;
use tls_record::codec::Reader;
use tls_record::enums::{ContentType, ProtocolVersion};
use tls_record::error::MessageError;
use tls_record::message::{read_opaque_message_header, OutboundOpaqueMessage, PrefixedPayload};

fn header_of(bytes: &[u8]) -> (Result<(ContentType, ProtocolVersion, u16), MessageError>, usize) {
    let mut r = Reader::init(bytes);
    let res = read_opaque_message_header(&mut r);
    (res, r.used())
}

fn record_of(bytes: &[u8]) -> (Result<OutboundOpaqueMessage, MessageError>, usize) {
    let mut r = Reader::init(bytes);
    let res = OutboundOpaqueMessage::read(&mut r);
    (res, r.used())
}

fn message(typ: ContentType, version: ProtocolVersion, payload: &[u8]) -> OutboundOpaqueMessage {
    OutboundOpaqueMessage::new(typ, version, PrefixedPayload::from(payload))
}

#[test]
fn constants() {
    assert_eq!(OutboundOpaqueMessage::MAX_PAYLOAD, 18432);
    assert_eq!(OutboundOpaqueMessage::HEADER_SIZE, 5);
    assert_eq!(OutboundOpaqueMessage::MAX_WIRE_SIZE, 18437);
}

#[test]
fn header_empty_handshake_is_refused() {
    let (res, used) = header_of(&[0x16, 0x03, 0x01, 0x00, 0x00]);
    assert_eq!(res, Err(MessageError::InvalidEmptyPayload));
    assert_eq!(used, 5);
    let (res, _) = record_of(&[0x16, 0x03, 0x01, 0x00, 0x00]);
    assert_eq!(res.err(), Some(MessageError::InvalidEmptyPayload));
}

#[test]
fn header_empty_application_data_is_taken() {
    let (res, used) = header_of(&[0x17, 0x03, 0x01, 0x00, 0x00]);
    assert_eq!(
        res,
        Ok((ContentType::ApplicationData, ProtocolVersion::TLSv1_0, 0))
    );
    assert_eq!(used, 5);
    let (res, used) = record_of(&[0x17, 0x03, 0x01, 0x00, 0x00]);
    let m = res.unwrap();
    assert_eq!(m.typ, ContentType::ApplicationData);
    assert_eq!(m.version, ProtocolVersion::TLSv1_0);
    assert_eq!(m.payload().len(), 0);
    assert_eq!(used, 5);
}

#[test]
fn header_too_large_is_refused() {
    // 0x4800 = 18432 = 2^14 + 2048
    let (res, used) = header_of(&[0x16, 0x03, 0x01, 0x48, 0x00]);
    assert_eq!(res, Err(MessageError::MessageTooLarge));
    assert_eq!(used, 5);
    let (res, used) = record_of(&[0x16, 0x03, 0x01, 0x48, 0x00]);
    assert_eq!(res.err(), Some(MessageError::MessageTooLarge));
    assert_eq!(used, 5);
    let (res, _) = header_of(&[0x16, 0x03, 0x01, 0x80, 0x00]);
    assert_eq!(res, Err(MessageError::MessageTooLarge));
}

#[test]
fn header_length_between_plain_and_cipher_limit_is_taken() {
    // 0x4210 = 16912 is over 2^14, but within the allowance on top of it.
    let (res, used) = header_of(&[0x16, 0x03, 0x01, 0x42, 0x10]);
    assert_eq!(
        res,
        Ok((ContentType::Handshake, ProtocolVersion::TLSv1_0, 16912))
    );
    assert_eq!(used, 5);
    let (res, used) = record_of(&[0x16, 0x03, 0x01, 0x42, 0x10]);
    assert_eq!(res.err(), Some(MessageError::TooShortForLength));
    assert_eq!(used, 5);
}

#[test]
fn header_unknown_content_type_is_refused() {
    let (res, used) = header_of(&[0x00, 0x03, 0x01, 0x00, 0x05]);
    assert_eq!(res, Err(MessageError::InvalidContentType));
    assert_eq!(used, 1);
    let (res, _) = record_of(&[0x00, 0x03, 0x01, 0x00, 0x05]);
    assert_eq!(res.err(), Some(MessageError::InvalidContentType));
    for typ in [0x13u8, 0x19, 0xff] {
        let (res, _) = header_of(&[typ, 0x03, 0x03, 0x00, 0x05]);
        assert_eq!(res, Err(MessageError::InvalidContentType));
    }
}

#[test]
fn header_unknown_version_family_is_refused() {
    let (res, used) = header_of(&[0x16, 0x07, 0x01, 0x00, 0x05]);
    assert_eq!(res, Err(MessageError::UnknownProtocolVersion));
    assert_eq!(used, 3);
    let (res, _) = record_of(&[0x16, 0x07, 0x01, 0x00, 0x05]);
    assert_eq!(res.err(), Some(MessageError::UnknownProtocolVersion));
    for version in [0x0000u16, 0x0200, 0x02ff, 0x0400, 0xFEFE, 0xffff] {
        let v = version.to_be_bytes();
        let (res, _) = header_of(&[0x16, v[0], v[1], 0x00, 0x05]);
        assert_eq!(res, Err(MessageError::UnknownProtocolVersion));
    }
}

#[test]
fn header_unnamed_version_of_the_family_is_taken() {
    let (res, used) = header_of(&[0x16, 0x03, 0x05, 0x00, 0x05]);
    assert_eq!(
        res,
        Ok((ContentType::Handshake, ProtocolVersion::Unknown(0x0305), 5))
    );
    assert_eq!(used, 5);
    let (res, _) = header_of(&[0x15, 0x03, 0xff, 0x00, 0x02]);
    assert_eq!(
        res,
        Ok((ContentType::Alert, ProtocolVersion::Unknown(0x03ff), 2))
    );
}

#[test]
fn header_named_version_outside_the_family_is_taken() {
    let (res, _) = header_of(&[0x16, 0xFE, 0xFF, 0x00, 0x01]);
    assert_eq!(
        res,
        Ok((ContentType::Handshake, ProtocolVersion::DTLSv1_0, 1))
    );
    let (res, _) = header_of(&[0x16, 0xFE, 0xFD, 0x00, 0x01]);
    assert_eq!(
        res,
        Ok((ContentType::Handshake, ProtocolVersion::DTLSv1_2, 1))
    );
    let (res, _) = header_of(&[0x16, 0xFE, 0xFC, 0x00, 0x01]);
    assert_eq!(
        res,
        Ok((ContentType::Handshake, ProtocolVersion::DTLSv1_3, 1))
    );
    let (res, _) = header_of(&[0x14, 0x00, 0x02, 0x00, 0x01]);
    assert_eq!(
        res,
        Ok((ContentType::ChangeCipherSpec, ProtocolVersion::SSLv2, 1))
    );
}

#[test]
fn header_every_named_content_type_is_taken() {
    let named = [
        (0x14u8, ContentType::ChangeCipherSpec),
        (0x15, ContentType::Alert),
        (0x16, ContentType::Handshake),
        (0x17, ContentType::ApplicationData),
        (0x18, ContentType::Heartbeat),
    ];
    for (byte, typ) in named {
        let (res, used) = header_of(&[byte, 0x03, 0x03, 0x01, 0x00]);
        assert_eq!(res, Ok((typ, ProtocolVersion::TLSv1_2, 0x0100)));
        assert_eq!(used, 5);
    }
}

#[test]
fn header_length_limit_is_exact() {
    // 18431 is the largest length that is taken, 18432 the first refused.
    let (res, _) = header_of(&[0x17, 0x03, 0x03, 0x47, 0xff]);
    assert_eq!(
        res,
        Ok((ContentType::ApplicationData, ProtocolVersion::TLSv1_2, 18431))
    );
    let (res, _) = header_of(&[0x17, 0x03, 0x03, 0x48, 0x00]);
    assert_eq!(res, Err(MessageError::MessageTooLarge));
    let (res, _) = header_of(&[0x17, 0x03, 0x03, 0xff, 0xff]);
    assert_eq!(res, Err(MessageError::MessageTooLarge));
}

#[test]
fn header_too_short_at_every_field() {
    let (res, used) = header_of(&[]);
    assert_eq!(res, Err(MessageError::TooShortForHeader));
    assert_eq!(used, 0);
    let (res, used) = header_of(&[0x16]);
    assert_eq!(res, Err(MessageError::TooShortForHeader));
    assert_eq!(used, 1);
    let (res, used) = header_of(&[0x16, 0x03]);
    assert_eq!(res, Err(MessageError::TooShortForHeader));
    assert_eq!(used, 1);
    let (res, used) = header_of(&[0x16, 0x03, 0x03]);
    assert_eq!(res, Err(MessageError::TooShortForHeader));
    assert_eq!(used, 3);
    let (res, used) = header_of(&[0x16, 0x03, 0x03, 0x00]);
    assert_eq!(res, Err(MessageError::TooShortForHeader));
    assert_eq!(used, 3);
}

#[test]
fn header_first_failing_check_decides() {
    // A bad content type is reported although the header is incomplete.
    let (res, _) = header_of(&[0x00]);
    assert_eq!(res, Err(MessageError::InvalidContentType));
    // A bad version is reported although the length is missing.
    let (res, _) = header_of(&[0x16, 0x07, 0x01]);
    assert_eq!(res, Err(MessageError::UnknownProtocolVersion));
    // A bad content type comes before a bad version and a bad length.
    let (res, _) = header_of(&[0x00, 0x07, 0x01, 0xff, 0xff]);
    assert_eq!(res, Err(MessageError::InvalidContentType));
    // A bad version comes before a bad length.
    let (res, _) = header_of(&[0x16, 0x07, 0x01, 0x00, 0x00]);
    assert_eq!(res, Err(MessageError::UnknownProtocolVersion));
}

#[test]
fn read_takes_header_and_payload() {
    let bytes = [0x16, 0x03, 0x03, 0x00, 0x03, 0xaa, 0xbb, 0xcc, 0xdd];
    let (res, used) = record_of(&bytes);
    let m = res.unwrap();
    assert_eq!(m.typ, ContentType::Handshake);
    assert_eq!(m.version, ProtocolVersion::TLSv1_2);
    assert_eq!(m.payload(), &[0xaa, 0xbb, 0xcc]);
    assert_eq!(used, 8);
}

#[test]
fn read_two_records_in_a_row() {
    let bytes = [
        0x15, 0x03, 0x03, 0x00, 0x02, 0x01, 0x02, 0x17, 0x03, 0x04, 0x00, 0x01, 0x99,
    ];
    let mut r = Reader::init(&bytes);
    let first = OutboundOpaqueMessage::read(&mut r).unwrap();
    assert_eq!(first.typ, ContentType::Alert);
    assert_eq!(first.payload(), &[0x01, 0x02]);
    assert_eq!(r.used(), 7);
    let second = OutboundOpaqueMessage::read(&mut r).unwrap();
    assert_eq!(second.typ, ContentType::ApplicationData);
    assert_eq!(second.version, ProtocolVersion::TLSv1_3);
    assert_eq!(second.payload(), &[0x99]);
    assert_eq!(r.used(), 13);
    let third = OutboundOpaqueMessage::read(&mut r);
    assert_eq!(third.err(), Some(MessageError::TooShortForHeader));
    assert_eq!(r.used(), 13);
}

#[test]
fn read_too_short_for_length_consumes_no_payload() {
    let bytes = [0x16, 0x03, 0x03, 0x00, 0x04, 0xaa, 0xbb, 0xcc];
    let (res, used) = record_of(&bytes);
    assert_eq!(res.err(), Some(MessageError::TooShortForLength));
    assert_eq!(used, 5);
}

#[test]
fn encode_stamps_the_header() {
    let m = message(ContentType::Handshake, ProtocolVersion::TLSv1_2, &[1, 2, 3]);
    assert_eq!(m.encode(), vec![0x16, 0x03, 0x03, 0x00, 0x03, 1, 2, 3]);
    let m = message(ContentType::ApplicationData, ProtocolVersion::TLSv1_3, &[]);
    assert_eq!(m.encode(), vec![0x17, 0x03, 0x04, 0x00, 0x00]);
    let m = message(ContentType::Unknown(0x99), ProtocolVersion::Unknown(0xabcd), &[7]);
    assert_eq!(m.encode(), vec![0x99, 0xab, 0xcd, 0x00, 0x01, 7]);
}

#[test]
fn encode_length_is_big_endian() {
    let payload = vec![0x5au8; 0x0102];
    let m = message(ContentType::ApplicationData, ProtocolVersion::TLSv1_2, &payload);
    let out = m.encode();
    assert_eq!(out.len(), 5 + 0x0102);
    assert_eq!(&out[..5], &[0x17, 0x03, 0x03, 0x01, 0x02]);
    assert_eq!(&out[5..], &payload[..]);
}

#[test]
fn encode_length_field_wraps_at_16_bits() {
    let payload = vec![0x11u8; 65536 + 3];
    let m = message(ContentType::ApplicationData, ProtocolVersion::TLSv1_2, &payload);
    let out = m.encode();
    assert_eq!(out.len(), 5 + 65536 + 3);
    assert_eq!(&out[..5], &[0x17, 0x03, 0x03, 0x00, 0x03]);
    assert_eq!(&out[5..], &payload[..]);
}

#[test]
fn round_trip_of_acceptable_records() {
    let cases: Vec<(ContentType, ProtocolVersion, Vec<u8>)> = vec![
        (ContentType::Handshake, ProtocolVersion::TLSv1_2, vec![1, 2, 3]),
        (ContentType::ApplicationData, ProtocolVersion::TLSv1_3, vec![]),
        (ContentType::Alert, ProtocolVersion::Unknown(0x03aa), vec![2, 40]),
        (ContentType::ChangeCipherSpec, ProtocolVersion::SSLv3, vec![1]),
        (ContentType::Heartbeat, ProtocolVersion::DTLSv1_2, vec![0; 300]),
        (ContentType::ApplicationData, ProtocolVersion::SSLv2, vec![0xff; 18431]),
    ];
    for (typ, version, payload) in cases {
        let wire = message(typ, version, &payload).encode();
        assert_eq!(wire.len(), 5 + payload.len());
        let mut r = Reader::init(&wire);
        let back = OutboundOpaqueMessage::read(&mut r).unwrap();
        assert_eq!(back.typ, typ);
        assert_eq!(back.version, version);
        assert_eq!(back.payload(), &payload[..]);
        assert_eq!(r.used(), wire.len());
        assert_eq!(back.encode(), wire);
    }
}

#[test]
fn round_trip_brings_the_open_variant_back_in_canonical_form() {
    let wire = message(ContentType::Handshake, ProtocolVersion::Unknown(0x0303), &[1]).encode();
    let (res, _) = record_of(&wire);
    assert_eq!(res.unwrap().version, ProtocolVersion::TLSv1_2);
}

#[test]
fn record_at_the_limit_is_written_but_not_taken() {
    let payload = vec![0u8; 18432];
    let wire = message(ContentType::ApplicationData, ProtocolVersion::TLSv1_2, &payload).encode();
    assert_eq!(wire.len(), OutboundOpaqueMessage::MAX_WIRE_SIZE);
    let (res, used) = record_of(&wire);
    assert_eq!(res.err(), Some(MessageError::MessageTooLarge));
    assert_eq!(used, 5);
}

#[test]
fn every_proper_prefix_of_a_record_is_too_short() {
    let wire = message(ContentType::Handshake, ProtocolVersion::TLSv1_2, &[9, 8, 7, 6]).encode();
    for n in 0..wire.len() {
        let (res, _) = record_of(&wire[..n]);
        let expected = if n < 5 {
            MessageError::TooShortForHeader
        } else {
            MessageError::TooShortForLength
        };
        assert_eq!(res.err(), Some(expected));
    }
    assert_ne!(MessageError::TooShortForHeader, MessageError::TooShortForLength);
    let (res, _) = record_of(&wire);
    assert!(res.is_ok());
}

#[test]
fn prefixed_payload_with_capacity_is_empty() {
    for capacity in [0usize, 1, 5, 1000] {
        let p = PrefixedPayload::with_capacity(capacity);
        assert_eq!(p.as_ref(), &[0u8; 0][..]);
        let m = OutboundOpaqueMessage::new(ContentType::ApplicationData, ProtocolVersion::TLSv1_2, p);
        assert_eq!(m.encode(), vec![0x17, 0x03, 0x03, 0x00, 0x00]);
    }
}

#[test]
fn prefixed_payload_from_slice_and_array() {
    let bytes = [1u8, 2, 3];
    let p = PrefixedPayload::from(&bytes[..]);
    assert_eq!(p.as_ref(), &[1, 2, 3]);
    let p = PrefixedPayload::from(&bytes);
    assert_eq!(p.as_ref(), &[1, 2, 3]);
    let p = PrefixedPayload::from(&[0u8; 0]);
    assert_eq!(p.as_ref().len(), 0);
}

#[test]
fn payload_is_what_follows_the_room_however_it_grew() {
    let mut p = PrefixedPayload::with_capacity(2);
    assert_eq!(p.as_ref().len(), 0);
    p.extend(&[1, 2]);
    assert_eq!(p.as_ref(), &[1, 2]);
    p.extend(&[]);
    assert_eq!(p.as_ref(), &[1, 2]);
    // Growth beyond what was reserved.
    p.extend(&[3, 4, 5, 6, 7, 8, 9]);
    assert_eq!(p.as_ref(), &[1, 2, 3, 4, 5, 6, 7, 8, 9]);
    let big = vec![0xabu8; 4096];
    p.extend(&big);
    assert_eq!(p.as_ref().len(), 9 + 4096);
    assert_eq!(&p.as_ref()[..9], &[1, 2, 3, 4, 5, 6, 7, 8, 9]);
    assert_eq!(&p.as_ref()[9..], &big[..]);
    let m = OutboundOpaqueMessage::new(ContentType::Handshake, ProtocolVersion::TLSv1_2, p);
    let wire = m.encode();
    assert_eq!(&wire[..5], &[0x16, 0x03, 0x03, 0x10, 0x09]);
    assert_eq!(&wire[5..14], &[1, 2, 3, 4, 5, 6, 7, 8, 9]);
}

#[test]
fn payload_changed_in_place() {
    let mut p = PrefixedPayload::from(&[1u8, 2, 3]);
    for b in p.as_mut().iter_mut() {
        *b ^= 0xff;
    }
    assert_eq!(p.as_ref(), &[0xfe, 0xfd, 0xfc]);

    let mut m = message(ContentType::ApplicationData, ProtocolVersion::TLSv1_2, &[1, 2, 3]);
    assert_eq!(m.payload_mut().len(), 3);
    m.payload_mut()[0] = 0x10;
    m.payload_mut()[2] = 0x30;
    assert_eq!(m.payload(), &[0x10, 2, 0x30]);
    assert_eq!(m.typ, ContentType::ApplicationData);
    assert_eq!(m.version, ProtocolVersion::TLSv1_2);
    assert_eq!(m.encode(), vec![0x17, 0x03, 0x03, 0x00, 0x03, 0x10, 2, 0x30]);
}

#[test]
fn new_keeps_its_parts() {
    let m = OutboundOpaqueMessage::new(
        ContentType::Alert,
        ProtocolVersion::TLSv1_1,
        PrefixedPayload::from(&[2u8, 70]),
    );
    assert_eq!(m.typ, ContentType::Alert);
    assert_eq!(m.version, ProtocolVersion::TLSv1_1);
    assert_eq!(m.payload.as_ref(), &[2, 70]);
    assert_eq!(m.payload(), &[2, 70]);
}

#[test]
fn into_plain_message_keeps_the_record() {
    let m = message(ContentType::Handshake, ProtocolVersion::TLSv1_3, &[4, 5, 6]);
    let plain = m.into_plain_message();
    assert_eq!(plain.typ, ContentType::Handshake);
    assert_eq!(plain.version, ProtocolVersion::TLSv1_3);
    assert_eq!(plain.payload.bytes(), &[4, 5, 6]);
    assert!(matches!(plain.payload, Payload::Owned(_)));
}

#[test]
fn payload_bytes_of_either_kind() {
    let borrowed = Payload::Borrowed(&[1, 2]);
    assert_eq!(borrowed.bytes(), &[1, 2]);
    let owned = Payload::Owned(vec![3]);
    assert_eq!(owned.bytes(), &[3]);
}

#[test]
fn cloned_message_encodes_alike() {
    let m = message(ContentType::Handshake, ProtocolVersion::TLSv1_2, &[1, 2]);
    let copy = m.clone();
    assert_eq!(copy.encode(), m.encode());
}
