//! Wire enumerations: a closed set of named values, plus one open
//! variant that carries any other integer unchanged.

use vstd::prelude::*;
use vstd::std_specs::convert::FromSpecImpl;

use crate::codec::{Codec, Reader};
use crate::error::InvalidMessage;

verus! {

/// The content type of a record.
#[non_exhaustive]
#[derive(Debug, PartialEq, Eq, Clone, Copy, Structural)]
pub enum ContentType {
    ChangeCipherSpec,
    Alert,
    Handshake,
    ApplicationData,
    Heartbeat,
    Unknown(u8),
}

impl ContentType {
    /// Whether `x` is the wire value of a named content type.
    pub open spec fn is_named_value(x: u8) -> bool {
        0x14 <= x <= 0x18
    }

    /// The content type that the wire value `x` stands for.
    pub open spec fn spec_from_u8(x: u8) -> ContentType {
        if x == 0x14 {
            ContentType::ChangeCipherSpec
        } else if x == 0x15 {
            ContentType::Alert
        } else if x == 0x16 {
            ContentType::Handshake
        } else if x == 0x17 {
            ContentType::ApplicationData
        } else if x == 0x18 {
            ContentType::Heartbeat
        } else {
            ContentType::Unknown(x)
        }
    }

    /// The wire value of this content type.
    pub open spec fn spec_get_u8(&self) -> u8 {
        match self {
            ContentType::ChangeCipherSpec => 0x14,
            ContentType::Alert => 0x15,
            ContentType::Handshake => 0x16,
            ContentType::ApplicationData => 0x17,
            ContentType::Heartbeat => 0x18,
            ContentType::Unknown(x) => *x,
        }
    }

    /// The identifier of a named content type.
    pub open spec fn spec_name(&self) -> Option<Seq<char>> {
        match self {
            ContentType::ChangeCipherSpec => Some("ChangeCipherSpec"@),
            ContentType::Alert => Some("Alert"@),
            ContentType::Handshake => Some("Handshake"@),
            ContentType::ApplicationData => Some("ApplicationData"@),
            ContentType::Heartbeat => Some("Heartbeat"@),
            ContentType::Unknown(_) => None,
        }
    }

    /// A value is canonical when it is the one that its own wire value
    /// decodes to: the open variant never hides a named value.
    pub open spec fn is_canonical(&self) -> bool {
        self matches ContentType::Unknown(x) ==> !Self::is_named_value(*x)
    }

    /// The wire value of this content type.
    #[verifier::when_used_as_spec(spec_get_u8)]
    pub fn get_u8(&self) -> (x: u8)
        ensures
            x == self.spec_get_u8(),
    {
        match self {
            ContentType::ChangeCipherSpec => 0x14,
            ContentType::Alert => 0x15,
            ContentType::Handshake => 0x16,
            ContentType::ApplicationData => 0x17,
            ContentType::Heartbeat => 0x18,
            ContentType::Unknown(x) => *x,
        }
    }

    /// The wire value as an array of its bytes, most significant first.
    pub fn get_array(&self) -> (a: [u8; 1])
        ensures
            a@ == self.spec_encode(),
    {
        [self.get_u8()]
    }

    /// The identifier of a named content type; nothing for the open variant.
    pub fn as_str(&self) -> (name: Option<&'static str>)
        ensures
            name is None <==> self is Unknown,
            match name {
                Some(s) => self.spec_name() == Some(s@),
                None => self.spec_name() is None,
            },
    {
        match self {
            ContentType::ChangeCipherSpec => Some("ChangeCipherSpec"),
            ContentType::Alert => Some("Alert"),
            ContentType::Handshake => Some("Handshake"),
            ContentType::ApplicationData => Some("ApplicationData"),
            ContentType::Heartbeat => Some("Heartbeat"),
            ContentType::Unknown(_) => None,
        }
    }
}

impl From<u8> for ContentType {
    /// Total: a value that no named content type has is kept in the open
    /// variant.
    fn from(x: u8) -> (v: Self)
        ensures
            v == ContentType::spec_from_u8(x),
            v.get_u8() == x,
            v.is_canonical(),
    {
        match x {
            0x14 => ContentType::ChangeCipherSpec,
            0x15 => ContentType::Alert,
            0x16 => ContentType::Handshake,
            0x17 => ContentType::ApplicationData,
            0x18 => ContentType::Heartbeat,
            x => ContentType::Unknown(x),
        }
    }
}

impl FromSpecImpl<u8> for ContentType {
    open spec fn obeys_from_spec() -> bool {
        true
    }

    open spec fn from_spec(x: u8) -> Self {
        ContentType::spec_from_u8(x)
    }
}

impl Codec for ContentType {
    open spec fn spec_width() -> nat {
        1
    }

    open spec fn spec_label() -> Seq<char> {
        "ContentType"@
    }

    open spec fn spec_decode(bytes: Seq<u8>) -> Self {
        ContentType::spec_from_u8(u8::spec_decode(bytes))
    }

    open spec fn spec_encode(&self) -> Seq<u8> {
        self.spec_get_u8().spec_encode()
    }

    proof fn lemma_encode_len(&self) {
    }

    proof fn lemma_decode_encode(bytes: Seq<u8>) {
        u8::lemma_decode_encode(bytes);
    }

    fn encode(&self, bytes: &mut Vec<u8>) {
        self.get_u8().encode(bytes);
    }

    fn read(r: &mut Reader<'_>) -> (res: Result<Self, InvalidMessage>) {
        match u8::read(r) {
            Ok(x) => Ok(ContentType::from(x)),
            Err(_) => Err(InvalidMessage::MissingData("ContentType")),
        }
    }
}

/// The protocol version that a record announces.
#[non_exhaustive]
#[allow(non_camel_case_types)]
#[derive(Debug, PartialEq, Eq, Clone, Copy, Structural)]
pub enum ProtocolVersion {
    SSLv2,
    SSLv3,
    TLSv1_0,
    TLSv1_1,
    TLSv1_2,
    TLSv1_3,
    DTLSv1_0,
    DTLSv1_2,
    DTLSv1_3,
    Unknown(u16),
}

impl ProtocolVersion {
    /// Whether `x` is the wire value of a named version.
    pub open spec fn is_named_value(x: u16) -> bool {
        x == 0x0002 || (0x0300 <= x <= 0x0304) || x == 0xFEFF || x == 0xFEFD || x == 0xFEFC
    }

    /// The version that the wire value `x` stands for.
    pub open spec fn spec_from_u16(x: u16) -> ProtocolVersion {
        if x == 0x0002 {
            ProtocolVersion::SSLv2
        } else if x == 0x0300 {
            ProtocolVersion::SSLv3
        } else if x == 0x0301 {
            ProtocolVersion::TLSv1_0
        } else if x == 0x0302 {
            ProtocolVersion::TLSv1_1
        } else if x == 0x0303 {
            ProtocolVersion::TLSv1_2
        } else if x == 0x0304 {
            ProtocolVersion::TLSv1_3
        } else if x == 0xFEFF {
            ProtocolVersion::DTLSv1_0
        } else if x == 0xFEFD {
            ProtocolVersion::DTLSv1_2
        } else if x == 0xFEFC {
            ProtocolVersion::DTLSv1_3
        } else {
            ProtocolVersion::Unknown(x)
        }
    }

    /// The wire value of this version.
    pub open spec fn spec_get_u16(&self) -> u16 {
        match self {
            ProtocolVersion::SSLv2 => 0x0002,
            ProtocolVersion::SSLv3 => 0x0300,
            ProtocolVersion::TLSv1_0 => 0x0301,
            ProtocolVersion::TLSv1_1 => 0x0302,
            ProtocolVersion::TLSv1_2 => 0x0303,
            ProtocolVersion::TLSv1_3 => 0x0304,
            ProtocolVersion::DTLSv1_0 => 0xFEFF,
            ProtocolVersion::DTLSv1_2 => 0xFEFD,
            ProtocolVersion::DTLSv1_3 => 0xFEFC,
            ProtocolVersion::Unknown(x) => *x,
        }
    }

    /// The identifier of a named version.
    pub open spec fn spec_name(&self) -> Option<Seq<char>> {
        match self {
            ProtocolVersion::SSLv2 => Some("SSLv2"@),
            ProtocolVersion::SSLv3 => Some("SSLv3"@),
            ProtocolVersion::TLSv1_0 => Some("TLSv1_0"@),
            ProtocolVersion::TLSv1_1 => Some("TLSv1_1"@),
            ProtocolVersion::TLSv1_2 => Some("TLSv1_2"@),
            ProtocolVersion::TLSv1_3 => Some("TLSv1_3"@),
            ProtocolVersion::DTLSv1_0 => Some("DTLSv1_0"@),
            ProtocolVersion::DTLSv1_2 => Some("DTLSv1_2"@),
            ProtocolVersion::DTLSv1_3 => Some("DTLSv1_3"@),
            ProtocolVersion::Unknown(_) => None,
        }
    }

    /// A value is canonical when it is the one that its own wire value
    /// decodes to: the open variant never hides a named value.
    pub open spec fn is_canonical(&self) -> bool {
        self matches ProtocolVersion::Unknown(x) ==> !Self::is_named_value(*x)
    }

    /// The wire value of this version.
    #[verifier::when_used_as_spec(spec_get_u16)]
    pub fn get_u16(&self) -> (x: u16)
        ensures
            x == self.spec_get_u16(),
    {
        match self {
            ProtocolVersion::SSLv2 => 0x0002,
            ProtocolVersion::SSLv3 => 0x0300,
            ProtocolVersion::TLSv1_0 => 0x0301,
            ProtocolVersion::TLSv1_1 => 0x0302,
            ProtocolVersion::TLSv1_2 => 0x0303,
            ProtocolVersion::TLSv1_3 => 0x0304,
            ProtocolVersion::DTLSv1_0 => 0xFEFF,
            ProtocolVersion::DTLSv1_2 => 0xFEFD,
            ProtocolVersion::DTLSv1_3 => 0xFEFC,
            ProtocolVersion::Unknown(x) => *x,
        }
    }

    /// The wire value as an array of its bytes, most significant first.
    pub fn get_array(&self) -> (a: [u8; 2])
        ensures
            a@ == self.spec_encode(),
    {
        let x: u16 = self.get_u16();
        let a: [u8; 2] = [(x / 256) as u8, (x % 256) as u8];
        assert(a@ =~= self.spec_encode());
        a
    }

    /// The identifier of a named version; nothing for the open variant.
    pub fn as_str(&self) -> (name: Option<&'static str>)
        ensures
            name is None <==> self is Unknown,
            match name {
                Some(s) => self.spec_name() == Some(s@),
                None => self.spec_name() is None,
            },
    {
        match self {
            ProtocolVersion::SSLv2 => Some("SSLv2"),
            ProtocolVersion::SSLv3 => Some("SSLv3"),
            ProtocolVersion::TLSv1_0 => Some("TLSv1_0"),
            ProtocolVersion::TLSv1_1 => Some("TLSv1_1"),
            ProtocolVersion::TLSv1_2 => Some("TLSv1_2"),
            ProtocolVersion::TLSv1_3 => Some("TLSv1_3"),
            ProtocolVersion::DTLSv1_0 => Some("DTLSv1_0"),
            ProtocolVersion::DTLSv1_2 => Some("DTLSv1_2"),
            ProtocolVersion::DTLSv1_3 => Some("DTLSv1_3"),
            ProtocolVersion::Unknown(_) => None,
        }
    }
}

impl From<u16> for ProtocolVersion {
    /// Total: a value that no named version has is kept in the open variant.
    fn from(x: u16) -> (v: Self)
        ensures
            v == ProtocolVersion::spec_from_u16(x),
            v.get_u16() == x,
            v.is_canonical(),
    {
        match x {
            0x0002 => ProtocolVersion::SSLv2,
            0x0300 => ProtocolVersion::SSLv3,
            0x0301 => ProtocolVersion::TLSv1_0,
            0x0302 => ProtocolVersion::TLSv1_1,
            0x0303 => ProtocolVersion::TLSv1_2,
            0x0304 => ProtocolVersion::TLSv1_3,
            0xFEFF => ProtocolVersion::DTLSv1_0,
            0xFEFD => ProtocolVersion::DTLSv1_2,
            0xFEFC => ProtocolVersion::DTLSv1_3,
            x => ProtocolVersion::Unknown(x),
        }
    }
}

impl FromSpecImpl<u16> for ProtocolVersion {
    open spec fn obeys_from_spec() -> bool {
        true
    }

    open spec fn from_spec(x: u16) -> Self {
        ProtocolVersion::spec_from_u16(x)
    }
}

impl Codec for ProtocolVersion {
    open spec fn spec_width() -> nat {
        2
    }

    open spec fn spec_label() -> Seq<char> {
        "ProtocolVersion"@
    }

    open spec fn spec_decode(bytes: Seq<u8>) -> Self {
        ProtocolVersion::spec_from_u16(u16::spec_decode(bytes))
    }

    open spec fn spec_encode(&self) -> Seq<u8> {
        self.spec_get_u16().spec_encode()
    }

    proof fn lemma_encode_len(&self) {
    }

    proof fn lemma_decode_encode(bytes: Seq<u8>) {
        u16::lemma_decode_encode(bytes);
    }

    fn encode(&self, bytes: &mut Vec<u8>) {
        self.get_u16().encode(bytes);
    }

    fn read(r: &mut Reader<'_>) -> (res: Result<Self, InvalidMessage>) {
        match u16::read(r) {
            Ok(x) => Ok(ProtocolVersion::from(x)),
            Err(_) => Err(InvalidMessage::MissingData("ProtocolVersion")),
        }
    }
}

/// Reading a wire value and writing it back gives the same value, for
/// every value of the backing width.
pub proof fn lemma_content_type_value_round_trip(x: u8)
    ensures
        ContentType::spec_from_u8(x).spec_get_u8() == x,
{
}

/// Reading a wire value and writing it back gives the same value, for
/// every value of the backing width.
pub proof fn lemma_protocol_version_value_round_trip(x: u16)
    ensures
        ProtocolVersion::spec_from_u16(x).spec_get_u16() == x,
{
}

/// A wire value that no named content type has is decoded all the same,
/// into the open variant, which carries it unchanged.
pub proof fn lemma_content_type_unnamed_value_kept(x: u8)
    ensures
        !ContentType::is_named_value(x) <==> ContentType::spec_from_u8(x) == ContentType::Unknown(x),
        ContentType::is_named_value(x) <==> ContentType::spec_from_u8(x) !is Unknown,
        ContentType::spec_from_u8(x).is_canonical(),
{
}

/// A wire value that no named version has is decoded all the same, into
/// the open variant, which carries it unchanged.
pub proof fn lemma_protocol_version_unnamed_value_kept(x: u16)
    ensures
        !ProtocolVersion::is_named_value(x) <==> ProtocolVersion::spec_from_u16(x)
            == ProtocolVersion::Unknown(x),
        ProtocolVersion::is_named_value(x) <==> ProtocolVersion::spec_from_u16(x) !is Unknown,
        ProtocolVersion::spec_from_u16(x).is_canonical(),
{
}

/// A canonical value is the one that its own wire value decodes to.
pub proof fn lemma_canonical_round_trip(typ: ContentType, version: ProtocolVersion)
    ensures
        typ.is_canonical() <==> ContentType::spec_from_u8(typ.spec_get_u8()) == typ,
        version.is_canonical() <==> ProtocolVersion::spec_from_u16(version.spec_get_u16())
            == version,
{
}

} // verus!
