//! A cursor over a borrowed byte buffer, and the values that can be read
//! from it and written to a byte vector.

use vstd::prelude::*;
use vstd::slice::slice_subrange;

use crate::error::InvalidMessage;

verus! {

/// A read cursor over a byte buffer that is already in memory.
///
/// The cursor only ever moves forward, and never past the end of the buffer.
pub struct Reader<'a> {
    buffer: &'a [u8],
    cursor: usize,
}

impl<'a> Reader<'a> {
    /// The cursor is never past the end of the buffer.
    #[verifier::type_invariant]
    pub open spec fn within_buffer(self) -> bool {
        self.spec_used() <= self.buffer().len()
    }

    /// Every byte of the underlying buffer, read or not.
    pub closed spec fn buffer(&self) -> Seq<u8> {
        self.buffer@
    }

    /// How many bytes have been consumed so far.
    pub closed spec fn spec_used(&self) -> usize {
        self.cursor
    }

    /// The bytes that have not been consumed yet.
    pub open spec fn remaining(&self) -> Seq<u8> {
        self.buffer().skip(self.used() as int)
    }

    /// Starts reading at the first byte of `bytes`.
    pub fn init(bytes: &'a [u8]) -> (r: Self)
        ensures
            r.buffer() == bytes@,
            r.used() == 0,
    {
        Reader { buffer: bytes, cursor: 0 }
    }

    /// Number of bytes consumed so far.
    #[verifier::when_used_as_spec(spec_used)]
    pub fn used(&self) -> (n: usize)
        ensures
            n == self.spec_used(),
            n <= self.buffer().len(),
    {
        proof {
            use_type_invariant(self);
        }
        self.cursor
    }

    /// Number of bytes still to be read.
    pub fn left(&self) -> (n: usize)
        ensures
            n == self.remaining().len(),
            n == self.buffer().len() - self.used(),
    {
        proof {
            use_type_invariant(self);
        }
        self.buffer.len() - self.cursor
    }

    /// Whether any byte is still to be read.
    pub fn any_left(&self) -> (b: bool)
        ensures
            b <==> self.remaining().len() > 0,
    {
        proof {
            use_type_invariant(self);
        }
        self.cursor < self.buffer.len()
    }

    /// Consumes the next `length` bytes and hands them out, or leaves the
    /// cursor where it is when fewer than `length` bytes remain.
    pub fn take(&mut self, length: usize) -> (taken: Option<&'a [u8]>)
        ensures
            final(self).buffer() == old(self).buffer(),
            match taken {
                Some(bytes) => {
                    &&& length <= old(self).remaining().len()
                    &&& bytes@ == old(self).remaining().take(length as int)
                    &&& final(self).used() == old(self).used() + length
                },
                None => {
                    &&& length > old(self).remaining().len()
                    &&& final(self).used() == old(self).used()
                },
            },
    {
        proof {
            use_type_invariant(&*self);
        }
        if self.buffer.len() - self.cursor < length {
            return None;
        }
        let current: usize = self.cursor;
        self.cursor = current + length;
        let bytes = slice_subrange(self.buffer, current, current + length);
        Some(bytes)
    }
}

/// A value with a fixed-width encoding on the wire.
pub trait Codec: Sized {
    /// Number of bytes that a value takes on the wire.
    spec fn spec_width() -> nat;

    /// The name under which missing input is reported.
    spec fn spec_label() -> Seq<char>;

    /// The value that `bytes` stand for, where `bytes` has the encoding's
    /// width.
    spec fn spec_decode(bytes: Seq<u8>) -> Self;

    /// The bytes that stand for this value.
    spec fn spec_encode(&self) -> Seq<u8>;

    /// Every value is written in as many bytes as the encoding is wide.
    proof fn lemma_encode_len(&self)
        ensures
            self.spec_encode().len() == Self::spec_width(),
    ;

    /// Decoding never loses anything: the decoded value is written back as
    /// the very bytes it was read from.
    proof fn lemma_decode_encode(bytes: Seq<u8>)
        requires
            bytes.len() == Self::spec_width(),
        ensures
            Self::spec_decode(bytes).spec_encode() == bytes,
    ;

    /// Appends the encoding of this value to `bytes`.
    fn encode(&self, bytes: &mut Vec<u8>)
        ensures
            final(bytes)@ == old(bytes)@ + self.spec_encode(),
    ;

    /// Decodes a value from the next bytes of `r` and moves past them.
    /// When too few bytes remain, nothing is consumed and the missing
    /// field is reported by name.
    fn read(r: &mut Reader<'_>) -> (res: Result<Self, InvalidMessage>)
        ensures
            final(r).buffer() == old(r).buffer(),
            match res {
                Ok(v) => {
                    &&& Self::spec_width() <= old(r).remaining().len()
                    &&& v == Self::spec_decode(old(r).remaining().take(Self::spec_width() as int))
                    &&& final(r).used() == old(r).used() + Self::spec_width()
                },
                Err(e) => {
                    &&& Self::spec_width() > old(r).remaining().len()
                    &&& final(r).used() == old(r).used()
                    &&& e matches InvalidMessage::MissingData(name)
                    &&& name@ == Self::spec_label()
                },
            },
    ;
}

/// The big-endian bytes of a 16-bit value.
pub open spec fn spec_u16_to_be_bytes(x: u16) -> Seq<u8> {
    seq![(x / 256) as u8, (x % 256) as u8]
}

/// The 16-bit value that two big-endian bytes stand for.
pub open spec fn spec_u16_from_be_bytes(bytes: Seq<u8>) -> u16 {
    (bytes[0] * 256 + bytes[1]) as u16
}

/// Writing a 16-bit value and reading it back gives the same value.
pub proof fn lemma_u16_round_trip(x: u16)
    ensures
        spec_u16_to_be_bytes(x).len() == 2,
        spec_u16_from_be_bytes(spec_u16_to_be_bytes(x)) == x,
{
}

impl Codec for u8 {
    open spec fn spec_width() -> nat {
        1
    }

    open spec fn spec_label() -> Seq<char> {
        "u8"@
    }

    open spec fn spec_decode(bytes: Seq<u8>) -> Self {
        bytes[0]
    }

    open spec fn spec_encode(&self) -> Seq<u8> {
        seq![*self]
    }

    proof fn lemma_encode_len(&self) {
    }

    proof fn lemma_decode_encode(bytes: Seq<u8>) {
        assert(seq![bytes[0]] =~= bytes);
    }

    fn encode(&self, bytes: &mut Vec<u8>) {
        bytes.push(*self);
        assert(bytes@ =~= old(bytes)@ + seq![*self]);
    }

    fn read(r: &mut Reader<'_>) -> (res: Result<Self, InvalidMessage>) {
        match r.take(1) {
            Some(bytes) => Ok(bytes[0]),
            None => Err(InvalidMessage::MissingData("u8")),
        }
    }
}

impl Codec for u16 {
    open spec fn spec_width() -> nat {
        2
    }

    open spec fn spec_label() -> Seq<char> {
        "u16"@
    }

    open spec fn spec_decode(bytes: Seq<u8>) -> Self {
        spec_u16_from_be_bytes(bytes)
    }

    open spec fn spec_encode(&self) -> Seq<u8> {
        spec_u16_to_be_bytes(*self)
    }

    proof fn lemma_encode_len(&self) {
    }

    proof fn lemma_decode_encode(bytes: Seq<u8>) {
        let x = spec_u16_from_be_bytes(bytes);
        assert(x == bytes[0] * 256 + bytes[1]);
        assert(spec_u16_to_be_bytes(x) =~= bytes);
    }

    fn encode(&self, bytes: &mut Vec<u8>) {
        let hi: u8 = (*self / 256) as u8;
        let lo: u8 = (*self % 256) as u8;
        bytes.push(hi);
        bytes.push(lo);
        assert(bytes@ =~= old(bytes)@ + spec_u16_to_be_bytes(*self));
    }

    fn read(r: &mut Reader<'_>) -> (res: Result<Self, InvalidMessage>) {
        match r.take(2) {
            Some(bytes) => {
                let hi: u16 = bytes[0] as u16;
                let lo: u16 = bytes[1] as u16;
                Ok(hi * 256 + lo)
            },
            None => Err(InvalidMessage::MissingData("u16")),
        }
    }
}

} // verus!
