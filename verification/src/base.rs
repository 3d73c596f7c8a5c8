//! Payload bytes that are either borrowed or owned.

use vstd::prelude::*;

verus! {

/// The bytes of a decoded payload.
#[derive(Clone, Debug)]
pub enum Payload<'a> {
    Borrowed(&'a [u8]),
    Owned(Vec<u8>),
}

impl<'a> View for Payload<'a> {
    type V = Seq<u8>;

    open spec fn view(&self) -> Seq<u8> {
        match self {
            Payload::Borrowed(bytes) => bytes@,
            Payload::Owned(bytes) => bytes@,
        }
    }
}

impl<'a> Payload<'a> {
    /// The payload as a slice, however it is held.
    pub fn bytes(&self) -> (bytes: &[u8])
        ensures
            bytes@ == self@,
    {
        match self {
            Payload::Borrowed(bytes) => bytes,
            Payload::Owned(bytes) => bytes.as_slice(),
        }
    }
}

} // verus!
