//! A Write Request indicates the peer wants to transmit a file.

use vstd::prelude::*;

use crate::bytes::{FromBytes, IntoBytes};
use crate::failure::ErrorKind;
use crate::packet::mode::Mode;
use crate::packet::opcode::Opcode;
use crate::packet::rq::{lemma_rq_round_trip, Rq, RqView};
use crate::packet::sealed::Packet;

verus! {

/// A write request.
#[derive(Debug, PartialEq, Eq)]
pub struct Wrq(Rq);

impl View for Wrq {
    type V = RqView;

    closed spec fn view(&self) -> RqView {
        self.0@
    }
}

impl Wrq {
    /// Creates a new `Wrq`.
    pub fn new(filename: &str, mode: Mode) -> (request: Self)
        ensures
            request@ == (RqView { filename: filename@, mode }),
    {
        let filename = filename.to_owned();
        Self(Rq { filename, mode })
    }

    /// Returns a reference to the inner request.
    pub fn request(&self) -> (request: &Rq)
        ensures
            request@ == self@,
    {
        &self.0
    }
}

impl FromBytes for Wrq {
    open spec fn decoding(bytes: Seq<u8>) -> Option<RqView> {
        Rq::decoding(bytes)
    }

    fn from_bytes(bytes: &[u8]) -> (r: Result<Self, ErrorKind>) {
        match Rq::from_bytes(bytes) {
            Ok(rq) => Ok(Self(rq)),
            Err(kind) => Err(kind),
        }
    }
}

impl IntoBytes for Wrq {
    open spec fn encodable(value: RqView) -> bool {
        Rq::encodable(value)
    }

    open spec fn encoding(value: RqView) -> Seq<u8> {
        Rq::encoding(value)
    }

    fn into_bytes(self) -> (bytes: Vec<u8>) {
        self.0.into_bytes()
    }
}

impl Packet for Wrq {
    open spec fn opcode() -> Opcode {
        Opcode::Wrq
    }

    fn header() -> (op: Opcode) {
        Opcode::Wrq
    }

    proof fn lemma_round_trip(value: RqView) {
        lemma_rq_round_trip(value);
    }
}

} // verus!
