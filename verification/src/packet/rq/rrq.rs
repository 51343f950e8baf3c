//! A Read Request indicates that a peer wants to receive a file.

use vstd::prelude::*;

use crate::bytes::{FromBytes, IntoBytes};
use crate::failure::ErrorKind;
use crate::packet::mode::Mode;
use crate::packet::opcode::Opcode;
use crate::packet::rq::{lemma_rq_round_trip, Rq, RqView};
use crate::packet::sealed::Packet;

verus! {

/// A read request.
#[derive(Debug, PartialEq, Eq)]
pub struct Rrq(Rq);

impl View for Rrq {
    type V = RqView;

    closed spec fn view(&self) -> RqView {
        self.0@
    }
}

impl Rrq {
    /// Creates a new `Rrq`.
    pub fn new(filename: &str, mode: Mode) -> (request: Self)
        ensures
            request@ == (RqView { filename: filename@, mode }),
    {
        let filename = filename.to_owned();
        Self(Rq { filename, mode })
    }

    /// Returns a reference to the inner request.
    pub fn request(&self) -> (request: &Rq)
        ensures
            request@ == self@,
    {
        &self.0
    }
}

impl FromBytes for Rrq {
    open spec fn decoding(bytes: Seq<u8>) -> Option<RqView> {
        Rq::decoding(bytes)
    }

    fn from_bytes(bytes: &[u8]) -> (r: Result<Self, ErrorKind>) {
        match Rq::from_bytes(bytes) {
            Ok(rq) => Ok(Self(rq)),
            Err(kind) => Err(kind),
        }
    }
}

impl IntoBytes for Rrq {
    open spec fn encodable(value: RqView) -> bool {
        Rq::encodable(value)
    }

    open spec fn encoding(value: RqView) -> Seq<u8> {
        Rq::encoding(value)
    }

    fn into_bytes(self) -> (bytes: Vec<u8>) {
        self.0.into_bytes()
    }
}

impl Packet for Rrq {
    open spec fn opcode() -> Opcode {
        Opcode::Rrq
    }

    fn header() -> (op: Opcode) {
        Opcode::Rrq
    }

    proof fn lemma_round_trip(value: RqView) {
        lemma_rq_round_trip(value);
    }
}

} // verus!
