//! An `Ack` packet is a receipt for a successfully transmitted block.

use vstd::prelude::*;

use crate::bytes::{lemma_u16_round_trip, FromBytes, IntoBytes};
use crate::failure::ErrorKind;
use crate::packet::opcode::Opcode;
use crate::packet::sealed::Packet;
use crate::packet::Block;

verus! {

/// An acknowledgement that a `Data` packet has been received successfully.
#[derive(Clone, Copy, Debug, PartialEq, Eq, Structural)]
pub struct Ack {
    /// The number of the block that is being acknowledged.
    block: Block,
}

impl View for Ack {
    type V = Block;

    closed spec fn view(&self) -> Block {
        self.block
    }
}

impl Ack {
    /// Creates a new `Ack` packet.
    pub fn new(block: Block) -> (ack: Self)
        ensures
            ack@ == block,
    {
        Self { block }
    }

    /// Returns the number of the block that is being acknowledged.
    pub fn block(&self) -> (block: Block)
        ensures
            block == self@,
    {
        self.block
    }
}

impl FromBytes for Ack {
    open spec fn decoding(bytes: Seq<u8>) -> Option<Block> {
        Block::decoding(bytes)
    }

    fn from_bytes(bytes: &[u8]) -> (r: Result<Self, ErrorKind>) {
        match Block::from_bytes(bytes) {
            Ok(block) => Ok(Self { block }),
            Err(kind) => Err(kind),
        }
    }
}

impl IntoBytes for Ack {
    open spec fn encodable(value: Block) -> bool {
        true
    }

    open spec fn encoding(value: Block) -> Seq<u8> {
        Block::encoding(value)
    }

    fn into_bytes(self) -> (bytes: Vec<u8>) {
        self.block.into_bytes()
    }
}

impl Packet for Ack {
    open spec fn opcode() -> Opcode {
        Opcode::Ack
    }

    fn header() -> (op: Opcode) {
        Opcode::Ack
    }

    proof fn lemma_round_trip(value: Block) {
        lemma_u16_round_trip(value.0);
    }
}

} // verus!
