//! The data packet: one block of the file that is transferred.

use vstd::prelude::*;
use vstd::slice::{slice_subrange, slice_to_vec};

use crate::bytes::{lemma_u16_round_trip, FromBytes, IntoBytes};
use crate::failure::ErrorKind;
use crate::packet::opcode::Opcode;
use crate::packet::sealed::Packet;
use crate::packet::{Block, MAX_PAYLOAD_SIZE};

verus! {

/// The body of a data packet: a block number and up to 512 bytes of the
/// file. A payload of fewer than 512 bytes marks the last block.
#[derive(Debug, PartialEq, Eq)]
pub struct Data {
    /// The number of this block.
    pub block: Block,
    /// The bytes of the file that this block carries.
    pub data: Vec<u8>,
}

/// The mathematical value of a [`Data`].
pub ghost struct DataView {
    pub block: Block,
    pub data: Seq<u8>,
}

impl DataView {
    /// True when this block ends the transfer.
    pub open spec fn is_last(self) -> bool {
        self.data.len() < MAX_PAYLOAD_SIZE
    }
}

impl View for Data {
    type V = DataView;

    open spec fn view(&self) -> DataView {
        DataView { block: self.block, data: self.data@ }
    }
}

impl Data {
    /// Creates a new `Data` that carries a copy of `data`.
    pub fn new(block: Block, data: &[u8]) -> (body: Self)
        ensures
            body@ == (DataView { block, data: data@ }),
    {
        Self { block, data: slice_to_vec(data) }
    }
}

impl FromBytes for Data {
    open spec fn decoding(bytes: Seq<u8>) -> Option<DataView> {
        if 2 <= bytes.len() <= 2 + MAX_PAYLOAD_SIZE {
            match Block::decoding(bytes.subrange(0, 2)) {
                Some(block) => Some(
                    DataView { block, data: bytes.subrange(2, bytes.len() as int) },
                ),
                None => None,
            }
        } else {
            None
        }
    }

    fn from_bytes(bytes: &[u8]) -> (r: Result<Self, ErrorKind>) {
        let len = bytes.len();
        if len < 2 || len > 2 + MAX_PAYLOAD_SIZE {
            return Err(ErrorKind::InvalidInput);
        }
        match Block::from_bytes(slice_subrange(bytes, 0, 2)) {
            Ok(block) => Ok(Self { block, data: slice_to_vec(slice_subrange(bytes, 2, len)) }),
            Err(kind) => Err(kind),
        }
    }
}

impl IntoBytes for Data {
    open spec fn encodable(value: DataView) -> bool {
        value.data.len() <= MAX_PAYLOAD_SIZE
    }

    open spec fn encoding(value: DataView) -> Seq<u8> {
        Block::encoding(value.block) + value.data
    }

    fn into_bytes(self) -> (bytes: Vec<u8>) {
        let mut bytes = self.block.into_bytes();
        let mut data = self.data;
        bytes.append(&mut data);
        bytes
    }
}

impl Packet for Data {
    open spec fn opcode() -> Opcode {
        Opcode::Data
    }

    fn header() -> (op: Opcode) {
        Opcode::Data
    }

    proof fn lemma_round_trip(value: DataView) {
        let head = Block::encoding(value.block);
        let bytes = head + value.data;
        lemma_u16_round_trip(value.block.0);
        assert(bytes.subrange(0, 2) =~= head);
        assert(bytes.subrange(2, bytes.len() as int) =~= value.data);
    }
}

} // verus!
