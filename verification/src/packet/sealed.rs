//! What the five packet bodies have in common.

use vstd::prelude::*;

use crate::bytes::{FromBytes, IntoBytes};
use crate::packet::opcode::Opcode;

verus! {

/// The body of a packet: it knows the opcode that announces it, and it has
/// a wire form from which it can be read back.
pub trait Packet: FromBytes + IntoBytes {
    /// The opcode that announces a body of this type.
    spec fn opcode() -> Opcode;

    /// The opcode that announces a body of this type.
    fn header() -> (op: Opcode)
        ensures
            op == Self::opcode(),
    ;

    /// A body that has a wire form is read back from it unchanged.
    proof fn lemma_round_trip(value: Self::V)
        requires
            Self::encodable(value),
        ensures
            Self::decoding(Self::encoding(value)) == Some(value),
    ;
}

} // verus!
