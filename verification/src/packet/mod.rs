//! Parsing and creating TFTP packets.

use vstd::prelude::*;
use vstd::slice::slice_subrange;

use crate::bytes::{Bytes, FromBytes, IntoBytes};
use crate::failure::{ErrorKind, Failure};
use crate::packet::data::DataView;
use crate::packet::error::ErrorView;
use crate::packet::rq::RqView;

pub mod ack;
pub mod data;
pub mod error;
pub mod expect;
pub mod mode;
pub mod opcode;
pub mod rq;
pub(crate) mod sealed;

pub use ack::Ack;
pub use data::Data;
pub use error::{Code, Error};
pub use mode::Mode;
pub use opcode::Opcode;
pub use rq::{Rq, Rrq, Wrq};

verus! {

/// The maximum number of bytes carried in a `Data` packet.
pub const MAX_PAYLOAD_SIZE: usize = 512;

/// The largest TFTP packet: a full payload behind a 2-byte opcode and a
/// 2-byte block number.
pub const MAX_PACKET_SIZE: usize = 516;

/// An identifier for a `Data` block and its corresponding `Ack` packet.
#[derive(Clone, Copy, Debug, PartialEq, Eq, PartialOrd, Ord, Structural)]
pub struct Block(pub u16);

impl View for Block {
    type V = Block;

    open spec fn view(&self) -> Block {
        *self
    }
}

impl Block {
    /// Creates a new `Block`.
    pub fn new(val: u16) -> (block: Self)
        ensures
            block == Block(val),
    {
        Self(val)
    }

    /// The block that follows this one; after the last number comes 0.
    pub open spec fn successor(self) -> Block {
        Block(if self.0 == u16::MAX { 0 } else { (self.0 + 1) as u16 })
    }

    /// The block that follows this one; after the last number comes 0.
    pub fn next(self) -> (block: Self)
        ensures
            block == self.successor(),
    {
        Self(self.0.wrapping_add(1))
    }
}

impl FromBytes for Block {
    open spec fn decoding(bytes: Seq<u8>) -> Option<Block> {
        match Bytes::<u16>::decoding(bytes) {
            Some(val) => Some(Block(val)),
            None => None,
        }
    }

    fn from_bytes(bytes: &[u8]) -> (r: Result<Self, ErrorKind>) {
        match Bytes::<u16>::from_bytes(bytes) {
            Ok(val) => Ok(Self(val.into_inner())),
            Err(kind) => Err(kind),
        }
    }
}

impl IntoBytes for Block {
    open spec fn encodable(value: Block) -> bool {
        true
    }

    open spec fn encoding(value: Block) -> Seq<u8> {
        Bytes::<u16>::encoding(value.0)
    }

    fn into_bytes(self) -> (bytes: Vec<u8>) {
        Bytes::new(self.0).into_bytes()
    }
}

/// A TFTP packet: a body behind the opcode that announces it.
#[derive(Debug, PartialEq, Eq)]
pub struct Packet<T: sealed::Packet> {
    /// Describes the packet.
    header: Opcode,
    /// Contains the packet payload.
    body: T,
}

impl<T: sealed::Packet> View for Packet<T> {
    type V = T::V;

    closed spec fn view(&self) -> T::V {
        self.body@
    }
}

impl<T: sealed::Packet> Packet<T> {
    /// The header of a packet is the opcode of its body's type.
    #[verifier::type_invariant]
    spec fn well_formed(&self) -> bool {
        self.header == T::opcode()
    }

    /// Puts `body` behind its opcode.
    pub fn new(body: T) -> (packet: Self)
        ensures
            packet@ == body@,
    {
        Self { header: T::header(), body }
    }

    /// Returns the opcode for the packet.
    pub fn header(&self) -> (op: Opcode)
        ensures
            op == T::opcode(),
    {
        proof {
            use_type_invariant(self);
        }
        self.header
    }

    /// Returns a reference to the packet's payload.
    pub fn body(&self) -> (body: &T)
        ensures
            body@ == self@,
    {
        &self.body
    }

    /// Takes the packet's payload out of it.
    pub fn into_body(self) -> (body: T)
        ensures
            body@ == self@,
    {
        self.body
    }
}

impl Packet<Rrq> {
    /// Creates a new read request packet.
    pub fn rrq(filename: &str, mode: Mode) -> (packet: Self)
        ensures
            packet@ == (RqView { filename: filename@, mode }),
    {
        Self::new(Rrq::new(filename, mode))
    }
}

impl Packet<Wrq> {
    /// Creates a new write request packet.
    pub fn wrq(filename: &str, mode: Mode) -> (packet: Self)
        ensures
            packet@ == (RqView { filename: filename@, mode }),
    {
        Self::new(Wrq::new(filename, mode))
    }
}

impl Packet<Data> {
    /// Creates a new data packet that carries a copy of `data`.
    pub fn data(block: Block, data: &[u8]) -> (packet: Self)
        ensures
            packet@ == (DataView { block, data: data@ }),
    {
        Self::new(Data::new(block, data))
    }
}

impl Packet<Ack> {
    /// Creates a new ack packet.
    pub fn ack(block: Block) -> (packet: Self)
        ensures
            packet@ == block,
    {
        Self::new(Ack::new(block))
    }
}

impl Packet<Error> {
    /// Creates a new error packet.
    pub fn error(code: Code, message: &str) -> (packet: Self)
        ensures
            packet@ == (ErrorView { code, message: message@ }),
    {
        Self::new(Error::new(code, message))
    }

    /// The error packet that tells a peer of a failure of the given kind:
    /// it carries the code for that kind and, as its message, what the code
    /// means in words.
    pub fn from_kind(kind: ErrorKind) -> (packet: Self)
        ensures
            packet@ == (ErrorView {
                code: Code::of_kind(kind),
                message: Code::of_kind(kind).description(),
            }),
            Self::encodable(packet@),
    {
        let code = Code::from(kind);
        proof {
            code.lemma_description_has_no_nul();
        }
        Self::error(code, code.as_str())
    }

    /// Turns a received error packet into the failure that the caller sees:
    /// the kind follows from the code, the text is the packet's message.
    pub fn into_failure(self) -> (failure: Failure)
        ensures
            failure@ == self@.failure(),
    {
        self.body.into_failure()
    }
}

impl<T: sealed::Packet> FromBytes for Packet<T> {
    open spec fn decoding(bytes: Seq<u8>) -> Option<T::V> {
        if bytes.len() >= 2 && Opcode::decoding(bytes.subrange(0, 2)) == Some(T::opcode()) {
            T::decoding(bytes.subrange(2, bytes.len() as int))
        } else {
            None
        }
    }

    fn from_bytes(bytes: &[u8]) -> (r: Result<Self, ErrorKind>) {
        let len = bytes.len();
        if len < 2 {
            return Err(ErrorKind::InvalidInput);
        }
        let opcode = match Opcode::from_bytes(slice_subrange(bytes, 0, 2)) {
            Ok(opcode) => opcode,
            Err(kind) => {
                return Err(kind);
            },
        };
        if opcode != T::header() {
            return Err(ErrorKind::InvalidInput);
        }
        match T::from_bytes(slice_subrange(bytes, 2, len)) {
            Ok(body) => Ok(Self { header: opcode, body }),
            Err(kind) => Err(kind),
        }
    }
}

impl<T: sealed::Packet> IntoBytes for Packet<T> {
    open spec fn encodable(value: T::V) -> bool {
        T::encodable(value)
    }

    open spec fn encoding(value: T::V) -> Seq<u8> {
        Opcode::encoding(T::opcode()) + T::encoding(value)
    }

    fn into_bytes(self) -> (bytes: Vec<u8>) {
        proof {
            use_type_invariant(&self);
        }
        let mut body = self.body.into_bytes();
        let mut bytes = self.header.into_bytes();
        bytes.append(&mut body);
        bytes
    }
}

/// Every packet that has a wire form is read back from it unchanged.
pub proof fn lemma_packet_round_trip<T: sealed::Packet>(value: T::V)
    requires
        Packet::<T>::encodable(value),
    ensures
        Packet::<T>::decoding(Packet::<T>::encoding(value)) == Some(value),
{
    let head = Opcode::encoding(T::opcode());
    let body = T::encoding(value);
    let bytes = head + body;
    opcode::lemma_opcode_round_trip(T::opcode());
    assert(bytes.subrange(0, 2) =~= head);
    assert(bytes.subrange(2, bytes.len() as int) =~= body);
    T::lemma_round_trip(value);
}

/// Every packet begins with the two bytes of its opcode: a zero and the
/// opcode's number.
pub proof fn lemma_packet_begins_with_opcode<T: sealed::Packet>(value: T::V)
    ensures
        Packet::<T>::encoding(value).len() == 2 + T::encoding(value).len(),
        Packet::<T>::encoding(value)[0] == 0,
        Packet::<T>::encoding(value)[1] == T::opcode().value(),
        Packet::<T>::encoding(value).skip(2) == T::encoding(value),
{
    opcode::lemma_opcode_round_trip(T::opcode());
    assert(Packet::<T>::encoding(value).skip(2) =~= T::encoding(value));
}

/// A packet of one type is never read as a packet of another type.
pub proof fn lemma_packet_types_are_apart<T: sealed::Packet, U: sealed::Packet>(value: T::V)
    requires
        T::opcode() != U::opcode(),
    ensures
        Packet::<U>::decoding(Packet::<T>::encoding(value)) is None,
{
    let head = Opcode::encoding(T::opcode());
    let bytes = head + T::encoding(value);
    opcode::lemma_opcode_round_trip(T::opcode());
    assert(bytes.subrange(0, 2) =~= head);
}

/// A data packet with a payload of at most 512 bytes takes four bytes more
/// than its payload on the wire, and begins with the bytes 0 and 3.
pub proof fn lemma_data_packet_shape(block: Block, payload: Seq<u8>)
    requires
        payload.len() <= MAX_PAYLOAD_SIZE,
    ensures
        Packet::<Data>::encodable(DataView { block, data: payload }),
        Packet::<Data>::encoding(DataView { block, data: payload }).len() == 4 + payload.len(),
        Packet::<Data>::encoding(DataView { block, data: payload })[0] == 0,
        Packet::<Data>::encoding(DataView { block, data: payload })[1] == 3,
        Packet::<Data>::encoding(DataView { block, data: payload }).skip(4) == payload,
{
    let bytes = Packet::<Data>::encoding(DataView { block, data: payload });
    opcode::lemma_opcode_round_trip(Opcode::Data);
    assert(bytes.skip(4) =~= payload);
}

/// An ack packet is four bytes: 0, 4, and the block number, most significant
/// byte first.
pub proof fn lemma_ack_packet_shape(block: Block)
    ensures
        Packet::<Ack>::encoding(block) == seq![
            0u8,
            4u8,
            (block.0 / 256) as u8,
            (block.0 % 256) as u8,
        ],
{
    opcode::lemma_opcode_round_trip(Opcode::Ack);
    assert(Packet::<Ack>::encoding(block) =~= seq![
        0u8,
        4u8,
        (block.0 / 256) as u8,
        (block.0 % 256) as u8,
    ]);
}

} // verus!
