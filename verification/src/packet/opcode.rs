//! The opcodes defined by RFC 1350.

use vstd::prelude::*;
use vstd::std_specs::convert::{FromSpecImpl, TryFromSpecImpl};

use crate::bytes::{Bytes, FromBytes, IntoBytes};
use crate::failure::ErrorKind;

verus! {

/// An integer identifier for the type of TFTP packet.
#[derive(Clone, Copy, Debug, PartialEq, Eq, Structural)]
pub enum Opcode {
    /// Read request.
    Rrq,
    /// Write request.
    Wrq,
    /// Data.
    Data,
    /// Acknowledges successful receipt of a `Data` packet.
    Ack,
    /// A courtesy packet to indicate the peer has experienced an error
    /// and will not complete the transmission.
    Error,
}

impl View for Opcode {
    type V = Opcode;

    open spec fn view(&self) -> Opcode {
        *self
    }
}

impl Opcode {
    /// The number that stands for this opcode on the wire.
    pub open spec fn value(self) -> u16 {
        match self {
            Opcode::Rrq => 1,
            Opcode::Wrq => 2,
            Opcode::Data => 3,
            Opcode::Ack => 4,
            Opcode::Error => 5,
        }
    }

    /// The opcode that `val` stands for, if it stands for one.
    pub open spec fn of_value(val: u16) -> Option<Opcode> {
        if val == 1 {
            Some(Opcode::Rrq)
        } else if val == 2 {
            Some(Opcode::Wrq)
        } else if val == 3 {
            Some(Opcode::Data)
        } else if val == 4 {
            Some(Opcode::Ack)
        } else if val == 5 {
            Some(Opcode::Error)
        } else {
            None
        }
    }

    /// The name by which the protocol knows this opcode.
    pub open spec fn name(self) -> Seq<char> {
        match self {
            Opcode::Rrq => "RRQ"@,
            Opcode::Wrq => "WRQ"@,
            Opcode::Data => "DATA"@,
            Opcode::Ack => "ACK"@,
            Opcode::Error => "ERROR"@,
        }
    }

    /// Tries to produce an `Opcode` from a `u16`: the numbers 1 to 5 stand
    /// for one, no other does.
    pub fn from_u16(val: u16) -> (r: Result<Self, ErrorKind>)
        ensures
            match r {
                Ok(op) => Opcode::of_value(val) == Some(op) && op.value() == val,
                Err(kind) => kind == ErrorKind::InvalidInput && Opcode::of_value(val) is None,
            },
            r is Ok <==> 1 <= val <= 5,
    {
        match val {
            1 => Ok(Opcode::Rrq),
            2 => Ok(Opcode::Wrq),
            3 => Ok(Opcode::Data),
            4 => Ok(Opcode::Ack),
            5 => Ok(Opcode::Error),
            _ => Err(ErrorKind::InvalidInput),
        }
    }

    /// The number that stands for this opcode on the wire.
    pub fn to_u16(self) -> (val: u16)
        ensures
            val == self.value(),
            1 <= val <= 5,
    {
        match self {
            Opcode::Rrq => 1,
            Opcode::Wrq => 2,
            Opcode::Data => 3,
            Opcode::Ack => 4,
            Opcode::Error => 5,
        }
    }

    /// The name by which the protocol knows this opcode.
    pub fn as_str(self) -> (name: &'static str)
        ensures
            name@ == self.name(),
    {
        match self {
            Opcode::Rrq => "RRQ",
            Opcode::Wrq => "WRQ",
            Opcode::Data => "DATA",
            Opcode::Ack => "ACK",
            Opcode::Error => "ERROR",
        }
    }

    /// Every opcode has a number from 1 to 5, which stands for that opcode
    /// again; a number beyond these stands for none.
    pub proof fn lemma_value_round_trip(op: Opcode, val: u16)
        ensures
            Opcode::of_value(op.value()) == Some(op),
            1 <= op.value() <= 5,
            Opcode::of_value(val) is Some <==> 1 <= val <= 5,
            Opcode::of_value(val) matches Some(found) ==> found.value() == val,
    {
    }
}

impl FromSpecImpl<Opcode> for u16 {
    open spec fn obeys_from_spec() -> bool {
        true
    }

    open spec fn from_spec(op: Opcode) -> u16 {
        op.value()
    }
}

impl From<Opcode> for u16 {
    /// The number that stands for the opcode on the wire.
    fn from(op: Opcode) -> (val: u16) {
        op.to_u16()
    }
}

impl TryFromSpecImpl<u16> for Opcode {
    open spec fn obeys_try_from_spec() -> bool {
        true
    }

    open spec fn try_from_spec(val: u16) -> Result<Opcode, ErrorKind> {
        match Opcode::of_value(val) {
            Some(op) => Ok(op),
            None => Err(ErrorKind::InvalidInput),
        }
    }
}

impl TryFrom<u16> for Opcode {
    type Error = ErrorKind;

    /// The opcode that the number stands for, if it stands for one.
    fn try_from(val: u16) -> (r: Result<Opcode, ErrorKind>) {
        Opcode::from_u16(val)
    }
}

impl FromBytes for Opcode {
    open spec fn decoding(bytes: Seq<u8>) -> Option<Opcode> {
        match Bytes::<u16>::decoding(bytes) {
            Some(val) => Opcode::of_value(val),
            None => None,
        }
    }

    fn from_bytes(bytes: &[u8]) -> (r: Result<Self, ErrorKind>) {
        match Bytes::<u16>::from_bytes(bytes) {
            Ok(val) => Opcode::from_u16(val.into_inner()),
            Err(kind) => Err(kind),
        }
    }
}

impl IntoBytes for Opcode {
    open spec fn encodable(value: Opcode) -> bool {
        true
    }

    open spec fn encoding(value: Opcode) -> Seq<u8> {
        Bytes::<u16>::encoding(value.value())
    }

    fn into_bytes(self) -> (bytes: Vec<u8>) {
        Bytes::new(self.to_u16()).into_bytes()
    }
}

/// An opcode survives the way to the wire and back, on two bytes of which
/// the first is zero.
pub proof fn lemma_opcode_round_trip(op: Opcode)
    ensures
        Opcode::decoding(Opcode::encoding(op)) == Some(op),
        Opcode::encoding(op) == seq![0u8, op.value() as u8],
{
    assert(Opcode::encoding(op) =~= seq![0u8, op.value() as u8]);
}

} // verus!
