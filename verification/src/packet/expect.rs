//! Reading the packet that a transfer waits for, and telling what to do
//! where another one came.

use vstd::prelude::*;

use crate::bytes::{FromBytes, IntoBytes};
use crate::failure::{Rejection, RejectionView};
use crate::packet::error::{Code, Error, ErrorView};
use crate::packet::sealed;
use crate::packet::Packet;

verus! {

/// The error that answers bytes which are no packet of the expected type:
/// "illegal operation", with that code's meaning in words as its message.
pub open spec fn illegal_operation() -> ErrorView {
    ErrorView {
        code: Code::IllegalOperation,
        message: Code::IllegalOperation.description(),
    }
}

/// What ends a transfer on bytes that are not the packet it waited for.
/// Where the peer sent an error packet, that error is reported and nothing
/// is sent. Otherwise the peer is sent an "illegal operation" error, and
/// the same is reported.
pub open spec fn unexpected(bytes: Seq<u8>) -> RejectionView {
    match Packet::<Error>::decoding(bytes) {
        Some(error) => RejectionView { reply: None, error: error.failure() },
        None => RejectionView {
            reply: Some(Packet::<Error>::encoding(illegal_operation())),
            error: illegal_operation().failure(),
        },
    }
}

/// Ends a transfer on a breach of the protocol: the peer is sent an
/// "illegal operation" error, and the same is reported to the caller.
pub fn illegal() -> (rejection: Rejection)
    ensures
        rejection@ == (RejectionView {
            reply: Some(Packet::<Error>::encoding(illegal_operation())),
            error: illegal_operation().failure(),
        }),
{
    let code = Code::IllegalOperation;
    proof {
        code.lemma_description_has_no_nul();
    }
    let reply = Packet::error(code, code.as_str()).into_bytes();
    let error = Packet::error(code, code.as_str()).into_failure();
    Rejection { reply: Some(reply), error }
}

/// Implementors can attempt to produce a packet of a certain type from
/// the provided bytes.
pub trait ExpectPacket {
    /// Tries to produce the desired packet type. Where the bytes are no
    /// such packet, the rejection says how the transfer ends: see
    /// [`unexpected`].
    fn expect_packet<P: sealed::Packet>(&self, bytes: &[u8]) -> (r: Result<Packet<P>, Rejection>)
        ensures
            match r {
                Ok(packet) => Packet::<P>::decoding(bytes@) == Some(packet@),
                Err(rejection) => Packet::<P>::decoding(bytes@) is None && rejection@
                    == unexpected(bytes@),
            },
    ;
}

/// Tries to read `bytes` as a packet of type `P`, and where they are none,
/// as the error packet that the peer may have sent in its place.
pub(crate) fn expected<P: sealed::Packet>(bytes: &[u8]) -> (r: Result<Packet<P>, Rejection>)
    ensures
        match r {
            Ok(packet) => Packet::<P>::decoding(bytes@) == Some(packet@),
            Err(rejection) => Packet::<P>::decoding(bytes@) is None && rejection@ == unexpected(
                bytes@,
            ),
        },
{
    match Packet::<P>::from_bytes(bytes) {
        Ok(packet) => Ok(packet),
        Err(_) => match Packet::<Error>::from_bytes(bytes) {
            Ok(error) => Err(Rejection { reply: None, error: error.into_failure() }),
            Err(_) => Err(illegal()),
        },
    }
}

} // verus!
