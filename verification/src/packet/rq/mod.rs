//! A "general" request.
//!
//! A read request and a write request differ in their opcode only; what
//! they share is here.

use vstd::prelude::*;
use vstd::slice::slice_subrange;
use vstd::utf8::*;

use crate::bytes::{
    first_nul, lemma_encode_utf8_nul, lemma_first_nul, lemma_text_round_trip, Bytes, FirstNul,
    FromBytes, IntoBytes,
};
use crate::failure::ErrorKind;
use crate::packet::mode::{lemma_mode_round_trip, Mode};

pub mod rrq;
pub mod wrq;

pub use rrq::Rrq;
pub use wrq::Wrq;

verus! {

/// What a request asks for: a file, and the mode in which to transfer it.
#[derive(Debug, PartialEq, Eq)]
pub struct Rq {
    /// The name of the file.
    pub filename: String,
    /// The mode of the transfer.
    pub mode: Mode,
}

/// The mathematical value of a request.
pub ghost struct RqView {
    pub filename: Seq<char>,
    pub mode: Mode,
}

impl View for Rq {
    type V = RqView;

    open spec fn view(&self) -> RqView {
        RqView { filename: self.filename@, mode: self.mode }
    }
}

impl FromBytes for Rq {
    open spec fn decoding(bytes: Seq<u8>) -> Option<RqView> {
        match first_nul(bytes) {
            Some(nul) => match (
                Bytes::<String>::decoding(bytes.subrange(0, nul + 1)),
                Mode::decoding(bytes.subrange(nul + 1, bytes.len() as int)),
            ) {
                (Some(filename), Some(mode)) => Some(RqView { filename, mode }),
                _ => None,
            },
            None => None,
        }
    }

    fn from_bytes(bytes: &[u8]) -> (r: Result<Self, ErrorKind>) {
        proof {
            lemma_first_nul(bytes@);
        }
        let nul = match bytes.first_nul_idx() {
            Some(nul) => nul,
            None => {
                return Err(ErrorKind::InvalidInput);
            },
        };
        let len = bytes.len();
        assert(nul < len);
        let filename = match Bytes::<String>::from_bytes(slice_subrange(bytes, 0, nul + 1)) {
            Ok(filename) => filename.into_inner(),
            Err(kind) => {
                return Err(kind);
            },
        };
        match Mode::from_bytes(slice_subrange(bytes, nul + 1, len)) {
            Ok(mode) => Ok(Self { filename, mode }),
            Err(kind) => Err(kind),
        }
    }
}

impl IntoBytes for Rq {
    open spec fn encodable(value: RqView) -> bool {
        Bytes::<String>::encodable(value.filename)
    }

    open spec fn encoding(value: RqView) -> Seq<u8> {
        Bytes::<String>::encoding(value.filename) + Mode::encoding(value.mode)
    }

    fn into_bytes(self) -> (bytes: Vec<u8>) {
        let mut bytes = Bytes::new(self.filename).into_bytes();
        let mut mode = self.mode.into_bytes();
        bytes.append(&mut mode);
        bytes
    }
}

/// A request whose file name holds no NUL survives the way to the wire and
/// back.
pub proof fn lemma_rq_round_trip(value: RqView)
    requires
        Rq::encodable(value),
    ensures
        Rq::decoding(Rq::encoding(value)) == Some(value),
{
    let name = encode_utf8(value.filename);
    let head = Bytes::<String>::encoding(value.filename);
    let tail = Mode::encoding(value.mode);
    let bytes = head + tail;
    lemma_encode_utf8_nul(value.filename);
    lemma_text_round_trip(value.filename);
    lemma_mode_round_trip(value.mode);
    let nul = name.len() as int;
    assert(head[nul] == 0u8);
    assert(bytes[nul] == 0u8);
    assert forall|j: int| 0 <= j < nul implies bytes[j] != 0 by {
        assert(bytes[j] == name[j]);
    }
    lemma_first_nul(bytes);
    assert(first_nul(bytes) == Some(nul));
    assert(bytes.subrange(0, nul + 1) =~= head);
    assert(bytes.subrange(nul + 1, bytes.len() as int) =~= tail);
}

} // verus!
