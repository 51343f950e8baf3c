//! The modes of operation for TFTP.
//!
//! `Mail` is deprecated and should not be implemented.

use vstd::prelude::*;
use vstd::slice::slice_subrange;
use vstd::utf8::*;

use crate::bytes::{terminated, Bytes, FirstNul, FromBytes, IntoBytes};
use crate::failure::ErrorKind;

verus! {

/// The modes of operation for TFTP.
#[derive(Clone, Copy, Debug, PartialEq, Eq, Structural)]
pub enum Mode {
    /// Deprecated.
    Mail,
    /// 8-bit ASCII.
    NetAscii,
    /// 8-bit binary.
    Octet,
}

impl View for Mode {
    type V = Mode;

    open spec fn view(&self) -> Mode {
        *self
    }
}

/// The byte with an ASCII capital letter turned into its small letter.
pub open spec fn ascii_lower(byte: u8) -> u8 {
    if 65 <= byte <= 90 {
        (byte + 32) as u8
    } else {
        byte
    }
}

/// The bytes with every ASCII capital letter turned into its small letter.
pub open spec fn lowered(bytes: Seq<u8>) -> Seq<u8> {
    Seq::new(bytes.len(), |i: int| ascii_lower(bytes[i]))
}

fn to_lower(byte: u8) -> (lower: u8)
    ensures
        lower == ascii_lower(byte),
{
    if 65 <= byte && byte <= 90 {
        byte + 32
    } else {
        byte
    }
}

/// Tells whether `bytes` spell `name` when capital and small letters count
/// as the same.
fn spells(bytes: &[u8], name: &[u8]) -> (same: bool)
    ensures
        same == (lowered(bytes@) == name@),
{
    if bytes.len() != name.len() {
        return false;
    }
    let mut index: usize = 0;
    while index < bytes.len()
        invariant
            index <= bytes@.len(),
            bytes@.len() == name@.len(),
            forall|j: int| 0 <= j < index ==> lowered(bytes@)[j] == name@[j],
        decreases bytes@.len() - index,
    {
        if to_lower(bytes[index]) != name[index] {
            assert(lowered(bytes@)[index as int] != name@[index as int]);
            return false;
        }
        index += 1;
    }
    assert(lowered(bytes@) =~= name@);
    true
}

impl Mode {
    /// The name of the mode, in small letters.
    pub open spec fn name(self) -> Seq<char> {
        match self {
            Mode::Mail => "mail"@,
            Mode::NetAscii => "netascii"@,
            Mode::Octet => "octet"@,
        }
    }

    /// The bytes of the mode's name.
    pub open spec fn name_bytes(self) -> Seq<u8> {
        match self {
            Mode::Mail => seq![109u8, 97u8, 105u8, 108u8],
            Mode::NetAscii => seq![110u8, 101u8, 116u8, 97u8, 115u8, 99u8, 105u8, 105u8],
            Mode::Octet => seq![111u8, 99u8, 116u8, 101u8, 116u8],
        }
    }

    /// The mode that `name` spells, whatever the case of its letters.
    pub open spec fn of_name(name: Seq<u8>) -> Option<Mode> {
        let lower = lowered(name);
        if lower == Mode::Mail.name_bytes() {
            Some(Mode::Mail)
        } else if lower == Mode::NetAscii.name_bytes() {
            Some(Mode::NetAscii)
        } else if lower == Mode::Octet.name_bytes() {
            Some(Mode::Octet)
        } else {
            None
        }
    }

    /// The bytes of a mode's name are its name in UTF-8, and no NUL is
    /// among them.
    pub proof fn lemma_name_bytes(self)
        ensures
            encode_utf8(self.name()) == self.name_bytes(),
            !self.name().contains('\0'),
            !self.name_bytes().contains(0u8),
            lowered(self.name_bytes()) == self.name_bytes(),
    {
        reveal_strlit("mail");
        reveal_strlit("netascii");
        reveal_strlit("octet");
        let name = self.name();
        assert(is_ascii_chars(name));
        is_ascii_chars_encode_utf8(name);
        assert(encode_utf8(name) =~= self.name_bytes());
        assert(lowered(self.name_bytes()) =~= self.name_bytes());
    }

    /// Produces a `String` representation of this `Mode`.
    pub fn into_string(self) -> (name: String)
        ensures
            name@ == self.name(),
    {
        let s = match self {
            Mode::Mail => "mail",
            Mode::NetAscii => "netascii",
            Mode::Octet => "octet",
        };
        s.to_owned()
    }

    /// The mode that the bytes of a name spell.
    fn named(name: &[u8]) -> (r: Result<Self, ErrorKind>)
        ensures
            match r {
                Ok(mode) => Mode::of_name(name@) == Some(mode),
                Err(kind) => kind == ErrorKind::InvalidInput && Mode::of_name(name@) is None,
            },
    {
        let mail: [u8; 4] = [109, 97, 105, 108];
        let netascii: [u8; 8] = [110, 101, 116, 97, 115, 99, 105, 105];
        let octet: [u8; 5] = [111, 99, 116, 101, 116];
        assert(mail@ =~= Mode::Mail.name_bytes());
        assert(netascii@ =~= Mode::NetAscii.name_bytes());
        assert(octet@ =~= Mode::Octet.name_bytes());
        if spells(name, mail.as_slice()) {
            Ok(Mode::Mail)
        } else if spells(name, netascii.as_slice()) {
            Ok(Mode::NetAscii)
        } else if spells(name, octet.as_slice()) {
            Ok(Mode::Octet)
        } else {
            Err(ErrorKind::InvalidInput)
        }
    }

    /// Reads a mode from its name, whatever the case of its letters.
    pub fn from_str(s: &str) -> (r: Result<Self, ErrorKind>)
        ensures
            match r {
                Ok(mode) => Mode::of_name(encode_utf8(s@)) == Some(mode),
                Err(kind) => kind == ErrorKind::InvalidInput && Mode::of_name(encode_utf8(s@))
                    is None,
            },
    {
        Mode::named(s.as_bytes())
    }
}

impl FromBytes for Mode {
    open spec fn decoding(bytes: Seq<u8>) -> Option<Mode> {
        if terminated(bytes) {
            Mode::of_name(bytes.drop_last())
        } else {
            None
        }
    }

    fn from_bytes(bytes: &[u8]) -> (r: Result<Self, ErrorKind>) {
        let len = bytes.len();
        match bytes.first_nul_idx() {
            Some(nul) => {
                if nul + 1 != len {
                    assert(bytes@.drop_last()[nul as int] == 0u8);
                    return Err(ErrorKind::InvalidInput);
                }
                let name = slice_subrange(bytes, 0, nul);
                assert(name@ =~= bytes@.drop_last());
                Mode::named(name)
            },
            None => {
                assert(len > 0 ==> bytes@[len - 1] != 0);
                Err(ErrorKind::InvalidInput)
            },
        }
    }
}

impl IntoBytes for Mode {
    open spec fn encodable(value: Mode) -> bool {
        true
    }

    open spec fn encoding(value: Mode) -> Seq<u8> {
        value.name_bytes().push(0u8)
    }

    fn into_bytes(self) -> (bytes: Vec<u8>) {
        proof {
            self.lemma_name_bytes();
        }
        Bytes::new(self.into_string()).into_bytes()
    }
}

/// A mode survives the way to the wire and back.
pub proof fn lemma_mode_round_trip(mode: Mode)
    ensures
        Mode::decoding(Mode::encoding(mode)) == Some(mode),
        terminated(Mode::encoding(mode)),
{
    mode.lemma_name_bytes();
    let bytes = Mode::encoding(mode);
    assert(bytes.drop_last() =~= mode.name_bytes());
    assert(Mode::Mail.name_bytes().len() == 4);
    assert(Mode::NetAscii.name_bytes().len() == 8);
    assert(Mode::Octet.name_bytes().len() == 5);
}

/// Reading a mode takes no account of case: two runs of bytes that differ
/// only in the case of their ASCII letters are read alike.
pub proof fn lemma_mode_ignores_case(first: Seq<u8>, second: Seq<u8>)
    requires
        lowered(first) == lowered(second),
    ensures
        Mode::decoding(first) == Mode::decoding(second),
{
    assert(first.len() == lowered(first).len());
    assert(second.len() == lowered(second).len());
    assert forall|i: int| 0 <= i < first.len() implies (first[i] == 0 <==> second[i] == 0) by {
        assert(lowered(first)[i] == ascii_lower(first[i]));
        assert(lowered(second)[i] == ascii_lower(second[i]));
    }
    if first.len() > 0 {
        assert(first.drop_last().contains(0u8) <==> second.drop_last().contains(0u8)) by {
            if first.drop_last().contains(0u8) {
                let i = choose|i: int|
                    0 <= i < first.drop_last().len() && first.drop_last()[i] == 0u8;
                assert(second.drop_last()[i] == 0u8);
            }
            if second.drop_last().contains(0u8) {
                let i = choose|i: int|
                    0 <= i < second.drop_last().len() && second.drop_last()[i] == 0u8;
                assert(first.drop_last()[i] == 0u8);
            }
        }
        assert(lowered(first.drop_last()) =~= lowered(first).drop_last());
        assert(lowered(second.drop_last()) =~= lowered(second).drop_last());
    }
}

/// A mode's name in any mix of capital and small letters, closed by a NUL,
/// is read as that mode.
pub proof fn lemma_mode_any_case(mode: Mode, name: Seq<u8>)
    requires
        lowered(name) == mode.name_bytes(),
    ensures
        Mode::decoding(name.push(0u8)) == Some(mode),
{
    mode.lemma_name_bytes();
    let bytes = name.push(0u8);
    assert(bytes.drop_last() =~= name);
    assert(Mode::Mail.name_bytes().len() == 4);
    assert(Mode::NetAscii.name_bytes().len() == 8);
    assert(Mode::Octet.name_bytes().len() == 5);
    assert(!name.contains(0u8)) by {
        if name.contains(0u8) {
            let i = choose|i: int| 0 <= i < name.len() && name[i] == 0u8;
            assert(lowered(name)[i] == 0u8);
            assert(mode.name_bytes().contains(0u8));
        }
    }
}

} // verus!
