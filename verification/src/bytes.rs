//! Conversions between values and the bytes that stand for them on the wire:
//! big-endian 16-bit integers and NUL-terminated text.

use vstd::prelude::*;
use vstd::slice::{slice_subrange, slice_to_vec};
use vstd::string::StringSliceAdditionalSpecFns;
use vstd::utf8::*;

use crate::failure::ErrorKind;

verus! {

/// A value that can be read from the bytes that stand for it.
pub trait FromBytes: Sized + View {
    /// The value that `bytes` stand for, if they stand for one.
    spec fn decoding(bytes: Seq<u8>) -> Option<Self::V>;

    /// Reads a value from all of `bytes`. Fails with
    /// [`ErrorKind::InvalidInput`] exactly when the bytes stand for no value.
    fn from_bytes(bytes: &[u8]) -> (r: Result<Self, ErrorKind>)
        ensures
            match r {
                Ok(value) => Self::decoding(bytes@) == Some(value@),
                Err(kind) => kind == ErrorKind::InvalidInput && Self::decoding(bytes@) is None,
            },
    ;
}

/// A value that can be written as bytes.
pub trait IntoBytes: Sized + View {
    /// Whether the value has a wire form at all.
    spec fn encodable(value: Self::V) -> bool;

    /// The bytes that stand for the value.
    spec fn encoding(value: Self::V) -> Seq<u8>;

    /// Writes the value as bytes.
    fn into_bytes(self) -> (bytes: Vec<u8>)
        requires
            Self::encodable(self@),
        ensures
            bytes@ == Self::encoding(self@),
    ;
}

/// The two bytes of `value`, most significant first.
pub open spec fn be_bytes(value: u16) -> Seq<u8> {
    seq![(value / 256) as u8, (value % 256) as u8]
}

/// The integer whose most significant byte is `high` and whose least
/// significant byte is `low`.
pub open spec fn be_value(high: u8, low: u8) -> u16 {
    (high * 256 + low) as u16
}

/// True when `bytes` end in a NUL and hold no other.
pub open spec fn terminated(bytes: Seq<u8>) -> bool {
    &&& bytes.len() > 0
    &&& bytes.last() == 0
    &&& !bytes.drop_last().contains(0u8)
}

/// The index of the first NUL in `bytes`, if there is one.
pub open spec fn first_nul(bytes: Seq<u8>) -> Option<int> {
    bytes.index_of_first(0u8)
}

/// True when `index` is where the first NUL of `bytes` stands.
pub open spec fn is_first_nul(bytes: Seq<u8>, index: int) -> bool {
    &&& 0 <= index < bytes.len()
    &&& bytes[index] == 0
    &&& forall|j: int| 0 <= j < index ==> bytes[j] != 0
}

/// The first NUL is the one before which no NUL stands, and there is none
/// exactly where no byte is NUL.
pub proof fn lemma_first_nul(bytes: Seq<u8>)
    ensures
        match first_nul(bytes) {
            Some(index) => is_first_nul(bytes, index),
            None => !bytes.contains(0u8),
        },
        forall|index: int| is_first_nul(bytes, index) ==> first_nul(bytes) == Some(index),
{
    bytes.index_of_first_ensures(0u8);
    assert forall|index: int| is_first_nul(bytes, index) implies first_nul(bytes) == Some(
        index,
    ) by {
        assert(bytes.contains(0u8));
    }
}

/// Wraps a value that has a wire form of its own: a `u16`, sent big-endian,
/// or a `String`, sent as its UTF-8 bytes and a closing NUL.
pub struct Bytes<T>(T);

impl<T> Bytes<T> {
    /// The wrapped value.
    pub closed spec fn inner(self) -> T {
        self.0
    }

    /// Wraps `val`.
    pub fn new(val: T) -> (wrapped: Self)
        ensures
            wrapped.inner() == val,
    {
        Self(val)
    }

    /// Hands the wrapped value back.
    pub fn into_inner(self) -> (val: T)
        ensures
            val == self.inner(),
    {
        self.0
    }
}

impl View for Bytes<u16> {
    type V = u16;

    open spec fn view(&self) -> u16 {
        self.inner()
    }
}

impl View for Bytes<String> {
    type V = Seq<char>;

    open spec fn view(&self) -> Seq<char> {
        self.inner()@
    }
}

impl FromBytes for Bytes<u16> {
    open spec fn decoding(bytes: Seq<u8>) -> Option<u16> {
        if bytes.len() == 2 {
            Some(be_value(bytes[0], bytes[1]))
        } else {
            None
        }
    }

    fn from_bytes(bytes: &[u8]) -> (r: Result<Self, ErrorKind>) {
        if bytes.len() != 2 {
            return Err(ErrorKind::InvalidInput);
        }
        let high: u16 = bytes[0] as u16;
        let low: u16 = bytes[1] as u16;
        Ok(Self(high * 256 + low))
    }
}

impl IntoBytes for Bytes<u16> {
    open spec fn encodable(value: u16) -> bool {
        true
    }

    open spec fn encoding(value: u16) -> Seq<u8> {
        be_bytes(value)
    }

    fn into_bytes(self) -> (bytes: Vec<u8>) {
        let high: u8 = (self.0 / 256) as u8;
        let low: u8 = (self.0 % 256) as u8;
        let mut bytes: Vec<u8> = Vec::new();
        bytes.push(high);
        bytes.push(low);
        assert(bytes@ =~= be_bytes(self.0));
        bytes
    }
}

/// A 16-bit integer survives the way to the wire and back.
pub proof fn lemma_u16_round_trip(value: u16)
    ensures
        Bytes::<u16>::decoding(Bytes::<u16>::encoding(value)) == Some(value),
        Bytes::<u16>::encoding(value).len() == 2,
{
}

/// Two bytes stand for one integer only, and that integer for them.
pub proof fn lemma_u16_bytes_unique(bytes: Seq<u8>)
    requires
        bytes.len() == 2,
    ensures
        Bytes::<u16>::encoding(be_value(bytes[0], bytes[1])) == bytes,
{
    assert(be_bytes(be_value(bytes[0], bytes[1])) =~= bytes);
}

/// Reads `bytes` as UTF-8 text with `core::str::from_utf8`, which accepts
/// exactly the well-formed UTF-8 sequences and then returns the same bytes
/// seen as text. Nothing of this is proved here.
#[verifier::external_body]
fn utf8_text(bytes: &[u8]) -> (text: Option<&str>)
    ensures
        text is Some <==> valid_utf8(bytes@),
        text matches Some(s) ==> s.spec_bytes() == bytes@,
{
    core::str::from_utf8(bytes).ok()
}

/// The UTF-8 form of one character holds a zero byte only if the character
/// is NUL.
proof fn lemma_encode_scalar_nul(scalar: u32)
    requires
        is_scalar(scalar),
    ensures
        encode_scalar(scalar).contains(0u8) <==> scalar == 0,
{
    let encoded = encode_scalar(scalar);
    if has_width_1_encoding(scalar) {
        assert(leading_byte_width_1(scalar) == 0 <==> scalar == 0) by (bit_vector)
            requires
                has_width_1_encoding(scalar),
        ;
        assert(encoded[0] == leading_byte_width_1(scalar));
    } else if has_width_2_encoding(scalar) {
        assert(leading_byte_width_2(scalar) != 0 && last_continuation_byte(scalar) != 0)
            by (bit_vector);
    } else if has_width_3_encoding(scalar) {
        assert(leading_byte_width_3(scalar) != 0 && second_last_continuation_byte(scalar) != 0
            && last_continuation_byte(scalar) != 0) by (bit_vector);
    } else {
        assert(leading_byte_width_4(scalar) != 0 && third_last_continuation_byte(scalar) != 0
            && second_last_continuation_byte(scalar) != 0 && last_continuation_byte(scalar)
            != 0) by (bit_vector);
    }
    if encoded.contains(0u8) {
        let i = choose|i: int| 0 <= i < encoded.len() && encoded[i] == 0u8;
        assert(scalar == 0);
    }
    if scalar == 0 {
        assert(encoded[0] == 0u8);
    }
}

/// The UTF-8 form of a text holds a zero byte exactly when the text holds a
/// NUL character.
pub proof fn lemma_encode_utf8_nul(chars: Seq<char>)
    ensures
        encode_utf8(chars).contains(0u8) <==> chars.contains('\0'),
    decreases chars.len(),
{
    if chars.len() > 0 {
        let scalar = chars[0] as u32;
        let head = encode_scalar(scalar);
        let rest = chars.drop_first();
        let tail = encode_utf8(rest);
        char_is_scalar(chars[0]);
        lemma_encode_scalar_nul(scalar);
        lemma_encode_utf8_nul(rest);
        assert(encode_utf8(chars) == head + tail);
        if chars.contains('\0') {
            let i = choose|i: int| 0 <= i < chars.len() && chars[i] == '\0';
            if i == 0 {
                let j = choose|j: int| 0 <= j < head.len() && head[j] == 0u8;
                assert((head + tail)[j] == 0u8);
            } else {
                assert(rest[i - 1] == '\0');
                let j = choose|j: int| 0 <= j < tail.len() && tail[j] == 0u8;
                assert((head + tail)[head.len() + j] == 0u8);
            }
        }
        if (head + tail).contains(0u8) {
            let j = choose|j: int| 0 <= j < (head + tail).len() && (head + tail)[j] == 0u8;
            if j < head.len() {
                assert(head[j] == 0u8);
                assert(scalar == 0);
                char_u32_cast(chars[0], scalar);
                assert(chars[0] == '\0');
            } else {
                assert(tail[j - head.len()] == 0u8);
                let i = choose|i: int| 0 <= i < rest.len() && rest[i] == '\0';
                assert(chars[i + 1] == '\0');
            }
        }
    }
}

impl FromBytes for Bytes<String> {
    open spec fn decoding(bytes: Seq<u8>) -> Option<Seq<char>> {
        if terminated(bytes) && valid_utf8(bytes.drop_last()) {
            Some(decode_utf8(bytes.drop_last()))
        } else {
            None
        }
    }

    fn from_bytes(bytes: &[u8]) -> (r: Result<Self, ErrorKind>) {
        let len = bytes.len();
        match bytes.first_nul_idx() {
            Some(nul) => {
                if nul + 1 != len {
                    assert(bytes@.drop_last()[nul as int] == 0u8);
                    return Err(ErrorKind::InvalidInput);
                }
                let body = slice_subrange(bytes, 0, nul);
                assert(body@ =~= bytes@.drop_last());
                match utf8_text(body) {
                    Some(text) => {
                        proof {
                            encode_utf8_decode_utf8(text@);
                        }
                        Ok(Self(text.to_owned()))
                    },
                    None => Err(ErrorKind::InvalidInput),
                }
            },
            None => {
                assert(len > 0 ==> bytes@[len - 1] != 0);
                Err(ErrorKind::InvalidInput)
            },
        }
    }
}

impl IntoBytes for Bytes<String> {
    open spec fn encodable(value: Seq<char>) -> bool {
        !value.contains('\0')
    }

    open spec fn encoding(value: Seq<char>) -> Seq<u8> {
        encode_utf8(value).push(0u8)
    }

    fn into_bytes(self) -> (bytes: Vec<u8>) {
        let mut bytes = slice_to_vec(self.0.as_str().as_bytes());
        bytes.push(0);
        bytes
    }
}

/// A text without NUL survives the way to the wire and back.
pub proof fn lemma_text_round_trip(text: Seq<char>)
    requires
        Bytes::<String>::encodable(text),
    ensures
        Bytes::<String>::decoding(Bytes::<String>::encoding(text)) == Some(text),
        terminated(Bytes::<String>::encoding(text)),
{
    let body = encode_utf8(text);
    let bytes = body.push(0u8);
    lemma_encode_utf8_nul(text);
    assert(bytes.drop_last() =~= body);
    encode_utf8_valid_utf8(text);
    encode_utf8_decode_utf8(text);
}

/// A text that was read from bytes holds no NUL, and its wire form is the
/// bytes it was read from.
pub proof fn lemma_text_decoded(bytes: Seq<u8>)
    requires
        Bytes::<String>::decoding(bytes) is Some,
    ensures
        Bytes::<String>::encodable(Bytes::<String>::decoding(bytes)->0),
        Bytes::<String>::encoding(Bytes::<String>::decoding(bytes)->0) == bytes,
{
    let body = bytes.drop_last();
    let text = decode_utf8(body);
    decode_utf8_encode_utf8(body);
    lemma_encode_utf8_nul(text);
    assert(body.push(0u8) =~= bytes);
}

/// An ASCII text goes to the wire one byte for each character, the
/// character's number, and a closing NUL.
pub proof fn lemma_ascii_text_bytes(text: Seq<char>)
    requires
        is_ascii_chars(text),
    ensures
        Bytes::<String>::encoding(text) == Seq::new(text.len(), |i: int| text[i] as u8).push(
            0u8,
        ),
{
    is_ascii_chars_encode_utf8(text);
    assert(encode_utf8(text) =~= Seq::new(text.len(), |i: int| text[i] as u8));
}

/// Finds the first NUL in a run of bytes.
pub trait FirstNul: View<V = Seq<u8>> {
    /// Returns the index of the first NUL, or `None` where there is none.
    fn first_nul_idx(&self) -> (r: Option<usize>)
        ensures
            match r {
                Some(index) => is_first_nul(self@, index as int),
                None => !self@.contains(0u8),
            },
    ;
}

impl FirstNul for [u8] {
    fn first_nul_idx(&self) -> (r: Option<usize>) {
        let mut index: usize = 0;
        while index < self.len()
            invariant
                index <= self@.len(),
                forall|j: int| 0 <= j < index ==> self@[j] != 0,
            decreases self@.len() - index,
        {
            if self[index] == 0 {
                return Some(index);
            }
            index += 1;
        }
        None
    }
}

impl FirstNul for Vec<u8> {
    fn first_nul_idx(&self) -> (r: Option<usize>) {
        self.as_slice().first_nul_idx()
    }
}

} // verus!
