//! The error packet: a courtesy to the peer that ends a transfer.

use vstd::prelude::*;
use vstd::slice::slice_subrange;
use vstd::std_specs::convert::{FromSpecImpl, TryFromSpecImpl};

use crate::bytes::{lemma_text_round_trip, lemma_u16_round_trip, Bytes, FromBytes, IntoBytes};
use crate::failure::{ErrorKind, Failure, FailureView};
use crate::packet::opcode::Opcode;
use crate::packet::sealed::Packet;

verus! {

/// The reason that an error packet gives.
#[derive(Clone, Copy, Debug, PartialEq, Eq, Structural)]
pub enum Code {
    /// Not defined, see error message (if any).
    NotDefined,
    /// File not found.
    FileNotFound,
    /// Access violation.
    AccessViolation,
    /// Disk full or allocation exceeded.
    DiskFull,
    /// Illegal TFTP operation.
    IllegalOperation,
    /// Unknown transfer ID.
    UnknownTid,
    /// File already exists.
    FileAlreadyExists,
    /// No such user.
    NoSuchUser,
}

impl View for Code {
    type V = Code;

    open spec fn view(&self) -> Code {
        *self
    }
}

impl Code {
    /// The number that stands for this code on the wire.
    pub open spec fn value(self) -> u16 {
        match self {
            Code::NotDefined => 0,
            Code::FileNotFound => 1,
            Code::AccessViolation => 2,
            Code::DiskFull => 3,
            Code::IllegalOperation => 4,
            Code::UnknownTid => 5,
            Code::FileAlreadyExists => 6,
            Code::NoSuchUser => 7,
        }
    }

    /// The code that `val` stands for, if it stands for one.
    pub open spec fn of_value(val: u16) -> Option<Code> {
        if val == 0 {
            Some(Code::NotDefined)
        } else if val == 1 {
            Some(Code::FileNotFound)
        } else if val == 2 {
            Some(Code::AccessViolation)
        } else if val == 3 {
            Some(Code::DiskFull)
        } else if val == 4 {
            Some(Code::IllegalOperation)
        } else if val == 5 {
            Some(Code::UnknownTid)
        } else if val == 6 {
            Some(Code::FileAlreadyExists)
        } else if val == 7 {
            Some(Code::NoSuchUser)
        } else {
            None
        }
    }

    /// What the code means, in words.
    pub open spec fn description(self) -> Seq<char> {
        match self {
            Code::NotDefined => "Not defined, see error message (if any)"@,
            Code::FileNotFound => "File not found"@,
            Code::AccessViolation => "Access violation"@,
            Code::DiskFull => "Disk full or allocation exceeded"@,
            Code::IllegalOperation => "Illegal TFTP operation"@,
            Code::UnknownTid => "Unknown transfer ID"@,
            Code::FileAlreadyExists => "File already exists"@,
            Code::NoSuchUser => "No such user"@,
        }
    }

    /// The kind of failure that a caller sees for this code.
    pub open spec fn kind(self) -> ErrorKind {
        match self {
            Code::FileNotFound => ErrorKind::NotFound,
            Code::AccessViolation => ErrorKind::PermissionDenied,
            Code::FileAlreadyExists => ErrorKind::AlreadyExists,
            _ => ErrorKind::Other,
        }
    }

    /// The code that tells a peer of a failure of this kind.
    pub open spec fn of_kind(kind: ErrorKind) -> Code {
        match kind {
            ErrorKind::NotFound => Code::FileNotFound,
            ErrorKind::PermissionDenied => Code::AccessViolation,
            ErrorKind::AlreadyExists => Code::FileAlreadyExists,
            _ => Code::NotDefined,
        }
    }

    /// Tries to produce a `Code` from a `u16`: the numbers 0 to 7 stand for
    /// one, no other does.
    pub fn from_u16(val: u16) -> (r: Result<Self, ErrorKind>)
        ensures
            match r {
                Ok(code) => Code::of_value(val) == Some(code) && code.value() == val,
                Err(kind) => kind == ErrorKind::InvalidInput && Code::of_value(val) is None,
            },
            r is Ok <==> val <= 7,
    {
        match val {
            0 => Ok(Code::NotDefined),
            1 => Ok(Code::FileNotFound),
            2 => Ok(Code::AccessViolation),
            3 => Ok(Code::DiskFull),
            4 => Ok(Code::IllegalOperation),
            5 => Ok(Code::UnknownTid),
            6 => Ok(Code::FileAlreadyExists),
            7 => Ok(Code::NoSuchUser),
            _ => Err(ErrorKind::InvalidInput),
        }
    }

    /// The number that stands for this code on the wire.
    pub fn to_u16(self) -> (val: u16)
        ensures
            val == self.value(),
            val <= 7,
    {
        match self {
            Code::NotDefined => 0,
            Code::FileNotFound => 1,
            Code::AccessViolation => 2,
            Code::DiskFull => 3,
            Code::IllegalOperation => 4,
            Code::UnknownTid => 5,
            Code::FileAlreadyExists => 6,
            Code::NoSuchUser => 7,
        }
    }

    /// What the code means, in words.
    pub fn as_str(self) -> (text: &'static str)
        ensures
            text@ == self.description(),
    {
        match self {
            Code::NotDefined => "Not defined, see error message (if any)",
            Code::FileNotFound => "File not found",
            Code::AccessViolation => "Access violation",
            Code::DiskFull => "Disk full or allocation exceeded",
            Code::IllegalOperation => "Illegal TFTP operation",
            Code::UnknownTid => "Unknown transfer ID",
            Code::FileAlreadyExists => "File already exists",
            Code::NoSuchUser => "No such user",
        }
    }

    /// Every code has a number from 0 to 7, which stands for that code
    /// again; a number beyond these stands for none.
    pub proof fn lemma_value_round_trip(code: Code, val: u16)
        ensures
            Code::of_value(code.value()) == Some(code),
            code.value() <= 7,
            Code::of_value(val) is Some <==> val <= 7,
            Code::of_value(val) matches Some(found) ==> found.value() == val,
    {
    }

    /// The three kinds of failure that have a code of their own come back
    /// from it; every other kind comes back as `Other`.
    pub proof fn lemma_kind_round_trip(kind: ErrorKind)
        ensures
            Code::of_kind(kind).kind() == (if kind == ErrorKind::NotFound || kind
                == ErrorKind::PermissionDenied || kind == ErrorKind::AlreadyExists {
                kind
            } else {
                ErrorKind::Other
            }),
    {
    }

    /// No description holds a NUL, so each can be the message of an error
    /// packet.
    pub proof fn lemma_description_has_no_nul(self)
        ensures
            !self.description().contains('\0'),
    {
        reveal_strlit("Not defined, see error message (if any)");
        reveal_strlit("File not found");
        reveal_strlit("Access violation");
        reveal_strlit("Disk full or allocation exceeded");
        reveal_strlit("Illegal TFTP operation");
        reveal_strlit("Unknown transfer ID");
        reveal_strlit("File already exists");
        reveal_strlit("No such user");
    }
}

impl FromSpecImpl<ErrorKind> for Code {
    open spec fn obeys_from_spec() -> bool {
        true
    }

    open spec fn from_spec(kind: ErrorKind) -> Code {
        Code::of_kind(kind)
    }
}

impl From<ErrorKind> for Code {
    /// The code that tells a peer of a failure of this kind.
    fn from(kind: ErrorKind) -> (code: Code) {
        match kind {
            ErrorKind::NotFound => Code::FileNotFound,
            ErrorKind::PermissionDenied => Code::AccessViolation,
            ErrorKind::AlreadyExists => Code::FileAlreadyExists,
            _ => Code::NotDefined,
        }
    }
}

impl FromSpecImpl<Code> for ErrorKind {
    open spec fn obeys_from_spec() -> bool {
        true
    }

    open spec fn from_spec(code: Code) -> ErrorKind {
        code.kind()
    }
}

impl From<Code> for ErrorKind {
    /// The kind of failure that a caller sees for this code.
    fn from(code: Code) -> (kind: ErrorKind) {
        match code {
            Code::FileNotFound => ErrorKind::NotFound,
            Code::AccessViolation => ErrorKind::PermissionDenied,
            Code::FileAlreadyExists => ErrorKind::AlreadyExists,
            _ => ErrorKind::Other,
        }
    }
}

impl FromSpecImpl<Code> for u16 {
    open spec fn obeys_from_spec() -> bool {
        true
    }

    open spec fn from_spec(code: Code) -> u16 {
        code.value()
    }
}

impl From<Code> for u16 {
    /// The number that stands for the code on the wire.
    fn from(code: Code) -> (val: u16) {
        code.to_u16()
    }
}

impl TryFromSpecImpl<u16> for Code {
    open spec fn obeys_try_from_spec() -> bool {
        true
    }

    open spec fn try_from_spec(val: u16) -> Result<Code, ErrorKind> {
        match Code::of_value(val) {
            Some(code) => Ok(code),
            None => Err(ErrorKind::InvalidInput),
        }
    }
}

impl TryFrom<u16> for Code {
    type Error = ErrorKind;

    /// The code that the number stands for, if it stands for one.
    fn try_from(val: u16) -> (r: Result<Code, ErrorKind>) {
        Code::from_u16(val)
    }
}

impl FromBytes for Code {
    open spec fn decoding(bytes: Seq<u8>) -> Option<Code> {
        match Bytes::<u16>::decoding(bytes) {
            Some(val) => Code::of_value(val),
            None => None,
        }
    }

    fn from_bytes(bytes: &[u8]) -> (r: Result<Self, ErrorKind>) {
        match Bytes::<u16>::from_bytes(bytes) {
            Ok(val) => Code::from_u16(val.into_inner()),
            Err(kind) => Err(kind),
        }
    }
}

impl IntoBytes for Code {
    open spec fn encodable(value: Code) -> bool {
        true
    }

    open spec fn encoding(value: Code) -> Seq<u8> {
        Bytes::<u16>::encoding(value.value())
    }

    fn into_bytes(self) -> (bytes: Vec<u8>) {
        Bytes::new(self.to_u16()).into_bytes()
    }
}

/// The body of an error packet.
#[derive(Debug, PartialEq, Eq)]
pub struct Error {
    code: Code,
    message: String,
}

/// The mathematical value of an [`Error`].
pub ghost struct ErrorView {
    pub code: Code,
    pub message: Seq<char>,
}

impl ErrorView {
    /// The failure that a caller sees when the peer sends this error.
    pub open spec fn failure(self) -> FailureView {
        FailureView { kind: self.code.kind(), message: self.message }
    }
}

impl View for Error {
    type V = ErrorView;

    closed spec fn view(&self) -> ErrorView {
        ErrorView { code: self.code, message: self.message@ }
    }
}

impl Error {
    /// Creates a new `Error` with the given code and message.
    pub fn new(code: Code, message: &str) -> (error: Self)
        ensures
            error@ == (ErrorView { code, message: message@ }),
    {
        Self { code, message: message.to_owned() }
    }

    /// The reason that the error gives.
    pub fn code(&self) -> (code: Code)
        ensures
            code == self@.code,
    {
        self.code
    }

    /// The text that comes with the error.
    pub fn message(&self) -> (message: &str)
        ensures
            message@ == self@.message,
    {
        self.message.as_str()
    }

    /// Turns the error into the failure that a caller sees for it: the kind
    /// follows from the code, the text is the message.
    pub fn into_failure(self) -> (failure: Failure)
        ensures
            failure@ == self@.failure(),
    {
        Failure { kind: ErrorKind::from(self.code), message: self.message }
    }
}

impl FromBytes for Error {
    open spec fn decoding(bytes: Seq<u8>) -> Option<ErrorView> {
        if bytes.len() >= 2 {
            match (
                Code::decoding(bytes.subrange(0, 2)),
                Bytes::<String>::decoding(bytes.subrange(2, bytes.len() as int)),
            ) {
                (Some(code), Some(message)) => Some(ErrorView { code, message }),
                _ => None,
            }
        } else {
            None
        }
    }

    fn from_bytes(bytes: &[u8]) -> (r: Result<Self, ErrorKind>) {
        let len = bytes.len();
        if len < 2 {
            return Err(ErrorKind::InvalidInput);
        }
        let code = match Code::from_bytes(slice_subrange(bytes, 0, 2)) {
            Ok(code) => code,
            Err(kind) => {
                return Err(kind);
            },
        };
        match Bytes::<String>::from_bytes(slice_subrange(bytes, 2, len)) {
            Ok(message) => Ok(Self { code, message: message.into_inner() }),
            Err(kind) => Err(kind),
        }
    }
}

impl IntoBytes for Error {
    open spec fn encodable(value: ErrorView) -> bool {
        Bytes::<String>::encodable(value.message)
    }

    open spec fn encoding(value: ErrorView) -> Seq<u8> {
        Code::encoding(value.code) + Bytes::<String>::encoding(value.message)
    }

    fn into_bytes(self) -> (bytes: Vec<u8>) {
        let mut bytes = self.code.into_bytes();
        let mut message = Bytes::new(self.message).into_bytes();
        bytes.append(&mut message);
        bytes
    }
}

impl Packet for Error {
    open spec fn opcode() -> Opcode {
        Opcode::Error
    }

    fn header() -> (op: Opcode) {
        Opcode::Error
    }

    proof fn lemma_round_trip(value: ErrorView) {
        let head = Code::encoding(value.code);
        let tail = Bytes::<String>::encoding(value.message);
        let bytes = head + tail;
        lemma_u16_round_trip(value.code.value());
        lemma_text_round_trip(value.message);
        assert(bytes.subrange(0, 2) =~= head);
        assert(bytes.subrange(2, bytes.len() as int) =~= tail);
    }
}

} // verus!
