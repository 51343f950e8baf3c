//! The ways in which a transfer can fail, as a caller sees them.

use vstd::prelude::*;

verus! {

/// The kind of a failure, after the kinds an operating system reports.
#[derive(Clone, Copy, Debug, PartialEq, Eq, Structural)]
pub enum ErrorKind {
    /// A file was not found.
    NotFound,
    /// The operation lacked the permission it needed.
    PermissionDenied,
    /// A file that was to be created exists already.
    AlreadyExists,
    /// The address asked for is taken.
    AddrNotAvailable,
    /// Bytes that do not follow the packet grammar.
    InvalidInput,
    /// Nothing arrived before a non-blocking read gave up.
    WouldBlock,
    /// Nothing arrived before the read deadline.
    TimedOut,
    /// Any other failure.
    Other,
}

impl ErrorKind {
    /// True for the two kinds that a read deadline produces.
    pub open spec fn timed_out(self) -> bool {
        self == ErrorKind::WouldBlock || self == ErrorKind::TimedOut
    }

    /// Tells whether this kind says that a read deadline passed.
    pub fn is_timeout(self) -> (b: bool)
        ensures
            b == self.timed_out(),
    {
        match self {
            ErrorKind::WouldBlock => true,
            ErrorKind::TimedOut => true,
            _ => false,
        }
    }
}

/// A failure: its kind and a text for diagnosis.
#[derive(Debug, PartialEq, Eq)]
pub struct Failure {
    /// What kind of failure this is.
    pub kind: ErrorKind,
    /// A text that describes the failure.
    pub message: String,
}

/// The mathematical value of a [`Failure`].
pub ghost struct FailureView {
    pub kind: ErrorKind,
    pub message: Seq<char>,
}

impl View for Failure {
    type V = FailureView;

    open spec fn view(&self) -> FailureView {
        FailureView { kind: self.kind, message: self.message@ }
    }
}

impl Failure {
    /// Creates a failure of the given kind with the given text.
    pub fn new(kind: ErrorKind, message: &str) -> (failure: Self)
        ensures
            failure@ == (FailureView { kind, message: message@ }),
    {
        Failure { kind, message: message.to_owned() }
    }
}

impl Clone for Failure {
    fn clone(&self) -> (copy: Self)
        ensures
            copy@ == self@,
    {
        Failure { kind: self.kind, message: self.message.clone() }
    }
}

/// What ends a transfer: the failure to report to the caller and, where the
/// peer is owed one, the bytes of an error packet to send first. Sending
/// them is best effort: whether or not it succeeds, `error` is reported.
#[derive(Debug, PartialEq, Eq)]
pub struct Rejection {
    /// The bytes of the error packet for the peer, if one is owed.
    pub reply: Option<Vec<u8>>,
    /// The failure that the caller sees.
    pub error: Failure,
}

/// The mathematical value of a [`Rejection`].
pub ghost struct RejectionView {
    pub reply: Option<Seq<u8>>,
    pub error: FailureView,
}

impl View for Rejection {
    type V = RejectionView;

    open spec fn view(&self) -> RejectionView {
        RejectionView {
            reply: match self.reply {
                Some(bytes) => Some(bytes@),
                None => None,
            },
            error: self.error@,
        }
    }
}

} // verus!
