//! One transfer: the lock-step exchange of data and acknowledgements.
//!
//! A transfer is a chain of states. Each state is a value; each event that
//! can reach it is a method that consumes it and returns what the caller has
//! to do next together with the state that follows. The caller owns the
//! socket and the file: it waits for a datagram, reads or writes the file,
//! and sends the bytes that it is handed.
//!
//! A receiving transfer starts with [`Connection::get`]:
//!
//! * [`Receiver::datagram`] on each datagram, [`Receiver::recv_failed`] when
//!   the wait for one fails;
//! * [`PendingAck::written`] once a block's payload is written,
//!   [`PendingAck::failed`] when writing it fails.
//!
//! A sending transfer starts with [`Connection::put`]:
//!
//! * [`Sender::chunk`] with up to 512 bytes read from the file,
//!   [`Sender::read_failed`] when reading fails;
//! * [`AwaitingAck::datagram`] on each datagram after the block is sent,
//!   [`AwaitingAck::recv_failed`] when the wait for one fails.

use rand::Rng;
use vstd::prelude::*;
use vstd::slice::slice_to_vec;
use vstd::string::StringExecFns;

use crate::bytes::{Bytes, FromBytes, IntoBytes};
use crate::failure::{Failure, FailureView, Rejection, RejectionView};
use crate::packet::data::DataView;
use crate::packet::error::ErrorView;
use crate::packet::expect::{expected, unexpected, ExpectPacket};
use crate::packet::sealed;
use crate::packet::{
    lemma_packet_round_trip, lemma_packet_types_are_apart, Ack, Block, Code, Data, Error, Packet,
    MAX_PAYLOAD_SIZE,
};

verus! {

/// The lowest port that a transfer binds to.
pub const MIN_PORT_NUMBER: u16 = 1001;

/// Draws a number with `rand::Rng::gen_range` on the generator that
/// `rand::thread_rng` keeps for the current thread. The call returns a value
/// from `low` up to, but not including, `high`, and panics where `low` is
/// not below `high`. Which value comes is left open; nothing of this is
/// proved here.
#[verifier::external_body]
fn random_between(low: u16, high: u16) -> (n: u16)
    requires
        low < high,
    ensures
        low <= n < high,
{
    rand::thread_rng().gen_range(low, high)
}

/// Picks at random the port that one side of a transfer binds to.
pub fn random_port() -> (port: u16)
    ensures
        MIN_PORT_NUMBER <= port < u16::MAX,
{
    random_between(MIN_PORT_NUMBER, u16::MAX)
}

/// The error that tells the peer that too many deadlines have passed.
pub open spec fn exceeded() -> ErrorView {
    ErrorView { code: Code::NotDefined, message: "exceeded max retransmissions"@ }
}

/// The count of retransmissions after one more; it stays at the largest
/// number that the machine can hold.
pub open spec fn bumped(retransmissions: usize) -> usize {
    if retransmissions < usize::MAX {
        (retransmissions + 1) as usize
    } else {
        retransmissions
    }
}

/// What a failed wait for a datagram means after `retransmissions` earlier
/// retransmissions, of which at most `limit` are allowed: `None` where the
/// last packet is to be sent again, else how the transfer ends.
///
/// A failure that is no passed deadline ends the transfer and is reported
/// as it is. A passed deadline counts as one more retransmission; where the
/// count then exceeds the limit, the peer is sent the error [`exceeded`] and
/// the passed deadline is reported. Without a limit every passed deadline
/// leads to a retransmission.
pub open spec fn retransmission(
    limit: Option<usize>,
    error: FailureView,
    retransmissions: usize,
) -> Option<RejectionView> {
    if !error.kind.timed_out() {
        Some(RejectionView { reply: None, error })
    } else if limit matches Some(most) && retransmissions + 1 > most {
        Some(RejectionView { reply: Some(Packet::<Error>::encoding(exceeded())), error })
    } else {
        None
    }
}

/// The character for a digit from 0 to 9.
pub open spec fn digit(value: nat) -> char {
    if value == 0 {
        '0'
    } else if value == 1 {
        '1'
    } else if value == 2 {
        '2'
    } else if value == 3 {
        '3'
    } else if value == 4 {
        '4'
    } else if value == 5 {
        '5'
    } else if value == 6 {
        '6'
    } else if value == 7 {
        '7'
    } else if value == 8 {
        '8'
    } else {
        '9'
    }
}

/// The number in decimal digits, without leading zeros.
pub open spec fn decimal(value: nat) -> Seq<char>
    decreases value,
{
    if value < 10 {
        seq![digit(value)]
    } else {
        decimal(value / 10).push(digit(value % 10))
    }
}

/// The error that answers an ack for another block than the one that was
/// sent: "illegal operation", with a message that names both blocks, as in
/// `expected ACK for 1 but got ACK for Block(2)`.
pub open spec fn wrong_block(expected: Block, got: Block) -> ErrorView {
    ErrorView {
        code: Code::IllegalOperation,
        message: "expected ACK for "@ + decimal(expected.0 as nat) + " but got ACK for Block("@
            + decimal(got.0 as nat) + ")"@,
    }
}

/// No NUL stands among the digits of a number.
proof fn lemma_decimal_has_no_nul(value: nat)
    ensures
        !decimal(value).contains('\0'),
    decreases value,
{
    if value >= 10 {
        lemma_decimal_has_no_nul(value / 10);
        let head = decimal(value / 10);
        if decimal(value).contains('\0') {
            let i = choose|i: int| 0 <= i < decimal(value).len() && decimal(value)[i] == '\0';
            if i < head.len() {
                assert(head[i] == '\0');
            }
        }
    }
}

/// Two texts without NUL make one without NUL.
proof fn lemma_joined_has_no_nul(first: Seq<char>, second: Seq<char>)
    requires
        !first.contains('\0'),
        !second.contains('\0'),
    ensures
        !(first + second).contains('\0'),
{
    let joined = first + second;
    if joined.contains('\0') {
        let i = choose|i: int| 0 <= i < joined.len() && joined[i] == '\0';
        if i < first.len() {
            assert(first[i] == '\0');
        } else {
            assert(second[i - first.len()] == '\0');
        }
    }
}

/// The message of [`wrong_block`] can be sent: it holds no NUL.
pub proof fn lemma_wrong_block_encodable(expected: Block, got: Block)
    ensures
        Packet::<Error>::encodable(wrong_block(expected, got)),
{
    reveal_strlit("expected ACK for ");
    reveal_strlit(" but got ACK for Block(");
    reveal_strlit(")");
    lemma_decimal_has_no_nul(expected.0 as nat);
    lemma_decimal_has_no_nul(got.0 as nat);
    let first = "expected ACK for "@ + decimal(expected.0 as nat);
    lemma_joined_has_no_nul("expected ACK for "@, decimal(expected.0 as nat));
    lemma_joined_has_no_nul(first, " but got ACK for Block("@);
    let second = first + " but got ACK for Block("@;
    lemma_joined_has_no_nul(second, decimal(got.0 as nat));
    lemma_joined_has_no_nul(second + decimal(got.0 as nat), ")"@);
}

fn digit_text(value: u16) -> (text: &'static str)
    requires
        value < 10,
    ensures
        text@ == seq![digit(value as nat)],
{
    proof {
        reveal_strlit("0");
        reveal_strlit("1");
        reveal_strlit("2");
        reveal_strlit("3");
        reveal_strlit("4");
        reveal_strlit("5");
        reveal_strlit("6");
        reveal_strlit("7");
        reveal_strlit("8");
        reveal_strlit("9");
    }
    let text = match value {
        0 => "0",
        1 => "1",
        2 => "2",
        3 => "3",
        4 => "4",
        5 => "5",
        6 => "6",
        7 => "7",
        8 => "8",
        _ => "9",
    };
    assert(text@ =~= seq![digit(value as nat)]);
    text
}

fn push_decimal(text: &mut String, value: u16)
    ensures
        final(text)@ == old(text)@ + decimal(value as nat),
    decreases value,
{
    if value >= 10 {
        push_decimal(text, value / 10);
    }
    text.append(digit_text(value % 10));
    assert(text@ =~= old(text)@ + decimal(value as nat));
}

/// Ends a transfer on an ack for another block than the one that was sent:
/// the peer is sent the error [`wrong_block`], and the same is reported.
fn mismatch(expected: Block, got: Block) -> (rejection: Rejection)
    ensures
        rejection@ == (RejectionView {
            reply: Some(Packet::<Error>::encoding(wrong_block(expected, got))),
            error: wrong_block(expected, got).failure(),
        }),
{
    let mut message = String::new();
    message.append("expected ACK for ");
    push_decimal(&mut message, expected.0);
    message.append(" but got ACK for Block(");
    push_decimal(&mut message, got.0);
    message.append(")");
    proof {
        lemma_wrong_block_encodable(expected, got);
        assert(message@ =~= wrong_block(expected, got).message);
    }
    let reply = Packet::error(Code::IllegalOperation, message.as_str()).into_bytes();
    let error = Packet::error(Code::IllegalOperation, message.as_str()).into_failure();
    Rejection { reply: Some(reply), error }
}

/// Sender and receiver understand each other: the data packet that a
/// sender makes for a block is the one that a receiver reads as that block,
/// the ack that the receiver makes for it is the one that the sender reads
/// as the ack for that block, and neither takes the other's packet for an
/// error.
pub proof fn lemma_lock_step(block: Block, payload: Seq<u8>)
    requires
        payload.len() <= MAX_PAYLOAD_SIZE,
    ensures
        Packet::<Data>::decoding(
            Packet::<Data>::encoding(DataView { block, data: payload }),
        ) == Some(DataView { block, data: payload }),
        Packet::<Ack>::decoding(Packet::<Ack>::encoding(block)) == Some(block),
        Packet::<Error>::decoding(Packet::<Data>::encoding(DataView { block, data: payload }))
            is None,
        Packet::<Error>::decoding(Packet::<Ack>::encoding(block)) is None,
{
    lemma_packet_round_trip::<Data>(DataView { block, data: payload });
    lemma_packet_round_trip::<Ack>(block);
    lemma_packet_types_are_apart::<Data, Error>(DataView { block, data: payload });
    lemma_packet_types_are_apart::<Ack, Error>(block);
}

/// With a limit of `most`, the deadlines that pass after `count` earlier
/// retransmissions lead to one more exactly while `count` is below `most`:
/// a limit of 0 ends the transfer at the first passed deadline. Without a
/// limit every passed deadline leads to one more.
pub proof fn lemma_retransmission_limit(most: usize, error: FailureView, count: usize)
    requires
        error.kind.timed_out(),
    ensures
        retransmission(Some(most), error, count) is None <==> count < most,
        retransmission(Some(0), error, count) is Some,
        retransmission(None, error, count) is None,
{
}

/// How a transfer ends when the file cannot be read or written: the peer is
/// sent an error with the code for the failure's kind and the failure's
/// text, and the failure is reported as it is.
pub open spec fn stream_failure(error: FailureView) -> RejectionView {
    RejectionView {
        reply: Some(
            Packet::<Error>::encoding(
                ErrorView { code: Code::of_kind(error.kind), message: error.message },
            ),
        ),
        error,
    }
}

fn stream_failed(error: Failure) -> (rejection: Rejection)
    requires
        Bytes::<String>::encodable(error@.message),
    ensures
        rejection@ == stream_failure(error@),
{
    let reply = Packet::error(Code::from(error.kind), error.message.as_str()).into_bytes();
    Rejection { reply: Some(reply), error }
}

/// True when a count of retransmissions is within the limit, if there is
/// one.
pub open spec fn within(limit: Option<usize>, retransmissions: usize) -> bool {
    limit matches Some(most) ==> retransmissions <= most
}

/// The settings of one transfer.
#[derive(Clone, Copy, Debug, PartialEq, Eq)]
pub struct Connection {
    max_retransmissions: Option<usize>,
}

impl Connection {
    /// How many retransmissions the transfer allows; `None` for any number.
    pub closed spec fn limit(&self) -> Option<usize> {
        self.max_retransmissions
    }

    /// Creates the settings of a transfer that gives up after
    /// `max_retransmissions` retransmissions, or never where that is `None`.
    pub fn new(max_retransmissions: Option<usize>) -> (connection: Self)
        ensures
            connection.limit() == max_retransmissions,
    {
        Self { max_retransmissions }
    }

    /// How many retransmissions the transfer allows; `None` for any number.
    pub fn max_retransmissions(&self) -> (limit: Option<usize>)
        ensures
            limit == self.limit(),
    {
        self.max_retransmissions
    }

    /// Decides what follows a failed wait for a datagram: `Ok` where the
    /// last packet is to be sent again, else the end of the transfer, as
    /// [`retransmission`] says. A passed deadline is counted in
    /// `current_retransmissions`.
    pub fn check_retransmission(
        &self,
        error: Failure,
        current_retransmissions: &mut usize,
    ) -> (r: Result<(), Rejection>)
        ensures
            match retransmission(self.limit(), error@, *old(current_retransmissions)) {
                Some(rejection) => r matches Err(ended) && ended@ == rejection,
                None => r is Ok,
            },
            *final(current_retransmissions) == (if error@.kind.timed_out() {
                bumped(*old(current_retransmissions))
            } else {
                *old(current_retransmissions)
            }),
    {
        if !error.kind.is_timeout() {
            return Err(Rejection { reply: None, error });
        }
        let before = *current_retransmissions;
        if before < usize::MAX {
            *current_retransmissions = before + 1;
        }
        if let Some(max_retransmissions) = self.max_retransmissions {
            if before >= max_retransmissions {
                proof {
                    reveal_strlit("exceeded max retransmissions");
                }
                let reply = Packet::error(
                    Code::NotDefined,
                    "exceeded max retransmissions",
                ).into_bytes();
                return Err(Rejection { reply: Some(reply), error });
            }
        }
        Ok(())
    }

    /// Starts a transfer that receives a file. No block is acknowledged
    /// yet and nothing was retransmitted.
    pub fn get(self) -> (receiver: Receiver)
        ensures
            receiver@ == (ReceiverView {
                limit: self.limit(),
                last_block: None,
                retransmissions: 0,
            }),
    {
        Receiver { connection: self, last_block: None, retransmissions: 0 }
    }

    /// Starts a transfer that sends a file. The first block has the number
    /// 1 and nothing was retransmitted.
    pub fn put(self) -> (sender: Sender)
        ensures
            sender@ == (SenderView {
                limit: self.limit(),
                current_block: Block(1),
                retransmissions: 0,
            }),
    {
        Sender { connection: self, current_block: Block::new(1), retransmissions: 0 }
    }
}

impl ExpectPacket for Connection {
    fn expect_packet<P: sealed::Packet>(&self, bytes: &[u8]) -> (r: Result<Packet<P>, Rejection>) {
        expected(bytes)
    }
}

/// What follows a failed wait for a datagram.
#[derive(Debug, PartialEq, Eq)]
pub enum Retry<S> {
    /// Send `packet` once more, then wait again in `state`.
    Resend {
        /// The bytes to send once more.
        packet: Vec<u8>,
        /// The state in which to wait for the answer.
        state: S,
    },
    /// The transfer ends.
    Abort(Rejection),
}

/// A receiving transfer that waits for the next data block.
#[derive(Debug, PartialEq, Eq)]
pub struct Receiver {
    connection: Connection,
    last_block: Option<Block>,
    retransmissions: usize,
}

/// The mathematical value of a [`Receiver`].
pub ghost struct ReceiverView {
    /// How many retransmissions are allowed; `None` for any number.
    pub limit: Option<usize>,
    /// The block that was acknowledged last, if any was.
    pub last_block: Option<Block>,
    /// How often the last acknowledgement was sent again.
    pub retransmissions: usize,
}

impl View for Receiver {
    type V = ReceiverView;

    closed spec fn view(&self) -> ReceiverView {
        ReceiverView {
            limit: self.connection.limit(),
            last_block: self.last_block,
            retransmissions: self.retransmissions,
        }
    }
}

/// What follows a datagram that reached a receiving transfer.
#[derive(Debug, PartialEq, Eq)]
pub enum Received {
    /// A data block came. Write `payload` to the file, then tell `pending`
    /// how that went.
    Write {
        /// The bytes to write to the file.
        payload: Vec<u8>,
        /// The state that waits for the outcome of the write.
        pending: PendingAck,
    },
    /// The transfer ends.
    Abort(Rejection),
}

/// A receiving transfer whose latest block is being written to the file and
/// is not acknowledged yet.
#[derive(Debug, PartialEq, Eq)]
pub struct PendingAck {
    connection: Connection,
    block: Block,
    last: bool,
}

/// The mathematical value of a [`PendingAck`].
pub ghost struct PendingAckView {
    /// How many retransmissions are allowed; `None` for any number.
    pub limit: Option<usize>,
    /// The block that is being written.
    pub block: Block,
    /// Whether that block ends the transfer.
    pub last: bool,
}

impl View for PendingAck {
    type V = PendingAckView;

    closed spec fn view(&self) -> PendingAckView {
        PendingAckView { limit: self.connection.limit(), block: self.block, last: self.last }
    }
}

/// What follows a block that was written to the file.
#[derive(Debug, PartialEq, Eq)]
pub enum Acknowledged {
    /// Send `ack`, then wait for the next block in `receiver`.
    More {
        /// The bytes of the acknowledgement.
        ack: Vec<u8>,
        /// The state that waits for the next block.
        receiver: Receiver,
    },
    /// Send `ack`; with that the file is received.
    Complete {
        /// The bytes of the acknowledgement.
        ack: Vec<u8>,
    },
}

impl Receiver {
    /// A receiver never holds more retransmissions than its limit allows.
    #[verifier::type_invariant]
    spec fn well_formed(&self) -> bool {
        within(self.connection.limit(), self.retransmissions)
    }

    /// The block that was acknowledged last, if any was.
    pub fn last_block(&self) -> (block: Option<Block>)
        ensures
            block == self@.last_block,
    {
        self.last_block
    }

    /// How often the last acknowledgement was sent again: never more often
    /// than the limit allows.
    pub fn retransmissions(&self) -> (count: usize)
        ensures
            count == self@.retransmissions,
            within(self@.limit, count),
    {
        proof {
            use_type_invariant(self);
        }
        self.retransmissions
    }

    /// Takes a datagram. Where it is a data packet, its payload is handed
    /// out to be written, whatever its block number; the block counts as the
    /// last one where the payload is shorter than 512 bytes. Where it is
    /// none, the transfer ends as [`unexpected`] says.
    pub fn datagram(self, bytes: &[u8]) -> (r: Received)
        ensures
            match Packet::<Data>::decoding(bytes@) {
                Some(data) => r matches Received::Write { payload, pending } && payload@
                    == data.data && pending@ == (PendingAckView {
                    limit: self@.limit,
                    block: data.block,
                    last: data.is_last(),
                }),
                None => r matches Received::Abort(rejection) && rejection@ == unexpected(bytes@),
            },
    {
        match self.connection.expect_packet::<Data>(bytes) {
            Ok(packet) => {
                let data = packet.into_body();
                let last = data.data.len() < MAX_PAYLOAD_SIZE;
                Received::Write {
                    payload: data.data,
                    pending: PendingAck { connection: self.connection, block: data.block, last },
                }
            },
            Err(rejection) => Received::Abort(rejection),
        }
    }

    /// Takes the failure of a wait for a datagram. Before the first
    /// acknowledgement there is nothing to send again: the transfer ends and
    /// the failure is reported as it is. After it, [`retransmission`]
    /// decides between the end of the transfer and sending the last
    /// acknowledgement once more.
    pub fn recv_failed(self, error: Failure) -> (r: Retry<Receiver>)
        ensures
            match self@.last_block {
                None => r matches Retry::Abort(rejection) && rejection@ == (RejectionView {
                    reply: None,
                    error: error@,
                }),
                Some(block) => match retransmission(
                    self@.limit,
                    error@,
                    self@.retransmissions,
                ) {
                    Some(ended) => r matches Retry::Abort(rejection) && rejection@ == ended,
                    None => r matches Retry::Resend { packet, state } && packet@ == Packet::<
                        Ack,
                    >::encoding(block) && state@ == (ReceiverView {
                        retransmissions: bumped(self@.retransmissions),
                        ..self@
                    }),
                },
            },
    {
        let block = match self.last_block {
            Some(block) => block,
            None => {
                return Retry::Abort(Rejection { reply: None, error });
            },
        };
        let mut retransmissions = self.retransmissions;
        match self.connection.check_retransmission(error, &mut retransmissions) {
            Ok(()) => Retry::Resend {
                packet: Packet::ack(block).into_bytes(),
                state: Receiver {
                    connection: self.connection,
                    last_block: self.last_block,
                    retransmissions,
                },
            },
            Err(rejection) => Retry::Abort(rejection),
        }
    }
}

impl PendingAck {
    /// The block that is being written.
    pub fn block(&self) -> (block: Block)
        ensures
            block == self@.block,
    {
        self.block
    }

    /// The block is written: it is acknowledged, and the count of
    /// retransmissions starts again at 0. The transfer is complete where
    /// the block was the last one.
    pub fn written(self) -> (r: Acknowledged)
        ensures
            if self@.last {
                r matches Acknowledged::Complete { ack } && ack@ == Packet::<Ack>::encoding(
                    self@.block,
                )
            } else {
                r matches Acknowledged::More { ack, receiver } && ack@ == Packet::<
                    Ack,
                >::encoding(self@.block) && receiver@ == (ReceiverView {
                    limit: self@.limit,
                    last_block: Some(self@.block),
                    retransmissions: 0,
                })
            },
    {
        let ack = Packet::ack(self.block).into_bytes();
        if self.last {
            Acknowledged::Complete { ack }
        } else {
            Acknowledged::More {
                ack,
                receiver: Receiver {
                    connection: self.connection,
                    last_block: Some(self.block),
                    retransmissions: 0,
                },
            }
        }
    }

    /// Writing the block failed: the transfer ends as [`stream_failure`]
    /// says, without an acknowledgement.
    pub fn failed(self, error: Failure) -> (rejection: Rejection)
        requires
            Bytes::<String>::encodable(error@.message),
        ensures
            rejection@ == stream_failure(error@),
    {
        stream_failed(error)
    }
}

/// A sending transfer that is ready for the next piece of the file.
#[derive(Debug, PartialEq, Eq)]
pub struct Sender {
    connection: Connection,
    current_block: Block,
    retransmissions: usize,
}

/// The mathematical value of a [`Sender`].
pub ghost struct SenderView {
    /// How many retransmissions are allowed; `None` for any number.
    pub limit: Option<usize>,
    /// The number that the next block gets.
    pub current_block: Block,
    /// How often a block was sent again since the transfer began.
    pub retransmissions: usize,
}

impl View for Sender {
    type V = SenderView;

    closed spec fn view(&self) -> SenderView {
        SenderView {
            limit: self.connection.limit(),
            current_block: self.current_block,
            retransmissions: self.retransmissions,
        }
    }
}

/// A sending transfer whose latest block is sent and not acknowledged yet.
#[derive(Debug, PartialEq, Eq)]
pub struct AwaitingAck {
    connection: Connection,
    current_block: Block,
    retransmissions: usize,
    packet: Vec<u8>,
    last: bool,
}

/// The mathematical value of an [`AwaitingAck`].
pub ghost struct AwaitingAckView {
    /// How many retransmissions are allowed; `None` for any number.
    pub limit: Option<usize>,
    /// The number of the block that waits for its acknowledgement.
    pub current_block: Block,
    /// How often a block was sent again since the transfer began.
    pub retransmissions: usize,
    /// The bytes of the data packet that carries the block.
    pub packet: Seq<u8>,
    /// Whether the block ends the transfer.
    pub last: bool,
}

impl View for AwaitingAck {
    type V = AwaitingAckView;

    closed spec fn view(&self) -> AwaitingAckView {
        AwaitingAckView {
            limit: self.connection.limit(),
            current_block: self.current_block,
            retransmissions: self.retransmissions,
            packet: self.packet@,
            last: self.last,
        }
    }
}

/// What follows a datagram that reached a sending transfer.
#[derive(Debug, PartialEq, Eq)]
pub enum Sent {
    /// The block is acknowledged: read the next piece of the file and hand
    /// it to the sender.
    More(Sender),
    /// The last block is acknowledged; with that the file is sent.
    Complete,
    /// The transfer ends.
    Abort(Rejection),
}

impl Sender {
    /// A sender never holds more retransmissions than its limit allows.
    #[verifier::type_invariant]
    spec fn well_formed(&self) -> bool {
        within(self.connection.limit(), self.retransmissions)
    }

    /// The number that the next block gets.
    pub fn current_block(&self) -> (block: Block)
        ensures
            block == self@.current_block,
    {
        self.current_block
    }

    /// How often a block was sent again since the transfer began: never
    /// more often than the limit allows.
    pub fn retransmissions(&self) -> (count: usize)
        ensures
            count == self@.retransmissions,
            within(self@.limit, count),
    {
        proof {
            use_type_invariant(self);
        }
        self.retransmissions
    }

    /// Takes the next piece of the file, at most 512 bytes, and makes the
    /// data packet that carries it under the current block number. A piece
    /// of fewer than 512 bytes is the last one.
    pub fn chunk(self, payload: &[u8]) -> (awaiting: AwaitingAck)
        requires
            payload@.len() <= MAX_PAYLOAD_SIZE,
        ensures
            awaiting@ == (AwaitingAckView {
                limit: self@.limit,
                current_block: self@.current_block,
                retransmissions: self@.retransmissions,
                packet: Packet::<Data>::encoding(
                    DataView { block: self@.current_block, data: payload@ },
                ),
                last: payload@.len() < MAX_PAYLOAD_SIZE,
            }),
    {
        proof {
            use_type_invariant(&self);
        }
        let packet = Packet::data(self.current_block, payload).into_bytes();
        AwaitingAck {
            connection: self.connection,
            current_block: self.current_block,
            retransmissions: self.retransmissions,
            packet,
            last: payload.len() < MAX_PAYLOAD_SIZE,
        }
    }

    /// Reading the file failed: the transfer ends as [`stream_failure`]
    /// says.
    pub fn read_failed(self, error: Failure) -> (rejection: Rejection)
        requires
            Bytes::<String>::encodable(error@.message),
        ensures
            rejection@ == stream_failure(error@),
    {
        stream_failed(error)
    }
}

impl AwaitingAck {
    /// A sender never holds more retransmissions than its limit allows.
    #[verifier::type_invariant]
    spec fn well_formed(&self) -> bool {
        within(self.connection.limit(), self.retransmissions)
    }

    /// How often a block was sent again since the transfer began: never
    /// more often than the limit allows.
    pub fn retransmissions(&self) -> (count: usize)
        ensures
            count == self@.retransmissions,
            within(self@.limit, count),
    {
        proof {
            use_type_invariant(self);
        }
        self.retransmissions
    }

    /// The bytes of the data packet to send.
    pub fn packet(&self) -> (packet: &[u8])
        ensures
            packet@ == self@.packet,
    {
        self.packet.as_slice()
    }

    /// The number of the block that waits for its acknowledgement.
    pub fn current_block(&self) -> (block: Block)
        ensures
            block == self@.current_block,
    {
        self.current_block
    }

    /// Takes a datagram. Where it is no ack packet, the transfer ends as
    /// [`unexpected`] says. An ack for another block than the current one
    /// is a breach of the protocol: the peer is sent the error
    /// [`wrong_block`] and the same is reported. The ack for the current block
    /// completes the transfer where the block was the last one; otherwise
    /// the block number moves on by one, from 65535 to 0.
    pub fn datagram(self, bytes: &[u8]) -> (r: Sent)
        ensures
            match Packet::<Ack>::decoding(bytes@) {
                None => r matches Sent::Abort(rejection) && rejection@ == unexpected(bytes@),
                Some(block) => if block != self@.current_block {
                    r matches Sent::Abort(rejection) && rejection@ == (RejectionView {
                        reply: Some(
                            Packet::<Error>::encoding(wrong_block(self@.current_block, block)),
                        ),
                        error: wrong_block(self@.current_block, block).failure(),
                    })
                } else if self@.last {
                    r is Complete
                } else {
                    r matches Sent::More(sender) && sender@ == (SenderView {
                        limit: self@.limit,
                        current_block: self@.current_block.successor(),
                        retransmissions: self@.retransmissions,
                    })
                },
            },
    {
        proof {
            use_type_invariant(&self);
        }
        let ack = match self.connection.expect_packet::<Ack>(bytes) {
            Ok(ack) => ack,
            Err(rejection) => {
                return Sent::Abort(rejection);
            },
        };
        if ack.body().block() != self.current_block {
            return Sent::Abort(mismatch(self.current_block, ack.body().block()));
        }
        if self.last {
            Sent::Complete
        } else {
            Sent::More(
                Sender {
                    connection: self.connection,
                    current_block: self.current_block.next(),
                    retransmissions: self.retransmissions,
                },
            )
        }
    }

    /// Takes the failure of a wait for a datagram: [`retransmission`]
    /// decides between the end of the transfer and sending the same data
    /// packet once more.
    pub fn recv_failed(self, error: Failure) -> (r: Retry<AwaitingAck>)
        ensures
            match retransmission(self@.limit, error@, self@.retransmissions) {
                Some(ended) => r matches Retry::Abort(rejection) && rejection@ == ended,
                None => r matches Retry::Resend { packet, state } && packet@ == self@.packet
                    && state@ == (AwaitingAckView {
                    retransmissions: bumped(self@.retransmissions),
                    ..self@
                }),
            },
    {
        let mut retransmissions = self.retransmissions;
        match self.connection.check_retransmission(error, &mut retransmissions) {
            Ok(()) => Retry::Resend {
                packet: slice_to_vec(self.packet.as_slice()),
                state: AwaitingAck {
                    connection: self.connection,
                    current_block: self.current_block,
                    retransmissions,
                    packet: self.packet,
                    last: self.last,
                },
            },
            Err(rejection) => Retry::Abort(rejection),
        }
    }
}

} // verus!
