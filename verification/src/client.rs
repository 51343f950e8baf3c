//! The client's side of the handshake that opens a transfer.
//!
//! A client sends a request to the server's well-known address. The answer
//! comes from the address that the server has picked for this transfer,
//! and the rest of the transfer goes to that address.

use vstd::prelude::*;

use crate::bytes::{Bytes, FromBytes, IntoBytes};
use crate::connection::{Connection, Receiver, ReceiverView, Sender, SenderView};
use crate::failure::{Rejection, RejectionView};
use crate::packet::error::Error;
use crate::packet::expect::{illegal, illegal_operation, unexpected, ExpectPacket};
use crate::packet::rq::RqView;
use crate::packet::{Ack, Block, Mode, Packet, Rrq, Wrq};
use crate::RetransmissionConfig;

verus! {

/// Represents a single connection with a TFTP server.
#[derive(Debug, Clone, Copy, PartialEq, Eq)]
pub struct Client {
    retransmission_config: RetransmissionConfig,
}

/// A client that has sent a write request and waits for the server to
/// accept it.
#[derive(Debug, PartialEq, Eq)]
pub struct Handshake {
    connection: Connection,
}

impl Handshake {
    /// How many retransmissions the transfer will allow; `None` for any
    /// number.
    pub closed spec fn limit(&self) -> Option<usize> {
        self.connection.limit()
    }

    /// Takes the server's answer to the write request. The server accepts
    /// with an ack for block 0, after which the file can be sent from block
    /// 1 on. Where the answer is no ack packet, the transfer ends as
    /// [`unexpected`] says; an ack for another block is a breach of the
    /// protocol, which is answered with an "illegal operation" error and
    /// reported as the same.
    pub fn reply(self, bytes: &[u8]) -> (r: Result<Sender, Rejection>)
        ensures
            match Packet::<Ack>::decoding(bytes@) {
                None => r matches Err(rejection) && rejection@ == unexpected(bytes@),
                Some(block) => if block == Block(0) {
                    r matches Ok(sender) && sender@ == (SenderView {
                        limit: self.limit(),
                        current_block: Block(1),
                        retransmissions: 0,
                    })
                } else {
                    r matches Err(rejection) && rejection@ == (RejectionView {
                        reply: Some(Packet::<Error>::encoding(illegal_operation())),
                        error: illegal_operation().failure(),
                    })
                },
            },
    {
        let ack = match self.connection.expect_packet::<Ack>(bytes) {
            Ok(ack) => ack,
            Err(rejection) => {
                return Err(rejection);
            },
        };
        if ack.body().block() != Block::new(0) {
            return Err(illegal());
        }
        Ok(self.connection.put())
    }
}

impl Client {
    /// The configuration that the client was made with.
    pub closed spec fn config(&self) -> RetransmissionConfig {
        self.retransmission_config
    }

    /// Creates a client that retransmits as `retransmission_config` says.
    pub fn new(retransmission_config: RetransmissionConfig) -> (client: Self)
        ensures
            client.config() == retransmission_config,
    {
        Self { retransmission_config }
    }

    /// Retrieves a file from the remote server: returns the bytes of the
    /// read request to send to the server, and the transfer that receives
    /// the file.
    pub fn get(self, file: &str, mode: Mode) -> (r: (Vec<u8>, Receiver))
        requires
            Bytes::<String>::encodable(file@),
        ensures
            r.0@ == Packet::<Rrq>::encoding(RqView { filename: file@, mode }),
            r.1@ == (ReceiverView {
                limit: self.config().most_retransmissions(),
                last_block: None,
                retransmissions: 0,
            }),
    {
        let request = Packet::rrq(file, mode).into_bytes();
        let connection = Connection::new(self.retransmission_config.max_retransmissions());
        (request, connection.get())
    }

    /// Stores a file on the remote server: returns the bytes of the write
    /// request to send to the server, and the state that waits for the
    /// server to accept it.
    pub fn put(self, file: &str, mode: Mode) -> (r: (Vec<u8>, Handshake))
        requires
            Bytes::<String>::encodable(file@),
        ensures
            r.0@ == Packet::<Wrq>::encoding(RqView { filename: file@, mode }),
            r.1.limit() == self.config().most_retransmissions(),
    {
        let request = Packet::wrq(file, mode).into_bytes();
        let connection = Connection::new(self.retransmission_config.max_retransmissions());
        (request, Handshake { connection })
    }
}

} // verus!
