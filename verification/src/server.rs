//! The server's side: admitting requests and opening their transfers.
//!
//! A server listens on a well-known address. For each datagram that arrives
//! there, [`Server::serve`] decides whether it opens a transfer. The caller
//! then gives the transfer a socket of its own, opens the file that the
//! request names, and tells [`Handler::handle`] how that went. When the
//! transfer is over, [`Server::release`] frees the client's address for the
//! next request.

use vstd::prelude::*;

use crate::bytes::{FromBytes, IntoBytes};
use crate::connection::{Connection, Receiver, ReceiverView, Sender, SenderView};
use crate::failure::{ErrorKind, Failure, FailureView, Rejection, RejectionView};
use crate::packet::error::{Code, Error, ErrorView};
use crate::packet::expect::illegal_operation;
use crate::packet::rq::RqView;
use crate::packet::{
    lemma_packet_round_trip, lemma_packet_types_are_apart, Ack, Block, Packet, Rrq, Wrq,
};
use crate::RetransmissionConfig;

verus! {

/// The address and port from which one side of a transfer sends: its
/// transfer identifier.
#[derive(Clone, Copy, Debug, PartialEq, Eq, Hash, Structural)]
pub enum TransferId {
    /// An IPv4 address and a port.
    V4 {
        /// The four bytes of the address as one number.
        ip: u32,
        /// The port.
        port: u16,
    },
    /// An IPv6 address and a port.
    V6 {
        /// The sixteen bytes of the address as one number.
        segments: u128,
        /// The port.
        port: u16,
        /// The flow label.
        flowinfo: u32,
        /// The scope of the address.
        scope_id: u32,
    },
}

/// The clients that have a transfer under way, as a set.
#[derive(Debug)]
pub struct ActiveClients {
    ids: Vec<TransferId>,
}

impl View for ActiveClients {
    type V = Set<TransferId>;

    closed spec fn view(&self) -> Set<TransferId> {
        self.ids@.to_set()
    }
}

impl ActiveClients {
    /// Creates an empty set.
    pub fn new() -> (clients: Self)
        ensures
            clients@ == Set::<TransferId>::empty(),
    {
        let clients = Self { ids: Vec::new() };
        assert(clients.ids@.to_set() =~= Set::<TransferId>::empty());
        clients
    }

    /// Tells whether `id` has a transfer under way.
    pub fn contains(&self, id: TransferId) -> (found: bool)
        ensures
            found == self@.contains(id),
    {
        let mut index: usize = 0;
        while index < self.ids.len()
            invariant
                index <= self.ids@.len(),
                forall|j: int| 0 <= j < index ==> self.ids@[j] != id,
            decreases self.ids@.len() - index,
        {
            if self.ids[index] == id {
                return true;
            }
            index += 1;
        }
        false
    }

    /// Adds `id` to the set. Returns whether it was new; where it was not,
    /// the set stays as it is.
    pub fn insert(&mut self, id: TransferId) -> (fresh: bool)
        ensures
            fresh == !old(self)@.contains(id),
            final(self)@ == old(self)@.insert(id),
    {
        if self.contains(id) {
            assert(self.ids@.to_set().insert(id) =~= self.ids@.to_set());
            return false;
        }
        let ghost before = self.ids@;
        self.ids.push(id);
        assert(self.ids@.to_set() =~= before.to_set().insert(id)) by {
            assert forall|other: TransferId|
                self.ids@.contains(other) <==> (other == id || before.contains(other)) by {
                if before.contains(other) {
                    let j = choose|j: int| 0 <= j < before.len() && before[j] == other;
                    assert(self.ids@[j] == other);
                }
                if other == id {
                    assert(self.ids@[before.len() as int] == id);
                }
            }
        }
        true
    }

    /// Takes `id` out of the set. Returns whether it was there.
    pub fn remove(&mut self, id: TransferId) -> (found: bool)
        ensures
            found == old(self)@.contains(id),
            final(self)@ == old(self)@.remove(id),
    {
        let mut kept: Vec<TransferId> = Vec::new();
        let mut found = false;
        let mut index: usize = 0;
        while index < self.ids.len()
            invariant
                index <= self.ids@.len(),
                found == self.ids@.take(index as int).contains(id),
                forall|other: TransferId|
                    kept@.contains(other) <==> (other != id && self.ids@.take(
                        index as int,
                    ).contains(other)),
            decreases self.ids@.len() - index,
        {
            let current = self.ids[index];
            let ghost seen = self.ids@.take(index as int);
            let ghost next = self.ids@.take(index + 1);
            let ghost kept_before = kept@;
            assert(next =~= seen.push(current));
            if current == id {
                found = true;
            } else {
                kept.push(current);
            }
            proof {
                assert(found == next.contains(id)) by {
                    if seen.contains(id) {
                        let j = choose|j: int| 0 <= j < seen.len() && seen[j] == id;
                        assert(next[j] == id);
                    }
                    if current == id {
                        assert(next[seen.len() as int] == id);
                    }
                }
                assert forall|other: TransferId|
                    next.contains(other) <==> (other == current || seen.contains(other)) by {
                    if seen.contains(other) {
                        let j = choose|j: int| 0 <= j < seen.len() && seen[j] == other;
                        assert(next[j] == other);
                    }
                    if other == current {
                        assert(next[seen.len() as int] == current);
                    }
                }
                if current != id {
                    assert forall|other: TransferId|
                        kept@.contains(other) <==> (other == current || kept_before.contains(
                            other,
                        )) by {
                        if kept_before.contains(other) {
                            let j = choose|j: int|
                                0 <= j < kept_before.len() && kept_before[j] == other;
                            assert(kept@[j] == other);
                        }
                        if other == current {
                            assert(kept@[kept_before.len() as int] == current);
                        }
                    }
                }
                assert forall|other: TransferId|
                    kept@.contains(other) <==> (other != id && next.contains(other)) by {
                    assert(kept_before.contains(other) <==> (other != id && seen.contains(
                        other,
                    )));
                    assert(next.contains(other) <==> (other == current || seen.contains(other)));
                    if current != id {
                        assert(kept@.contains(other) <==> (other == current
                            || kept_before.contains(other)));
                    }
                }
            }
            index += 1;
        }
        assert(self.ids@.take(index as int) =~= self.ids@);
        assert(kept@.to_set() =~= self.ids@.to_set().remove(id));
        self.ids = kept;
        found
    }
}

/// What a request asks the server to do.
#[derive(Debug, PartialEq, Eq)]
pub enum Direction {
    /// The client wants to receive a file.
    Get(Packet<Rrq>),
    /// The client wants to transmit a file.
    Put(Packet<Wrq>),
}

impl Direction {
    /// What the request asks for.
    pub open spec fn request(self) -> RqView {
        match self {
            Direction::Get(rrq) => rrq@,
            Direction::Put(wrq) => wrq@,
        }
    }
}

/// How the file that a request names is to be opened.
#[derive(Clone, Copy, Debug, PartialEq, Eq, Structural)]
pub enum Access {
    /// Open the file that exists, to read it.
    Read,
    /// Create the file, to write it; fail where it exists already.
    CreateNew,
}

/// A TFTP server: its configuration and the clients that it serves at the
/// moment.
#[derive(Debug)]
pub struct Server {
    retransmission_config: RetransmissionConfig,
    active_clients: ActiveClients,
}

/// What a datagram asks of the server: to read the file that it names, or
/// to create it; `None` where the datagram is neither a read nor a write
/// request.
pub open spec fn request_of(datagram: Seq<u8>) -> Option<(Access, RqView)> {
    match Packet::<Rrq>::decoding(datagram) {
        Some(request) => Some((Access::Read, request)),
        None => match Packet::<Wrq>::decoding(datagram) {
            Some(request) => Some((Access::CreateNew, request)),
            None => None,
        },
    }
}

/// A server understands what a client asks: the read request for a file is
/// read as a request to read that file, the write request as a request to
/// create it.
pub proof fn lemma_request_is_understood(request: RqView)
    requires
        Packet::<Rrq>::encodable(request),
    ensures
        request_of(Packet::<Rrq>::encoding(request)) == Some((Access::Read, request)),
        request_of(Packet::<Wrq>::encoding(request)) == Some((Access::CreateNew, request)),
{
    lemma_packet_round_trip::<Rrq>(request);
    lemma_packet_round_trip::<Wrq>(request);
    lemma_packet_types_are_apart::<Wrq, Rrq>(request);
}

/// How a request that is neither a read nor a write request is turned
/// down: the sender gets an "illegal operation" error, and the caller
/// learns of invalid input.
pub open spec fn malformed_request() -> RejectionView {
    RejectionView {
        reply: Some(Packet::<Error>::encoding(illegal_operation())),
        error: FailureView {
            kind: ErrorKind::InvalidInput,
            message: Code::IllegalOperation.description(),
        },
    }
}

/// How a request is turned down whose sender has a transfer under way:
/// nothing is sent, and the caller learns that the address is not
/// available.
pub open spec fn duplicate_request() -> RejectionView {
    RejectionView {
        reply: None,
        error: FailureView { kind: ErrorKind::AddrNotAvailable, message: "Client TID taken."@ },
    }
}

impl Server {
    /// The configuration that the server was made with.
    pub closed spec fn config(&self) -> RetransmissionConfig {
        self.retransmission_config
    }

    /// The clients that have a transfer under way.
    pub closed spec fn active(&self) -> Set<TransferId> {
        self.active_clients@
    }

    /// Creates a server that serves no client yet and retransmits as
    /// `retransmission_config` says.
    pub fn new(retransmission_config: RetransmissionConfig) -> (server: Self)
        ensures
            server.config() == retransmission_config,
            server.active() == Set::<TransferId>::empty(),
    {
        Self { retransmission_config, active_clients: ActiveClients::new() }
    }

    /// Tells whether `client` has a transfer under way.
    pub fn is_active(&self, client: TransferId) -> (found: bool)
        ensures
            found == self.active().contains(client),
    {
        self.active_clients.contains(client)
    }

    /// Takes a datagram that `client` sent to the server's well-known
    /// address. It must be a read or a write request, else it is turned
    /// down as [`malformed_request`] says. A request of a client that has a
    /// transfer under way is turned down as [`duplicate_request`] says.
    /// Every other request is accepted: the client is recorded as active
    /// and a handler for the transfer is returned. A request that is turned
    /// down leaves the set of active clients as it was.
    pub fn serve(&mut self, client: TransferId, datagram: &[u8]) -> (r: Result<
        Handler,
        Rejection,
    >)
        ensures
            final(self).config() == old(self).config(),
            match request_of(datagram@) {
                None => r matches Err(rejection) && rejection@ == malformed_request()
                    && final(self).active() == old(self).active(),
                Some((access, request)) => if old(self).active().contains(client) {
                    r matches Err(rejection) && rejection@ == duplicate_request()
                        && final(self).active() == old(self).active()
                } else {
                    r matches Ok(handler) && handler@ == (HandlerView {
                        client,
                        access,
                        request,
                        limit: old(self).config().most_retransmissions(),
                    }) && final(self).active() == old(self).active().insert(client)
                },
            },
    {
        let direction = match Packet::<Rrq>::from_bytes(datagram) {
            Ok(rrq) => Direction::Get(rrq),
            Err(_) => match Packet::<Wrq>::from_bytes(datagram) {
                Ok(wrq) => Direction::Put(wrq),
                Err(_) => {
                    let code = Code::IllegalOperation;
                    proof {
                        code.lemma_description_has_no_nul();
                    }
                    let reply = Packet::error(code, code.as_str()).into_bytes();
                    let error = Failure::new(ErrorKind::InvalidInput, code.as_str());
                    return Err(Rejection { reply: Some(reply), error });
                },
            },
        };
        if !self.active_clients.insert(client) {
            let error = Failure::new(ErrorKind::AddrNotAvailable, "Client TID taken.");
            return Err(Rejection { reply: None, error });
        }
        Ok(
            Handler {
                direction,
                client,
                max_retransmissions: self.retransmission_config.max_retransmissions(),
            },
        )
    }

    /// Records that the transfer of `client` is over, so that its next
    /// request is accepted again.
    pub fn release(&mut self, client: TransferId)
        ensures
            final(self).config() == old(self).config(),
            final(self).active() == old(self).active().remove(client),
    {
        self.active_clients.remove(client);
    }
}

/// Handles a request from a single TFTP client.
#[derive(Debug, PartialEq, Eq)]
pub struct Handler {
    direction: Direction,
    client: TransferId,
    max_retransmissions: Option<usize>,
}

/// The mathematical value of a [`Handler`].
pub ghost struct HandlerView {
    /// The client that sent the request.
    pub client: TransferId,
    /// How the file is to be opened: to be read for a read request, to be
    /// created for a write request.
    pub access: Access,
    /// What the request asks for.
    pub request: RqView,
    /// How many retransmissions the transfer allows; `None` for any number.
    pub limit: Option<usize>,
}

impl View for Handler {
    type V = HandlerView;

    closed spec fn view(&self) -> HandlerView {
        HandlerView {
            client: self.client,
            access: match self.direction {
                Direction::Get(_) => Access::Read,
                Direction::Put(_) => Access::CreateNew,
            },
            request: self.direction.request(),
            limit: self.max_retransmissions,
        }
    }
}

/// The transfer that a handler opens once the file is open.
#[derive(Debug, PartialEq, Eq)]
pub enum Transfer {
    /// Send the file to the client.
    Send(Sender),
    /// Send `ack` to the client to accept its request, then receive the file.
    Receive {
        /// The bytes of the ack for block 0.
        ack: Vec<u8>,
        /// The transfer that receives the file.
        receiver: Receiver,
    },
}

/// How a request ends whose file could not be opened: the client is sent
/// the error for the kind of the failure, and the caller sees that error as
/// a failure.
pub open spec fn open_failure(kind: ErrorKind) -> RejectionView {
    let error = ErrorView { code: Code::of_kind(kind), message: Code::of_kind(kind).description() };
    RejectionView { reply: Some(Packet::<Error>::encoding(error)), error: error.failure() }
}

impl Handler {
    /// The client that sent the request.
    pub fn client(&self) -> (client: TransferId)
        ensures
            client == self@.client,
    {
        self.client
    }

    /// The name of the file that the request is about.
    pub fn filename(&self) -> (filename: &str)
        ensures
            filename@ == self@.request.filename,
    {
        match &self.direction {
            Direction::Get(rrq) => rrq.body().request().filename.as_str(),
            Direction::Put(wrq) => wrq.body().request().filename.as_str(),
        }
    }

    /// How the file is to be opened.
    pub fn access(&self) -> (access: Access)
        ensures
            access == self@.access,
    {
        match &self.direction {
            Direction::Get(_) => Access::Read,
            Direction::Put(_) => Access::CreateNew,
        }
    }

    /// Completes the handshake with the client, given how opening the file
    /// went. Where it failed, the request ends as [`open_failure`] says. A
    /// read request whose file is open starts a transfer that sends it. A
    /// write request whose file is created is accepted with an ack for
    /// block 0, and starts a transfer that receives the file.
    pub fn handle(self, opened: Result<(), ErrorKind>) -> (r: Result<Transfer, Rejection>)
        ensures
            match opened {
                Err(kind) => r matches Err(rejection) && rejection@ == open_failure(kind),
                Ok(_) => match self@.access {
                    Access::Read => r matches Ok(Transfer::Send(sender)) && sender@ == (
                        SenderView {
                            limit: self@.limit,
                            current_block: Block(1),
                            retransmissions: 0,
                        }
                    ),
                    Access::CreateNew => r matches Ok(Transfer::Receive { ack, receiver })
                        && ack@ == Packet::<Ack>::encoding(Block(0))
                        && receiver@ == (
                            ReceiverView {
                                limit: self@.limit,
                                last_block: None,
                                retransmissions: 0,
                            }
                        ),
                },
            },
    {
        if let Err(kind) = opened {
            let reply = Packet::from_kind(kind).into_bytes();
            let error = Packet::from_kind(kind).into_failure();
            return Err(Rejection { reply: Some(reply), error });
        }
        let connection = Connection::new(self.max_retransmissions);
        match self.direction {
            Direction::Get(_) => Ok(Transfer::Send(connection.put())),
            Direction::Put(_) => Ok(
                Transfer::Receive {
                    ack: Packet::ack(Block::new(0)).into_bytes(),
                    receiver: connection.get(),
                },
            ),
        }
    }
}

} // verus!
