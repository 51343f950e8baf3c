use std::time::Duration;

use tftp::bytes::{FromBytes, IntoBytes};
use tftp::connection::{Acknowledged, Received, Retry, Sent};
use tftp::failure::{ErrorKind, Failure};
use tftp::packet::{Block, Code, Error, Mode, Packet, Rrq, Wrq};
use tftp::server::{Access, ActiveClients, Transfer, TransferId};
use tftp::{Client, RetransmissionConfig, Server};

fn alice() -> TransferId {
    TransferId::V4 { ip: 0x7f00_0001, port: 62191 }
}

fn bob() -> TransferId {
    TransferId::V6 { segments: 1, port: 62191, flowinfo: 0, scope_id: 0 }
}

#[test]
fn retransmission_config() {
    let wait = Duration::from_secs(3);
    assert_eq!(RetransmissionConfig::default(), RetransmissionConfig::NoRetransmission);

    let none = RetransmissionConfig::NoRetransmission;
    assert_eq!(none.timeout(), None);
    assert_eq!(none.max_retransmissions(), Some(0));

    let forever = RetransmissionConfig::ForeverAfter { timeout: wait };
    assert_eq!(forever.timeout(), Some(&wait));
    assert_eq!(forever.max_retransmissions(), None);

    let thrice = RetransmissionConfig::NTimesAfter { timeout: wait, limit: 3 };
    assert_eq!(thrice.timeout(), Some(&wait));
    assert_eq!(thrice.max_retransmissions(), Some(3));
}

#[test]
fn client_asks_for_a_file() {
    let client = Client::new(RetransmissionConfig::default());
    let (request, receiver) = client.get("alice.txt", Mode::Octet);
    assert_eq!(request, b"\0\x01alice.txt\0octet\0");
    assert_eq!(Packet::<Rrq>::from_bytes(&request).unwrap(), Packet::rrq("alice.txt", Mode::Octet));
    assert_eq!(receiver.last_block(), None);
    assert_eq!(receiver.retransmissions(), 0);
}

#[test]
fn client_offers_a_file() {
    let client = Client::new(RetransmissionConfig::default());
    let (request, handshake) = client.put("f.txt", Mode::NetAscii);
    assert_eq!(request, b"\0\x02f.txt\0netascii\0");
    assert_eq!(Packet::<Wrq>::from_bytes(&request).unwrap(), Packet::wrq("f.txt", Mode::NetAscii));

    let sender = handshake.reply(&[0, 4, 0, 0]).unwrap();
    assert_eq!(sender.current_block(), Block(1));
    assert_eq!(sender.retransmissions(), 0);
}

#[test]
fn client_takes_its_limit_from_the_configuration() {
    let config =
        RetransmissionConfig::NTimesAfter { timeout: Duration::from_secs(3), limit: 1 };
    let (_, handshake) = Client::new(config).put("f.txt", Mode::Octet);
    let awaiting = handshake.reply(&[0, 4, 0, 0]).unwrap().chunk(b"x");
    let timed_out = Failure::new(ErrorKind::TimedOut, "");
    let awaiting = match awaiting.recv_failed(timed_out.clone()) {
        Retry::Resend { state, .. } => state,
        other => panic!("one retransmission is allowed: {:?}", other),
    };
    assert!(matches!(awaiting.recv_failed(timed_out), Retry::Abort(_)));
}

#[test]
fn write_request_must_be_accepted_with_block_zero() {
    let client = Client::new(RetransmissionConfig::default());

    let (_, handshake) = client.put("f.txt", Mode::Octet);
    let rejection = handshake.reply(&[0, 4, 0, 1]).unwrap_err();
    let reply = Packet::<Error>::from_bytes(&rejection.reply.unwrap()).unwrap();
    assert_eq!(reply.body().code(), Code::IllegalOperation);
    assert_eq!(rejection.error.kind, ErrorKind::Other);

    let (_, handshake) = client.put("f.txt", Mode::Octet);
    let rejection = handshake.reply(b"this is an invalid packet. hopefully.").unwrap_err();
    let reply = Packet::<Error>::from_bytes(&rejection.reply.unwrap()).unwrap();
    assert_eq!(reply.body().code(), Code::IllegalOperation);
    assert_eq!(rejection.error.message, "Illegal TFTP operation");
}

#[test]
fn active_clients_are_a_set() {
    let mut clients = ActiveClients::new();
    assert!(!clients.contains(alice()));
    assert!(clients.insert(alice()));
    assert!(clients.contains(alice()));
    assert!(!clients.insert(alice()));
    assert!(clients.insert(bob()));
    assert!(clients.remove(alice()));
    assert!(!clients.contains(alice()));
    assert!(clients.contains(bob()));
    assert!(!clients.remove(alice()));
    assert!(clients.insert(alice()));
    assert!(clients.remove(bob()));
    assert!(clients.remove(alice()));
    assert!(!clients.contains(bob()));
}

#[test]
fn server_answers_a_read_request() {
    let mut server = Server::new(RetransmissionConfig::default());
    let request = Packet::rrq("alice.txt", Mode::NetAscii).into_bytes();
    let handler = server.serve(alice(), &request).unwrap();
    assert!(server.is_active(alice()));
    assert_eq!(handler.client(), alice());
    assert_eq!(handler.filename(), "alice.txt");
    assert_eq!(handler.access(), Access::Read);

    match handler.handle(Ok(())).unwrap() {
        Transfer::Send(sender) => assert_eq!(sender.current_block(), Block(1)),
        other => panic!("the file should be sent: {:?}", other),
    }
    server.release(alice());
    assert!(!server.is_active(alice()));
}

#[test]
fn server_accepts_a_write_request_with_block_zero() {
    let mut server = Server::new(RetransmissionConfig::default());
    let request = Packet::wrq("new.txt", Mode::Octet).into_bytes();
    let handler = server.serve(bob(), &request).unwrap();
    assert_eq!(handler.filename(), "new.txt");
    assert_eq!(handler.access(), Access::CreateNew);

    match handler.handle(Ok(())).unwrap() {
        Transfer::Receive { ack, receiver } => {
            assert_eq!(ack, vec![0, 4, 0, 0]);
            assert_eq!(receiver.last_block(), None);
        }
        other => panic!("the file should be received: {:?}", other),
    }
}

#[test]
fn test_serve_when_request_is_not_read_or_write() {
    let mut server = Server::new(RetransmissionConfig::default());

    let op = vec![0, 5];
    let mut code = vec![0, 1];
    let mut message = b"file not found\0".to_vec();
    let mut bytes = op;
    bytes.append(&mut code);
    bytes.append(&mut message);

    assert!(server.serve(alice(), &bytes[..]).is_err());
}

#[test]
fn request_that_is_none_is_turned_down() {
    let mut server = Server::new(RetransmissionConfig::default());
    let rejection = server.serve(alice(), &[0, 4, 0, 0]).unwrap_err();
    let reply = Packet::<Error>::from_bytes(&rejection.reply.unwrap()).unwrap();
    assert_eq!(reply, Packet::error(Code::IllegalOperation, "Illegal TFTP operation"));
    assert_eq!(rejection.error.kind, ErrorKind::InvalidInput);
    // The sender is not recorded: its next request is served.
    assert!(!server.is_active(alice()));
    assert!(server.serve(alice(), &Packet::rrq("f", Mode::Octet).into_bytes()).is_ok());
}

#[test]
fn second_request_of_a_client_is_turned_down() {
    let mut server = Server::new(RetransmissionConfig::default());
    let request = Packet::rrq("alice-in-wonderland.txt", Mode::NetAscii).into_bytes();

    let handler = server.serve(alice(), &request).unwrap();
    let rejection = server.serve(alice(), &request).unwrap_err();
    assert_eq!(rejection.error.kind, ErrorKind::AddrNotAvailable);
    assert_eq!(rejection.error.message, "Client TID taken.");
    assert_eq!(rejection.reply, None);

    // Another client is served meanwhile, and the first again once it is done.
    assert!(server.serve(bob(), &request).is_ok());
    assert!(handler.handle(Ok(())).is_ok());
    server.release(alice());
    assert!(server.serve(alice(), &request).is_ok());
}

#[test]
fn file_that_cannot_be_opened_is_reported() {
    let mut server = Server::new(RetransmissionConfig::default());
    let request = Packet::rrq("missing.txt", Mode::Octet).into_bytes();
    let handler = server.serve(alice(), &request).unwrap();
    let rejection = handler.handle(Err(ErrorKind::NotFound)).unwrap_err();
    let reply = Packet::<Error>::from_bytes(&rejection.reply.unwrap()).unwrap();
    assert_eq!(reply, Packet::error(Code::FileNotFound, "File not found"));
    assert_eq!(rejection.error, Failure::new(ErrorKind::NotFound, "File not found"));

    let handler = server.serve(bob(), &request).unwrap();
    let rejection = handler.handle(Err(ErrorKind::TimedOut)).unwrap_err();
    let reply = Packet::<Error>::from_bytes(&rejection.reply.unwrap()).unwrap();
    assert_eq!(reply.body().code(), Code::NotDefined);
    assert_eq!(rejection.error.kind, ErrorKind::Other);
}

#[test]
fn put_to_an_existing_file_fails() {
    let mut server = Server::new(RetransmissionConfig::default());
    let client = Client::new(RetransmissionConfig::default());

    let (request, handshake) = client.put("f.txt", Mode::Octet);
    let handler = server.serve(alice(), &request).unwrap();
    assert_eq!(handler.filename(), "f.txt");
    assert_eq!(handler.access(), Access::CreateNew);

    // The file exists already.
    let rejection = handler.handle(Err(ErrorKind::AlreadyExists)).unwrap_err();
    server.release(alice());
    assert_eq!(rejection.error.kind, ErrorKind::AlreadyExists);
    let reply = rejection.reply.unwrap();
    assert_eq!(
        Packet::<Error>::from_bytes(&reply).unwrap().body().code(),
        Code::FileAlreadyExists
    );

    let rejection = handshake.reply(&reply).unwrap_err();
    assert_eq!(rejection.reply, None);
    assert_eq!(rejection.error.kind, ErrorKind::AlreadyExists);
    assert_eq!(rejection.error.message, "File already exists");
}

#[test]
fn get_from_request_to_last_ack() {
    let mut server = Server::new(RetransmissionConfig::default());
    let client = Client::new(RetransmissionConfig::default());
    let file = b"hello\n";
    let mut writer = Vec::new();

    let (request, receiver) = client.get("alice.txt", Mode::Octet);
    let handler = server.serve(alice(), &request).unwrap();
    let sender = match handler.handle(Ok(())).unwrap() {
        Transfer::Send(sender) => sender,
        other => panic!("the file should be sent: {:?}", other),
    };
    let awaiting = sender.chunk(file);
    let pending = match receiver.datagram(awaiting.packet()) {
        Received::Write { payload, pending } => {
            writer.extend_from_slice(&payload);
            pending
        }
        other => panic!("data should be written: {:?}", other),
    };
    let ack = match pending.written() {
        Acknowledged::Complete { ack } => ack,
        other => panic!("the transfer should be complete: {:?}", other),
    };
    assert_eq!(awaiting.datagram(&ack), Sent::Complete);
    server.release(alice());
    assert_eq!(writer, file);
}

#[test]
fn test_put() {
    let mut server = Server::new(RetransmissionConfig::default());
    let client = Client::new(RetransmissionConfig::default());
    let file: Vec<u8> = (0..1300).map(|i| (i % 256) as u8).collect();
    let mut written = Vec::new();

    let (request, handshake) = client.put("new.txt", Mode::Octet);
    let handler = server.serve(bob(), &request).unwrap();
    let (accept, mut receiver) = match handler.handle(Ok(())).unwrap() {
        Transfer::Receive { ack, receiver } => (ack, Some(receiver)),
        other => panic!("the file should be received: {:?}", other),
    };
    let mut sender = Some(handshake.reply(&accept).unwrap());
    let mut blocks = 0;
    for piece in file.chunks(512) {
        let awaiting = sender.take().unwrap().chunk(piece);
        let pending = match receiver.take().unwrap().datagram(awaiting.packet()) {
            Received::Write { payload, pending } => {
                written.extend_from_slice(&payload);
                pending
            }
            other => panic!("data should be written: {:?}", other),
        };
        blocks += 1;
        assert_eq!(pending.block(), Block(blocks));
        let ack = match pending.written() {
            Acknowledged::More { ack, receiver: next } => {
                receiver = Some(next);
                ack
            }
            Acknowledged::Complete { ack } => ack,
        };
        match awaiting.datagram(&ack) {
            Sent::More(next) => sender = Some(next),
            Sent::Complete => {}
            other => panic!("the transfer should not end here: {:?}", other),
        }
    }
    assert_eq!(blocks, 3);
    assert!(sender.is_none());
    assert!(receiver.is_none());
    assert_eq!(written, file);
}

/// Sends `file` from the server to the client over a network that loses
/// nothing. `write` stands for the client's writer.
fn get(
    server: &mut Server,
    id: TransferId,
    name: &str,
    file: &[u8],
    mut write: impl FnMut(&[u8]) -> Result<(), Failure>,
) -> (Result<(), Failure>, Result<(), Failure>) {
    let (request, receiver) = Client::new(RetransmissionConfig::default()).get(name, Mode::NetAscii);
    let handler = match server.serve(id, &request) {
        Ok(handler) => handler,
        Err(rejection) => return (Err(rejection.error.clone()), Err(rejection.error)),
    };
    let mut sender = match handler.handle(Ok(())).unwrap() {
        Transfer::Send(sender) => sender,
        other => panic!("the file should be sent: {:?}", other),
    };
    let mut receiver = Some(receiver);
    let mut pieces = file.chunks(512).collect::<Vec<_>>();
    if file.len() % 512 == 0 {
        pieces.push(&[]);
    }
    for piece in pieces {
        let awaiting = sender.chunk(piece);
        let pending = match receiver.take().unwrap().datagram(awaiting.packet()) {
            Received::Write { payload, pending } => match write(&payload) {
                Ok(()) => pending,
                Err(error) => {
                    let rejection = pending.failed(error);
                    let served = match awaiting.datagram(&rejection.reply.unwrap()) {
                        Sent::Abort(rejection) => Err(rejection.error),
                        other => panic!("the transfer should end: {:?}", other),
                    };
                    server.release(id);
                    return (Err(rejection.error), served);
                }
            },
            other => panic!("data should be written: {:?}", other),
        };
        let ack = match pending.written() {
            Acknowledged::More { ack, receiver: next } => {
                receiver = Some(next);
                ack
            }
            Acknowledged::Complete { ack } => ack,
        };
        match awaiting.datagram(&ack) {
            Sent::More(next) => sender = next,
            Sent::Complete => {
                server.release(id);
                return (Ok(()), Ok(()));
            }
            other => panic!("the transfer should not end here: {:?}", other),
        }
    }
    panic!("the last block should end the transfer");
}

fn exemplar() -> Vec<u8> {
    (0..170_000u32).map(|i| b"Alice was beginning to get very tired. "[i as usize % 39]).collect()
}

#[test]
fn test_simple_use() {
    let exemplar = exemplar();
    let mut server = Server::new(RetransmissionConfig::default());
    let mut res = Vec::with_capacity(exemplar.len());
    let (client, served) = get(&mut server, alice(), "alice-in-wonderland.txt", &exemplar, |p| {
        res.extend_from_slice(p);
        Ok(())
    });
    client.unwrap();
    served.unwrap();
    assert_eq!(&exemplar[..], &res[..]);
}

#[test]
fn test_reuse_socket() {
    let exemplar = exemplar();
    let mut server = Server::new(RetransmissionConfig::default());
    let n = 3;
    for _ in 0..n {
        let mut res = Vec::with_capacity(exemplar.len());
        let (client, served) =
            get(&mut server, alice(), "alice-in-wonderland.txt", &exemplar, |p| {
                res.extend_from_slice(p);
                Ok(())
            });
        client.unwrap();
        served.unwrap();
        assert_eq!(&exemplar[..], &res[..]);
    }
}

#[test]
fn test_prevent_duplicate() {
    let mut server = Server::new(RetransmissionConfig::default());
    let rrq = Packet::rrq("alice-in-wonderland.txt", Mode::NetAscii);
    let request = rrq.into_bytes();

    let h = server.serve(alice(), &request).unwrap();
    match server.serve(alice(), &request) {
        Err(e) => assert_eq!(e.error.kind, ErrorKind::AddrNotAvailable),
        _ => panic!("Should get error."),
    };
    assert!(h.handle(Ok(())).is_ok());
}

#[test]
fn test_concurrent_connections() {
    let n = 4;
    let mut server = Server::new(RetransmissionConfig::default());
    let request = Packet::rrq("alice-in-wonderland.txt", Mode::NetAscii).into_bytes();
    let mut handlers = Vec::with_capacity(n);
    for i in 0..n {
        let id = TransferId::V4 { ip: 0, port: 62193 + i as u16 };
        handlers.push(server.serve(id, &request).unwrap());
    }
    for (i, handler) in handlers.into_iter().enumerate() {
        let id = TransferId::V4 { ip: 0, port: 62193 + i as u16 };
        assert_eq!(handler.client(), id);
        assert!(server.is_active(id));
        assert!(handler.handle(Ok(())).is_ok());
        server.release(id);
        assert!(!server.is_active(id));
    }
}

#[test]
fn test_get_sends_error() {
    let mut server = Server::new(RetransmissionConfig::default());

    // When trying to write to a broken writer, the client should error out
    let (client, served) = get(&mut server, alice(), "alice-in-wonderland.txt", &exemplar(), |_| {
        Err(Failure::new(ErrorKind::Other, "Fake error"))
    });
    let error = client.unwrap_err();
    assert_eq!(error.kind, ErrorKind::Other);
    assert_eq!(error.message, "Fake error");

    // When receiving an error packet (due to the broken writer), the server should error out as well
    served.unwrap_err();
}

#[test]
fn test_put_sends_error() {
    let mut server = Server::new(RetransmissionConfig::default());
    let client = Client::new(RetransmissionConfig::default());

    let (request, handshake) = client.put("broken-file.txt", Mode::NetAscii);
    let handler = server.serve(alice(), &request).unwrap();
    let (accept, receiver) = match handler.handle(Ok(())).unwrap() {
        Transfer::Receive { ack, receiver } => (ack, receiver),
        other => panic!("the file should be received: {:?}", other),
    };
    let sender = handshake.reply(&accept).unwrap();

    // When trying to create a file with a broken reader, client.put should error out
    let rejection = sender.read_failed(Failure::new(ErrorKind::Other, "Fake error"));
    assert_eq!(rejection.error.kind, ErrorKind::Other);

    // When receiving an error packet (due to the broken reader), the server should error out as well
    match receiver.datagram(&rejection.reply.unwrap()) {
        Received::Abort(rejection) => {
            assert_eq!(rejection.reply, None);
            assert_eq!(rejection.error, Failure::new(ErrorKind::Other, "Fake error"));
        }
        other => panic!("the transfer should end: {:?}", other),
    }
}

#[test]
fn test_get() {
    let exemplar = exemplar();
    let mut server = Server::new(RetransmissionConfig::default());
    let mut actual = Vec::with_capacity(exemplar.len());
    let (client, served) = get(&mut server, bob(), "alice-in-wonderland.txt", &exemplar, |p| {
        actual.extend_from_slice(p);
        Ok(())
    });
    client.unwrap();
    served.unwrap();
    assert_eq!(&actual[..], &exemplar[..]);
}

#[test]
fn get_of_a_file_of_whole_blocks() {
    for len in [0usize, 512, 1024] {
        let file = vec![b'h'; len];
        let mut server = Server::new(RetransmissionConfig::default());
        let mut actual = Vec::new();
        let mut blocks = 0;
        let (client, served) = get(&mut server, bob(), "h.txt", &file, |p| {
            blocks += 1;
            actual.extend_from_slice(p);
            Ok(())
        });
        client.unwrap();
        served.unwrap();
        assert_eq!(actual, file);
        assert_eq!(blocks, len / 512 + 1);
    }
}
