use native_tls::{HandshakeError, TlsConnector};

use std::cell::RefCell;
use std::collections::VecDeque;
use std::io::{self, Read, Write};
use std::rc::Rc;

use openssl::asn1::Asn1Time;
use openssl::bn::BigNum;
use openssl::ec::{EcGroup, EcKey};
use openssl::hash::MessageDigest;
use openssl::nid::Nid;
use openssl::pkey::PKey;
use openssl::ssl::{MidHandshakeSslStream, SslAcceptor, SslMethod, SslStream};
use openssl::x509::{X509Builder, X509NameBuilder};

/// A peer that has hung up: reads see end of file, writes are swallowed.
struct ClosedPeer {
    written: usize,
}

impl Read for ClosedPeer {
    fn read(&mut self, _buf: &mut [u8]) -> io::Result<usize> {
        Ok(0)
    }
}

impl Write for ClosedPeer {
    fn write(&mut self, buf: &[u8]) -> io::Result<usize> {
        self.written += buf.len();
        Ok(buf.len())
    }
    fn flush(&mut self) -> io::Result<()> {
        Ok(())
    }
}

/// A nonblocking peer that never answers: reads would block.
struct SilentPeer;

impl Read for SilentPeer {
    fn read(&mut self, _buf: &mut [u8]) -> io::Result<usize> {
        Err(io::Error::new(io::ErrorKind::WouldBlock, "no data yet"))
    }
}

impl Write for SilentPeer {
    fn write(&mut self, buf: &[u8]) -> io::Result<usize> {
        Ok(buf.len())
    }
    fn flush(&mut self) -> io::Result<()> {
        Ok(())
    }
}

type Queue = Rc<RefCell<VecDeque<u8>>>;

/// The server's end of an in-memory connection.
#[derive(Debug)]
struct ServerEnd {
    inbox: Queue,
    outbox: Queue,
}

impl Read for ServerEnd {
    fn read(&mut self, buf: &mut [u8]) -> io::Result<usize> {
        let mut inbox = self.inbox.borrow_mut();
        if inbox.is_empty() {
            return Err(io::Error::new(io::ErrorKind::WouldBlock, "waiting for the client"));
        }
        let mut n = 0;
        while n < buf.len() {
            match inbox.pop_front() {
                Some(b) => {
                    buf[n] = b;
                    n += 1;
                }
                None => break,
            }
        }
        Ok(n)
    }
}

impl Write for ServerEnd {
    fn write(&mut self, buf: &[u8]) -> io::Result<usize> {
        self.outbox.borrow_mut().extend(buf.iter().copied());
        Ok(buf.len())
    }
    fn flush(&mut self) -> io::Result<()> {
        Ok(())
    }
}

enum Server {
    Waiting(SslAcceptor, ServerEnd),
    Mid(MidHandshakeSslStream<ServerEnd>),
    Done(#[allow(dead_code)] SslStream<ServerEnd>),
    Gone,
}

/// The client's end of an in-memory connection to a TLS server; the server
/// runs whenever the client waits for its answer.
struct ClientEnd {
    to_server: Queue,
    to_client: Queue,
    server: Server,
}

impl ClientEnd {
    fn run_server(&mut self) {
        let server = std::mem::replace(&mut self.server, Server::Gone);
        let outcome = match server {
            Server::Waiting(acceptor, end) => acceptor.accept(end),
            Server::Mid(mid) => mid.handshake(),
            other => {
                self.server = other;
                return;
            }
        };
        self.server = match outcome {
            Ok(stream) => Server::Done(stream),
            Err(openssl::ssl::HandshakeError::WouldBlock(mid)) => Server::Mid(mid),
            Err(_) => Server::Gone,
        };
    }
}

impl Read for ClientEnd {
    fn read(&mut self, buf: &mut [u8]) -> io::Result<usize> {
        if self.to_client.borrow().is_empty() {
            self.run_server();
        }
        let mut queue = self.to_client.borrow_mut();
        let mut n = 0;
        while n < buf.len() {
            match queue.pop_front() {
                Some(b) => {
                    buf[n] = b;
                    n += 1;
                }
                None => break,
            }
        }
        Ok(n)
    }
}

impl Write for ClientEnd {
    fn write(&mut self, buf: &[u8]) -> io::Result<usize> {
        self.to_server.borrow_mut().extend(buf.iter().copied());
        Ok(buf.len())
    }
    fn flush(&mut self) -> io::Result<()> {
        Ok(())
    }
}

/// A TLS server for `localhost` with a freshly made self-signed certificate.
fn self_signed_server() -> ClientEnd {
    let group = EcGroup::from_curve_name(Nid::X9_62_PRIME256V1).unwrap();
    let key = PKey::from_ec_key(EcKey::generate(&group).unwrap()).unwrap();
    let mut name = X509NameBuilder::new().unwrap();
    name.append_entry_by_nid(Nid::COMMONNAME, "localhost").unwrap();
    let name = name.build();
    let mut cert = X509Builder::new().unwrap();
    cert.set_version(2).unwrap();
    let serial = BigNum::from_u32(1).unwrap().to_asn1_integer().unwrap();
    cert.set_serial_number(&serial).unwrap();
    cert.set_subject_name(&name).unwrap();
    cert.set_issuer_name(&name).unwrap();
    cert.set_pubkey(&key).unwrap();
    cert.set_not_before(&Asn1Time::days_from_now(0).unwrap()).unwrap();
    cert.set_not_after(&Asn1Time::days_from_now(30).unwrap()).unwrap();
    cert.sign(&key, MessageDigest::sha256()).unwrap();
    let cert = cert.build();

    let mut acceptor = SslAcceptor::mozilla_intermediate_v5(SslMethod::tls()).unwrap();
    acceptor.set_private_key(&key).unwrap();
    acceptor.set_certificate(&cert).unwrap();
    let acceptor = acceptor.build();

    let to_server: Queue = Rc::new(RefCell::new(VecDeque::new()));
    let to_client: Queue = Rc::new(RefCell::new(VecDeque::new()));
    let end = ServerEnd { inbox: to_server.clone(), outbox: to_client.clone() };
    ClientEnd { to_server, to_client, server: Server::Waiting(acceptor, end) }
}

#[test]
fn builder_with_defaults_builds() {
    assert!(TlsConnector::builder().build().is_ok());
}

#[test]
fn new_connector_with_defaults() {
    assert!(TlsConnector::new().is_ok());
}

#[test]
fn connector_is_cloneable() {
    let connector = TlsConnector::new().unwrap();
    let copy = connector.clone();
    assert!(format!("{:?}", copy).contains("TlsConnector"));
}

#[test]
fn handshake_with_closed_peer_fails() {
    let connector = TlsConnector::new().unwrap();
    match connector.connect("example.com", ClosedPeer { written: 0 }) {
        Ok(_) => panic!("a handshake with a closed peer cannot succeed"),
        Err(HandshakeError::WouldBlock(_)) => panic!("a closed peer does not block"),
        Err(e @ HandshakeError::Failure(_)) => {
            assert!(e.source().is_some());
            assert!(!e.to_string().is_empty());
            if let HandshakeError::Failure(err) = &e {
                assert!(matches!(err.cause(), native_tls::ErrorCause::Handshake(_)));
            }
        }
    }
}

#[test]
fn handshake_with_silent_peer_would_block() {
    let connector = TlsConnector::new().unwrap();
    match connector.connect("example.com", SilentPeer) {
        Ok(_) => panic!("a handshake with a silent peer cannot succeed"),
        Err(HandshakeError::Failure(e)) => panic!("unexpected failure: {}", e.to_string()),
        Err(e @ HandshakeError::WouldBlock(_)) => {
            assert!(e.source().is_none());
            assert_eq!(e.to_string(), "the handshake process was interrupted");
        }
    }
}

#[test]
fn self_signed_certificate_is_rejected() {
    let connector = TlsConnector::new().unwrap();
    match connector.connect("localhost", self_signed_server()) {
        Ok(_) => panic!("a self-signed certificate must not be trusted"),
        Err(HandshakeError::WouldBlock(_)) => panic!("the in-memory server never blocks the client"),
        Err(HandshakeError::Failure(e)) => {
            let text = e.to_string();
            // The verification result follows OpenSSL's own text, in brackets.
            assert!(text.ends_with(")"), "{}", text);
            assert!(text.contains(" ("), "{}", text);
            assert!(text.contains("self"), "{}", text);
        }
    }
}

fn is_sync<T: Sync>() {}
fn is_send<T: Send>() {}

#[test]
fn public_types_are_send_and_sync() {
    type Stream = std::io::Cursor<Vec<u8>>;
    is_sync::<native_tls::Error>();
    is_send::<native_tls::Error>();
    is_sync::<native_tls::TlsConnectorBuilder>();
    is_send::<native_tls::TlsConnectorBuilder>();
    is_sync::<TlsConnector>();
    is_send::<TlsConnector>();
    is_sync::<native_tls::TlsAcceptor>();
    is_send::<native_tls::TlsAcceptor>();
    is_sync::<native_tls::TlsStream<Stream>>();
    is_send::<native_tls::TlsStream<Stream>>();
    is_sync::<native_tls::MidHandshakeTlsStream<Stream>>();
    is_send::<native_tls::MidHandshakeTlsStream<Stream>>();
}
