//! A TLS client library on top of OpenSSL: connector settings, the
//! connector built from them, and the streams a handshake yields.

pub mod native_tls;

pub use native_tls::{
    Certificate, Error, ErrorCause, HandshakeError, Identity, MidHandshakeTlsStream, Protocol, TlsAcceptor,
    TlsConnector, TlsConnectorBuilder, TlsStream,
};
