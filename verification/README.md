# native_tls

A TLS client on top of OpenSSL, written in Verus. The contracts state that
the connector a builder produces is given the builder's identity, protocol
bounds and trust-store choice, and offered its added roots in order, with the
roots the store took being the ones in the store in use; that each handshake
is configured from the connector's flags for the given domain; how OpenSSL's
handshake outcomes are sorted into errors (`imp::HandshakeError::from_raw`);
and the error texts. What OpenSSL does with what it is given rests on the
trusted items in `ossl.rs`, which record each call's arguments.

- `src/native_tls/mod.rs`: the public types (`TlsConnectorBuilder`,
  `TlsConnector`, `TlsStream`, `Error`, `HandshakeError`, ...).
- `src/native_tls/imp.rs`: the OpenSSL backend: building the client context,
  the per-handshake settings, and sorting OpenSSL's outcomes into errors.
- `src/native_tls/ossl.rs`: the trusted declarations of OpenSSL's types and
  the wrappers around its calls.
- `app/lib.rs`: `Display` and `std::error::Error` for the error types.
- `tests/`: handshakes against in-memory peers, including a server with a
  self-signed certificate.
