//! The OpenSSL backend: how a `TlsConnectorBuilder` becomes an OpenSSL
//! client context, and how a connection is configured and its handshake
//! outcome classified.

use vstd::prelude::*;
use vstd::string::StringExecFns;
use vstd::string::to_string_from_display_ensures;

use openssl::error::ErrorStack;
use openssl::pkey::{PKey, Private};
use openssl::ssl::SslAcceptor;
use openssl::x509::X509;

use super::ossl::{
    fresh_model,
    add_extra_chain_cert, add_trusted_cert, build_connector, build_store, configure,
    connector_builder, disable_peer_verification, handshake, mid_handshake_into_error,
    mid_handshake_verify_result, new_store_builder, set_cert_store, set_certificate,
    set_max_proto_version, set_min_proto_version, set_private_key, split_handshake_error,
    stream_flush, stream_get_mut, stream_get_ref, stream_read, stream_write, use_server_name_indication,
    verify_hostname, version_ssl3, version_tls1, version_tls1_1, version_tls1_2, bound_number,
    ContextBuilder, ContextModel, Connector, Established, HandshakeFailure, Interrupted,
    RawHandshakeError, Version,
};
use super::{protocol_number, version_bound, Protocol, TlsConnectorBuilder};

verus! {

/// An error from the OpenSSL backend.
#[derive(Debug)]
pub enum Error {
    /// OpenSSL refused a setup step (creating or configuring a context or a
    /// session).
    Normal(ErrorStack),
    /// The handshake failed; the other fields are the session's X.509
    /// verification result at that point, as a raw code and as text.
    Ssl(HandshakeFailure, i32, String),
}

impl Error {
    /// The X.509 verification result carried by a handshake failure, and
    /// `None` for a setup error.
    pub open spec fn verify_result(&self) -> Option<i32> {
        match self {
            Error::Normal(_) => None,
            Error::Ssl(_, code, _) => Some(*code),
        }
    }

    /// Whether the error comes from a handshake that OpenSSL reported as
    /// blocked (`WouldBlock`) rather than failed.
    pub open spec fn from_would_block(&self) -> bool {
        match self {
            Error::Normal(_) => false,
            Error::Ssl(f, _, _) => f.would_block(),
        }
    }

    /// Whether `text` is this error's text: OpenSSL's own text for the
    /// error, followed by the verification result in brackets when the
    /// peer's certificate did not verify (a code other than `X509_V_OK`,
    /// which is 0).
    pub open spec fn describes(&self, text: Seq<char>) -> bool {
        match self {
            Error::Normal(e) => exists|s: String|
                #![trigger to_string_from_display_ensures::<ErrorStack>(e, s)]
                to_string_from_display_ensures::<ErrorStack>(e, s) && s@ == text,
            Error::Ssl(f, code, verify) => exists|s: String|
                #![trigger to_string_from_display_ensures::<openssl::ssl::Error>(&f.ssl_error(), s)]
                to_string_from_display_ensures::<openssl::ssl::Error>(&f.ssl_error(), s) && if *code == 0 {
                    s@ == text
                } else {
                    text == s@ + " ("@ + verify@ + ")"@
                },
        }
    }

    /// The error's text.
    pub fn to_string(&self) -> (res: String)
        ensures
            self.describes(res@),
    {
        match self {
            Error::Normal(e) => e.to_string(),
            Error::Ssl(f, code, text) => {
                let e = f.error();
                if *code == 0 {
                    e.to_string()
                } else {
                    let head = e.to_string();
                    let res = head.concat(" (").concat(text.as_str()).concat(")");
                    res
                }
            },
        }
    }
}

/// A private key, its certificate, and the chain towards a trusted root.
#[derive(Clone)]
pub struct Identity {
    pub pkey: PKey<Private>,
    pub cert: X509,
    pub chain: Vec<X509>,
}

/// An X.509 certificate.
#[derive(Clone)]
pub struct Certificate(pub X509);

/// A handshake that stopped midway.
#[derive(Debug)]
#[verifier::reject_recursive_types(S)]
pub struct MidHandshakeTlsStream<S>(pub Interrupted<S>);

/// How a handshake ended when it did not produce a stream.
#[verifier::reject_recursive_types(S)]
pub enum HandshakeError<S> {
    Failure(Error),
    WouldBlock(Interrupted<S>),
}

impl<S> HandshakeError<S> {
    /// Classifies OpenSSL's handshake outcome: a setup failure becomes a
    /// `Normal` error, a failed handshake an `Ssl` error carrying the
    /// session's verification result, and a blocked handshake stays
    /// resumable.
    pub fn from_raw(e: RawHandshakeError<S>) -> (res: HandshakeError<S>)
        ensures
            match e {
                RawHandshakeError::SetupFailure(stack) => res == HandshakeError::<S>::Failure(
                    Error::Normal(stack),
                ),
                RawHandshakeError::Failure(i) => res matches HandshakeError::Failure(err)
                    && err is Ssl && err.from_would_block() == i.would_block(),
                RawHandshakeError::WouldBlock(mid) => res == HandshakeError::WouldBlock(mid),
            },
    {
        match e {
            RawHandshakeError::SetupFailure(stack) => HandshakeError::Failure(Error::Normal(stack)),
            RawHandshakeError::Failure(mid) => {
                let (code, text): (i32, String) = mid_handshake_verify_result(&mid);
                HandshakeError::Failure(Error::Ssl(mid_handshake_into_error(mid), code, text))
            },
            RawHandshakeError::WouldBlock(mid) => HandshakeError::WouldBlock(mid),
        }
    }
}

/// Whether every certificate the trust store took is one it was offered.
pub open spec fn roots_taken_from_offered(m: ContextModel) -> bool {
    forall|k: int| 0 <= k < m.roots_added.len() ==> #[trigger] m.roots_offered.contains(m.roots_added[k])
}

/// Whether a protocol setting names a real protocol version.
pub open spec fn is_version(p: Option<Protocol>) -> bool {
    !(p matches Some(Protocol::__NonExhaustive))
}

/// The OpenSSL version constant for a protocol.
fn cvt(p: Protocol) -> (res: Version)
    requires
        !(p is __NonExhaustive),
    ensures
        res.number() == protocol_number(p),
{
    match p {
        Protocol::Sslv3 => version_ssl3(),
        Protocol::Tlsv10 => version_tls1(),
        Protocol::Tlsv11 => version_tls1_1(),
        Protocol::Tlsv12 => version_tls1_2(),
        Protocol::__NonExhaustive => vstd::pervasive::unreached(),
    }
}

/// The OpenSSL version constant for an optional protocol bound.
fn cvt_bound(p: Option<Protocol>) -> (res: Option<Version>)
    requires
        is_version(p),
    ensures
        bound_number(res) == version_bound(p),
{
    match p {
        Some(p) => Some(cvt(p)),
        None => None,
    }
}

/// Restricts the context to the protocol versions between `min` and `max`;
/// `None` leaves that end open.
fn supported_protocols(
    min: Option<Protocol>,
    max: Option<Protocol>,
    ctx: &mut ContextBuilder,
) -> (res: Result<(), ErrorStack>)
    requires
        is_version(min),
        is_version(max),
    ensures
        res is Ok ==> final(ctx).model() == (ContextModel {
            min_version: Some(version_bound(min)),
            max_version: Some(version_bound(max)),
            ..old(ctx).model()
        }),
{
    match set_min_proto_version(ctx, cvt_bound(min)) {
        Ok(()) => {},
        Err(e) => return Err(e),
    }
    set_max_proto_version(ctx, cvt_bound(max))
}

/// What a connector asks of each handshake: whether to send the domain as
/// SNI, whether to check the certificate against the domain, and whether to
/// verify the peer's certificate at all.
#[derive(Debug, Clone, Copy)]
pub struct HandshakeSettings {
    pub use_sni: bool,
    pub verify_hostname: bool,
    pub verify_peer: bool,
}

/// A client-side OpenSSL context with the per-connection choices.
#[derive(Clone, Debug)]
pub struct TlsConnector {
    pub connector: Connector,
    pub use_sni: bool,
    pub accept_invalid_hostnames: bool,
    pub accept_invalid_certs: bool,
}

impl TlsConnector {
    /// Sets up an OpenSSL client context as `builder` describes: its
    /// identity (certificate, key and chain, in order), its protocol range,
    /// an empty trust store in place of the system's when built-in roots are
    /// disabled, and the added roots, in order. Any refusal by OpenSSL is a
    /// `Normal` error, except for a root the store will not take, which is
    /// skipped.
    pub fn new(builder: &TlsConnectorBuilder) -> (res: Result<TlsConnector, Error>)
        requires
            is_version(builder.min_protocol()),
            is_version(builder.max_protocol()),
        ensures
            res matches Ok(c) ==> {
                &&& c.connector.model().min_version == Some(version_bound(builder.min_protocol()))
                &&& c.connector.model().max_version == Some(version_bound(builder.max_protocol()))
                &&& c.connector.model().certificate == builder.identity_certificate()
                &&& c.connector.model().private_key == builder.identity_key()
                &&& c.connector.model().chain == builder.identity_chain()
                &&& c.connector.model().store_replaced == builder.built_in_roots_disabled()
                &&& c.connector.model().roots_offered == builder.root_certificates()
                &&& roots_taken_from_offered(c.connector.model())
                &&& c.connector.model().roots_in_store == c.connector.model().roots_added
                &&& c.use_sni == builder.uses_sni()
                &&& c.accept_invalid_hostnames == builder.accepts_invalid_hostnames()
                &&& c.accept_invalid_certs == builder.accepts_invalid_certs()
            },
            res matches Err(e) ==> e is Normal,
    {
        let mut connector = match connector_builder() {
            Ok(c) => c,
            Err(e) => return Err(Error::Normal(e)),
        };
        match &builder.identity {
            Some(identity) => {
                match set_certificate(&mut connector, &identity.0.cert) {
                    Ok(()) => {},
                    Err(e) => return Err(Error::Normal(e)),
                }
                match set_private_key(&mut connector, &identity.0.pkey) {
                    Ok(()) => {},
                    Err(e) => return Err(Error::Normal(e)),
                }
                assert(identity.0.chain@.take(0) =~= Seq::<X509>::empty());
                let mut i: usize = 0;
                while i < identity.0.chain.len()
                    invariant
                        i <= identity.0.chain.len(),
                        connector.model() == (ContextModel {
                            certificate: Some(identity.0.cert),
                            private_key: Some(identity.0.pkey),
                            chain: identity.0.chain@.take(i as int),
                            ..fresh_model()
                        }),
                    decreases identity.0.chain.len() - i,
                {
                    match add_extra_chain_cert(&mut connector, identity.0.chain[i].clone()) {
                        Ok(()) => {},
                        Err(e) => return Err(Error::Normal(e)),
                    }
                    assert(identity.0.chain@.take(i + 1) =~= identity.0.chain@.take(i as int).push(
                        identity.0.chain@[i as int],
                    ));
                    i = i + 1;
                }
            },
            None => {},
        }
        assert(connector.model().certificate == builder.identity_certificate());
        assert(connector.model().chain =~= builder.identity_chain());
        match supported_protocols(builder.min_protocol, builder.max_protocol, &mut connector) {
            Ok(()) => {},
            Err(e) => return Err(Error::Normal(e)),
        }
        if builder.disable_built_in_roots {
            let store = match new_store_builder() {
                Ok(s) => s,
                Err(e) => return Err(Error::Normal(e)),
            };
            set_cert_store(&mut connector, build_store(store));
        }
        let mut j: usize = 0;
        while j < builder.root_certificates.len()
            invariant
                j <= builder.root_certificates.len(),
                connector.model().min_version == Some(version_bound(builder.min_protocol())),
                connector.model().max_version == Some(version_bound(builder.max_protocol())),
                connector.model().certificate == builder.identity_certificate(),
                connector.model().private_key == builder.identity_key(),
                connector.model().chain == builder.identity_chain(),
                connector.model().store_replaced == builder.built_in_roots_disabled(),
                connector.model().roots_offered == builder.root_certificates().take(j as int),
                roots_taken_from_offered(connector.model()),
                connector.model().roots_in_store == connector.model().roots_added,
            decreases builder.root_certificates.len() - j,
        {
            // A root OpenSSL will not take (such as a duplicate) is left out.
            let ghost before = connector.model();
            let _ = add_trusted_cert(&mut connector, builder.root_certificates[j].0.0.clone());
            assert(builder.root_certificates().take(j + 1) =~= builder.root_certificates().take(
                j as int,
            ).push(builder.root_certificates()[j as int]));
            assert forall|k: int|
                0 <= k < connector.model().roots_added.len() implies connector.model().roots_offered.contains(
                connector.model().roots_added[k],
            ) by {
                if k < before.roots_added.len() {
                    assert(before.roots_offered.contains(before.roots_added[k]));
                    assert(connector.model().roots_added[k] == before.roots_added[k]);
                    let w = choose|w: int|
                        0 <= w < before.roots_offered.len() && before.roots_offered[w]
                            == before.roots_added[k];
                    assert(connector.model().roots_offered[w] == before.roots_offered[w]);
                } else {
                    assert(connector.model().roots_offered[before.roots_offered.len() as int]
                        == connector.model().roots_added[k]);
                }
            }
            j = j + 1;
        }
        assert(builder.root_certificates().take(j as int) =~= builder.root_certificates());
        Ok(TlsConnector {
            connector: build_connector(connector),
            use_sni: builder.use_sni,
            accept_invalid_hostnames: builder.accept_invalid_hostnames,
            accept_invalid_certs: builder.accept_invalid_certs,
        })
    }

    /// The settings every handshake of this connector uses.
    pub open spec fn spec_handshake_settings(&self) -> HandshakeSettings {
        HandshakeSettings {
            use_sni: self.use_sni,
            verify_hostname: !self.accept_invalid_hostnames,
            verify_peer: !self.accept_invalid_certs,
        }
    }

    /// The settings every handshake of this connector uses.
    pub fn handshake_settings(&self) -> (res: HandshakeSettings)
        ensures
            res == self.spec_handshake_settings(),
    {
        HandshakeSettings {
            use_sni: self.use_sni,
            verify_hostname: !self.accept_invalid_hostnames,
            verify_peer: !self.accept_invalid_certs,
        }
    }

    /// Configures a session with this connector's settings and runs the
    /// client handshake for `domain` over `stream`. A session OpenSSL cannot
    /// create is a `Normal` failure; otherwise the handshake's outcome is
    /// classified by `HandshakeError::from_raw`.
    pub fn connect<S: std::io::Read + std::io::Write>(
        &self,
        domain: &str,
        stream: S,
    ) -> (res: Result<TlsStream<S>, HandshakeError<S>>)
        requires
            self.use_sni ==> !domain@.contains('\0'),
        ensures
            res matches Ok(t) ==> {
                &&& t.0.context() == self.connector
                &&& t.0.sni() == self.use_sni
                &&& t.0.verify_hostname() == !self.accept_invalid_hostnames
                &&& t.0.verify_none() == self.accept_invalid_certs
                &&& t.0.domain() == domain@
            },
            res matches Err(HandshakeError::Failure(e)) ==> !e.from_would_block(),
            res matches Err(HandshakeError::WouldBlock(i)) ==> i.would_block(),
    {
        let settings = self.handshake_settings();
        let config = match configure(&self.connector) {
            Ok(c) => c,
            Err(e) => return Err(HandshakeError::Failure(Error::Normal(e))),
        };
        let config = use_server_name_indication(config, settings.use_sni);
        let mut config = verify_hostname(config, settings.verify_hostname);
        if !settings.verify_peer {
            disable_peer_verification(&mut config);
        }
        match handshake(config, domain, stream) {
            Ok(s) => Ok(TlsStream(s)),
            Err(e) => Err(HandshakeError::from_raw(split_handshake_error(e))),
        }
    }
}

/// A server-side OpenSSL context.
#[derive(Clone)]
pub struct TlsAcceptor(pub SslAcceptor);

/// An established TLS session over a stream.
#[derive(Debug)]
#[verifier::reject_recursive_types(S)]
pub struct TlsStream<S>(pub Established<S>);

impl<S> TlsStream<S> {
    pub fn get_ref(&self) -> &S {
        stream_get_ref(&self.0)
    }

    pub fn get_mut(&mut self) -> (res: &mut S)
        ensures
            final(self).same_session(*old(self)),
            final(self).0.same_transfers(old(self).0),
    {
        stream_get_mut(&mut self.0)
    }

    /// Whether two streams carry the same session: context, choices and
    /// domain.
    pub open spec fn same_session(&self, other: Self) -> bool {
        self.0.same_session(other.0)
    }

    /// Whether the last successful read, on a buffer with room, delivered
    /// nothing: OpenSSL's read does so only at the end of the stream (the
    /// peer's `close_notify`, or end of file underneath).
    pub open spec fn reached_end(&self) -> bool {
        self.0.last_read_capacity() > 0 && self.0.last_read().len() == 0
    }
}

impl<S: std::io::Read + std::io::Write> TlsStream<S> {
    pub fn read(&mut self, buf: &mut [u8]) -> (res: std::io::Result<usize>)
        ensures
            res matches Ok(n) ==> n <= old(buf)@.len(),
            old(buf)@.len() == 0 ==> res matches Ok(0),
            res matches Ok(n) ==> {
                &&& final(self).0.last_read() == final(buf)@.subrange(0, n as int)
                &&& final(self).0.last_read_capacity() == old(buf)@.len()
                &&& final(self).0.last_written() == old(self).0.last_written()
            },
            (old(buf)@.len() > 0 && res == std::io::Result::<usize>::Ok(0usize)) ==> final(self).reached_end(),
            res is Err ==> final(self).0.same_transfers(old(self).0),
            final(self).same_session(*old(self)),
    {
        stream_read(&mut self.0, buf)
    }

    pub fn write(&mut self, buf: &[u8]) -> (res: std::io::Result<usize>)
        ensures
            res matches Ok(n) ==> n <= buf@.len(),
            buf@.len() == 0 ==> res matches Ok(0),
            res matches Ok(n) ==> {
                &&& final(self).0.last_written() == buf@.subrange(0, n as int)
                &&& final(self).0.last_read() == old(self).0.last_read()
                &&& final(self).0.last_read_capacity() == old(self).0.last_read_capacity()
            },
            res is Err ==> final(self).0.same_transfers(old(self).0),
            final(self).same_session(*old(self)),
    {
        stream_write(&mut self.0, buf)
    }

    pub fn flush(&mut self) -> (res: std::io::Result<()>)
        ensures
            final(self).same_session(*old(self)),
            final(self).0.same_transfers(old(self).0),
    {
        stream_flush(&mut self.0)
    }
}

} // verus!
