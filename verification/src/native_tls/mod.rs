//! A TLS client built on OpenSSL: a builder of connector settings, the
//! connector it produces, and the streams a handshake yields.

use vstd::prelude::*;
use vstd::string::StringExecFns;

use openssl::pkey::{PKey, Private};
use openssl::x509::X509;

mod imp;
mod ossl;

verus! {

/// An error returned from the TLS implementation.
#[derive(Debug)]
pub struct Error(imp::Error);

impl Error {
    /// The X.509 verification result recorded when a handshake failed, and
    /// `None` for an error raised while setting OpenSSL up.
    pub closed spec fn verify_result(&self) -> Option<i32> {
        self.0.verify_result()
    }

    /// Whether the error comes from a handshake that OpenSSL reported as
    /// interrupted by a `WouldBlock` I/O error rather than failed.
    pub closed spec fn from_would_block(&self) -> bool {
        self.0.from_would_block()
    }

    /// Whether `text` is this error's text: OpenSSL's own description of
    /// the error, followed by the certificate verification result in
    /// brackets when a handshake failed on an unverified certificate.
    pub closed spec fn describes(&self, text: Seq<char>) -> bool {
        self.0.describes(text)
    }

    /// The error's text, as its `Display` writes it.
    pub fn to_string(&self) -> (res: String)
        ensures
            self.describes(res@),
    {
        self.0.to_string()
    }

    /// The OpenSSL error underneath: the error stack of a setup step, or the
    /// error that stopped a handshake.
    pub fn cause(&self) -> (res: ErrorCause<'_>)
        ensures
            res is Setup <==> self.verify_result() is None,
    {
        match &self.0 {
            imp::Error::Normal(e) => ErrorCause::Setup(e),
            imp::Error::Ssl(f, _, _) => ErrorCause::Handshake(f.error()),
        }
    }
}

/// The OpenSSL error underneath an `Error`.
#[derive(Debug)]
pub enum ErrorCause<'a> {
    /// OpenSSL refused a setup step.
    Setup(&'a openssl::error::ErrorStack),
    /// The handshake failed with this error.
    Handshake(&'a openssl::ssl::Error),
}

impl From<imp::Error> for Error {
    fn from(err: imp::Error) -> (res: Error)
        ensures
            res.verify_result() == err.verify_result(),
            res.from_would_block() == err.from_would_block(),
            forall|text: Seq<char>| res.describes(text) == err.describes(text),
    {
        Error(err)
    }
}

impl vstd::std_specs::convert::FromSpecImpl<imp::Error> for Error {
    open spec fn obeys_from_spec() -> bool {
        true
    }

    closed spec fn from_spec(err: imp::Error) -> Error {
        Error(err)
    }
}

/// A cryptographic identity.
///
/// An identity is an X509 certificate along with its corresponding private key and chain of certificates to a trusted
/// root.
#[derive(Clone)]
pub struct Identity(imp::Identity);

/// An X509 certificate.
#[derive(Clone)]
pub struct Certificate(imp::Certificate);

/// A TLS stream which has been interrupted midway through the handshake process.
#[derive(Debug)]
#[verifier::reject_recursive_types(S)]
pub struct MidHandshakeTlsStream<S>(imp::MidHandshakeTlsStream<S>);

impl<S> MidHandshakeTlsStream<S> {
    /// Whether OpenSSL reported this handshake as interrupted by a
    /// `WouldBlock` I/O error (and so resumable), rather than failed.
    pub closed spec fn interrupted_by_would_block(&self) -> bool {
        self.0.0.would_block()
    }
}

/// An error returned from `ClientBuilder::handshake`.
#[derive(Debug)]
#[verifier::reject_recursive_types(S)]
pub enum HandshakeError<S> {
    /// A fatal error.
    Failure(Error),
    /// A stream interrupted midway through the handshake process due to a
    /// `WouldBlock` error.
    ///
    /// Note that this is not a fatal error and it should be safe to call
    /// `handshake` at a later time once the stream is ready to perform I/O
    /// again.
    WouldBlock(MidHandshakeTlsStream<S>),
}

impl<S> HandshakeError<S> {
    /// The error underneath: the failure for `Failure`, and none for an
    /// interrupted handshake.
    pub fn source(&self) -> (res: Option<&Error>)
        ensures
            match self {
                HandshakeError::Failure(e) => res == Some(e),
                HandshakeError::WouldBlock(_) => res is None,
            },
    {
        match self {
            HandshakeError::Failure(e) => Some(e),
            HandshakeError::WouldBlock(_) => None,
        }
    }

    /// The error's text, as its `Display` writes it: the failure's own text,
    /// or a note that the handshake was interrupted.
    pub fn to_string(&self) -> (res: String)
        ensures
            match self {
                HandshakeError::Failure(e) => e.describes(res@),
                HandshakeError::WouldBlock(_) => res@ == "the handshake process was interrupted"@,
            },
    {
        match self {
            HandshakeError::Failure(e) => e.to_string(),
            HandshakeError::WouldBlock(_) => String::from_str("the handshake process was interrupted"),
        }
    }
}

impl<S> From<imp::HandshakeError<S>> for HandshakeError<S> {
    fn from(e: imp::HandshakeError<S>) -> (res: HandshakeError<S>)
        ensures
            match e {
                imp::HandshakeError::Failure(err) => res matches HandshakeError::Failure(r) && {
                    &&& r.verify_result() == err.verify_result()
                    &&& r.from_would_block() == err.from_would_block()
                    &&& forall|text: Seq<char>| r.describes(text) == err.describes(text)
                },
                imp::HandshakeError::WouldBlock(i) => res matches HandshakeError::WouldBlock(m)
                    && m.interrupted_by_would_block() == i.would_block(),
            },
    {
        match e {
            imp::HandshakeError::Failure(e) => HandshakeError::Failure(Error(e)),
            imp::HandshakeError::WouldBlock(s) => HandshakeError::WouldBlock(
                MidHandshakeTlsStream(imp::MidHandshakeTlsStream(s)),
            ),
        }
    }
}

impl<S> vstd::std_specs::convert::FromSpecImpl<imp::HandshakeError<S>> for HandshakeError<S> {
    open spec fn obeys_from_spec() -> bool {
        true
    }

    closed spec fn from_spec(e: imp::HandshakeError<S>) -> HandshakeError<S> {
        match e {
            imp::HandshakeError::Failure(e) => HandshakeError::Failure(Error(e)),
            imp::HandshakeError::WouldBlock(s) => HandshakeError::WouldBlock(
                MidHandshakeTlsStream(imp::MidHandshakeTlsStream(s)),
            ),
        }
    }
}

/// SSL/TLS protocol versions.
#[derive(Debug, Copy, Clone)]
#[allow(dead_code, clippy::manual_non_exhaustive)]
pub enum Protocol {
    /// The SSL 3.0 protocol.
    ///
    /// # Warning
    ///
    /// SSL 3.0 has severe security flaws, and should not be used unless absolutely necessary. If
    /// you are not sure if you need to enable this protocol, you should not.
    Sslv3,
    /// The TLS 1.0 protocol.
    Tlsv10,
    /// The TLS 1.1 protocol.
    Tlsv11,
    /// The TLS 1.2 protocol.
    Tlsv12,
    /// Not a protocol: reserved so that more versions can be added.
    __NonExhaustive,
}

/// The protocol number of a version (`0x300` for SSL 3.0, `0x301` to
/// `0x303` for TLS 1.0 to 1.2), as OpenSSL numbers them.
pub open spec fn protocol_number(p: Protocol) -> i32 {
    match p {
        Protocol::Sslv3 => 0x300,
        Protocol::Tlsv10 => 0x301,
        Protocol::Tlsv11 => 0x302,
        Protocol::Tlsv12 => 0x303,
        Protocol::__NonExhaustive => 0,
    }
}

/// The protocol number of an optional version bound (`None`: no bound).
pub open spec fn version_bound(p: Option<Protocol>) -> Option<i32> {
    match p {
        Some(p) => Some(protocol_number(p)),
        None => None,
    }
}

/// A builder for `TlsConnector`s.
pub struct TlsConnectorBuilder {
    identity: Option<Identity>,
    min_protocol: Option<Protocol>,
    max_protocol: Option<Protocol>,
    root_certificates: Vec<Certificate>,
    accept_invalid_certs: bool,
    accept_invalid_hostnames: bool,
    use_sni: bool,
    disable_built_in_roots: bool,
}

impl TlsConnectorBuilder {
    /// A builder only ever holds real protocol versions as its bounds.
    #[verifier::type_invariant]
    closed spec fn bounds_are_versions(self) -> bool {
        &&& imp::is_version(self.min_protocol)
        &&& imp::is_version(self.max_protocol)
    }

    /// Whether a client identity is configured.
    pub closed spec fn has_identity(&self) -> bool {
        self.identity is Some
    }

    /// The minimum supported protocol version (`None`: the oldest OpenSSL supports).
    pub closed spec fn min_protocol(&self) -> Option<Protocol> {
        self.min_protocol
    }

    /// The maximum supported protocol version (`None`: the newest OpenSSL supports).
    pub closed spec fn max_protocol(&self) -> Option<Protocol> {
        self.max_protocol
    }

    /// How many certificates are added to the trust roots.
    pub closed spec fn root_certificate_count(&self) -> nat {
        self.root_certificates@.len()
    }

    /// The client certificate of the identity, if one is configured.
    pub closed spec fn identity_certificate(&self) -> Option<X509> {
        match self.identity {
            Some(identity) => Some(identity.0.cert),
            None => None,
        }
    }

    /// The private key of the identity, if one is configured.
    pub closed spec fn identity_key(&self) -> Option<PKey<Private>> {
        match self.identity {
            Some(identity) => Some(identity.0.pkey),
            None => None,
        }
    }

    /// The chain certificates of the identity, in order (empty without one).
    pub closed spec fn identity_chain(&self) -> Seq<X509> {
        match self.identity {
            Some(identity) => identity.0.chain@,
            None => Seq::empty(),
        }
    }

    /// The certificates added to the trust roots, in order.
    pub closed spec fn root_certificates(&self) -> Seq<X509> {
        Seq::new(self.root_certificates@.len(), |k: int| self.root_certificates@[k].0.0)
    }

    /// Whether certificate validation is switched off.
    pub closed spec fn accepts_invalid_certs(&self) -> bool {
        self.accept_invalid_certs
    }

    /// Whether hostname verification is switched off.
    pub closed spec fn accepts_invalid_hostnames(&self) -> bool {
        self.accept_invalid_hostnames
    }

    /// Whether Server Name Indication is used.
    pub closed spec fn uses_sni(&self) -> bool {
        self.use_sni
    }

    /// Whether the system's built-in trust roots are left out.
    pub closed spec fn built_in_roots_disabled(&self) -> bool {
        self.disable_built_in_roots
    }

    /// Creates a new `TlsConnector`.
    ///
    /// On success the connector's OpenSSL context was given the builder's
    /// identity (certificate, key and chain, in order), its protocol bounds,
    /// an empty trust store in place of the system's when built-in roots are
    /// disabled, and each added root, in order (a root the store refuses is
    /// skipped); the connector keeps the builder's choices for SNI, hostname
    /// verification and certificate validation. A failure is always one
    /// raised while setting OpenSSL up, never a handshake failure.
    pub fn build(&self) -> (res: Result<TlsConnector, Error>)
        ensures
            res matches Ok(c) ==> {
                &&& c.identity_certificate() == self.identity_certificate()
                &&& c.identity_key() == self.identity_key()
                &&& c.chain() == self.identity_chain()
                &&& c.roots_offered() == self.root_certificates()
                &&& c.roots_taken_from_offered()
                &&& c.roots_in_store() == c.roots_added()
                &&& c.system_roots_dropped() == self.built_in_roots_disabled()
                &&& c.min_protocol_version() == Some(version_bound(self.min_protocol()))
                &&& c.max_protocol_version() == Some(version_bound(self.max_protocol()))
                &&& c.uses_sni() == self.uses_sni()
                &&& c.accepts_invalid_hostnames() == self.accepts_invalid_hostnames()
                &&& c.accepts_invalid_certs() == self.accepts_invalid_certs()
            },
            res matches Err(e) ==> e.verify_result() is None,
    {
        proof {
            use_type_invariant(self);
        }
        match imp::TlsConnector::new(self) {
            Ok(connector) => Ok(TlsConnector(connector)),
            Err(e) => Err(Error::from(e)),
        }
    }
}

/// A builder for client-side TLS connections.
#[derive(Clone, Debug)]
pub struct TlsConnector(imp::TlsConnector);

impl TlsConnector {
    /// The client certificate set on the OpenSSL context, if any.
    pub closed spec fn identity_certificate(&self) -> Option<X509> {
        self.0.connector.model().certificate
    }

    /// The private key set on the OpenSSL context, if any.
    pub closed spec fn identity_key(&self) -> Option<PKey<Private>> {
        self.0.connector.model().private_key
    }

    /// The extra chain certificates added to the OpenSSL context, in order.
    pub closed spec fn chain(&self) -> Seq<X509> {
        self.0.connector.model().chain
    }

    /// The certificates offered to the context's trust store, in order.
    pub closed spec fn roots_offered(&self) -> Seq<X509> {
        self.0.connector.model().roots_offered
    }

    /// The certificates the context's trust store took, in order.
    pub closed spec fn roots_added(&self) -> Seq<X509> {
        self.0.connector.model().roots_added
    }

    /// The added certificates that the trust store in use holds, in order:
    /// those added to the system's store, or, where it was replaced, to the
    /// empty store in its place.
    pub closed spec fn roots_in_store(&self) -> Seq<X509> {
        self.0.connector.model().roots_in_store
    }

    /// Whether every certificate the trust store took was offered to it.
    pub closed spec fn roots_taken_from_offered(&self) -> bool {
        imp::roots_taken_from_offered(self.0.connector.model())
    }

    /// Whether the system's trust roots were replaced by an empty store.
    pub closed spec fn system_roots_dropped(&self) -> bool {
        self.0.connector.model().store_replaced
    }

    /// The lower protocol bound set on the OpenSSL context, as a protocol
    /// number (`Some(None)`: set to no bound; `None`: never set).
    pub closed spec fn min_protocol_version(&self) -> Option<Option<i32>> {
        self.0.connector.model().min_version
    }

    /// The upper protocol bound set on the OpenSSL context, as
    /// `min_protocol_version`.
    pub closed spec fn max_protocol_version(&self) -> Option<Option<i32>> {
        self.0.connector.model().max_version
    }

    /// Whether handshakes send the domain as Server Name Indication.
    pub closed spec fn uses_sni(&self) -> bool {
        self.0.use_sni
    }

    /// Whether handshakes skip checking the certificate against the domain.
    pub closed spec fn accepts_invalid_hostnames(&self) -> bool {
        self.0.accept_invalid_hostnames
    }

    /// Whether handshakes skip validating the peer's certificate.
    pub closed spec fn accepts_invalid_certs(&self) -> bool {
        self.0.accept_invalid_certs
    }

    /// Returns a new connector with default settings.
    ///
    /// Its context has no client identity, TLS 1.0 as the oldest protocol and
    /// no upper bound, the system's trust roots and no others; it uses SNI,
    /// verifies hostnames and validates certificates. A failure is one raised
    /// while setting OpenSSL up.
    pub fn new() -> (res: Result<TlsConnector, Error>)
        ensures
            res matches Ok(c) ==> {
                &&& c.identity_certificate() is None
                &&& c.identity_key() is None
                &&& c.chain() == Seq::<X509>::empty()
                &&& c.roots_offered() == Seq::<X509>::empty()
                &&& c.roots_added() == Seq::<X509>::empty()
                &&& c.roots_in_store() == Seq::<X509>::empty()
                &&& !c.system_roots_dropped()
                &&& c.min_protocol_version() == Some(Some(0x301i32))
                &&& c.max_protocol_version() == Some(None::<i32>)
                &&& c.uses_sni()
                &&& !c.accepts_invalid_hostnames()
                &&& !c.accepts_invalid_certs()
            },
            res matches Err(e) ==> e.verify_result() is None,
    {
        let res = TlsConnector::builder().build();
        proof {
            if let Ok(c) = &res {
                if c.roots_added().len() > 0 {
                    assert(c.roots_offered().contains(c.roots_added()[0]));
                }
                assert(c.roots_added() =~= Seq::<X509>::empty());
            }
        }
        res
    }

    /// Returns a new builder for a `TlsConnector`.
    ///
    /// The defaults: no identity, TLS 1.0 as the oldest protocol and no upper
    /// bound, no extra trust roots, SNI on, certificate and hostname
    /// verification on, and the system's trust roots in use.
    pub fn builder() -> (res: TlsConnectorBuilder)
        ensures
            !res.has_identity(),
            res.identity_certificate() is None,
            res.identity_key() is None,
            res.identity_chain() == Seq::<X509>::empty(),
            res.root_certificates() == Seq::<X509>::empty(),
            res.min_protocol() == Some(Protocol::Tlsv10),
            res.max_protocol() == None::<Protocol>,
            res.root_certificate_count() == 0,
            res.uses_sni(),
            !res.accepts_invalid_certs(),
            !res.accepts_invalid_hostnames(),
            !res.built_in_roots_disabled(),
    {
        TlsConnectorBuilder {
            identity: None,
            min_protocol: Some(Protocol::Tlsv10),
            max_protocol: None,
            root_certificates: Vec::new(),
            use_sni: true,
            accept_invalid_certs: false,
            accept_invalid_hostnames: false,
            disable_built_in_roots: false,
        }
    }

    /// Initiates a TLS handshake.
    ///
    /// The provided domain will be used for both SNI and certificate hostname
    /// validation.
    ///
    /// If the socket is nonblocking and a `WouldBlock` error is returned during
    /// the handshake, a `HandshakeError::WouldBlock` error will be returned
    /// which can be used to restart the handshake when the socket is ready
    /// again.
    ///
    /// The domain is ignored if both SNI and hostname verification are
    /// disabled. With SNI on, the domain must not hold a NUL character
    /// (OpenSSL's `set_hostname` panics on one).
    pub fn connect<S: std::io::Read + std::io::Write>(
        &self,
        domain: &str,
        stream: S,
    ) -> (res: Result<TlsStream<S>, HandshakeError<S>>)
        requires
            self.uses_sni() ==> !domain@.contains('\0'),
        ensures
            res matches Ok(t) ==> {
                &&& t.made_by(self)
                &&& t.domain() == domain@
                &&& t.sends_sni() == self.uses_sni()
                &&& t.verifies_hostname() == !self.accepts_invalid_hostnames()
                &&& t.peer_verification_disabled() == self.accepts_invalid_certs()
                &&& t.uses_domain() == (self.uses_sni() || !self.accepts_invalid_hostnames())
            },
            res matches Err(HandshakeError::Failure(e)) ==> !e.from_would_block(),
            res matches Err(HandshakeError::WouldBlock(m)) ==> m.interrupted_by_would_block(),
    {
        match self.0.connect(domain, stream) {
            Ok(s) => Ok(TlsStream(s)),
            Err(e) => Err(HandshakeError::from(e)),
        }
    }
}

/// A builder for server-side TLS connections.
#[derive(Clone)]
pub struct TlsAcceptor(imp::TlsAcceptor);

/// A stream managing a TLS session.
#[derive(Debug)]
#[verifier::reject_recursive_types(S)]
pub struct TlsStream<S>(imp::TlsStream<S>);

impl<S> TlsStream<S> {
    /// The domain the handshake was made for.
    pub closed spec fn domain(&self) -> Seq<char> {
        self.0.0.domain()
    }

    /// Whether SNI was switched on for the handshake (OpenSSL then sends the
    /// domain as SNI unless it is an IP address).
    pub closed spec fn sends_sni(&self) -> bool {
        self.0.0.sni()
    }

    /// Whether the handshake checked the peer's certificate against the domain.
    pub closed spec fn verifies_hostname(&self) -> bool {
        self.0.0.verify_hostname()
    }

    /// Whether verification of the peer's certificate was switched off.
    pub closed spec fn peer_verification_disabled(&self) -> bool {
        self.0.0.verify_none()
    }

    /// Whether SNI or hostname verification was switched on for the
    /// handshake: OpenSSL reads the domain only for those two
    /// (`ConnectConfiguration::into_ssl`), so when this is false the domain
    /// was not used.
    pub open spec fn uses_domain(&self) -> bool {
        self.sends_sni() || self.verifies_hostname()
    }

    /// Whether the stream's session was created from `connector`'s OpenSSL
    /// context.
    pub closed spec fn made_by(&self, connector: &TlsConnector) -> bool {
        self.0.0.context() == connector.0.connector
    }

    /// Whether two streams' sessions were created from the same context.
    pub closed spec fn same_context(&self, other: Self) -> bool {
        self.0.0.context() == other.0.0.context()
    }

    /// The added certificates held by the trust store of the session's
    /// context.
    pub closed spec fn roots_in_store(&self) -> Seq<X509> {
        self.0.0.context().model().roots_in_store
    }

    /// Whether the session's context replaced the system's trust roots with
    /// an empty store.
    pub closed spec fn system_roots_dropped(&self) -> bool {
        self.0.0.context().model().store_replaced
    }

    /// The client certificate of the session's context, if any.
    pub closed spec fn identity_certificate(&self) -> Option<X509> {
        self.0.0.context().model().certificate
    }

    /// The lower protocol bound of the session's context, as
    /// `TlsConnector::min_protocol_version`.
    pub closed spec fn min_protocol_version(&self) -> Option<Option<i32>> {
        self.0.0.context().model().min_version
    }

    /// The upper protocol bound of the session's context.
    pub closed spec fn max_protocol_version(&self) -> Option<Option<i32>> {
        self.0.0.context().model().max_version
    }

    /// The bytes the last successful read delivered (empty before any).
    pub closed spec fn last_read(&self) -> Seq<u8> {
        self.0.0.last_read()
    }

    /// The size of the buffer of the last successful read (0 before any).
    pub closed spec fn last_read_capacity(&self) -> usize {
        self.0.0.last_read_capacity()
    }

    /// The bytes the last successful write handed to the session (empty
    /// before any).
    pub closed spec fn last_written(&self) -> Seq<u8> {
        self.0.0.last_written()
    }

    /// Whether the last successful read, on a buffer with room, delivered
    /// nothing: OpenSSL's read does so only at the end of the stream (the
    /// peer's `close_notify`, or end of file underneath).
    pub open spec fn reached_end(&self) -> bool {
        self.last_read_capacity() > 0 && self.last_read().len() == 0
    }

    /// Whether two streams have the same records of their last transfers.
    pub open spec fn same_transfers(&self, other: Self) -> bool {
        &&& self.last_read() == other.last_read()
        &&& self.last_read_capacity() == other.last_read_capacity()
        &&& self.last_written() == other.last_written()
    }

    /// Whether two streams carry the same session: context, choices and
    /// domain.
    pub open spec fn same_session(&self, other: Self) -> bool {
        &&& self.same_context(other)
        &&& self.domain() == other.domain()
        &&& self.sends_sni() == other.sends_sni()
        &&& self.verifies_hostname() == other.verifies_hostname()
        &&& self.peer_verification_disabled() == other.peer_verification_disabled()
    }

    /// Returns a shared reference to the inner stream.
    pub fn get_ref(&self) -> &S {
        self.0.get_ref()
    }

    /// Returns a mutable reference to the inner stream.
    #[allow(dead_code)]
    pub fn get_mut(&mut self) -> (res: &mut S)
        ensures
            final(self).same_session(*old(self)),
            final(self).same_transfers(*old(self)),
    {
        self.0.get_mut()
    }
}

impl<S: std::io::Read + std::io::Write> std::io::Read for TlsStream<S> {
    fn read(&mut self, buf: &mut [u8]) -> (res: std::io::Result<usize>)
        ensures
            res matches Ok(n) ==> n <= old(buf)@.len(),
            old(buf)@.len() == 0 ==> res matches Ok(0),
            res matches Ok(n) ==> {
                &&& final(self).last_read() == final(buf)@.subrange(0, n as int)
                &&& final(self).last_read_capacity() == old(buf)@.len()
                &&& final(self).last_written() == old(self).last_written()
            },
            (old(buf)@.len() > 0 && res == std::io::Result::<usize>::Ok(0usize)) ==> final(self).reached_end(),
            res is Err ==> final(self).same_transfers(*old(self)),
            final(self).same_session(*old(self)),
    {
        self.0.read(buf)
    }
}

impl<S: std::io::Read + std::io::Write> std::io::Write for TlsStream<S> {
    fn write(&mut self, buf: &[u8]) -> (res: std::io::Result<usize>)
        ensures
            res matches Ok(n) ==> n <= buf@.len(),
            buf@.len() == 0 ==> res matches Ok(0),
            res matches Ok(n) ==> {
                &&& final(self).last_written() == buf@.subrange(0, n as int)
                &&& final(self).last_read() == old(self).last_read()
                &&& final(self).last_read_capacity() == old(self).last_read_capacity()
            },
            res is Err ==> final(self).same_transfers(*old(self)),
            final(self).same_session(*old(self)),
    {
        self.0.write(buf)
    }

    fn flush(&mut self) -> (res: std::io::Result<()>)
        ensures
            final(self).same_session(*old(self)),
            final(self).same_transfers(*old(self)),
    {
        self.0.flush()
    }
}

/// A connection runs on the connector's own OpenSSL context: the session of
/// a stream that `connect` returns trusts what the connector's context
/// trusts (the system's roots unless they were dropped, and the added roots
/// its store took), and carries the connector's identity and protocol
/// bounds.
pub proof fn law_connection_uses_connector_context<S: std::io::Read + std::io::Write>(
    connector: &TlsConnector,
    domain: &str,
    stream: S,
    res: Result<TlsStream<S>, HandshakeError<S>>,
)
    requires
        call_ensures(TlsConnector::connect::<S>, (connector, domain, stream), res),
    ensures
        res matches Ok(t) ==> {
            &&& t.system_roots_dropped() == connector.system_roots_dropped()
            &&& t.roots_in_store() == connector.roots_in_store()
            &&& t.identity_certificate() == connector.identity_certificate()
            &&& t.min_protocol_version() == connector.min_protocol_version()
            &&& t.max_protocol_version() == connector.max_protocol_version()
        },
{
}

/// A connection made with a default connector trusts the system's roots and
/// no others, checks the peer's certificate and the hostname, sends SNI, and
/// allows TLS 1.0 and up.
pub proof fn law_default_connection_trusts_system_roots<S: std::io::Read + std::io::Write>(
    connector: TlsConnector,
    domain: &str,
    stream: S,
    res: Result<TlsStream<S>, HandshakeError<S>>,
)
    requires
        call_ensures(TlsConnector::new, (), Ok::<TlsConnector, Error>(connector)),
        call_ensures(TlsConnector::connect::<S>, (&connector, domain, stream), res),
    ensures
        res matches Ok(t) ==> {
            &&& !t.system_roots_dropped()
            &&& t.roots_in_store() == Seq::<X509>::empty()
            &&& t.identity_certificate() is None
            &&& !t.peer_verification_disabled()
            &&& t.verifies_hostname()
            &&& t.sends_sni()
            &&& t.domain() == domain@
            &&& t.min_protocol_version() == Some(Some(0x301i32))
            &&& t.max_protocol_version() == Some(None::<i32>)
        },
{
}

/// A handshake comes back as `WouldBlock` only when OpenSSL reported it as
/// interrupted by a `WouldBlock` I/O error, and a `Failure` never comes from
/// such an interruption: a fatal failure is never reported as resumable, nor
/// a resumable one as fatal.
pub proof fn law_connect_keeps_fatal_and_resumable_apart<S: std::io::Read + std::io::Write>(
    connector: &TlsConnector,
    domain: &str,
    stream: S,
    res: Result<TlsStream<S>, HandshakeError<S>>,
)
    requires
        call_ensures(TlsConnector::connect::<S>, (connector, domain, stream), res),
    ensures
        res matches Err(HandshakeError::WouldBlock(m)) ==> m.interrupted_by_would_block(),
        res matches Err(HandshakeError::Failure(e)) ==> !e.from_would_block(),
{
}

fn is_sync<T: Sync>() {
}

fn is_send<T: Send>() {
}

/// Holds only if every public type can cross and be shared between threads
/// (for a stream type `S` that can).
fn _check_kinds<S: Send + Sync>() {
    is_sync::<Error>();
    is_send::<Error>();
    is_sync::<TlsConnectorBuilder>();
    is_send::<TlsConnectorBuilder>();
    is_sync::<TlsConnector>();
    is_send::<TlsConnector>();
    is_sync::<TlsAcceptor>();
    is_send::<TlsAcceptor>();
    is_sync::<TlsStream<S>>();
    is_send::<TlsStream<S>>();
    is_sync::<MidHandshakeTlsStream<S>>();
    is_send::<MidHandshakeTlsStream<S>>();
}

} // verus!
