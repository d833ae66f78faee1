//! The calls this library makes into the `openssl` crate.
//!
//! Every item here is trusted: Verus believes its contract and does not read
//! its body. The OpenSSL objects are opaque to the verifier; where the
//! crate's source promises something about a result that can be said over
//! plain values, the contract says it.

use vstd::prelude::*;

use openssl::error::ErrorStack;
use openssl::pkey::{PKey, Private};
use openssl::ssl::{
    ConnectConfiguration, MidHandshakeSslStream, SslConnector, SslConnectorBuilder,
    SslStream, SslVersion,
};
use openssl::x509::store::{X509Store, X509StoreBuilder};
use openssl::x509::X509;
use openssl::ssl::Error as SslError;
use openssl::ssl::HandshakeError as SslHandshakeError;

verus! {

#[verifier::external_type_specification]
#[verifier::external_body]
pub struct ExSslConnector(openssl::ssl::SslConnector);

#[verifier::external_type_specification]
#[verifier::external_body]
pub struct ExSslConnectorBuilder(openssl::ssl::SslConnectorBuilder);

#[verifier::external_type_specification]
#[verifier::external_body]
pub struct ExConnectConfiguration(openssl::ssl::ConnectConfiguration);

#[verifier::external_type_specification]
#[verifier::external_body]
pub struct ExSslAcceptor(openssl::ssl::SslAcceptor);

#[verifier::external_type_specification]
#[verifier::external_body]
#[verifier::reject_recursive_types(S)]
pub struct ExSslStream<S>(openssl::ssl::SslStream<S>);

#[verifier::external_type_specification]
#[verifier::external_body]
#[verifier::reject_recursive_types(S)]
pub struct ExMidHandshakeSslStream<S>(openssl::ssl::MidHandshakeSslStream<S>);

#[verifier::external_type_specification]
#[verifier::external_body]
#[verifier::reject_recursive_types(S)]
pub struct ExSslHandshakeError<S>(SslHandshakeError<S>);

#[verifier::external_type_specification]
#[verifier::external_body]
pub struct ExErrorStack(openssl::error::ErrorStack);

#[verifier::external_type_specification]
#[verifier::external_body]
pub struct ExSslError(SslError);

#[verifier::external_type_specification]
#[verifier::external_body]
pub struct ExSslVersion(openssl::ssl::SslVersion);

#[verifier::external_type_specification]
#[verifier::external_body]
pub struct ExX509(openssl::x509::X509);

#[verifier::external_type_specification]
#[verifier::external_body]
pub struct ExX509Store(openssl::x509::store::X509Store);

#[verifier::external_type_specification]
#[verifier::external_body]
pub struct ExX509StoreBuilder(openssl::x509::store::X509StoreBuilder);

#[verifier::external_type_specification]
#[verifier::external_body]
#[verifier::reject_recursive_types(T)]
pub struct ExPKey<T>(openssl::pkey::PKey<T>);

#[verifier::external_type_specification]
#[verifier::external_body]
pub struct ExPrivate(openssl::pkey::Private);

#[verifier::external_type_specification]
#[verifier::external_body]
pub struct ExIoError(std::io::Error);

/// `X509::clone`: another handle to the same certificate. The source
/// (`X509Ref::to_owned`) raises the reference count and returns a handle on
/// the same pointer, so the clone is the same value.
pub assume_specification[<openssl::x509::X509 as std::clone::Clone>::clone](cert: &X509) -> (res: X509)
    ensures
        res == *cert,
;

/// `PKey::clone`: another handle to the same key. The source
/// (`PKeyRef::to_owned`) raises the reference count and returns a handle on
/// the same pointer, so the clone is the same value.
pub assume_specification<T>[<openssl::pkey::PKey<T> as std::clone::Clone>::clone](key: &PKey<T>) -> (res: PKey<T>)
    ensures
        res == *key,
;

/// `SslConnector::clone` (derived): another handle to the same context. The
/// source (`SslContextRef::to_owned`) raises the reference count and returns
/// a handle on the same pointer, so the clone is the same value.
pub assume_specification[<openssl::ssl::SslConnector as std::clone::Clone>::clone](connector: &SslConnector) -> (res: SslConnector)
    ensures
        res == *connector,
;

/// `SslAcceptor::clone` (derived): another handle to the same context.
/// Nothing is stated of the result.
pub assume_specification[<openssl::ssl::SslAcceptor as std::clone::Clone>::clone](acceptor: &openssl::ssl::SslAcceptor) -> openssl::ssl::SslAcceptor;

/// The three outcomes of `openssl::ssl::HandshakeError`, with the variant's
/// payload moved over unchanged.
#[verifier::reject_recursive_types(S)]
pub enum RawHandshakeError<S> {
    /// `HandshakeError::SetupFailure`: the session could not be set up.
    SetupFailure(ErrorStack),
    /// `HandshakeError::Failure`: the handshake itself failed.
    Failure(Interrupted<S>),
    /// `HandshakeError::WouldBlock`: the stream could not make progress.
    WouldBlock(Interrupted<S>),
}

/// A handshake that stopped midway, with the variant of
/// `openssl::ssl::HandshakeError` it came in: `WouldBlock` (the stream could
/// not make progress; the handshake can be resumed) or `Failure`.
#[derive(Debug)]
#[verifier::reject_recursive_types(S)]
pub struct Interrupted<S> {
    mid: MidHandshakeSslStream<S>,
    would_block: bool,
}

impl<S> Interrupted<S> {
    /// Whether OpenSSL reported this handshake as blocked (`WouldBlock`)
    /// rather than failed (`Failure`).
    pub closed spec fn would_block(&self) -> bool {
        self.would_block
    }
}

/// The error that stopped a handshake, with the variant of
/// `openssl::ssl::HandshakeError` the handshake came in.
#[derive(Debug)]
pub struct HandshakeFailure {
    error: SslError,
    would_block: bool,
}

impl HandshakeFailure {
    /// Whether OpenSSL reported the handshake as blocked rather than failed.
    pub closed spec fn would_block(&self) -> bool {
        self.would_block
    }

    /// OpenSSL's error.
    pub closed spec fn ssl_error(&self) -> SslError {
        self.error
    }

    /// OpenSSL's error.
    pub fn error(&self) -> (res: &SslError)
        ensures
            *res == self.ssl_error(),
    {
        &self.error
    }
}

/// An OpenSSL protocol version constant together with its protocol number
/// (the `c_int` that `SslVersion` wraps, from `openssl-sys`).
#[derive(Clone, Copy, Debug)]
pub struct Version {
    ssl: SslVersion,
    number: i32,
}

impl Version {
    /// The protocol number of this version (`SSL3_VERSION` is `0x300`,
    /// `TLS1_VERSION` `0x301`, `TLS1_1_VERSION` `0x302`, `TLS1_2_VERSION`
    /// `0x303`).
    pub closed spec fn number(&self) -> i32 {
        self.number
    }
}

/// `SslVersion::SSL3`, which wraps `SSL3_VERSION` (`0x300`).
#[verifier::external_body]
pub fn version_ssl3() -> (res: Version)
    ensures
        res.number() == 0x300,
{
    Version { ssl: SslVersion::SSL3, number: 0x300 }
}

/// `SslVersion::TLS1`, which wraps `TLS1_VERSION` (`0x301`).
#[verifier::external_body]
pub fn version_tls1() -> (res: Version)
    ensures
        res.number() == 0x301,
{
    Version { ssl: SslVersion::TLS1, number: 0x301 }
}

/// `SslVersion::TLS1_1`, which wraps `TLS1_1_VERSION` (`0x302`).
#[verifier::external_body]
pub fn version_tls1_1() -> (res: Version)
    ensures
        res.number() == 0x302,
{
    Version { ssl: SslVersion::TLS1_1, number: 0x302 }
}

/// `SslVersion::TLS1_2`, which wraps `TLS1_2_VERSION` (`0x303`).
#[verifier::external_body]
pub fn version_tls1_2() -> (res: Version)
    ensures
        res.number() == 0x303,
{
    Version { ssl: SslVersion::TLS1_2, number: 0x303 }
}

/// The protocol number of an optional version bound.
pub open spec fn bound_number(v: Option<Version>) -> Option<i32> {
    match v {
        Some(v) => Some(v.number()),
        None => None,
    }
}

/// What has been done to an OpenSSL client context through the wrappers
/// below, kept as handles to the same OpenSSL objects.
#[derive(Clone, Debug)]
pub struct ContextRecord {
    min_version: Option<Option<i32>>,
    max_version: Option<Option<i32>>,
    certificate: Option<X509>,
    private_key: Option<PKey<Private>>,
    chain: Vec<X509>,
    roots_offered: Vec<X509>,
    roots_added: Vec<X509>,
    roots_in_store: Vec<X509>,
    store_replaced: bool,
}

/// A record read as plain values: the protocol bounds last set successfully
/// (as protocol numbers; `None` for "never set", `Some(None)` for "set to no
/// bound"), the certificate and private key set, the extra chain
/// certificates added (in order), the certificates offered to the trust
/// store and those it took (in order), the certificates added to the trust
/// store now in use since it was set up (in order; a store put in place by
/// `set_cert_store` starts with none), and whether the trust store was
/// replaced.
pub struct ContextModel {
    pub min_version: Option<Option<i32>>,
    pub max_version: Option<Option<i32>>,
    pub certificate: Option<X509>,
    pub private_key: Option<PKey<Private>>,
    pub chain: Seq<X509>,
    pub roots_offered: Seq<X509>,
    pub roots_added: Seq<X509>,
    pub roots_in_store: Seq<X509>,
    pub store_replaced: bool,
}

impl ContextRecord {
    pub closed spec fn model(&self) -> ContextModel {
        ContextModel {
            min_version: self.min_version,
            max_version: self.max_version,
            certificate: self.certificate,
            private_key: self.private_key,
            chain: self.chain@,
            roots_offered: self.roots_offered@,
            roots_added: self.roots_added@,
            roots_in_store: self.roots_in_store@,
            store_replaced: self.store_replaced,
        }
    }
}

/// The model of a context on which nothing has been done yet.
pub open spec fn fresh_model() -> ContextModel {
    ContextModel {
        min_version: None,
        max_version: None,
        certificate: None,
        private_key: None,
        chain: Seq::empty(),
        roots_offered: Seq::empty(),
        roots_added: Seq::empty(),
        roots_in_store: Seq::empty(),
        store_replaced: false,
    }
}

/// An OpenSSL client context under construction, with its record.
pub struct ContextBuilder {
    inner: SslConnectorBuilder,
    record: ContextRecord,
}

impl ContextBuilder {
    /// What has been done to this context.
    pub closed spec fn model(&self) -> ContextModel {
        self.record.model()
    }
}

/// A finished OpenSSL client context, with the record of its builder.
#[derive(Clone, Debug)]
pub struct Connector {
    inner: SslConnector,
    record: ContextRecord,
}

impl Connector {
    /// What was done to the context while it was built.
    pub closed spec fn model(&self) -> ContextModel {
        self.record.model()
    }
}

/// One client session before its handshake, with the choices made on it:
/// whether it sends SNI and checks the hostname (the private `sni` and
/// `verify_hostname` of `ConnectConfiguration`), and whether
/// `set_verify(SslVerifyMode::NONE)` was applied to it.
pub struct Session {
    config: ConnectConfiguration,
    context: Connector,
    sni: bool,
    verify_hostname: bool,
    verify_none: bool,
}

impl Session {
    /// The client context the session was created from.
    pub closed spec fn context(&self) -> Connector {
        self.context
    }

    pub closed spec fn sni(&self) -> bool {
        self.sni
    }

    pub closed spec fn verify_hostname(&self) -> bool {
        self.verify_hostname
    }

    pub closed spec fn verify_none(&self) -> bool {
        self.verify_none
    }
}

/// A session whose handshake completed, with the choices it was made with
/// and the domain handed to the handshake.
#[derive(Debug)]
#[verifier::reject_recursive_types(S)]
pub struct Established<S> {
    stream: SslStream<S>,
    context: Connector,
    sni: bool,
    verify_hostname: bool,
    verify_none: bool,
    domain: String,
    last_read: Vec<u8>,
    last_read_capacity: usize,
    last_written: Vec<u8>,
}

impl<S> Established<S> {
    /// The client context the session was created from.
    pub closed spec fn context(&self) -> Connector {
        self.context
    }

    pub closed spec fn sni(&self) -> bool {
        self.sni
    }

    pub closed spec fn verify_hostname(&self) -> bool {
        self.verify_hostname
    }

    pub closed spec fn verify_none(&self) -> bool {
        self.verify_none
    }

    pub closed spec fn domain(&self) -> Seq<char> {
        self.domain@
    }

    /// The bytes OpenSSL delivered on the last successful read (empty before
    /// any).
    pub closed spec fn last_read(&self) -> Seq<u8> {
        self.last_read@
    }

    /// The size of the buffer of the last successful read (0 before any).
    pub closed spec fn last_read_capacity(&self) -> usize {
        self.last_read_capacity
    }

    /// The bytes OpenSSL took on the last successful write (empty before
    /// any).
    pub closed spec fn last_written(&self) -> Seq<u8> {
        self.last_written@
    }

    /// Whether two sessions have the same context, choices and domain.
    pub open spec fn same_session(&self, other: Self) -> bool {
        &&& self.context() == other.context()
        &&& self.sni() == other.sni()
        &&& self.verify_hostname() == other.verify_hostname()
        &&& self.verify_none() == other.verify_none()
        &&& self.domain() == other.domain()
    }

    /// Whether two sessions have the same records of their last transfers.
    pub open spec fn same_transfers(&self, other: Self) -> bool {
        &&& self.last_read() == other.last_read()
        &&& self.last_read_capacity() == other.last_read_capacity()
        &&& self.last_written() == other.last_written()
    }
}

/// `SslConnector::builder(SslMethod::tls())`: a client context with OpenSSL's
/// default trust paths, cipher list and peer verification, on which nothing
/// has been set yet. Whether it succeeds depends on the OpenSSL library.
#[verifier::external_body]
pub fn connector_builder() -> (res: Result<ContextBuilder, ErrorStack>)
    ensures
        res matches Ok(b) ==> b.model() == fresh_model(),
{
    match SslConnector::builder(openssl::ssl::SslMethod::tls()) {
        Ok(inner) => Ok(ContextBuilder { inner, record: ContextRecord {
            min_version: None, max_version: None, certificate: None, private_key: None,
            chain: Vec::new(), roots_offered: Vec::new(), roots_added: Vec::new(),
            roots_in_store: Vec::new(), store_replaced: false,
        } }),
        Err(e) => Err(e),
    }
}

/// `SslContextBuilder::set_certificate` on the context; on success the
/// certificate is recorded.
#[verifier::external_body]
pub fn set_certificate(builder: &mut ContextBuilder, cert: &X509) -> (res: Result<(), ErrorStack>)
    ensures
        res is Ok ==> final(builder).model() == (ContextModel { certificate: Some(*cert), ..old(builder).model() }),
        res is Err ==> final(builder).model() == old(builder).model(),
{
    match builder.inner.set_certificate(cert) {
        Ok(()) => {
            builder.record.certificate = Some(cert.clone());
            Ok(())
        },
        Err(e) => Err(e),
    }
}

/// `SslContextBuilder::set_private_key` on the context; on success the key
/// is recorded.
#[verifier::external_body]
pub fn set_private_key(builder: &mut ContextBuilder, key: &PKey<Private>) -> (res: Result<(), ErrorStack>)
    ensures
        res is Ok ==> final(builder).model() == (ContextModel { private_key: Some(*key), ..old(builder).model() }),
        res is Err ==> final(builder).model() == old(builder).model(),
{
    match builder.inner.set_private_key(key) {
        Ok(()) => {
            builder.record.private_key = Some(key.clone());
            Ok(())
        },
        Err(e) => Err(e),
    }
}

/// `SslContextBuilder::add_extra_chain_cert` on the context; on success the
/// certificate is recorded after those added before.
#[verifier::external_body]
pub fn add_extra_chain_cert(builder: &mut ContextBuilder, cert: X509) -> (res: Result<(), ErrorStack>)
    ensures
        res is Ok ==> final(builder).model() == (ContextModel {
            chain: old(builder).model().chain.push(cert),
            ..old(builder).model()
        }),
        res is Err ==> final(builder).model() == old(builder).model(),
{
    let kept = cert.clone();
    match builder.inner.add_extra_chain_cert(cert) {
        Ok(()) => {
            builder.record.chain.push(kept);
            Ok(())
        },
        Err(e) => Err(e),
    }
}

/// `SslContextBuilder::set_min_proto_version`; `None` leaves the lowest
/// version OpenSSL supports enabled. On success the lower bound is recorded.
#[verifier::external_body]
pub fn set_min_proto_version(builder: &mut ContextBuilder, version: Option<Version>) -> (res: Result<(), ErrorStack>)
    ensures
        res is Ok ==> final(builder).model() == (ContextModel {
            min_version: Some(bound_number(version)),
            ..old(builder).model()
        }),
        res is Err ==> final(builder).model() == old(builder).model(),
{
    match builder.inner.set_min_proto_version(version.map(|v| v.ssl)) {
        Ok(()) => {
            builder.record.min_version = Some(version.map(|v| v.number));
            Ok(())
        },
        Err(e) => Err(e),
    }
}

/// `SslContextBuilder::set_max_proto_version`; `None` leaves the highest
/// version OpenSSL supports enabled. On success the upper bound is recorded.
#[verifier::external_body]
pub fn set_max_proto_version(builder: &mut ContextBuilder, version: Option<Version>) -> (res: Result<(), ErrorStack>)
    ensures
        res is Ok ==> final(builder).model() == (ContextModel {
            max_version: Some(bound_number(version)),
            ..old(builder).model()
        }),
        res is Err ==> final(builder).model() == old(builder).model(),
{
    match builder.inner.set_max_proto_version(version.map(|v| v.ssl)) {
        Ok(()) => {
            builder.record.max_version = Some(version.map(|v| v.number));
            Ok(())
        },
        Err(e) => Err(e),
    }
}

/// `X509StoreBuilder::new`: an empty certificate store under construction.
#[verifier::external_body]
pub fn new_store_builder() -> Result<X509StoreBuilder, ErrorStack> {
    X509StoreBuilder::new()
}

/// `X509StoreBuilder::build`: the finished certificate store.
#[verifier::external_body]
pub fn build_store(store: X509StoreBuilder) -> X509Store {
    store.build()
}

/// `SslContextBuilder::set_cert_store`: replaces the context's trust store
/// (`SSL_CTX_set_cert_store` frees the old one), so the certificates added
/// to the old store are no longer in use. Only a store built here, with no
/// certificates, is handed over.
#[verifier::external_body]
pub fn set_cert_store(builder: &mut ContextBuilder, store: X509Store)
    ensures
        final(builder).model() == (ContextModel {
            store_replaced: true,
            roots_in_store: Seq::empty(),
            ..old(builder).model()
        }),
{
    builder.inner.set_cert_store(store);
    builder.record.store_replaced = true;
    builder.record.roots_in_store = Vec::new();
}

/// `X509StoreBuilderRef::add_cert` on the context's trust store
/// (`SslContextBuilder::cert_store_mut`). The offer is recorded, and the
/// certificate is recorded as taken when the store takes it.
#[verifier::external_body]
pub fn add_trusted_cert(builder: &mut ContextBuilder, cert: X509) -> (res: Result<(), ErrorStack>)
    ensures
        res is Ok ==> final(builder).model() == (ContextModel {
            roots_offered: old(builder).model().roots_offered.push(cert),
            roots_added: old(builder).model().roots_added.push(cert),
            roots_in_store: old(builder).model().roots_in_store.push(cert),
            ..old(builder).model()
        }),
        res is Err ==> final(builder).model() == (ContextModel {
            roots_offered: old(builder).model().roots_offered.push(cert),
            ..old(builder).model()
        }),
{
    builder.record.roots_offered.push(cert.clone());
    let kept = cert.clone();
    match builder.inner.cert_store_mut().add_cert(cert) {
        Ok(()) => {
            builder.record.roots_in_store.push(kept.clone());
            builder.record.roots_added.push(kept);
            Ok(())
        },
        Err(e) => Err(e),
    }
}

/// `SslConnectorBuilder::build`: the finished context, keeping the record of
/// its builder.
#[verifier::external_body]
pub fn build_connector(builder: ContextBuilder) -> (res: Connector)
    ensures
        res.model() == builder.model(),
{
    Connector { inner: builder.inner.build(), record: builder.record }
}

/// `SslConnector::configure`: a fresh session created from this connector's
/// context (`Ssl::new` on it), with SNI and hostname verification switched
/// on (the source sets `sni: true` and `verify_hostname: true`). It fails
/// only where OpenSSL cannot create the session.
#[verifier::external_body]
pub fn configure(connector: &Connector) -> (res: Result<Session, ErrorStack>)
    ensures
        res matches Ok(s) ==> {
            &&& s.context() == *connector
            &&& s.sni() && s.verify_hostname() && !s.verify_none()
        },
{
    match connector.inner.configure() {
        Ok(config) => Ok(Session {
            config, context: connector.clone(), sni: true, verify_hostname: true, verify_none: false,
        }),
        Err(e) => Err(e),
    }
}

/// `ConnectConfiguration::use_server_name_indication`.
#[verifier::external_body]
pub fn use_server_name_indication(session: Session, use_sni: bool) -> (res: Session)
    ensures
        res.sni() == use_sni,
        res.context() == session.context(),
        res.verify_hostname() == session.verify_hostname(),
        res.verify_none() == session.verify_none(),
{
    Session { config: session.config.use_server_name_indication(use_sni), sni: use_sni, ..session }
}

/// `ConnectConfiguration::verify_hostname`.
#[verifier::external_body]
pub fn verify_hostname(session: Session, verify: bool) -> (res: Session)
    ensures
        res.verify_hostname() == verify,
        res.context() == session.context(),
        res.sni() == session.sni(),
        res.verify_none() == session.verify_none(),
{
    Session { config: session.config.verify_hostname(verify), verify_hostname: verify, ..session }
}

/// `SslRef::set_verify(SslVerifyMode::NONE)` on the session: the peer's
/// certificate is not verified.
#[verifier::external_body]
pub fn disable_peer_verification(session: &mut Session)
    ensures
        final(session).verify_none(),
        final(session).context() == old(session).context(),
        final(session).sni() == old(session).sni(),
        final(session).verify_hostname() == old(session).verify_hostname(),
{
    session.config.set_verify(openssl::ssl::SslVerifyMode::NONE);
    session.verify_none = true;
}

/// `ConnectConfiguration::connect`: runs the client handshake for `domain`
/// over `stream`. With SNI on, the source hands the domain to
/// `SslRef::set_hostname`, which panics on a NUL character (it unwraps
/// `CString::new`), so such a domain is left out; a domain holding a NUL is
/// never an IP address, which would skip that step. Its outcome depends on the peer and the stream; a
/// completed session keeps the choices made on it and the domain.
#[verifier::external_body]
pub fn handshake<S: std::io::Read + std::io::Write>(
    session: Session,
    domain: &str,
    stream: S,
) -> (res: Result<Established<S>, SslHandshakeError<S>>)
    requires
        session.sni() ==> !domain@.contains('\0'),
    ensures
        res matches Ok(e) ==> {
            &&& e.context() == session.context()
            &&& e.sni() == session.sni()
            &&& e.verify_hostname() == session.verify_hostname()
            &&& e.verify_none() == session.verify_none()
            &&& e.domain() == domain@
            &&& e.last_read() == Seq::<u8>::empty()
            &&& e.last_read_capacity() == 0
            &&& e.last_written() == Seq::<u8>::empty()
        },
{
    match session.config.connect(domain, stream) {
        Ok(stream) => Ok(Established {
            stream,
            context: session.context,
            sni: session.sni,
            verify_hostname: session.verify_hostname,
            verify_none: session.verify_none,
            domain: domain.to_string(),
            last_read: Vec::new(),
            last_read_capacity: 0,
            last_written: Vec::new(),
        }),
        Err(e) => Err(e),
    }
}

/// Tells the variants of `openssl::ssl::HandshakeError` apart, moving each
/// payload unchanged into the matching variant of `RawHandshakeError`, and
/// marking a stopped handshake with the variant it came in.
#[verifier::external_body]
pub fn split_handshake_error<S>(e: SslHandshakeError<S>) -> (res: RawHandshakeError<S>)
    ensures
        res matches RawHandshakeError::Failure(i) ==> !i.would_block(),
        res matches RawHandshakeError::WouldBlock(i) ==> i.would_block(),
{
    match e {
        SslHandshakeError::SetupFailure(s) => RawHandshakeError::SetupFailure(s),
        SslHandshakeError::Failure(mid) => RawHandshakeError::Failure(Interrupted { mid, would_block: false }),
        SslHandshakeError::WouldBlock(mid) => RawHandshakeError::WouldBlock(Interrupted { mid, would_block: true }),
    }
}

/// `MidHandshakeSslStream::ssl().verify_result()`: the session's X.509
/// verification result, as its raw code (`X509VerifyResult::as_raw`) and
/// its text (`X509VerifyResult::error_string`). The value depends on the
/// session's state, so nothing is stated of it.
#[verifier::external_body]
pub fn mid_handshake_verify_result<S>(stream: &Interrupted<S>) -> (i32, String) {
    let result = stream.mid.ssl().verify_result();
    (result.as_raw(), result.error_string().to_string())
}

/// `MidHandshakeSslStream::into_error`: the error that stopped the handshake,
/// marked with the variant the handshake came in.
#[verifier::external_body]
pub fn mid_handshake_into_error<S>(stream: Interrupted<S>) -> (res: HandshakeFailure)
    ensures
        res.would_block() == stream.would_block(),
{
    HandshakeFailure { error: stream.mid.into_error(), would_block: stream.would_block }
}

/// `SslStream::get_ref`: the stream underneath the TLS session; its state
/// depends on the I/O done so far, so nothing is stated of it.
#[verifier::external_body]
pub fn stream_get_ref<S>(stream: &Established<S>) -> &S {
    stream.stream.get_ref()
}

/// `SslStream::get_mut`: the stream underneath the TLS session; the
/// session's record stays as it was.
#[verifier::external_body]
pub fn stream_get_mut<S>(stream: &mut Established<S>) -> (res: &mut S)
    ensures
        final(stream).same_session(*old(stream)),
        final(stream).same_transfers(*old(stream)),
{
    stream.stream.get_mut()
}

/// `<SslStream<S> as Read>::read`. On success it reports at most as many
/// bytes as `buf` holds (the source returns `Ok(0)` for an empty buffer and
/// otherwise the count `SSL_read_ex` filled in, or 0 at the end of the
/// stream: `ZERO_RETURN`, or `SYSCALL` with no I/O error); the bytes it put
/// at the front of `buf` are recorded, with the buffer's size.
#[verifier::external_body]
pub fn stream_read<S: std::io::Read + std::io::Write>(
    stream: &mut Established<S>,
    buf: &mut [u8],
) -> (res: std::io::Result<usize>)
    ensures
        old(buf)@.len() == 0 ==> res matches Ok(0),
        res matches Ok(n) ==> {
            &&& n <= old(buf)@.len()
            &&& final(buf)@.len() == old(buf)@.len()
            &&& final(stream).last_read() == final(buf)@.subrange(0, n as int)
            &&& final(stream).last_read_capacity() == old(buf)@.len()
            &&& final(stream).last_written() == old(stream).last_written()
        },
        res is Err ==> final(stream).same_transfers(*old(stream)),
        final(stream).same_session(*old(stream)),
{
    let res = std::io::Read::read(&mut stream.stream, buf);
    if let Ok(n) = res {
        stream.last_read = buf[..n].to_vec();
        stream.last_read_capacity = buf.len();
    }
    res
}

/// `<SslStream<S> as Write>::write`. On success it reports at most as many
/// bytes as `buf` holds, as `std::io::Write::write` guarantees (an empty
/// buffer gives `Ok(0)` without calling OpenSSL, `ssl_write`), and the bytes
/// OpenSSL took, the first `n` of `buf`, are recorded.
#[verifier::external_body]
pub fn stream_write<S: std::io::Read + std::io::Write>(
    stream: &mut Established<S>,
    buf: &[u8],
) -> (res: std::io::Result<usize>)
    ensures
        buf@.len() == 0 ==> res matches Ok(0),
        res matches Ok(n) ==> {
            &&& n <= buf@.len()
            &&& final(stream).last_written() == buf@.subrange(0, n as int)
            &&& final(stream).last_read() == old(stream).last_read()
            &&& final(stream).last_read_capacity() == old(stream).last_read_capacity()
        },
        res is Err ==> final(stream).same_transfers(*old(stream)),
        final(stream).same_session(*old(stream)),
{
    let res = std::io::Write::write(&mut stream.stream, buf);
    if let Ok(n) = res {
        stream.last_written = buf[..n].to_vec();
    }
    res
}

/// `<SslStream<S> as Write>::flush`: flushes the underlying stream.
#[verifier::external_body]
pub fn stream_flush<S: std::io::Read + std::io::Write>(stream: &mut Established<S>) -> (res: std::io::Result<()>)
    ensures
        final(stream).same_session(*old(stream)),
        final(stream).same_transfers(*old(stream)),
{
    std::io::Write::flush(&mut stream.stream)
}

} // verus!
