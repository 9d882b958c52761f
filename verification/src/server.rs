use vstd::prelude::*;

use crate::errors::Error;

verus! {

/// A DER-encoded certificate.
#[derive(Debug, Clone, PartialEq, Eq)]
pub struct Certificate(pub Vec<u8>);

/// A DER-encoded private key.
#[derive(Debug, Clone, PartialEq, Eq)]
pub struct PrivateKey(pub Vec<u8>);

/// The mathematical shape of a set of TLS credentials: the certificate
/// chain, leaf first, and exactly one private key.
#[verifier::ext_equal]
pub struct ParamsModel {
    pub chain: Seq<Seq<u8>>,
    pub key: Seq<u8>,
}

/// TLS credentials: an ordered certificate chain (leaf first) and exactly
/// one private key. Built once by the credential loader and never mutated.
#[derive(Debug)]
pub struct TlsParams {
    pub certificates: Vec<Certificate>,
    pub private_key: PrivateKey,
}

impl View for TlsParams {
    type V = ParamsModel;

    open spec fn view(&self) -> ParamsModel {
        ParamsModel {
            chain: self.certificates@.map_values(|c: Certificate| c.0@),
            key: self.private_key.0@,
        }
    }
}

/// Whether the TLS library accepts the credentials as a server identity.
/// Relies on rustls's with_single_cert, whose acceptance — the private key
/// parses as a supported type — is a function of the credentials alone.
pub uninterp spec fn credentials_accepted(p: ParamsModel) -> bool;

/// Relies on rustls's configuration builder — ServerConfig::builder with
/// with_safe_defaults, with_no_client_auth and with_single_cert: safe
/// protocol defaults, no client certificate authentication, and the supplied
/// chain and key. rustls rejects credentials whose key does not parse as a
/// supported type, a deterministic check of the key bytes; the error's
/// rendering is then handed back.
#[verifier::external_body]
fn build_server_config(params: TlsParams) -> (r: Result<rustls::ServerConfig, String>)
    ensures
        r is Ok <==> credentials_accepted(params@),
{
    let TlsParams { certificates, private_key } = params;
    let chain = certificates.into_iter().map(|c| rustls::Certificate(c.0)).collect();
    let key = rustls::PrivateKey(private_key.0);
    rustls::ServerConfig::builder()
        .with_safe_defaults()
        .with_no_client_auth()
        .with_single_cert(chain, key)
        .map_err(|e| e.to_string())
}

/// Builds the server-side TLS configuration from the credentials: a
/// configuration exactly when the TLS library accepts them; rejected
/// credentials become the distinct bad-parameters error, never retried.
fn create_tls_server_cfg(tls_params: TlsParams) -> (r: Result<rustls::ServerConfig, Error>)
    ensures
        r is Ok <==> credentials_accepted(tls_params@),
        r is Err ==> r->Err_0 is BadTlsParams,
{
    match build_server_config(tls_params) {
        Ok(cfg) => Ok(cfg),
        Err(e) => Err(Error::BadTlsParams(e)),
    }
}

/// Relies on tokio-rustls's TlsAcceptor::from over std's Arc::new: the
/// acceptor is a reference-counted handle to the one immutable
/// configuration, not a deep copy — cloning it per connection is cheap.
#[verifier::external_body]
fn make_acceptor(cfg: rustls::ServerConfig) -> (r: tokio_rustls::TlsAcceptor) {
    tokio_rustls::TlsAcceptor::from(std::sync::Arc::new(cfg))
}

/// Relies on tokio's TcpSocket::new_v6, new_v4, bind and listen, which
/// together bind a listening socket to the loopback address at the given
/// port — tokio's synchronous counterpart of one listener-binding call, with
/// the listen backlog std uses. The IPv6 loopback is preferred; only on a
/// host whose deployment offers no IPv6 loopback at all does the IPv4
/// loopback take its place. Must be called from within the async runtime,
/// which the embedding application enters before binding.
#[verifier::external_body]
fn tcp_listen(port: u16) -> (r: Result<tokio::net::TcpListener, std::io::Error>) {
    let v6 = core::net::SocketAddr::new(core::net::IpAddr::V6(core::net::Ipv6Addr::LOCALHOST), port);
    let bound = tokio::net::TcpSocket::new_v6().and_then(|s| s.bind(v6).map(|_| s));
    match bound {
        Ok(socket) => socket.listen(128),
        Err(e) if e.kind() == std::io::ErrorKind::AddrNotAvailable => {
            let v4 = core::net::SocketAddr::new(
                core::net::IpAddr::V4(core::net::Ipv4Addr::LOCALHOST),
                port,
            );
            let socket = tokio::net::TcpSocket::new_v4()?;
            socket.bind(v4)?;
            socket.listen(128)
        },
        Err(e) => Err(e),
    }
}

/// The connection server: the port it listens on, the bound listening
/// socket, and the shared TLS acceptor cloned once per connection task.
pub struct Server {
    port: u16,
    listener: tokio::net::TcpListener,
    acceptor: tokio_rustls::TlsAcceptor,
}

impl Server {
    /// The port the server listens on, for specifications.
    pub closed spec fn spec_port(&self) -> u16 {
        self.port
    }

    /// The shared TLS acceptor, for specifications.
    pub closed spec fn spec_acceptor(&self) -> tokio_rustls::TlsAcceptor {
        self.acceptor
    }

    /// The listening socket, for specifications.
    pub closed spec fn spec_listener(&self) -> tokio::net::TcpListener {
        self.listener
    }

    /// Binds a listening socket on the loopback interface at `port`, then
    /// prepares the TLS acceptor from the credentials. A failure to bind is
    /// the distinct binding error carrying exactly the requested port and the
    /// underlying cause; rejected credentials are the distinct
    /// bad-parameters error, which arises only when the TLS library refuses
    /// them. No other error occurs, neither is retried, and on either no
    /// server exists, so listening is never entered. Must be called from
    /// within the async runtime, which the embedding application enters
    /// before binding.
    pub fn bind(port: u16, tls_params: TlsParams) -> (r: Result<Server, Error>)
        ensures
            match r {
                Ok(s) => s.spec_port() == port && credentials_accepted(tls_params@),
                Err(e) => match e {
                    Error::ServerBindingFailed { port: p, .. } => p == port,
                    Error::BadTlsParams(_) => !credentials_accepted(tls_params@),
                    _ => false,
                },
            },
    {
        let listener = match tcp_listen(port) {
            Ok(l) => l,
            Err(io_error) => {
                return Err(Error::ServerBindingFailed { port, io_error });
            },
        };
        let acceptor = match create_tls_server_cfg(tls_params) {
            Ok(cfg) => make_acceptor(cfg),
            Err(e) => {
                return Err(e);
            },
        };
        Ok(Server { port, listener, acceptor })
    }

    /// The port the server listens on.
    pub fn port(&self) -> (r: u16)
        ensures
            r == self.spec_port(),
    {
        self.port
    }

    /// The listening socket, for the embedding accept loop.
    pub fn listener(&self) -> (r: &tokio::net::TcpListener)
        ensures
            *r == self.spec_listener(),
    {
        &self.listener
    }

    /// The shared TLS acceptor; the accept loop clones this lightweight
    /// handle once per accepted connection.
    pub fn acceptor(&self) -> (r: &tokio_rustls::TlsAcceptor)
        ensures
            *r == self.spec_acceptor(),
    {
        &self.acceptor
    }
}

/// A connected peer's IP address: four bytes for an IPv4 peer, sixteen for
/// an IPv6 peer.
#[derive(Debug, Clone, Copy, PartialEq, Eq)]
pub enum PeerIp {
    V4([u8; 4]),
    V6([u8; 16]),
}

/// The network address of a connected peer, captured at accept time.
#[derive(Debug, Clone, Copy, PartialEq, Eq)]
pub struct PeerAddr {
    pub ip: PeerIp,
    pub port: u16,
}

/// One live, authenticated, encrypted transport session: the peer's
/// address, captured at accept time and immutable, and the encrypted duplex
/// stream. Created only after a successful handshake; owned exclusively by
/// the task running its handler; no buffering or framing is added.
pub struct Connection {
    peer: PeerAddr,
    stream: tokio_rustls::server::TlsStream<tokio::net::TcpStream>,
}

impl Connection {
    /// The peer's address, for specifications.
    pub closed spec fn spec_peer_addr(&self) -> PeerAddr {
        self.peer
    }

    /// Wraps a freshly established encrypted stream together with the peer
    /// address captured at accept time.
    pub fn new(
        peer: PeerAddr,
        stream: tokio_rustls::server::TlsStream<tokio::net::TcpStream>,
    ) -> (r: Connection)
        ensures
            r.spec_peer_addr() == peer,
    {
        Connection { peer, stream }
    }

    /// The peer's network address; it never changes over the session.
    pub fn peer_addr(&self) -> (r: PeerAddr)
        ensures
            r == self.spec_peer_addr(),
    {
        self.peer
    }

    /// The encrypted stream, for the handler to read and write; the peer
    /// address stays what it was.
    pub fn stream_mut(&mut self) -> (r: &mut tokio_rustls::server::TlsStream<
        tokio::net::TcpStream,
    >)
        ensures
            final(self).spec_peer_addr() == old(self).spec_peer_addr(),
    {
        &mut self.stream
    }

    /// Takes the session apart: the peer address and the encrypted stream.
    pub fn into_parts(self) -> (r: (PeerAddr, tokio_rustls::server::TlsStream<
        tokio::net::TcpStream,
    >))
        ensures
            r.0 == self.spec_peer_addr(),
    {
        (self.peer, self.stream)
    }
}

/// The lifecycle of one connection. Established is the only phase in which
/// the handler runs; HandshakeFailed is terminal and distinct from Closed —
/// no handler invocation ever occurred in it.
#[derive(Debug, Clone, Copy, PartialEq, Eq, Structural)]
pub enum ConnPhase {
    Accepted,
    Handshaking,
    Established,
    HandshakeFailed,
    Closed,
}

/// What happens to one connection.
#[derive(Debug, Clone, Copy, PartialEq, Eq, Structural)]
pub enum ConnEvent {
    /// The TLS handshake begins on the accepted socket.
    HandshakeStarted,
    /// The TLS handshake completed.
    HandshakeSucceeded,
    /// The TLS handshake failed.
    HandshakeFailed,
    /// The handler returned successfully, or the stream reached its end.
    HandlerSucceeded,
    /// The handler reported a failure, or the stream failed.
    HandlerFailed,
}

/// What the server does in response to one connection's event. Every action
/// concerns that connection alone: the accept loop and every other
/// connection continue unaffected.
#[derive(Debug, Clone, Copy, PartialEq, Eq, Structural)]
pub enum ConnAction {
    /// Perform the TLS handshake on the accepted socket.
    PerformHandshake,
    /// Invoke the caller-supplied handler with the established connection.
    RunHandler,
    /// Log the failure, tagged with the peer address.
    LogFailure,
    /// Nothing: the phase is terminal or the event does not apply to it.
    Nothing,
}

/// The next phase of a connection.
pub open spec fn spec_conn_step(phase: ConnPhase, event: ConnEvent) -> ConnPhase {
    match (phase, event) {
        (ConnPhase::Accepted, ConnEvent::HandshakeStarted) => ConnPhase::Handshaking,
        (ConnPhase::Handshaking, ConnEvent::HandshakeSucceeded) => ConnPhase::Established,
        (ConnPhase::Handshaking, ConnEvent::HandshakeFailed) => ConnPhase::HandshakeFailed,
        (ConnPhase::Established, ConnEvent::HandlerSucceeded) => ConnPhase::Closed,
        (ConnPhase::Established, ConnEvent::HandlerFailed) => ConnPhase::Closed,
        (p, _) => p,
    }
}

/// The action taken at a step of a connection.
pub open spec fn spec_conn_action(phase: ConnPhase, event: ConnEvent) -> ConnAction {
    match (phase, event) {
        (ConnPhase::Accepted, ConnEvent::HandshakeStarted) => ConnAction::PerformHandshake,
        (ConnPhase::Handshaking, ConnEvent::HandshakeSucceeded) => ConnAction::RunHandler,
        (ConnPhase::Handshaking, ConnEvent::HandshakeFailed) => ConnAction::LogFailure,
        (ConnPhase::Established, ConnEvent::HandlerFailed) => ConnAction::LogFailure,
        (_, _) => ConnAction::Nothing,
    }
}

/// Advances one connection's lifecycle and says what the server does.
/// Each connection's machine is independent of every other connection's.
pub fn conn_step(phase: ConnPhase, event: ConnEvent) -> (r: (ConnPhase, ConnAction))
    ensures
        r.0 == spec_conn_step(phase, event),
        r.1 == spec_conn_action(phase, event),
{
    match (phase, event) {
        (ConnPhase::Accepted, ConnEvent::HandshakeStarted) => (
            ConnPhase::Handshaking,
            ConnAction::PerformHandshake,
        ),
        (ConnPhase::Handshaking, ConnEvent::HandshakeSucceeded) => (
            ConnPhase::Established,
            ConnAction::RunHandler,
        ),
        (ConnPhase::Handshaking, ConnEvent::HandshakeFailed) => (
            ConnPhase::HandshakeFailed,
            ConnAction::LogFailure,
        ),
        (ConnPhase::Established, ConnEvent::HandlerSucceeded) => (
            ConnPhase::Closed,
            ConnAction::Nothing,
        ),
        (ConnPhase::Established, ConnEvent::HandlerFailed) => (
            ConnPhase::Closed,
            ConnAction::LogFailure,
        ),
        (p, _) => (p, ConnAction::Nothing),
    }
}

/// The phase one connection reaches after a sequence of events.
pub open spec fn run_events(phase: ConnPhase, events: Seq<ConnEvent>) -> ConnPhase
    decreases events.len(),
{
    if events.len() == 0 {
        phase
    } else {
        run_events(spec_conn_step(phase, events.first()), events.drop_first())
    }
}

/// Whether the handler is invoked at any step of a sequence of events.
pub open spec fn handler_runs(phase: ConnPhase, events: Seq<ConnEvent>) -> bool
    decreases events.len(),
{
    if events.len() == 0 {
        false
    } else {
        spec_conn_action(phase, events.first()) == ConnAction::RunHandler || handler_runs(
            spec_conn_step(phase, events.first()),
            events.drop_first(),
        )
    }
}

/// Law: the handler of a connection whose handshake never succeeds is never
/// invoked, whatever else happens to that connection.
pub proof fn lemma_no_handshake_no_handler(phase: ConnPhase, events: Seq<ConnEvent>)
    requires
        forall|i: int| 0 <= i < events.len() ==> events[i] != ConnEvent::HandshakeSucceeded,
    ensures
        !handler_runs(phase, events),
    decreases events.len(),
{
    if events.len() > 0 {
        assert(events[0] != ConnEvent::HandshakeSucceeded);
        assert(forall|i: int|
            0 <= i < events.drop_first().len() ==> events.drop_first()[i] == events[i + 1]);
        lemma_no_handshake_no_handler(spec_conn_step(phase, events.first()), events.drop_first());
    }
}

/// Law: a failed handshake is terminal — no later event moves the
/// connection out of that phase, and its handler never runs in it.
pub proof fn lemma_handshake_failed_terminal(events: Seq<ConnEvent>)
    ensures
        run_events(ConnPhase::HandshakeFailed, events) == ConnPhase::HandshakeFailed,
        !handler_runs(ConnPhase::HandshakeFailed, events),
    decreases events.len(),
{
    if events.len() > 0 {
        lemma_handshake_failed_terminal(events.drop_first());
    }
}

} // verus!
