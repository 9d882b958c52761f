//! Declarations of the outside types that run through the library: values of
//! these types are opaque to the verifier and are only carried around.

use vstd::prelude::*;

verus! {

/// std's I/O error, carried inside this library's error values.
#[verifier::external_type_specification]
#[verifier::external_body]
pub struct ExIoError(std::io::Error);

/// rustls's assembled server-side TLS configuration.
#[verifier::external_type_specification]
#[verifier::external_body]
pub struct ExServerConfig(rustls::ServerConfig);

/// tokio's listening TCP socket, owned by the accept loop.
#[verifier::external_type_specification]
#[verifier::external_body]
pub struct ExTcpListener(tokio::net::TcpListener);

/// tokio's connected TCP socket, one per accepted connection.
#[verifier::external_type_specification]
#[verifier::external_body]
pub struct ExTcpStream(tokio::net::TcpStream);

/// tokio-rustls's acceptor: a reference-counted handle to the immutable TLS
/// configuration, cloned once per accepted connection.
#[verifier::external_type_specification]
#[verifier::external_body]
pub struct ExTlsAcceptor(tokio_rustls::TlsAcceptor);

/// tokio-rustls's server-side encrypted stream over some transport.
#[verifier::external_type_specification]
#[verifier::external_body]
#[verifier::reject_recursive_types(IO)]
pub struct ExTlsStream<IO>(tokio_rustls::server::TlsStream<IO>);

} // verus!
