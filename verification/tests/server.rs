use latosol::errors::Error;
use latosol::server::{
    ConnAction, ConnEvent, ConnPhase, PrivateKey, Server, TlsParams, conn_step,
};

fn junk_params() -> TlsParams {
    TlsParams { certificates: vec![], private_key: PrivateKey(vec![1, 2, 3]) }
}

#[test]
fn binding_an_occupied_port_reports_that_port() {
    let rt = tokio::runtime::Builder::new_current_thread().enable_io().build().unwrap();
    rt.block_on(async {
        // Occupy the port on the IPv4 loopback, and on the IPv6 loopback too
        // where the host offers one.
        let occupied = tokio::net::TcpListener::bind("127.0.0.1:0").await.unwrap();
        let taken_port = occupied.local_addr().unwrap().port();
        let _occupied_v6 = tokio::net::TcpListener::bind(("::1", taken_port)).await.ok();

        let r = Server::bind(taken_port, junk_params());
        match r {
            Err(Error::ServerBindingFailed { port, .. }) => assert_eq!(port, taken_port),
            _ => panic!("expected a binding failure carrying the port"),
        }
    });
}

#[test]
fn bad_credentials_are_a_distinct_error() {
    let rt = tokio::runtime::Builder::new_current_thread().enable_io().build().unwrap();
    rt.block_on(async {
        // Port zero always binds; the junk key is then rejected by the TLS
        // library, after the socket was bound.
        let r = Server::bind(0, junk_params());
        match r {
            Err(Error::BadTlsParams(_)) => {},
            _ => panic!("expected rejected TLS parameters"),
        }
    });
}

#[test]
fn server_error_messages() {
    let bind_err = Error::ServerBindingFailed {
        port: 8443,
        io_error: std::io::Error::new(std::io::ErrorKind::AddrInUse, "taken"),
    };
    assert_eq!(bind_err.message(), "Failed to bind server to port");
    assert_eq!(
        Error::BadTlsParams(String::from("bad key")).message(),
        "Bad TLS parameters"
    );

    let io = || std::io::Error::new(std::io::ErrorKind::BrokenPipe, "gone");
    assert_eq!(
        Error::ConnFailedToSendData(io()).message(),
        "Failed to send data to peer"
    );
    assert_eq!(
        Error::ConnFailedToReceiveData(io()).message(),
        "Failed to receive data from peer"
    );
    assert_eq!(
        Error::ConnFailedToClose(io()).message(),
        "Failed to close connection"
    );
}

#[test]
fn error_descriptions_carry_port_and_cause() {
    let io = || std::io::Error::new(std::io::ErrorKind::AddrInUse, "taken");
    let bind_err = Error::ServerBindingFailed { port: 8443, io_error: io() };
    assert_eq!(
        bind_err.describe(),
        "Failed to bind server to port 8443: taken"
    );
    assert_eq!(
        Error::BadTlsParams(String::from("bad key")).describe(),
        "Bad TLS parameters: bad key"
    );
    assert_eq!(
        Error::ConnFailedToSendData(io()).describe(),
        "Failed to send data to peer: taken"
    );
    assert_eq!(
        Error::ConnFailedToReceiveData(io()).describe(),
        "Failed to receive data from peer: taken"
    );
    assert_eq!(
        Error::ConnFailedToClose(io()).describe(),
        "Failed to close connection: taken"
    );
}

#[test]
fn decimal_rendering_is_exact() {
    assert_eq!(latosol::errors::decimal_string(0), "0");
    assert_eq!(latosol::errors::decimal_string(7), "7");
    assert_eq!(latosol::errors::decimal_string(80), "80");
    assert_eq!(latosol::errors::decimal_string(8443), "8443");
    assert_eq!(latosol::errors::decimal_string(65535), "65535");
}

#[test]
fn handshake_success_is_the_only_way_to_the_handler() {
    let (p, a) = conn_step(ConnPhase::Accepted, ConnEvent::HandshakeStarted);
    assert_eq!(p, ConnPhase::Handshaking);
    assert_eq!(a, ConnAction::PerformHandshake);

    let (p, a) = conn_step(ConnPhase::Handshaking, ConnEvent::HandshakeSucceeded);
    assert_eq!(p, ConnPhase::Established);
    assert_eq!(a, ConnAction::RunHandler);

    let (p, a) = conn_step(ConnPhase::Established, ConnEvent::HandlerSucceeded);
    assert_eq!(p, ConnPhase::Closed);
    assert_eq!(a, ConnAction::Nothing);

    let (p, a) = conn_step(ConnPhase::Established, ConnEvent::HandlerFailed);
    assert_eq!(p, ConnPhase::Closed);
    assert_eq!(a, ConnAction::LogFailure);
}

#[test]
fn failed_handshake_is_terminal_and_runs_no_handler() {
    let (p, a) = conn_step(ConnPhase::Handshaking, ConnEvent::HandshakeFailed);
    assert_eq!(p, ConnPhase::HandshakeFailed);
    assert_eq!(a, ConnAction::LogFailure);

    // No later event moves the connection or invokes its handler.
    let events = [
        ConnEvent::HandshakeStarted,
        ConnEvent::HandshakeSucceeded,
        ConnEvent::HandshakeFailed,
        ConnEvent::HandlerSucceeded,
        ConnEvent::HandlerFailed,
    ];
    for event in events {
        let (p, a) = conn_step(ConnPhase::HandshakeFailed, event);
        assert_eq!(p, ConnPhase::HandshakeFailed);
        assert_eq!(a, ConnAction::Nothing);
    }
}

#[test]
fn two_connections_advance_independently() {
    // One connection's handshake fails; the other still reaches its handler
    // and runs to completion.
    let (first, _) = conn_step(ConnPhase::Accepted, ConnEvent::HandshakeStarted);
    let (second, _) = conn_step(ConnPhase::Accepted, ConnEvent::HandshakeStarted);

    let (first, a1) = conn_step(first, ConnEvent::HandshakeFailed);
    assert_eq!(first, ConnPhase::HandshakeFailed);
    assert_eq!(a1, ConnAction::LogFailure);

    let (second, a2) = conn_step(second, ConnEvent::HandshakeSucceeded);
    assert_eq!(second, ConnPhase::Established);
    assert_eq!(a2, ConnAction::RunHandler);

    let (second, _) = conn_step(second, ConnEvent::HandlerSucceeded);
    assert_eq!(second, ConnPhase::Closed);
    assert_eq!(first, ConnPhase::HandshakeFailed);
}
