use octynectl::negotiate::{
    after_attempt, describe_failure, first_attempt, Attempt, ConnectError, ConnectFailure,
    NegotiationStep, RejectionBody,
};
use octynectl::protocol::ProtocolVersion;

fn no_subprotocol() -> ConnectFailure {
    ConnectFailure::NoSubprotocol("no subprotocol".to_string())
}

#[test]
fn first_attempt_asks_for_v2() {
    assert_eq!(first_attempt(), Attempt::V2);
}

#[test]
fn no_subprotocol_on_v2_retries_under_legacy() {
    match after_attempt(Attempt::V2, &Err(no_subprotocol())) {
        NegotiationStep::Connect(a) => assert_eq!(a, Attempt::Legacy),
        other => panic!("unexpected {:?}", other),
    }
}

#[test]
fn no_second_retry_after_legacy_attempt() {
    match after_attempt(Attempt::Legacy, &Err(no_subprotocol())) {
        NegotiationStep::Fail(ConnectError::Protocol(m)) => {
            assert_eq!(m, "Failed to connect to WebSocket! no subprotocol")
        }
        other => panic!("unexpected {:?}", other),
    }
}

#[test]
fn success_opens_with_the_attempted_version() {
    match after_attempt(Attempt::V2, &Ok(())) {
        NegotiationStep::Open(v) => assert_eq!(v, ProtocolVersion::V2),
        other => panic!("unexpected {:?}", other),
    }
    match after_attempt(Attempt::Legacy, &Ok(())) {
        NegotiationStep::Open(v) => assert_eq!(v, ProtocolVersion::Legacy),
        other => panic!("unexpected {:?}", other),
    }
}

#[test]
fn other_failure_on_first_attempt_is_surfaced_without_retry() {
    let f = ConnectFailure::Transport("Connection refused (os error 111)".to_string());
    match after_attempt(Attempt::V2, &Err(f)) {
        NegotiationStep::Fail(ConnectError::Connect(m)) => assert_eq!(
            m,
            "Error connecting to Unix domain socket! Connection refused (os error 111)"
        ),
        other => panic!("unexpected {:?}", other),
    }
}

#[test]
fn rejection_with_error_body_is_remote_rejected() {
    let f = ConnectFailure::Rejected {
        status: "404 Not Found".to_string(),
        body: RejectionBody::Parsed("This server does not exist!".to_string()),
    };
    match after_attempt(Attempt::V2, &Err(f)) {
        NegotiationStep::Fail(e) => {
            assert!(matches!(e, ConnectError::RemoteRejected(_)));
            assert_eq!(e.message(), "This server does not exist!");
        }
        other => panic!("unexpected {:?}", other),
    }
}

#[test]
fn rejection_without_body_or_with_corrupt_body_is_protocol_error() {
    let missing = ConnectFailure::Rejected {
        status: "403 Forbidden".to_string(),
        body: RejectionBody::Missing,
    };
    match describe_failure(&missing) {
        ConnectError::Protocol(m) => assert_eq!(m, "Failed to connect to WebSocket! 403 Forbidden"),
        other => panic!("unexpected {:?}", other),
    }
    let corrupt = ConnectFailure::Rejected {
        status: "500 Internal Server Error".to_string(),
        body: RejectionBody::Corrupt,
    };
    match describe_failure(&corrupt) {
        ConnectError::Protocol(m) => assert_eq!(m, "500 Internal Server Error"),
        other => panic!("unexpected {:?}", other),
    }
}

#[test]
fn handshake_failure_is_protocol_error() {
    let f = ConnectFailure::Handshake("HTTP format error".to_string());
    match after_attempt(Attempt::V2, &Err(f)) {
        NegotiationStep::Fail(e) => assert_eq!(e.message(), "Failed to connect to WebSocket! HTTP format error"),
        other => panic!("unexpected {:?}", other),
    }
}
