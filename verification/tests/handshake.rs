use std::io;

use ssb_client::{classify_handshake, ClientHandshakeFailure, EasySsbError, HandshakeOutcome};

#[test]
fn successful_handshake_yields_the_duplex() {
    let outcome: HandshakeOutcome<&str, u32> = Ok(Ok("duplex"));
    match classify_handshake(outcome) {
        Ok(duplex) => assert_eq!(duplex, "duplex"),
        Err(err) => panic!("unexpected error {:?}", err),
    }
}

#[test]
fn failed_handshake_hands_back_failure_and_transport() {
    let outcome: HandshakeOutcome<&str, u32> = Ok(Err((ClientHandshakeFailure::InvalidMsg4, 7)));
    match classify_handshake(outcome) {
        Err(EasySsbError::FailedHandshake(failure, transport)) => {
            assert_eq!(failure, ClientHandshakeFailure::InvalidMsg4);
            assert_eq!(transport, 7);
        }
        other => panic!("unexpected result {:?}", other),
    }
}

#[test]
fn failed_handshake_at_second_message() {
    let outcome: HandshakeOutcome<(), &str> = Ok(Err((ClientHandshakeFailure::InvalidMsg2, "tcp")));
    match classify_handshake(outcome) {
        Err(EasySsbError::FailedHandshake(ClientHandshakeFailure::InvalidMsg2, "tcp")) => {}
        other => panic!("unexpected result {:?}", other),
    }
}

#[test]
fn io_error_hands_back_error_and_transport() {
    let err = io::Error::new(io::ErrorKind::ConnectionReset, "reset by peer");
    let outcome: HandshakeOutcome<&str, u32> = Err((err, 9));
    match classify_handshake(outcome) {
        Err(EasySsbError::IoError(err, transport)) => {
            assert_eq!(err.kind(), io::ErrorKind::ConnectionReset);
            assert_eq!(err.to_string(), "reset by peer");
            assert_eq!(transport, 9);
        }
        other => panic!("unexpected result {:?}", other),
    }
}
