//! What becomes of the outcome of the secret handshake that sets up the
//! encrypted connection to the server.
use vstd::prelude::*;

verus! {

/// An io error of the transport, carried through unchanged.
#[verifier::external_type_specification]
#[verifier::external_body]
pub struct ExIoError(std::io::Error);

/// The ways in which a handshake can run without io errors and still not
/// succeed: the server's answer to the first or to the second message of the
/// client was invalid.
#[derive(Debug, Clone, Copy, PartialEq, Eq, Structural)]
pub enum ClientHandshakeFailure {
    /// Received an invalid second message from the server.
    InvalidMsg2,
    /// Received an invalid fourth message from the server.
    InvalidMsg4,
}

/// Everything that can go wrong when creating a client via `easy_ssb`. Either
/// way the transport is handed back.
#[derive(Debug)]
pub enum EasySsbError<T> {
    /// The handshake was performed without io errors but did not terminate successfully.
    FailedHandshake(ClientHandshakeFailure, T),
    /// An io error happened during the handshake.
    IoError(std::io::Error, T),
}

/// What a handshake yields: the encrypted duplex on success, the failure and
/// the transport when the server's answers were invalid, the io error and the
/// transport when the transport failed.
pub type HandshakeOutcome<D, T> = Result<Result<D, (ClientHandshakeFailure, T)>, (std::io::Error, T)>;

/// The client's view of a finished handshake.
pub open spec fn spec_classify_handshake<D, T>(outcome: HandshakeOutcome<D, T>) -> Result<D, EasySsbError<T>> {
    match outcome {
        Ok(Ok(duplex)) => Ok(duplex),
        Ok(Err((failure, transport))) => Err(EasySsbError::FailedHandshake(failure, transport)),
        Err((err, transport)) => Err(EasySsbError::IoError(err, transport)),
    }
}

/// Turns the outcome of the handshake into the client's result: the duplex
/// connection on success, and otherwise an error that says what went wrong and
/// hands the transport back.
pub fn classify_handshake<D, T>(outcome: HandshakeOutcome<D, T>) -> (res: Result<D, EasySsbError<T>>)
    ensures
        res == spec_classify_handshake(outcome),
        res is Ok <==> outcome matches Ok(Ok(_)),
{
    match outcome {
        Ok(Ok(duplex)) => Ok(duplex),
        Ok(Err((failure, transport))) => Err(EasySsbError::FailedHandshake(failure, transport)),
        Err((err, transport)) => Err(EasySsbError::IoError(err, transport)),
    }
}

} // verus!
