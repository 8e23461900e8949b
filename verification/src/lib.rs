//! The decisions of a client for secure scuttlebutt: how the keys of the
//! keyfile become the parameters of the secret handshake with the local
//! server, how the outcome of that handshake becomes the client's result, and
//! how the stream of incoming rpcs drives the `Receive` future.
pub mod handshake;
pub mod keys;
pub mod receive;

pub use handshake::{classify_handshake, ClientHandshakeFailure, EasySsbError, HandshakeOutcome};
pub use keys::{easy_ssb_config, handshake_config, EphemeralKeys, HandshakeConfig, LongTermKeys};
pub use receive::{receive_step, Incoming, ReceiveStatus};
