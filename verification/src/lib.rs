//! Upgrades an ordered, reliable, bidirectional byte stream between two
//! endpoints into a mutually-identifiable, confidentiality- and
//! integrity-protected channel.
//!
//! The initiator and the responder each run their half of a small
//! authenticated key exchange: protocol versions are checked, ephemeral
//! X25519 keys are traded, the responder signs its half together with the
//! initiator's fresh nonce, and both sides derive the same symmetric key
//! for an authenticated-encryption transport. Any deviation aborts the
//! attempt; no partial state survives.
//!
//! **At least one side must verify the other's identity - here the
//! initiator verifies the responder, optionally against a pinned key -
//! otherwise a man-in-the-middle attack can be mounted against your
//! program.**
//!
//! The handshake itself is a pure state machine ([`handshake`]): each
//! step consumes a state and the payload that arrived, and returns the
//! next state and the frame to send. The caller supplies the transport
//! and moves the bytes; see the frame helpers in [`proto`].

pub mod bytes;
pub mod dh;
pub mod handshake;
pub mod proto;
pub mod signature;
pub mod transport;

pub use handshake::Connection;
pub use transport::SecureConnection;

use vstd::prelude::*;

verus! {

/// Wrapper for possible crate errors.
///
/// Every validation failure is terminal for the attempt: nothing is
/// recovered locally, the caller decides whether to start over with a
/// fresh connection.
#[derive(Debug, Clone, Copy, PartialEq, Eq, Structural)]
pub enum Error {
    /// Bytes did not parse as a valid protocol message.
    Decode,
    /// The peer speaks a different protocol version.
    LibVersion,
    /// A structurally valid message arrived out of sequence or with
    /// invalid embedded data (nonce mismatch, bad signature).
    Logic,
    /// The peer's identity did not match a pinned expectation.
    Rejected,
    /// An authentication tag failed to verify, or a nonce counter was
    /// exhausted: the channel must be torn down.
    Integrity,
}

} // verus!
