//! Error taxonomy: authentication, transport, domain and protocol failures.

use vstd::prelude::*;

verus! {

/// Failure of one credential-verification method.
#[derive(Debug, Clone, PartialEq)]
pub enum AuthError {
    /// The token's signature could not be verified, or its issuer is not trusted.
    InvalidSignature,
    /// The token carries an expiry claim that lies in the past.
    Expired,
    /// A required claim (`iss`, `exp`, `iat` or `sub`) is absent.
    MissingClaim,
    /// The temporary-token exchange with the cloud did not yield an identity.
    ExchangeFailed,
    /// The credential does not have the shape the method expects.
    MalformedToken,
}

/// Failure of the real-time connection to the session host.
#[derive(Debug, Clone, PartialEq)]
pub enum TransportError {
    /// The websocket URL is not syntactically valid; no connection was attempted.
    InvalidUrl,
    /// Every connection attempt failed; carries the last failure description.
    ConnectFailed(String),
    /// An outbound operation was requested while not connected.
    NotConnected,
    /// The connection accepted the frame but the send did not complete.
    SendFailed(String),
    /// An outbound payload could not be turned into a frame.
    SerializationFailed,
}

/// Failure inside the review domain itself.
#[derive(Debug, Clone, PartialEq)]
pub enum DomainError {
    /// A reviewed flashcard lacks its stored memory state: a data-integrity fault.
    ModelStateError,
    /// The requested row does not exist or is not owned by the caller.
    NotFoundOrUnauthorized,
}

/// Failure to make sense of an inbound protocol frame.
#[derive(Debug, Clone, PartialEq)]
pub enum ProtocolError {
    /// The frame is not an object with the discriminator the protocol requires.
    MalformedPayload,
}

} // verus!
