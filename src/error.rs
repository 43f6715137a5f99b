use vstd::prelude::*;

verus! {

/// The kinds of failure that the handshake surfaces to its caller.
#[derive(Clone, Copy, Debug, PartialEq, Eq, Structural)]
pub enum SpdmError {
    /// A transcript, a message buffer or the session table is full.
    ResourceExhausted,
    /// An unexpected code, a malformed header or field, or a decode failure.
    ProtocolViolation,
    /// A signature or HMAC did not verify.
    AuthenticationFailure,
    /// The crypto backend declined (unsupported algorithm, no randomness, bad peer key).
    CryptoUnavailable,
    /// The transport failed to send or receive.
    TransportFailure,
}

pub type SpdmResult<T> = Result<T, SpdmError>;

} // verus!
