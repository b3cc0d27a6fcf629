//! Why a token did not authenticate a request.

use vstd::prelude::*;

verus! {

/// The ways in which a token, or an attempt to issue one, can fail. None of
/// them ever stops a request: a request whose token fails goes on without a
/// user.
#[derive(Debug, Clone, Copy, PartialEq, Eq, Structural)]
pub enum TokenError {
    /// The text is not three base64url segments, or its payload is no claim
    /// set.
    Malformed,
    /// The signature is not the one that the key gives for the first two
    /// segments.
    BadSignature,
    /// The token starts to hold only later.
    NotYetValid,
    /// The token has expired.
    Expired,
    /// A session was to be set or cleared on a response that carries no
    /// configuration.
    MissingConfig,
}

} // verus!
