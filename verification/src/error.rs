//! Error kinds reported by the secure-channel core.
//!
//! Two caller-recoverable kinds exist: structural protocol errors and
//! cryptographic verification failures.  Invariant violations (calling the
//! authentication step from a non-pristine channel) are not errors of this
//! kind: they are excluded by the preconditions of the functions concerned.

use vstd::prelude::*;

verus! {

/// Failure of a secure-channel operation.
#[derive(Clone, Copy, Debug, PartialEq, Eq, Structural)]
pub enum SecureChannelError {
    /// Malformed or out-of-range structural input: a session identifier above
    /// the protocol maximum, a non-empty authentication response, or command
    /// data of unexpected length.
    ProtocolError,
    /// A cryptogram or MAC did not match its expected value.  The session must
    /// not be trusted afterwards.
    VerifyFailed,
}

} // verus!
