//! Signing service error types.

use crate::failure::FailureReason;
use vstd::prelude::*;
use vstd::string::*;

verus! {

/// Errors that can occur during signing operations.
#[derive(Debug)]
pub enum SigningError {
    /// HSM is not available or not responding.
    HsmUnavailable(String),
    /// HSM operation timed out.
    HsmTimeout,
    /// Authentication to HSM failed.
    HsmAuthFailed,
    /// Key not found in HSM.
    KeyNotFound(String),
    /// Invalid key for the requested operation.
    InvalidKey(String),
    /// Signing operation failed.
    SigningFailed(String),
    /// Verification failed.
    VerificationFailed,
}

impl SigningError {
    /// The human-readable text of the error.
    pub open spec fn display(&self) -> Seq<char> {
        match self {
            SigningError::HsmUnavailable(msg) => "HSM not available: "@ + msg@,
            SigningError::HsmTimeout => "HSM operation timed out"@,
            SigningError::HsmAuthFailed => "HSM authentication failed"@,
            SigningError::KeyNotFound(msg) => "Key not found: "@ + msg@,
            SigningError::InvalidKey(msg) => "Invalid key: "@ + msg@,
            SigningError::SigningFailed(msg) => "Signing failed: "@ + msg@,
            SigningError::VerificationFailed => "Signature verification failed"@,
        }
    }

    /// The tag under which a release records this error.
    pub open spec fn spec_reason(&self) -> FailureReason {
        match self {
            SigningError::HsmUnavailable(_) => FailureReason::HsmUnavailable,
            SigningError::HsmTimeout => FailureReason::HsmTimeout,
            SigningError::HsmAuthFailed => FailureReason::HsmAuthFailed,
            SigningError::KeyNotFound(_) => FailureReason::KeyNotFound,
            SigningError::InvalidKey(_) => FailureReason::InvalidKey,
            SigningError::SigningFailed(_) => FailureReason::SigningFailed,
            SigningError::VerificationFailed => FailureReason::VerificationFailed,
        }
    }

    /// Renders the error as text.
    pub fn to_string(&self) -> (s: String)
        ensures
            s@ == self.display(),
    {
        match self {
            SigningError::HsmUnavailable(msg) => String::from_str("HSM not available: ").concat(
                msg.as_str(),
            ),
            SigningError::HsmTimeout => String::from_str("HSM operation timed out"),
            SigningError::HsmAuthFailed => String::from_str("HSM authentication failed"),
            SigningError::KeyNotFound(msg) => String::from_str("Key not found: ").concat(
                msg.as_str(),
            ),
            SigningError::InvalidKey(msg) => String::from_str("Invalid key: ").concat(
                msg.as_str(),
            ),
            SigningError::SigningFailed(msg) => String::from_str("Signing failed: ").concat(
                msg.as_str(),
            ),
            SigningError::VerificationFailed => String::from_str("Signature verification failed"),
        }
    }

    /// The tag under which a release records this error.
    #[verifier::when_used_as_spec(spec_reason)]
    pub fn reason(&self) -> (r: FailureReason)
        ensures
            r == self.spec_reason(),
    {
        match self {
            SigningError::HsmUnavailable(_) => FailureReason::HsmUnavailable,
            SigningError::HsmTimeout => FailureReason::HsmTimeout,
            SigningError::HsmAuthFailed => FailureReason::HsmAuthFailed,
            SigningError::KeyNotFound(_) => FailureReason::KeyNotFound,
            SigningError::InvalidKey(_) => FailureReason::InvalidKey,
            SigningError::SigningFailed(_) => FailureReason::SigningFailed,
            SigningError::VerificationFailed => FailureReason::VerificationFailed,
        }
    }
}

} // verus!
