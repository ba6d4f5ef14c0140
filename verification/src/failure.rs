//! Failure taxonomy shared by every stage of the release pipeline.

use vstd::prelude::*;

verus! {

/// How a failure is handled once it has been observed.
#[derive(Debug, Clone, Copy, PartialEq, Eq, Structural)]
pub enum ErrorCategory {
    /// Network trouble or a timeout on a capability call: retried with bounded backoff.
    Transient,
    /// Bad input (invalid recipe, missing source): not retried, surfaced to the submitter.
    Permanent,
    /// The artifact changed or did not reproduce: halts, never resolved automatically.
    Integrity,
    /// A critical finding or a signature that does not verify: halts, needs triage.
    Security,
}

/// Why a release ended in `Failed`: one tag per failure the pipeline can record.
#[derive(Debug, Clone, Copy, PartialEq, Eq, Structural)]
pub enum FailureReason {
    SourceNotFound,
    InvalidConfig,
    BuildFailed,
    BuildTimeout,
    ReproducibilityFailed,
    ContainerError,
    ApkNotFound,
    InvalidApk,
    ToolFailed,
    ScanTimeout,
    CriticalVulnerability,
    ScanRejected,
    HsmUnavailable,
    HsmTimeout,
    HsmAuthFailed,
    KeyNotFound,
    InvalidKey,
    SigningFailed,
    VerificationFailed,
    HashMismatch,
}

impl FailureReason {
    /// The category each reason belongs to.
    pub open spec fn spec_category(self) -> ErrorCategory {
        match self {
            FailureReason::BuildTimeout
            | FailureReason::ContainerError
            | FailureReason::ToolFailed
            | FailureReason::ScanTimeout
            | FailureReason::HsmUnavailable
            | FailureReason::HsmTimeout => ErrorCategory::Transient,
            FailureReason::ReproducibilityFailed | FailureReason::HashMismatch => {
                ErrorCategory::Integrity
            },
            FailureReason::CriticalVulnerability
            | FailureReason::ScanRejected
            | FailureReason::VerificationFailed => ErrorCategory::Security,
            _ => ErrorCategory::Permanent,
        }
    }

    /// A failure may be retried exactly when it is transient.
    pub open spec fn spec_is_retryable(self) -> bool {
        self.spec_category() == ErrorCategory::Transient
    }

    /// The category of this reason.
    #[verifier::when_used_as_spec(spec_category)]
    pub fn category(self) -> (c: ErrorCategory)
        ensures
            c == self.spec_category(),
    {
        match self {
            FailureReason::BuildTimeout
            | FailureReason::ContainerError
            | FailureReason::ToolFailed
            | FailureReason::ScanTimeout
            | FailureReason::HsmUnavailable
            | FailureReason::HsmTimeout => ErrorCategory::Transient,
            FailureReason::ReproducibilityFailed | FailureReason::HashMismatch => {
                ErrorCategory::Integrity
            },
            FailureReason::CriticalVulnerability
            | FailureReason::ScanRejected
            | FailureReason::VerificationFailed => ErrorCategory::Security,
            _ => ErrorCategory::Permanent,
        }
    }

    /// Whether the pipeline may try again after this failure.
    #[verifier::when_used_as_spec(spec_is_retryable)]
    pub fn is_retryable(self) -> (b: bool)
        ensures
            b == self.spec_is_retryable(),
    {
        self.category() == ErrorCategory::Transient
    }
}

/// Integrity and security failures are never retried.
pub proof fn lemma_integrity_and_security_not_retryable(reason: FailureReason)
    ensures
        reason.category() == ErrorCategory::Integrity || reason.category()
            == ErrorCategory::Security ==> !reason.is_retryable(),
{
}

} // verus!
