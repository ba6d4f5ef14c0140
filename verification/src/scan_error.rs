//! Scanner service error types.

use crate::failure::FailureReason;
use crate::text::{decimal_string, decimal_text};
use vstd::prelude::*;
use vstd::string::*;

verus! {

/// Errors that can occur during scanning operations.
#[derive(Debug)]
pub enum ScanError {
    /// APK file not found or inaccessible.
    ApkNotFound(String),
    /// APK is invalid or corrupted.
    InvalidApk(String),
    /// Scan tool failed.
    ToolFailed(String),
    /// Scan timed out after this many seconds.
    Timeout(u64),
    /// Critical vulnerability found.
    CriticalVulnerability(String),
}

impl ScanError {
    /// The human-readable text of the error.
    pub open spec fn display(&self) -> Seq<char> {
        match self {
            ScanError::ApkNotFound(msg) => "APK not found: "@ + msg@,
            ScanError::InvalidApk(msg) => "Invalid APK: "@ + msg@,
            ScanError::ToolFailed(msg) => "Scan tool failed: "@ + msg@,
            ScanError::Timeout(secs) => "Scan timed out after "@ + decimal_text(*secs as nat)
                + " seconds"@,
            ScanError::CriticalVulnerability(msg) => "Critical vulnerability found: "@ + msg@,
        }
    }

    /// The tag under which a release records this error.
    pub open spec fn spec_reason(&self) -> FailureReason {
        match self {
            ScanError::ApkNotFound(_) => FailureReason::ApkNotFound,
            ScanError::InvalidApk(_) => FailureReason::InvalidApk,
            ScanError::ToolFailed(_) => FailureReason::ToolFailed,
            ScanError::Timeout(_) => FailureReason::ScanTimeout,
            ScanError::CriticalVulnerability(_) => FailureReason::CriticalVulnerability,
        }
    }

    /// Renders the error as text.
    pub fn to_string(&self) -> (s: String)
        ensures
            s@ == self.display(),
    {
        match self {
            ScanError::ApkNotFound(msg) => String::from_str("APK not found: ").concat(
                msg.as_str(),
            ),
            ScanError::InvalidApk(msg) => String::from_str("Invalid APK: ").concat(msg.as_str()),
            ScanError::ToolFailed(msg) => String::from_str("Scan tool failed: ").concat(
                msg.as_str(),
            ),
            ScanError::Timeout(secs) => {
                let digits = decimal_string(*secs);
                String::from_str("Scan timed out after ").concat(digits.as_str()).concat(
                    " seconds",
                )
            },
            ScanError::CriticalVulnerability(msg) => String::from_str(
                "Critical vulnerability found: ",
            ).concat(msg.as_str()),
        }
    }

    /// The tag under which a release records this error.
    #[verifier::when_used_as_spec(spec_reason)]
    pub fn reason(&self) -> (r: FailureReason)
        ensures
            r == self.spec_reason(),
    {
        match self {
            ScanError::ApkNotFound(_) => FailureReason::ApkNotFound,
            ScanError::InvalidApk(_) => FailureReason::InvalidApk,
            ScanError::ToolFailed(_) => FailureReason::ToolFailed,
            ScanError::Timeout(_) => FailureReason::ScanTimeout,
            ScanError::CriticalVulnerability(_) => FailureReason::CriticalVulnerability,
        }
    }
}

} // verus!
