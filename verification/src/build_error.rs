//! Build service error types.

use crate::failure::FailureReason;
use crate::text::{decimal_string, decimal_text};
use vstd::prelude::*;
use vstd::string::*;

verus! {

/// Errors that can occur during build operations.
#[derive(Debug)]
pub enum BuildError {
    /// Source repository not found or inaccessible.
    SourceNotFound(String),
    /// Build configuration is invalid.
    InvalidConfig(String),
    /// Build process failed.
    BuildFailed(String),
    /// Build timed out after this many seconds.
    Timeout(u64),
    /// Reproducibility verification failed.
    ReproducibilityFailed,
    /// Container orchestration error.
    ContainerError(String),
}

impl BuildError {
    /// The human-readable text of the error.
    pub open spec fn display(&self) -> Seq<char> {
        match self {
            BuildError::SourceNotFound(msg) => "Source not found: "@ + msg@,
            BuildError::InvalidConfig(msg) => "Invalid build configuration: "@ + msg@,
            BuildError::BuildFailed(msg) => "Build failed: "@ + msg@,
            BuildError::Timeout(secs) => "Build timed out after "@ + decimal_text(*secs as nat)
                + " seconds"@,
            BuildError::ReproducibilityFailed => {
                "Reproducibility check failed: builds do not match"@
            },
            BuildError::ContainerError(msg) => "Container error: "@ + msg@,
        }
    }

    /// The tag under which a release records this error.
    pub open spec fn spec_reason(&self) -> FailureReason {
        match self {
            BuildError::SourceNotFound(_) => FailureReason::SourceNotFound,
            BuildError::InvalidConfig(_) => FailureReason::InvalidConfig,
            BuildError::BuildFailed(_) => FailureReason::BuildFailed,
            BuildError::Timeout(_) => FailureReason::BuildTimeout,
            BuildError::ReproducibilityFailed => FailureReason::ReproducibilityFailed,
            BuildError::ContainerError(_) => FailureReason::ContainerError,
        }
    }

    /// Renders the error as text.
    pub fn to_string(&self) -> (s: String)
        ensures
            s@ == self.display(),
    {
        match self {
            BuildError::SourceNotFound(msg) => String::from_str("Source not found: ").concat(
                msg.as_str(),
            ),
            BuildError::InvalidConfig(msg) => String::from_str(
                "Invalid build configuration: ",
            ).concat(msg.as_str()),
            BuildError::BuildFailed(msg) => String::from_str("Build failed: ").concat(
                msg.as_str(),
            ),
            BuildError::Timeout(secs) => {
                let digits = decimal_string(*secs);
                String::from_str("Build timed out after ").concat(digits.as_str()).concat(
                    " seconds",
                )
            },
            BuildError::ReproducibilityFailed => String::from_str(
                "Reproducibility check failed: builds do not match",
            ),
            BuildError::ContainerError(msg) => String::from_str("Container error: ").concat(
                msg.as_str(),
            ),
        }
    }

    /// The tag under which a release records this error.
    #[verifier::when_used_as_spec(spec_reason)]
    pub fn reason(&self) -> (r: FailureReason)
        ensures
            r == self.spec_reason(),
    {
        match self {
            BuildError::SourceNotFound(_) => FailureReason::SourceNotFound,
            BuildError::InvalidConfig(_) => FailureReason::InvalidConfig,
            BuildError::BuildFailed(_) => FailureReason::BuildFailed,
            BuildError::Timeout(_) => FailureReason::BuildTimeout,
            BuildError::ReproducibilityFailed => FailureReason::ReproducibilityFailed,
            BuildError::ContainerError(_) => FailureReason::ContainerError,
        }
    }
}

} // verus!
