//! Application-level errors of the platform.

use vstd::prelude::*;
use vstd::std_specs::convert::FromSpecImpl;
use vstd::string::*;

verus! {

/// Application-level error type.
#[derive(Debug)]
pub enum Error {
    /// Application not found.
    NotFound(String),
    /// Invalid input provided.
    InvalidInput(String),
    /// Database error.
    Database(String),
    /// Configuration error.
    Config(String),
    /// Internal error.
    Internal(String),
}

/// An error raised while the configuration is read.
#[verifier::external_type_specification]
#[verifier::external_body]
pub struct ExConfigError(config::ConfigError);

/// The text that `config::ConfigError` displays.
pub uninterp spec fn config_error_text(err: config::ConfigError) -> Seq<char>;

/// Calls `ToString::to_string` on a `config::ConfigError`, which renders the
/// error through its `Display` impl. The rendering reads nothing but the error
/// value, so the result is the named text of that value.
#[verifier::external_body]
fn config_error_to_string(err: &config::ConfigError) -> (s: String)
    ensures
        s@ == config_error_text(*err),
{
    err.to_string()
}

impl Error {
    /// The human-readable text of the error: a fixed prefix, then the detail.
    pub open spec fn display(&self) -> Seq<char> {
        match self {
            Error::NotFound(msg) => "not found: "@ + msg@,
            Error::InvalidInput(msg) => "invalid input: "@ + msg@,
            Error::Database(msg) => "database error: "@ + msg@,
            Error::Config(msg) => "configuration error: "@ + msg@,
            Error::Internal(msg) => "internal error: "@ + msg@,
        }
    }

    /// Renders the error as text.
    pub fn to_string(&self) -> (s: String)
        ensures
            s@ == self.display(),
    {
        match self {
            Error::NotFound(msg) => String::from_str("not found: ").concat(msg.as_str()),
            Error::InvalidInput(msg) => String::from_str("invalid input: ").concat(msg.as_str()),
            Error::Database(msg) => String::from_str("database error: ").concat(msg.as_str()),
            Error::Config(msg) => String::from_str("configuration error: ").concat(
                msg.as_str(),
            ),
            Error::Internal(msg) => String::from_str("internal error: ").concat(msg.as_str()),
        }
    }
}

impl From<config::ConfigError> for Error {
    /// A configuration failure becomes `Error::Config` carrying the
    /// failure's text.
    fn from(err: config::ConfigError) -> (e: Error)
        ensures
            e matches Error::Config(msg) && msg@ == config_error_text(err),
    {
        Error::Config(config_error_to_string(&err))
    }
}

impl FromSpecImpl<config::ConfigError> for Error {
    /// The result holds a text that is made when the conversion runs, so no
    /// function of the failure alone gives the very value: the conversion
    /// states its result itself.
    open spec fn obeys_from_spec() -> bool {
        false
    }

    open spec fn from_spec(err: config::ConfigError) -> Error {
        Error::Config(choose|msg: String| (#[trigger] msg@) == config_error_text(err))
    }
}

} // verus!
