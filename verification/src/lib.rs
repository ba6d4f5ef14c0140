//! Release pipeline core of the DK-AppStore distribution platform.
//!
//! A submitted release is built several times independently, checked for
//! reproducibility, scanned, signed and published into the distribution
//! index. This crate holds the decisions of that pipeline; the work itself
//! (building, scanning, signing) is done by capabilities outside of it, whose
//! outcomes are handed in as plain values.

pub mod api;
pub mod build_error;
pub mod builds;
pub mod config;
pub mod error;
pub mod failure;
pub mod index;
pub mod index_laws;
pub mod pipeline;
pub mod release;
pub mod release_laws;
pub mod repro;
pub mod retry;
pub mod scan_error;
pub mod scanner;
pub mod signing;
pub mod signing_error;
pub mod store;
pub mod store_laws;
pub mod text;
pub mod types;

pub use builds::{BuildError, BuildResult, BuildService};
pub use config::Config;
pub use error::Error;
pub use scanner::{ScanError, ScanResult, ScannerService};
pub use signing::{SigningError, SigningResult, SigningService};
