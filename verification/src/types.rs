//! Common value types shared by every pipeline component.

use vstd::prelude::*;
use vstd::string::*;

verus! {

/// Unique identifier for an application: its package identifier.
#[derive(Debug, Clone, PartialEq, Eq, Hash)]
pub struct AppId(pub String);

impl View for AppId {
    type V = Seq<char>;

    open spec fn view(&self) -> Seq<char> {
        self.0@
    }
}

impl AppId {
    /// Create a new `AppId` from a package identifier.
    #[must_use]
    pub fn new(package_id: &str) -> (id: Self)
        ensures
            id@ == package_id@,
    {
        AppId(String::from_str(package_id))
    }

    /// Returns the package identifier as a string slice.
    #[must_use]
    pub fn as_str(&self) -> (s: &str)
        ensures
            s@ == self@,
    {
        self.0.as_str()
    }

    /// Renders the identifier as text: the package identifier itself.
    pub fn to_string(&self) -> (s: String)
        ensures
            s@ == self@,
    {
        self.0.clone()
    }
}

/// Application metadata.
#[derive(Debug, Clone)]
pub struct App {
    /// Unique identifier: the 128 bits of a UUID.
    pub id: u128,
    /// Package identifier (e.g., "dk.digst.mitid").
    pub package_id: AppId,
    /// Display name.
    pub name: String,
    /// Short description.
    pub summary: String,
    /// Full description.
    pub description: String,
    /// Current version code.
    pub version_code: i64,
    /// Current version name.
    pub version_name: String,
    /// When the app was added, in seconds since the Unix epoch.
    pub created_at: i64,
    /// When the app was last updated, in seconds since the Unix epoch.
    pub updated_at: i64,
}

/// Application version information.
#[derive(Debug, Clone)]
pub struct AppVersion {
    /// Unique identifier: the 128 bits of a UUID.
    pub id: u128,
    /// Reference to the application.
    pub app_id: u128,
    /// Version code (Android versionCode).
    pub version_code: i64,
    /// Version name (Android versionName).
    pub version_name: String,
    /// SHA-256 hash of the APK.
    pub sha256: String,
    /// Size of the APK in bytes.
    pub size: i64,
    /// Minimum Android SDK version.
    pub min_sdk: i32,
    /// Target Android SDK version.
    pub target_sdk: i32,
    /// When this version was added, in seconds since the Unix epoch.
    pub created_at: i64,
}

/// Build status for an application.
#[derive(Debug, Clone, Copy, PartialEq, Eq, Structural)]
pub enum BuildStatus {
    /// Build is queued.
    Pending,
    /// Build is in progress.
    Building,
    /// Build completed successfully.
    Success,
    /// Build failed.
    Failed,
    /// Build was cancelled.
    Cancelled,
}

impl BuildStatus {
    /// The name of the status on the wire: the variant's name in lower case.
    pub open spec fn wire_name(self) -> Seq<char> {
        match self {
            BuildStatus::Pending => "pending"@,
            BuildStatus::Building => "building"@,
            BuildStatus::Success => "success"@,
            BuildStatus::Failed => "failed"@,
            BuildStatus::Cancelled => "cancelled"@,
        }
    }

    /// Returns the wire name of the status.
    pub fn as_str(self) -> (s: &'static str)
        ensures
            s@ == self.wire_name(),
    {
        match self {
            BuildStatus::Pending => "pending",
            BuildStatus::Building => "building",
            BuildStatus::Success => "success",
            BuildStatus::Failed => "failed",
            BuildStatus::Cancelled => "cancelled",
        }
    }
}

/// Security scan status.
#[derive(Debug, Clone, Copy, PartialEq, Eq, Structural)]
pub enum ScanStatus {
    /// Scan is pending.
    Pending,
    /// Scan is in progress.
    Scanning,
    /// Scan passed (no critical issues).
    Passed,
    /// Scan failed (critical issues found).
    Failed,
    /// Scan passed with warnings.
    Warning,
}

impl ScanStatus {
    /// The name of the status on the wire: the variant's name in lower case.
    pub open spec fn wire_name(self) -> Seq<char> {
        match self {
            ScanStatus::Pending => "pending"@,
            ScanStatus::Scanning => "scanning"@,
            ScanStatus::Passed => "passed"@,
            ScanStatus::Failed => "failed"@,
            ScanStatus::Warning => "warning"@,
        }
    }

    /// Returns the wire name of the status.
    pub fn as_str(self) -> (s: &'static str)
        ensures
            s@ == self.wire_name(),
    {
        match self {
            ScanStatus::Pending => "pending",
            ScanStatus::Scanning => "scanning",
            ScanStatus::Passed => "passed",
            ScanStatus::Failed => "failed",
            ScanStatus::Warning => "warning",
        }
    }
}

} // verus!
