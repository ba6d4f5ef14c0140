//! The read-only surface of the platform: what the HTTP layer answers.
//!
//! Failures are mapped to a small set of outward categories, and the detail
//! of an internal failure never leaves the server.

use crate::error::Error;
use crate::release::{ReleaseView, Stage};
use crate::store::{listed_ids, ReleaseStore};
use crate::text::{decimal_string, decimal_text};
use crate::types::{App, AppVersion};
use vstd::prelude::*;
use vstd::std_specs::convert::FromSpecImpl;
use vstd::string::*;

verus! {

/// Version of the service, as the health endpoints report it.
pub const SERVICE_VERSION: &'static str = "0.1.0";

/// API error type.
#[derive(Debug)]
pub enum ApiError {
    /// Resource not found.
    NotFound(String),
    /// Invalid request.
    BadRequest(String),
    /// Internal server error.
    Internal(String),
}

/// What an error response carries: the HTTP status, the error's category and
/// the message shown to the caller.
#[derive(Debug)]
pub struct ErrorBody {
    pub status: u16,
    pub error: String,
    pub message: String,
}

impl ApiError {
    /// The HTTP status of the error.
    pub open spec fn spec_status(&self) -> u16 {
        match self {
            ApiError::NotFound(_) => 404,
            ApiError::BadRequest(_) => 400,
            ApiError::Internal(_) => 500,
        }
    }

    /// The outward category of the error.
    pub open spec fn category(&self) -> Seq<char> {
        match self {
            ApiError::NotFound(_) => "not_found"@,
            ApiError::BadRequest(_) => "bad_request"@,
            ApiError::Internal(_) => "internal_error"@,
        }
    }

    /// The message shown to the caller. The detail of an internal error is
    /// replaced by a fixed text.
    pub open spec fn public_message(&self) -> Seq<char> {
        match self {
            ApiError::NotFound(msg) => msg@,
            ApiError::BadRequest(msg) => msg@,
            ApiError::Internal(_) => "An internal error occurred"@,
        }
    }

    /// The HTTP status of the error.
    #[verifier::when_used_as_spec(spec_status)]
    pub fn status(&self) -> (code: u16)
        ensures
            code == self.spec_status(),
    {
        match self {
            ApiError::NotFound(_) => 404,
            ApiError::BadRequest(_) => 400,
            ApiError::Internal(_) => 500,
        }
    }

    /// Turns the error into the content of its response.
    pub fn into_body(self) -> (body: ErrorBody)
        ensures
            body.status == self.spec_status(),
            body.error@ == self.category(),
            body.message@ == self.public_message(),
    {
        match self {
            ApiError::NotFound(msg) => ErrorBody {
                status: 404,
                error: String::from_str("not_found"),
                message: msg,
            },
            ApiError::BadRequest(msg) => ErrorBody {
                status: 400,
                error: String::from_str("bad_request"),
                message: msg,
            },
            ApiError::Internal(_) => ErrorBody {
                status: 500,
                error: String::from_str("internal_error"),
                message: String::from_str("An internal error occurred"),
            },
        }
    }
}

impl From<Error> for ApiError {
    fn from(err: Error) -> (api: ApiError) {
        match err {
            Error::NotFound(msg) => ApiError::NotFound(msg),
            Error::InvalidInput(msg) => ApiError::BadRequest(msg),
            Error::Database(msg) => ApiError::Internal(msg),
            Error::Config(msg) => ApiError::Internal(msg),
            Error::Internal(msg) => ApiError::Internal(msg),
        }
    }
}

impl FromSpecImpl<Error> for ApiError {
    open spec fn obeys_from_spec() -> bool {
        true
    }

    /// Not found stays not found, invalid input is a bad request, and every
    /// other failure is internal.
    open spec fn from_spec(err: Error) -> ApiError {
        match err {
            Error::NotFound(msg) => ApiError::NotFound(msg),
            Error::InvalidInput(msg) => ApiError::BadRequest(msg),
            Error::Database(msg) => ApiError::Internal(msg),
            Error::Config(msg) => ApiError::Internal(msg),
            Error::Internal(msg) => ApiError::Internal(msg),
        }
    }
}

/// Health check response.
#[derive(Debug)]
pub struct HealthResponse {
    pub status: &'static str,
    pub version: &'static str,
}

/// Basic health check: the service is running.
pub fn health_check() -> (response: HealthResponse)
    ensures
        response.status@ == "ok"@,
        response.version@ == SERVICE_VERSION@,
{
    HealthResponse { status: "ok", version: SERVICE_VERSION }
}

/// Readiness check: the service is ready to accept traffic.
pub fn readiness_check() -> (response: HealthResponse)
    ensures
        response.status@ == "ready"@,
        response.version@ == SERVICE_VERSION@,
{
    HealthResponse { status: "ready", version: SERVICE_VERSION }
}

/// Liveness check: the service is alive.
pub fn liveness_check() -> (response: HealthResponse)
    ensures
        response.status@ == "alive"@,
        response.version@ == SERVICE_VERSION@,
{
    HealthResponse { status: "alive", version: SERVICE_VERSION }
}

/// Response for listing applications.
#[derive(Debug)]
pub struct AppsListResponse {
    pub apps: Vec<AppSummary>,
    pub total: usize,
}

/// Summary of an application.
#[derive(Debug)]
pub struct AppSummary {
    pub package_id: String,
    pub name: String,
    pub summary: String,
    pub version_name: String,
    pub version_code: i64,
}

/// Detailed application information.
#[derive(Debug)]
pub struct AppDetail {
    pub package_id: String,
    pub name: String,
    pub summary: String,
    pub description: String,
    pub version_name: String,
    pub version_code: i64,
    /// When the app was added, in seconds since the Unix epoch.
    pub created_at: i64,
    /// When the app was last updated, in seconds since the Unix epoch.
    pub updated_at: i64,
}

/// Application version information.
#[derive(Debug)]
pub struct AppVersionResponse {
    pub version_name: String,
    pub version_code: i64,
    pub sha256: String,
    pub size: i64,
    pub min_sdk: i32,
    pub target_sdk: i32,
    /// When this version was added, in seconds since the Unix epoch.
    pub created_at: i64,
}

/// The summary shows the application's identity and current version.
pub open spec fn summarizes(s: AppSummary, app: App) -> bool {
    &&& s.package_id@ == app.package_id@
    &&& s.name@ == app.name@
    &&& s.summary@ == app.summary@
    &&& s.version_name@ == app.version_name@
    &&& s.version_code == app.version_code
}

/// The detail shows everything that is recorded of the application.
pub open spec fn details(d: AppDetail, app: App) -> bool {
    &&& d.package_id@ == app.package_id@
    &&& d.name@ == app.name@
    &&& d.summary@ == app.summary@
    &&& d.description@ == app.description@
    &&& d.version_name@ == app.version_name@
    &&& d.version_code == app.version_code
    &&& d.created_at == app.created_at
    &&& d.updated_at == app.updated_at
}

/// The response shows everything that is recorded of the version.
pub open spec fn describes(r: AppVersionResponse, v: AppVersion) -> bool {
    &&& r.version_name@ == v.version_name@
    &&& r.version_code == v.version_code
    &&& r.sha256@ == v.sha256@
    &&& r.size == v.size
    &&& r.min_sdk == v.min_sdk
    &&& r.target_sdk == v.target_sdk
    &&& r.created_at == v.created_at
}

/// No application before position `end` has the package identifier.
pub open spec fn absent_up_to(apps: Seq<App>, package_id: Seq<char>, end: int) -> bool {
    forall|i: int| 0 <= i < end ==> (#[trigger] apps[i]).package_id@ != package_id
}

/// The text of the error for an unknown application.
pub open spec fn not_found_text(package_id: Seq<char>) -> Seq<char> {
    "Application not found: "@ + package_id
}

/// The versions that belong to the application, in the order given.
pub open spec fn versions_of(versions: Seq<AppVersion>, app_id: u128) -> Seq<AppVersion> {
    versions.filter(|v: AppVersion| v.app_id == app_id)
}

fn find_app(apps: &Vec<App>, package_id: &str) -> (position: Option<usize>)
    ensures
        match position {
            Some(i) => i < apps@.len() && apps@[i as int].package_id@ == package_id@
                && absent_up_to(apps@, package_id@, i as int),
            None => absent_up_to(apps@, package_id@, apps@.len() as int),
        },
{
    let wanted = String::from_str(package_id);
    let mut i: usize = 0;
    while i < apps.len()
        invariant
            i <= apps@.len(),
            wanted@ == package_id@,
            absent_up_to(apps@, package_id@, i as int),
        decreases apps.len() - i,
    {
        if apps[i].package_id.0 == wanted {
            return Some(i);
        }
        i = i + 1;
    }
    None
}

fn not_found(package_id: &str) -> (error: ApiError)
    ensures
        error matches ApiError::NotFound(msg) && msg@ == not_found_text(package_id@),
{
    ApiError::NotFound(String::from_str("Application not found: ").concat(package_id))
}

/// The applications of a list of rows: each package once, by the first row
/// that carries it, in the order of the rows. A later row of a package that
/// was seen before is left out, as `get_app` answers with the first one.
pub open spec fn listed_rows(apps: Seq<App>) -> Seq<App>
    decreases apps.len(),
{
    if apps.len() == 0 {
        Seq::empty()
    } else {
        let front = listed_rows(apps.drop_last());
        if absent_up_to(apps, apps.last().package_id@, apps.len() - 1) {
            front.push(apps.last())
        } else {
            front
        }
    }
}

/// Lists all applications: one summary per application, in order, and
/// their number.
pub fn list_apps(apps: &Vec<App>) -> (response: AppsListResponse)
    ensures
        response.total == listed_rows(apps@).len(),
        response.apps@.len() == listed_rows(apps@).len(),
        forall|k: int|
            0 <= k < response.apps@.len() ==> summarizes(
                #[trigger] response.apps@[k],
                listed_rows(apps@)[k],
            ),
{
    let mut summaries: Vec<AppSummary> = Vec::new();
    let mut i: usize = 0;
    proof {
        assert(apps@.take(0) =~= Seq::<App>::empty());
    }
    while i < apps.len()
        invariant
            i <= apps@.len(),
            summaries@.len() == listed_rows(apps@.take(i as int)).len(),
            summaries@.len() <= i,
            forall|k: int|
                0 <= k < summaries@.len() ==> summarizes(
                    #[trigger] summaries@[k],
                    listed_rows(apps@.take(i as int))[k],
                ),
        decreases apps.len() - i,
    {
        let app = &apps[i];
        let first = match find_app(apps, app.package_id.as_str()) {
            Some(k) => k == i,
            None => false,
        };
        proof {
            let next = apps@.take(i as int + 1);
            assert(next.drop_last() =~= apps@.take(i as int));
            assert(next.last() == apps@[i as int]);
            assert(absent_up_to(next, app.package_id@, i as int) == absent_up_to(
                apps@,
                app.package_id@,
                i as int,
            )) by {
                if absent_up_to(apps@, app.package_id@, i as int) {
                    assert forall|j: int| 0 <= j < i implies (#[trigger] next[j]).package_id@
                        != app.package_id@ by {
                        assert(next[j] == apps@[j]);
                    }
                }
                if absent_up_to(next, app.package_id@, i as int) {
                    assert forall|j: int| 0 <= j < i implies (#[trigger] apps@[j]).package_id@
                        != app.package_id@ by {
                        assert(next[j] == apps@[j]);
                    }
                }
            }
            assert(first == absent_up_to(apps@, app.package_id@, i as int)) by {
                assert(apps@[i as int].package_id@ == app.package_id@);
            }
        }
        if first {
            summaries.push(
                AppSummary {
                    package_id: app.package_id.to_string(),
                    name: app.name.clone(),
                    summary: app.summary.clone(),
                    version_name: app.version_name.clone(),
                    version_code: app.version_code,
                },
            );
        }
        i = i + 1;
    }
    proof {
        assert(apps@.take(apps@.len() as int) =~= apps@);
    }
    let total = summaries.len();
    AppsListResponse { apps: summaries, total }
}

/// Every listed application is the first row of its package.
proof fn lemma_listed_rows_are_first_rows(apps: Seq<App>, k: int)
    requires
        0 <= k < listed_rows(apps).len(),
    ensures
        exists|i: int|
            0 <= i < apps.len() && (#[trigger] apps[i]) == listed_rows(apps)[k] && absent_up_to(
                apps,
                apps[i].package_id@,
                i,
            ),
    decreases apps.len(),
{
    let front = apps.drop_last();
    let n = apps.len() - 1;
    if absent_up_to(apps, apps.last().package_id@, n) && k == listed_rows(front).len() {
        assert(apps[n] == listed_rows(apps)[k]);
    } else {
        lemma_listed_rows_are_first_rows(front, k);
        let i = choose|i: int|
            0 <= i < front.len() && (#[trigger] front[i]) == listed_rows(front)[k]
                && absent_up_to(front, front[i].package_id@, i);
        assert(apps[i] == front[i]);
        assert forall|j: int| 0 <= j < i implies (#[trigger] apps[j]).package_id@
            != apps[i].package_id@ by {
            assert(front[j] == apps[j]);
        }
    }
}

/// The list of applications names no package twice.
pub proof fn lemma_listed_packages_are_distinct(apps: Seq<App>, a: int, b: int)
    requires
        0 <= a < b < listed_rows(apps).len(),
    ensures
        listed_rows(apps)[a].package_id@ != listed_rows(apps)[b].package_id@,
    decreases apps.len(),
{
    let front = apps.drop_last();
    let n = apps.len() - 1;
    if absent_up_to(apps, apps.last().package_id@, n) && b == listed_rows(front).len() {
        lemma_listed_rows_are_first_rows(front, a);
        let i = choose|i: int|
            0 <= i < front.len() && (#[trigger] front[i]) == listed_rows(front)[a]
                && absent_up_to(front, front[i].package_id@, i);
        assert(apps[i] == front[i]);
    } else {
        lemma_listed_packages_are_distinct(front, a, b);
    }
}

/// The list of applications names every package of the rows.
pub proof fn lemma_every_package_is_listed(apps: Seq<App>, i: int)
    requires
        0 <= i < apps.len(),
    ensures
        exists|k: int|
            0 <= k < listed_rows(apps).len() && (#[trigger] listed_rows(apps)[k]).package_id@
                == apps[i].package_id@,
    decreases apps.len(),
{
    let front = apps.drop_last();
    let n = apps.len() - 1;
    let listed = listed_rows(apps);
    if absent_up_to(apps, apps.last().package_id@, n) {
        if i == n {
            assert(listed[listed.len() - 1].package_id@ == apps[i].package_id@);
        } else {
            lemma_every_package_is_listed(front, i);
            let k = choose|k: int|
                0 <= k < listed_rows(front).len() && (#[trigger] listed_rows(
                    front,
                )[k]).package_id@ == front[i].package_id@;
            assert(listed[k] == listed_rows(front)[k]);
        }
    } else {
        let j = if i == n {
            choose|j: int| 0 <= j < n && (#[trigger] apps[j]).package_id@ == apps[n].package_id@
        } else {
            i
        };
        assert(front[j] == apps[j]);
        lemma_every_package_is_listed(front, j);
    }
}

/// Gets a specific application by package identifier: the first
/// application with that identifier, or `NotFound` if there is none.
pub fn get_app(apps: &Vec<App>, package_id: &str) -> (result: Result<AppDetail, ApiError>)
    ensures
        match result {
            Ok(detail) => exists|i: int|
                {
                    &&& 0 <= i < apps@.len()
                    &&& (#[trigger] apps@[i]).package_id@ == package_id@
                    &&& absent_up_to(apps@, package_id@, i)
                    &&& details(detail, apps@[i])
                },
            Err(ApiError::NotFound(msg)) => absent_up_to(
                apps@,
                package_id@,
                apps@.len() as int,
            ) && msg@ == not_found_text(package_id@),
            Err(_) => false,
        },
{
    match find_app(apps, package_id) {
        Some(i) => {
            let app = &apps[i];
            Ok(
                AppDetail {
                    package_id: app.package_id.to_string(),
                    name: app.name.clone(),
                    summary: app.summary.clone(),
                    description: app.description.clone(),
                    version_name: app.version_name.clone(),
                    version_code: app.version_code,
                    created_at: app.created_at,
                    updated_at: app.updated_at,
                },
            )
        },
        None => Err(not_found(package_id)),
    }
}

/// Gets the version history of an application: the versions that belong to
/// the first application with that identifier, in the order given, or
/// `NotFound` if there is no such application.
pub fn get_app_versions(apps: &Vec<App>, versions: &Vec<AppVersion>, package_id: &str) -> (result:
    Result<Vec<AppVersionResponse>, ApiError>)
    ensures
        match result {
            Ok(list) => exists|i: int|
                {
                    &&& 0 <= i < apps@.len()
                    &&& (#[trigger] apps@[i]).package_id@ == package_id@
                    &&& absent_up_to(apps@, package_id@, i)
                    &&& list@.len() == versions_of(versions@, apps@[i].id).len()
                    &&& forall|k: int|
                        0 <= k < list@.len() ==> describes(
                            #[trigger] list@[k],
                            versions_of(versions@, apps@[i].id)[k],
                        )
                },
            Err(ApiError::NotFound(msg)) => absent_up_to(
                apps@,
                package_id@,
                apps@.len() as int,
            ) && msg@ == not_found_text(package_id@),
            Err(_) => false,
        },
{
    match find_app(apps, package_id) {
        Some(i) => {
            let app_id = apps[i].id;
            let ghost keep = |v: AppVersion| v.app_id == app_id;
            let mut list: Vec<AppVersionResponse> = Vec::new();
            let mut k: usize = 0;
            proof {
                assert(versions@.take(0) =~= Seq::<AppVersion>::empty());
                reveal(Seq::filter);
            }
            while k < versions.len()
                invariant
                    k <= versions@.len(),
                    keep == |v: AppVersion| v.app_id == app_id,
                    list@.len() == versions@.take(k as int).filter(keep).len(),
                    forall|j: int|
                        0 <= j < list@.len() ==> describes(
                            #[trigger] list@[j],
                            versions@.take(k as int).filter(keep)[j],
                        ),
                decreases versions.len() - k,
            {
                let v = &versions[k];
                proof {
                    let next = versions@.take(k as int + 1);
                    assert(next.drop_last() =~= versions@.take(k as int));
                    assert(next.last() == *v);
                    reveal(Seq::filter);
                }
                if v.app_id == app_id {
                    list.push(
                        AppVersionResponse {
                            version_name: v.version_name.clone(),
                            version_code: v.version_code,
                            sha256: v.sha256.clone(),
                            size: v.size,
                            min_sdk: v.min_sdk,
                            target_sdk: v.target_sdk,
                            created_at: v.created_at,
                        },
                    );
                }
                k = k + 1;
            }
            proof {
                assert(versions@.take(versions@.len() as int) =~= versions@);
            }
            Ok(list)
        },
        None => Err(not_found(package_id)),
    }
}

/// Number of releases that are in the given stage.
pub open spec fn stage_count(releases: Seq<ReleaseView>, stage: Stage) -> nat {
    listed_ids(releases, Some(stage)).len()
}

/// One line of the metrics: a name, a blank, a number, a line feed.
pub open spec fn metric_line(name: Seq<char>, value: nat) -> Seq<char> {
    name + " "@ + decimal_text(value) + "\n"@
}

/// The metrics of the platform in the Prometheus text format: a heading,
/// then the number of releases, of published ones and of failed ones.
pub open spec fn metrics_text(releases: Seq<ReleaseView>) -> Seq<char> {
    "# DK-AppStore Metrics\n"@ + metric_line("dk_appstore_releases_total"@, releases.len())
        + metric_line(
        "dk_appstore_releases_published"@,
        stage_count(releases, Stage::Published),
    ) + metric_line("dk_appstore_releases_failed"@, stage_count(releases, Stage::Failed))
}

fn metric(name: &str, value: usize) -> (line: String)
    ensures
        line@ == metric_line(name@, value as nat),
{
    let digits = decimal_string(value as u64);
    String::from_str(name).concat(" ").concat(digits.as_str()).concat("\n")
}

fn count_in(store: &ReleaseStore, stage: Stage) -> (n: usize)
    ensures
        n == stage_count(store@, stage),
{
    let ids = store.list_releases(Some(stage));
    ids.len()
}

/// Renders the metrics of the platform.
pub fn metrics_handler(store: &ReleaseStore) -> (text: String)
    ensures
        text@ == metrics_text(store@),
{
    let total = metric("dk_appstore_releases_total", store.len());
    let published = metric("dk_appstore_releases_published", count_in(store, Stage::Published));
    let failed = metric("dk_appstore_releases_failed", count_in(store, Stage::Failed));
    String::from_str("# DK-AppStore Metrics\n").concat(total.as_str()).concat(
        published.as_str(),
    ).concat(failed.as_str())
}

} // verus!
