use dk_appstore::config::{default_host, default_max_connections, default_port, Config};
use dk_appstore::error::Error;
use dk_appstore::text::decimal_string;
use dk_appstore::types::{AppId, BuildStatus, ScanStatus};

#[test]
fn test_default_values() {
    assert_eq!(default_max_connections(), 10);
    assert_eq!(default_host(), "127.0.0.1");
    assert_eq!(default_port(), 8080);
}

#[test]
fn test_error_display() {
    let err = Error::NotFound("app xyz".to_string());
    assert_eq!(err.to_string(), "not found: app xyz");
}

#[test]
fn test_app_id_display() {
    let id = AppId::new("dk.digst.mitid");
    assert_eq!(id.to_string(), "dk.digst.mitid");
    assert_eq!(id.as_str(), "dk.digst.mitid");
}

#[test]
fn test_build_status_serde() {
    let status = BuildStatus::Success;
    let json = serde_json::to_string(status.as_str()).expect("serialize");
    assert_eq!(json, "\"success\"");
}

#[test]
fn test_error_display_every_variant() {
    assert_eq!(Error::InvalidInput("x".to_string()).to_string(), "invalid input: x");
    assert_eq!(Error::Database("down".to_string()).to_string(), "database error: down");
    assert_eq!(Error::Config("bad".to_string()).to_string(), "configuration error: bad");
    assert_eq!(Error::Internal("oops".to_string()).to_string(), "internal error: oops");
}

#[test]
fn test_status_wire_names() {
    assert_eq!(BuildStatus::Pending.as_str(), "pending");
    assert_eq!(BuildStatus::Building.as_str(), "building");
    assert_eq!(BuildStatus::Failed.as_str(), "failed");
    assert_eq!(BuildStatus::Cancelled.as_str(), "cancelled");
    assert_eq!(ScanStatus::Pending.as_str(), "pending");
    assert_eq!(ScanStatus::Scanning.as_str(), "scanning");
    assert_eq!(ScanStatus::Passed.as_str(), "passed");
    assert_eq!(ScanStatus::Failed.as_str(), "failed");
    assert_eq!(ScanStatus::Warning.as_str(), "warning");
}

#[test]
fn test_decimal_string() {
    assert_eq!(decimal_string(0), "0");
    assert_eq!(decimal_string(7), "7");
    assert_eq!(decimal_string(30), "30");
    assert_eq!(decimal_string(1234567890), "1234567890");
    assert_eq!(decimal_string(u64::MAX), "18446744073709551615");
}

#[test]
fn test_config_from_settings_fills_defaults() {
    let c = Config::from_settings(
        "postgres://db".to_string(),
        None,
        "redis://cache".to_string(),
        None,
        None,
    );
    assert_eq!(c.database.url, "postgres://db");
    assert_eq!(c.database.max_connections, 10);
    assert_eq!(c.redis.url, "redis://cache");
    assert_eq!(c.api.host, "127.0.0.1");
    assert_eq!(c.api.port, 8080);
    let c = Config::from_settings(
        "a".to_string(),
        Some(3),
        "b".to_string(),
        Some("0.0.0.0".to_string()),
        Some(9000),
    );
    assert_eq!(c.database.max_connections, 3);
    assert_eq!(c.api.host, "0.0.0.0");
    assert_eq!(c.api.port, 9000);
}

#[test]
fn test_app_ids_compare_by_their_text() {
    assert_eq!(AppId::new("dk.a"), AppId::new("dk.a"));
    assert_ne!(AppId::new("dk.a"), AppId::new("dk.b"));
    let mut set = std::collections::HashSet::new();
    set.insert(AppId::new("dk.a"));
    set.insert(AppId::new("dk.a"));
    assert_eq!(set.len(), 1);
    assert_eq!(AppId::new("dk.a").clone().as_str(), "dk.a");
}

#[test]
fn test_health_check() {
    let response = dk_appstore::api::health_check();
    assert_eq!(response.status, "ok");
}

#[test]
fn test_readiness_check() {
    let response = dk_appstore::api::readiness_check();
    assert_eq!(response.status, "ready");
}

#[test]
fn test_liveness_check() {
    let response = dk_appstore::api::liveness_check();
    assert_eq!(response.status, "alive");
}
