use healthmon::config::{parse_bool, parse_u16, Config};
use healthmon::models::{CreateServiceRequest, Service, UpdateServiceRequest};
use healthmon::models::{apply_update, new_service};

#[test]
fn ports_parse_as_the_standard_library_reads_them() {
    assert_eq!(parse_u16("3030"), Some(3030));
    assert_eq!(parse_u16("0"), Some(0));
    assert_eq!(parse_u16("007"), Some(7));
    assert_eq!(parse_u16("+80"), Some(80));
    assert_eq!(parse_u16("65535"), Some(65535));
    assert_eq!(parse_u16("65536"), None);
    assert_eq!(parse_u16("99999"), None);
    assert_eq!(parse_u16(""), None);
    assert_eq!(parse_u16("+"), None);
    assert_eq!(parse_u16("12a"), None);
    assert_eq!(parse_u16("-1"), None);
    assert_eq!(parse_u16(" 80"), None);
}

#[test]
fn flags_parse_only_their_two_exact_spellings() {
    assert_eq!(parse_bool("true"), Some(true));
    assert_eq!(parse_bool("false"), Some(false));
    assert_eq!(parse_bool("TRUE"), None);
    assert_eq!(parse_bool("1"), None);
    assert_eq!(parse_bool(""), None);
}

#[test]
fn absent_values_resolve_to_their_defaults() {
    let c = Config::resolve(None, None, None, None, None, None, None);
    assert_eq!(c.database_url, "sqlite:health_check.db?mode=rwc");
    assert_eq!(c.default_username, "admin");
    assert_eq!(c.default_password, "admin");
    assert_eq!(c.host, "127.0.0.1");
    assert_eq!(c.port, 3030);
    assert!(c.prometheus_enabled);
    assert_eq!(c.rust_log, "info");
}

#[test]
fn present_values_are_taken_and_bad_ones_fall_back() {
    let c = Config::resolve(
        Some(String::from("sqlite::memory:")),
        Some(String::from("root")),
        Some(String::from("pw")),
        Some(String::from("0.0.0.0")),
        Some(String::from("8080")),
        Some(String::from("false")),
        Some(String::from("debug")),
    );
    assert_eq!(c.database_url, "sqlite::memory:");
    assert_eq!(c.default_username, "root");
    assert_eq!(c.default_password, "pw");
    assert_eq!(c.host, "0.0.0.0");
    assert_eq!(c.port, 8080);
    assert!(!c.prometheus_enabled);
    assert_eq!(c.rust_log, "debug");

    let c = Config::resolve(
        None,
        None,
        None,
        None,
        Some(String::from("not-a-port")),
        Some(String::from("maybe")),
        None,
    );
    assert_eq!(c.port, 3030);
    assert!(c.prometheus_enabled);
}

#[test]
fn a_create_request_builds_the_stored_record() {
    let req = CreateServiceRequest {
        service_name: String::from("A"),
        healthcheck_url: String::from("http://a"),
        healthcheck_duration_seconds: 15,
    };
    let s = new_service(9, &req, 1700000000);
    assert_eq!(s.id, 9);
    assert_eq!(s.service_name, "A");
    assert_eq!(s.healthcheck_url, "http://a");
    assert_eq!(s.healthcheck_duration_seconds, 15);
    assert_eq!(s.created_at, 1700000000);
    assert_eq!(s.updated_at, 1700000000);
}

#[test]
fn an_update_replaces_only_the_given_fields() {
    let s = Service {
        id: 1,
        service_name: String::from("A"),
        healthcheck_url: String::from("http://a"),
        healthcheck_duration_seconds: 15,
        created_at: 100,
        updated_at: 100,
    };
    let u = apply_update(
        &s,
        &UpdateServiceRequest {
            service_name: Some(String::from("B")),
            healthcheck_url: None,
            healthcheck_duration_seconds: Some(60),
        },
        200,
    );
    assert_eq!(u.id, 1);
    assert_eq!(u.service_name, "B");
    assert_eq!(u.healthcheck_url, "http://a");
    assert_eq!(u.healthcheck_duration_seconds, 60);
    assert_eq!(u.created_at, 100);
    assert_eq!(u.updated_at, 200);

    let untouched = apply_update(
        &s,
        &UpdateServiceRequest {
            service_name: None,
            healthcheck_url: None,
            healthcheck_duration_seconds: None,
        },
        300,
    );
    assert_eq!(untouched.service_name, "A");
    assert_eq!(untouched.healthcheck_url, "http://a");
    assert_eq!(untouched.healthcheck_duration_seconds, 15);
    assert_eq!(untouched.updated_at, 300);
}
