use psql_ledger::client::{account_request, request_url, transaction_request};
use psql_ledger::config::{default_config, SslMode};
use psql_ledger::constants::full_version;
use psql_ledger::model::{AccountParams, Timestamp, TransactionParams};
use psql_ledger::server::{log_severity, Severity};
use psql_ledger::timestamp::{deserialize_datetime, serialize_datetime};

#[test]
fn full_version_joins_version_and_commit() {
    assert_eq!(full_version(Some("1.2.0"), Some("abc123")), "1.2.0-abc123");
    assert_eq!(full_version(Some("1.2.0"), None), "");
    assert_eq!(full_version(None, Some("abc123")), "");
}

#[test]
fn default_config_values() {
    let cfg = default_config();
    assert_eq!(cfg.log_level, "info");
    assert_eq!(cfg.server_addr, "0.0.0.0:8080");
    assert_eq!(cfg.pg.host.as_deref(), Some("0.0.0.0"));
    assert_eq!(cfg.pg.port, Some(5432));
    assert_eq!(cfg.pg.dbname.as_deref(), Some("bank"));
    assert_eq!(cfg.pg.user.as_deref(), Some("root"));
    assert_eq!(cfg.pg.password.as_deref(), Some("secret"));
    assert_eq!(cfg.pg.ssl_mode, Some(SslMode::Disable));
}

#[test]
fn client_urls() {
    assert_eq!(request_url("localhost:8080", "/status"), "http://localhost:8080/status");
    assert_eq!(request_url("10.0.0.1:9000", "/create-tx"), "http://10.0.0.1:9000/create-tx");
}

#[test]
fn client_requests_drop_server_fields() {
    let p = AccountParams {
        id: Some(4),
        username: Some("john_doe".to_string()),
        email: Some("john_doe@example.com".to_string()),
        balance: Some(10),
    };
    let r = account_request(p);
    assert_eq!(
        r,
        AccountParams {
            id: None,
            username: Some("john_doe".to_string()),
            email: Some("john_doe@example.com".to_string()),
            balance: None,
        }
    );
    let t = TransactionParams { id: Some(8), from_account: Some(1), to_account: Some(2), amount: Some(5) };
    assert_eq!(
        transaction_request(t),
        TransactionParams { id: None, from_account: Some(1), to_account: Some(2), amount: Some(5) }
    );
}

#[test]
fn log_severity_by_status() {
    assert_eq!(log_severity(500), Severity::Error);
    assert_eq!(log_severity(503), Severity::Error);
    assert_eq!(log_severity(404), Severity::Warn);
    assert_eq!(log_severity(400), Severity::Warn);
    assert_eq!(log_severity(200), Severity::Info);
    assert_eq!(log_severity(600), Severity::Info);
}

#[test]
fn timestamp_serializes_as_rfc3339() {
    let t = Timestamp { secs: 1_431_648_000, nanos: 0 };
    assert_eq!(serialize_datetime(Some(t)), Ok(Some("2015-05-15T00:00:00+00:00".to_string())));
    let n = Timestamp { secs: 1_431_648_000, nanos: 123_456_789 };
    assert_eq!(
        serialize_datetime(Some(n)),
        Ok(Some("2015-05-15T00:00:00.123456789+00:00".to_string()))
    );
    assert_eq!(serialize_datetime(None), Ok(None));
}

#[test]
fn timestamp_out_of_range_is_refused() {
    assert!(serialize_datetime(Some(Timestamp { secs: i64::MAX, nanos: 0 })).is_err());
}

#[test]
fn timestamp_parses_rfc3339() {
    assert_eq!(
        deserialize_datetime(Some("2015-05-15T00:00:00Z".to_string())),
        Ok(Some(Timestamp { secs: 1_431_648_000, nanos: 0 }))
    );
    assert_eq!(
        deserialize_datetime(Some("2015-05-15T02:00:00.5+02:00".to_string())),
        Ok(Some(Timestamp { secs: 1_431_648_000, nanos: 500_000_000 }))
    );
    assert_eq!(deserialize_datetime(None), Ok(None));
    assert!(deserialize_datetime(Some("yesterday".to_string())).is_err());
}

#[test]
fn timestamp_round_trips_through_text() {
    for t in [
        Timestamp { secs: 0, nanos: 0 },
        Timestamp { secs: 1_700_000_000, nanos: 42_000 },
        Timestamp { secs: -86_401, nanos: 999_999_999 },
    ] {
        let text = serialize_datetime(Some(t)).unwrap();
        assert_eq!(deserialize_datetime(text), Ok(Some(t)));
    }
}
