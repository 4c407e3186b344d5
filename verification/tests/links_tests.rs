use perfbot::links::{author_url, commit_url, pr_label, pr_url, run_date_text, run_route_id, uses_plain_websocket};
use perfbot::models::{RecordKey, RecordRef, RunModel, Timestamp};

fn run(key: i64) -> RunModel {
    run_at(key, Timestamp { secs: 0, nanos: 0 })
}

fn run_at(key: i64, datetime: Timestamp) -> RunModel {
    RunModel {
        id: RecordRef { table: "run".to_string(), key: RecordKey::Number(key) },
        datetime,
        author: "octocat".to_string(),
        pr: 12,
        commit: "deadbeef".to_string(),
        previous: None,
        measurements: vec![],
    }
}

#[test]
fn links_to_github() {
    assert_eq!(pr_url("probe-rs", "probe-rs", 12), "https://github.com/probe-rs/probe-rs/pull/12");
    assert_eq!(pr_label(12), "#12");
    assert_eq!(
        commit_url("o", "r", 5, "deadbeef"),
        "https://github.com/o/r/pull/5/commits/deadbeef"
    );
    assert_eq!(author_url("octocat"), "https://github.com/octocat");
}

#[test]
fn run_pages_use_the_numeric_key() {
    assert_eq!(run_route_id(&run(123456)), 123456);
    assert_eq!(run_route_id(&run(-7)), -7);
    assert_eq!(run_route_id(&run(i64::MAX)), i64::MAX);
}

#[test]
fn dates_in_rfc3339() {
    assert_eq!(run_date_text(&run(1)).as_deref(), Some("1970-01-01T00:00:00Z"));
    assert_eq!(
        run_date_text(&run_at(1, Timestamp { secs: 1_516_991_409, nanos: 453_829_000 })).as_deref(),
        Some("2018-01-26T18:30:09Z")
    );
    assert_eq!(run_date_text(&run_at(1, Timestamp { secs: i64::MAX, nanos: 0 })), None);
}

#[test]
fn local_databases_use_plain_websocket() {
    assert!(uses_plain_websocket("localhost:8000"));
    assert!(uses_plain_websocket("127.0.0.1:8000"));
    assert!(!uses_plain_websocket("db.example.org:443"));
}
