use perfbot::logs::{app_token_claims, comment_target, AddResponse, ListFilter, ListResponse, Log, NewLog};

fn new_log() -> NewLog {
    NewLog {
        probe: "ST-Link".to_string(),
        chip: "NRF52".to_string(),
        os: "Linux".to_string(),
        protocol: "SWD".to_string(),
        protocol_speed: 4000,
        commit_hash: "ABC".to_string(),
        timestamp: 1_600_000_000,
        kind: "RAM".to_string(),
        read_speed: 1,
        write_speed: 2,
    }
}

fn log() -> Log {
    Log {
        id: 3,
        probe: "p".to_string(),
        chip: "c".to_string(),
        os: "o".to_string(),
        protocol: "s".to_string(),
        protocol_speed: 1,
        commit_hash: "h".to_string(),
        timestamp: 5,
        kind: "k".to_string(),
        read_speed: 1,
        write_speed: 1,
    }
}

#[test]
fn submitted_entries_are_lowercased() {
    let n = new_log().normalized();
    assert_eq!(n.probe, "st-link");
    assert_eq!(n.chip, "nrf52");
    assert_eq!(n.os, "linux");
    assert_eq!(n.protocol, "swd");
    assert_eq!(n.kind, "ram");
    assert_eq!(n.commit_hash, "ABC");
    assert_eq!(n.timestamp, 1_600_000_000);
    assert_eq!(n.protocol_speed, 4000);
}

#[test]
fn normalizing_twice_changes_nothing() {
    let once = new_log().normalized();
    let twice = new_log().normalized().normalized();
    assert_eq!(once.probe, twice.probe);
    assert_eq!(once.kind, twice.kind);
}

#[test]
fn list_filters_are_lowercased() {
    let f = ListFilter {
        probe: Some("J-Link".to_string()),
        chip: None,
        os: Some("MacOS".to_string()),
        kind: None,
        protocol: Some("JTAG".to_string()),
        protocol_speed: Some(100),
    }
    .normalized();
    assert_eq!(f.probe.as_deref(), Some("j-link"));
    assert_eq!(f.chip, None);
    assert_eq!(f.os.as_deref(), Some("macos"));
    assert_eq!(f.protocol.as_deref(), Some("jtag"));
    assert_eq!(f.protocol_speed, Some(100));
}

#[test]
fn responses_carry_result_or_error() {
    let ok = ListResponse::from_query(Ok(vec![log()]));
    assert!(ok.error.is_none());
    assert_eq!(ok.logs.len(), 1);
    let err = ListResponse::from_query(Err("NotFound".to_string()));
    assert_eq!(err.error.as_deref(), Some("NotFound"));
    assert!(err.logs.is_empty());
    let added = AddResponse::from_query(Ok(log()));
    assert!(added.error.is_none());
    assert_eq!(added.log.map(|l| l.id), Some(3));
    let failed = AddResponse::from_query(Err("locked".to_string()));
    assert_eq!(failed.error.as_deref(), Some("locked"));
    assert!(failed.log.is_none());
}

#[test]
fn comment_target_needs_a_number() {
    assert_eq!(comment_target(&Some("42".to_string())), Some(42));
    assert_eq!(comment_target(&Some("+42".to_string())), Some(42));
    assert_eq!(comment_target(&Some("#42".to_string())), None);
    assert_eq!(comment_target(&Some("".to_string())), None);
    assert_eq!(comment_target(&None), None);
}

#[test]
fn token_claims_last_ten_minutes() {
    let c = app_token_claims(1_000, 93);
    assert_eq!((c.iat, c.exp, c.iss), (1_000, 1_600, 93));
}
