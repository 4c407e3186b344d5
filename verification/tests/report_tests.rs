use perfbot::logs::{log_comment_body, Log};
use perfbot::report::{report_body, result_row_text, ResultRow};

#[test]
fn renders_a_result_row() {
    let row = ResultRow {
        name: "ram write".to_string(),
        abs: "12.5".to_string(),
        diff: "-0.5".to_string(),
        unit: "KiB/s".to_string(),
        percent_change: "4.00 %".to_string(),
        improved: false,
    };
    assert_eq!(result_row_text(&row), "| ram write  | 12.5KiB/s (-0.5KiB/s)  | 4.00 % | DECLINED |");
}

#[test]
fn report_without_rows_says_so() {
    let body = report_body("https://perf.probe.rs", 17, &vec![]);
    assert_eq!(
        body,
        "# Benchmarks\n\nhttps://perf.probe.rs/run/17\n\nNo benchmarks were found. Check your CI workflows.\n    "
    );
}

#[test]
fn report_joins_rows_with_newlines() {
    let rows = vec!["| a |".to_string(), "| b |".to_string()];
    let body = report_body("http://x", -3, &rows);
    assert_eq!(
        body,
        "# Benchmarks\n\nhttp://x/run/-3\n\n\n| Name          | Change (abs)  | Change (%)    | Outcome       |\n| ------------- | ------------- | ------------- | ------------- |\n| a |\n| b |\n        \n    "
    );
}

#[test]
fn report_with_one_empty_row_counts_as_empty() {
    let body = report_body("u", 1, &vec![String::new()]);
    assert!(body.contains("No benchmarks were found."));
}

#[test]
fn comment_for_a_log_entry() {
    let log = Log {
        id: 1,
        probe: "stlink".to_string(),
        chip: "nrf52".to_string(),
        os: "linux".to_string(),
        protocol: "swd".to_string(),
        protocol_speed: 4000,
        commit_hash: "abc123".to_string(),
        timestamp: 0,
        kind: "ram".to_string(),
        read_speed: 120,
        write_speed: -1,
    };
    assert_eq!(
        log_comment_body(&log),
        "\n**Ran performance benchmarks**\nCommit: abc123\nProbe: stlink\nChip: nrf52\nKind: ram\nRead: 120\nWrite: -1\n    "
    );
}
