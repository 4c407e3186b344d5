use perfbot::commands::{command_for_message, perf_queries, perf_summary, BotCommand, PrCommits};
use perfbot::models::{BenchmarkImproves, Record, RecordKey, RecordRef, RunModel, Timestamp};
use perfbot::upload::{upload_step, MeasurementUpload, UploadAction, UploadError, UploadEvent};
use perfbot::webhook::{is_plannable, new_run, plan_webhook, WebhookPlan, WorkflowAction, WorkflowRunEvent};

fn event(action: WorkflowAction) -> WorkflowRunEvent {
    WorkflowRunEvent {
        action,
        path: Some(".github/workflows/bench.yml".to_string()),
        event: Some("pull_request".to_string()),
        run_id: Some(77),
        head_sha: Some("head".to_string()),
        base_sha: Some("base".to_string()),
        author: Some("octocat".to_string()),
        pr: Some(5),
    }
}

const PATH: &str = ".github/workflows/bench.yml";

#[test]
fn started_workflow_records_the_run() {
    match plan_webhook(Some(event(WorkflowAction::InProgress)), PATH) {
        WebhookPlan::RecordRun { run_id, commit, parent, author, pr } => {
            assert_eq!((run_id, commit.as_str(), parent.as_str(), author.as_str(), pr), (77, "head", "base", "octocat", 5));
        }
        other => panic!("unexpected plan {:?}", other),
    }
}

#[test]
fn completed_workflow_is_reported() {
    assert!(matches!(
        plan_webhook(Some(event(WorkflowAction::Completed)), PATH),
        WebhookPlan::Report { run_id: 77, pr: 5 }
    ));
}

#[test]
fn other_notifications_are_ignored() {
    assert!(matches!(plan_webhook(None, PATH), WebhookPlan::Ignore));
    assert!(matches!(plan_webhook(Some(event(WorkflowAction::Other)), PATH), WebhookPlan::Ignore));
    assert!(matches!(plan_webhook(Some(event(WorkflowAction::Completed)), "other.yml"), WebhookPlan::Ignore));
    let mut push = event(WorkflowAction::Completed);
    push.event = Some("push".to_string());
    assert!(matches!(plan_webhook(Some(push), PATH), WebhookPlan::Ignore));
    let mut no_path = event(WorkflowAction::InProgress);
    no_path.path = None;
    assert!(matches!(plan_webhook(Some(no_path), PATH), WebhookPlan::Ignore));
}

#[test]
fn missing_fields_are_detected() {
    let mut e = event(WorkflowAction::InProgress);
    e.author = None;
    assert!(!is_plannable(&Some(e), PATH));
    let mut e = event(WorkflowAction::Completed);
    e.author = None;
    assert!(is_plannable(&Some(e), PATH));
    let mut e = event(WorkflowAction::Completed);
    e.pr = None;
    assert!(!is_plannable(&Some(e), PATH));
    let mut e = event(WorkflowAction::Completed);
    e.pr = None;
    assert!(is_plannable(&Some(e), "elsewhere.yml"));
}

#[test]
fn new_run_follows_parent() {
    let parent = RunModel {
        id: RecordRef { table: "run".to_string(), key: RecordKey::Number(9) },
        datetime: Timestamp { secs: 1, nanos: 0 },
        author: "a".to_string(),
        pr: 1,
        commit: "base".to_string(),
        previous: None,
        measurements: vec![],
    };
    let now = Timestamp { secs: 100, nanos: 5 };
    let r = new_run("head".to_string(), "me".to_string(), 5, &Some(parent), now);
    assert_eq!(r.datetime, now);
    assert!(matches!(r.previous, Some(RecordRef { key: RecordKey::Number(9), .. })));
    assert!(r.measurements.is_empty());
    let r = new_run("head".to_string(), "me".to_string(), 5, &None, now);
    assert!(r.previous.is_none());
    assert_eq!(r.commit, "head");
}

fn upload() -> MeasurementUpload {
    MeasurementUpload {
        run: 77,
        name: "ram write".to_string(),
        description: "Writing RAM".to_string(),
        unit: "KiB/s".to_string(),
        improves: BenchmarkImproves::Up,
    }
}

fn record(table: &str, key: &str) -> Record {
    Record { id: RecordRef { table: table.to_string(), key: RecordKey::Text(key.to_string()) } }
}

#[test]
fn upload_steps() {
    let u = upload();
    match upload_step(&u, UploadEvent::Start) {
        UploadAction::StoreBenchmark { key, model } => {
            assert_eq!(key.table, "benchmark");
            assert!(matches!(key.key, RecordKey::Text(ref n) if n == "ram write"));
            assert!(model.measurements.is_empty());
            assert_eq!(model.unit, "KiB/s");
        }
        other => panic!("unexpected {:?}", other),
    }
    match upload_step(&u, UploadEvent::BenchmarkStored(record("benchmark", "ram write"))) {
        UploadAction::CreateMeasurement { run, benchmark } => {
            assert_eq!(run.table, "run");
            assert!(matches!(run.key, RecordKey::Number(77)));
            assert!(matches!(benchmark.key, RecordKey::Text(ref n) if n == "ram write"));
        }
        other => panic!("unexpected {:?}", other),
    }
    match upload_step(&u, UploadEvent::MeasurementCreated(Some(record("measurement", "m1")))) {
        UploadAction::AddToRun { run_id, measurement } => {
            assert_eq!(run_id, 77);
            assert!(matches!(measurement.key, RecordKey::Text(ref n) if n == "m1"));
        }
        other => panic!("unexpected {:?}", other),
    }
    assert!(matches!(upload_step(&u, UploadEvent::RunUpdated(record("measurement", "m1"))), UploadAction::Finish(_)));
}

#[test]
fn upload_without_created_measurement_fails() {
    match upload_step(&upload(), UploadEvent::MeasurementCreated(None)) {
        UploadAction::Fail(e) => {
            assert_eq!(e, UploadError::NothingCreated);
            assert_eq!(e.message(), "No benchmark was created");
        }
        other => panic!("unexpected {:?}", other),
    }
}

#[test]
fn chat_commands() {
    assert_eq!(command_for_message(true, &Some("!help me".to_string())), Some(BotCommand::Help));
    assert_eq!(command_for_message(true, &Some("!perf".to_string())), Some(BotCommand::Perf));
    assert_eq!(command_for_message(true, &Some("hello !perf".to_string())), None);
    assert_eq!(command_for_message(true, &None), None);
    assert_eq!(command_for_message(false, &Some("!help".to_string())), None);
}

#[test]
fn perf_summary_uses_latest_commits() {
    let prs = vec![
        PrCommits { number: 3, commits: vec!["a1".to_string(), "a2".to_string()] },
        PrCommits { number: 8, commits: vec!["b1".to_string()] },
    ];
    assert_eq!(perf_queries(&prs), vec!["'a2'".to_string(), "'b1'".to_string()]);
    let t = perf_summary(&prs, &vec![4, 0]);
    assert_eq!(t.prs.iter().map(|p| (p.number, p.benchmarks)).collect::<Vec<_>>(), vec![(3, 4), (8, 0)]);
}
