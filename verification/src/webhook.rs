//! What the bot does when GitHub reports on a workflow run.
//!
//! The handler alternates between these decisions and outside work (looking
//! up and storing runs, loading measurements, posting a comment): each
//! decision takes what the previous piece of work gave back.

use vstd::prelude::*;
use crate::models::{CreateRunModel, RecordRef, RunModel, Timestamp};

verus! {

/// The stage a workflow run has reached.
#[derive(Clone, Copy, PartialEq, Eq, Structural, Debug)]
pub enum WorkflowAction {
    InProgress,
    Completed,
    Other,
}

/// The parts of a workflow-run notification that the bot reads. A field is
/// `None` where the notification does not hold it with the expected type.
#[derive(Debug)]
pub struct WorkflowRunEvent {
    pub action: WorkflowAction,
    /// The path of the workflow's definition file.
    pub path: Option<String>,
    /// The kind of event that started the workflow.
    pub event: Option<String>,
    /// The workflow run's number.
    pub run_id: Option<i64>,
    /// The head commit of the first pull request of the run.
    pub head_sha: Option<String>,
    /// The base commit of the first pull request of the run.
    pub base_sha: Option<String>,
    /// The login of the user who started the run.
    pub author: Option<String>,
    /// The number of the first pull request of the run.
    pub pr: Option<i64>,
}

/// What to do about a notification.
#[derive(Debug)]
pub enum WebhookPlan {
    /// Nothing.
    Ignore,
    /// Record the run: look up the run of commit `parent`, then store the run.
    RecordRun { run_id: i64, commit: String, parent: String, author: String, pr: i64 },
    /// Report the run's results on pull request `pr`.
    Report { run_id: i64, pr: i64 },
}

/// The notification is about the benchmark workflow, started by a pull request.
pub open spec fn concerns_benchmarks(e: WorkflowRunEvent, workflow_path: Seq<char>) -> bool {
    &&& e.path is Some && e.path->0@ == workflow_path
    &&& e.event is Some && e.event->0@ == "pull_request"@
}

/// The notification holds what recording a run reads.
pub open spec fn has_run_details(e: WorkflowRunEvent) -> bool {
    &&& e.head_sha is Some
    &&& e.base_sha is Some
    &&& e.run_id is Some
    &&& e.author is Some
    &&& e.pr is Some
}

/// The notification holds what reporting a run reads.
pub open spec fn has_report_details(e: WorkflowRunEvent) -> bool {
    e.run_id is Some && e.pr is Some
}

/// The notifications a plan can be made for: every field that the chosen
/// branch reads is present.
pub open spec fn plannable(event: Option<WorkflowRunEvent>, workflow_path: Seq<char>) -> bool {
    match event {
        Some(e) => concerns_benchmarks(e, workflow_path) ==> match e.action {
            WorkflowAction::InProgress => has_run_details(e),
            WorkflowAction::Completed => has_report_details(e),
            WorkflowAction::Other => true,
        },
        None => true,
    }
}

/// The plan for a notification.
pub open spec fn plan_spec(event: Option<WorkflowRunEvent>, workflow_path: Seq<char>, plan: WebhookPlan) -> bool {
    match event {
        Some(e) => if concerns_benchmarks(e, workflow_path) {
            match e.action {
                WorkflowAction::InProgress => match plan {
                    WebhookPlan::RecordRun { run_id, commit, parent, author, pr } => {
                        &&& run_id == e.run_id->0
                        &&& commit@ == e.head_sha->0@
                        &&& parent@ == e.base_sha->0@
                        &&& author@ == e.author->0@
                        &&& pr == e.pr->0
                    },
                    _ => false,
                },
                WorkflowAction::Completed => plan == (WebhookPlan::Report { run_id: e.run_id->0, pr: e.pr->0 }),
                WorkflowAction::Other => plan is Ignore,
            }
        } else {
            plan is Ignore
        },
        None => plan is Ignore,
    }
}

fn same_text(a: &Option<String>, b: &str) -> (r: bool)
    ensures
        r == (a is Some && a->0@ == b@),
{
    match a {
        Some(s) => {
            let t = String::from_str(b);
            *s == t
        },
        None => false,
    }
}

/// Whether a plan can be made for the notification (see [`plan_webhook`]).
pub fn is_plannable(event: &Option<WorkflowRunEvent>, workflow_path: &str) -> (r: bool)
    ensures
        r == plannable(*event, workflow_path@),
{
    match event {
        None => true,
        Some(e) => {
            if !(same_text(&e.path, workflow_path) && same_text(&e.event, "pull_request")) {
                return true;
            }
            match e.action {
                WorkflowAction::InProgress => e.head_sha.is_some() && e.base_sha.is_some()
                    && e.run_id.is_some() && e.author.is_some() && e.pr.is_some(),
                WorkflowAction::Completed => e.run_id.is_some() && e.pr.is_some(),
                WorkflowAction::Other => true,
            }
        },
    }
}

/// Decides what to do about a notification; `None` stands for a
/// notification about something other than a workflow run, `workflow_path`
/// is the path of the benchmark workflow.
pub fn plan_webhook(event: Option<WorkflowRunEvent>, workflow_path: &str) -> (plan: WebhookPlan)
    requires
        plannable(event, workflow_path@),
    ensures
        plan_spec(event, workflow_path@, plan),
{
    match event {
        None => WebhookPlan::Ignore,
        Some(e) => {
            if !(same_text(&e.path, workflow_path) && same_text(&e.event, "pull_request")) {
                return WebhookPlan::Ignore;
            }
            match e.action {
                WorkflowAction::InProgress => {
                    let WorkflowRunEvent { action, path, event, run_id, head_sha, base_sha, author, pr } = e;
                    match (run_id, head_sha, base_sha, author, pr) {
                        (Some(run_id), Some(commit), Some(parent), Some(author), Some(pr)) => {
                            WebhookPlan::RecordRun { run_id, commit, parent, author, pr }
                        },
                        _ => WebhookPlan::Ignore,
                    }
                },
                WorkflowAction::Completed => {
                    match (e.run_id, e.pr) {
                        (Some(run_id), Some(pr)) => WebhookPlan::Report { run_id, pr },
                        _ => WebhookPlan::Ignore,
                    }
                },
                WorkflowAction::Other => WebhookPlan::Ignore,
            }
        },
    }
}

/// A started benchmark workflow of a pull request records the run under the
/// workflow run's number, with the pull request's head commit as its commit,
/// its base commit as the parent to look up, the user who started it as
/// author, and the pull request's number; a completed one is reported on
/// that pull request under the run's number.
pub proof fn law_plan_uses_the_notified_values(e: WorkflowRunEvent, workflow_path: Seq<char>, plan: WebhookPlan)
    requires
        e.path is Some,
        e.path->0@ == workflow_path,
        e.event is Some,
        e.event->0@ == "pull_request"@,
        plannable(Some(e), workflow_path),
        plan_spec(Some(e), workflow_path, plan),
    ensures
        e.action == WorkflowAction::InProgress ==> (plan matches WebhookPlan::RecordRun { run_id, commit, parent, author, pr } && {
            &&& Some(run_id) == e.run_id
            &&& (e.head_sha matches Some(h) && commit@ == h@)
            &&& (e.base_sha matches Some(b) && parent@ == b@)
            &&& (e.author matches Some(a) && author@ == a@)
            &&& Some(pr) == e.pr
        }),
        e.action == WorkflowAction::Completed ==> (plan matches WebhookPlan::Report { run_id, pr } && Some(run_id)
            == e.run_id && Some(pr) == e.pr),
        e.action == WorkflowAction::Other ==> plan is Ignore,
{
}

/// The plan for a notification that passes every check except the
/// workflow's path is to do nothing.
pub proof fn lemma_other_workflows_ignored(e: WorkflowRunEvent, workflow_path: Seq<char>, plan: WebhookPlan)
    requires
        !(e.path is Some && e.path->0@ == workflow_path),
        plan_spec(Some(e), workflow_path, plan),
    ensures
        plan is Ignore,
{
}

/// Runs not started by a pull request are never recorded nor reported.
pub proof fn lemma_only_pull_requests(e: WorkflowRunEvent, workflow_path: Seq<char>, plan: WebhookPlan)
    requires
        !(e.event is Some && e.event->0@ == "pull_request"@),
        plan_spec(Some(e), workflow_path, plan),
    ensures
        plan is Ignore,
{
}

/// The run record stored when a pull request's workflow starts: it follows
/// the run of the base commit where there is one, and has no measurements yet.
pub fn new_run(commit: String, author: String, pr: i64, parent_run: &Option<RunModel>, now: Timestamp) -> (r: CreateRunModel)
    ensures
        r.datetime == now,
        r.author@ == author@,
        r.pr == pr,
        r.commit@ == commit@,
        match parent_run {
            Some(p) => r.previous is Some && r.previous->0@ == p.id@,
            None => r.previous is None,
        },
        r.measurements@.len() == 0,
{
    let previous: Option<RecordRef> = match parent_run {
        Some(p) => Some(p.id.duplicate()),
        None => None,
    };
    CreateRunModel { datetime: now, author, pr, commit, previous, measurements: Vec::new() }
}

} // verus!
