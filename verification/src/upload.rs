//! Storing a submitted measurement: the benchmark it belongs to is created
//! or refreshed, the measurement is created, and the run gains it.
//!
//! Each step below decides the next piece of database work from the answer
//! to the previous one.

use vstd::prelude::*;
use crate::models::{BenchmarkImproves, CreateBenchmarkModel, Record, RecordKey, RecordKeyView, RecordRef, RecordRefView};

verus! {

/// The parts of a submitted measurement that decide where it is stored.
/// The measured value itself travels beside it.
#[derive(Debug)]
pub struct MeasurementUpload {
    pub run: i64,
    pub name: String,
    pub description: String,
    pub unit: String,
    pub improves: BenchmarkImproves,
}

/// An answer from the database to the previous step.
#[derive(Debug)]
pub enum UploadEvent {
    /// Nothing has been done yet.
    Start,
    /// The benchmark record was created or refreshed.
    BenchmarkStored(Record),
    /// Creating the measurement gave back this record, or none.
    MeasurementCreated(Option<Record>),
    /// The run now lists the measurement `measurement`.
    RunUpdated(Record),
}

/// Why storing a measurement failed.
#[derive(Clone, Copy, PartialEq, Eq, Structural, Debug)]
pub enum UploadError {
    /// Creating the measurement gave back no record.
    NothingCreated,
}

impl UploadError {
    /// The text the error is answered with.
    pub fn message(&self) -> (r: &'static str)
        ensures
            r@ == "No benchmark was created"@,
    {
        match self {
            UploadError::NothingCreated => "No benchmark was created",
        }
    }
}

/// The next piece of work.
#[derive(Debug)]
pub enum UploadAction {
    /// Create or refresh the benchmark record `key` with `model`.
    StoreBenchmark { key: RecordRef, model: CreateBenchmarkModel },
    /// Create a measurement of run `run` for benchmark `benchmark`.
    CreateMeasurement { run: RecordRef, benchmark: RecordRef },
    /// Add `measurement` to the measurements of run `run_id`.
    AddToRun { run_id: i64, measurement: RecordRef },
    /// Answer with the created measurement.
    Finish(Record),
    /// Answer with an error.
    Fail(UploadError),
}

/// The benchmark record a measurement belongs to is named after the benchmark.
pub open spec fn benchmark_key(u: MeasurementUpload) -> RecordRefView {
    RecordRefView { table: "benchmark"@, key: RecordKeyView::Text(u.name@) }
}

/// The run record a measurement belongs to.
pub open spec fn run_key(u: MeasurementUpload) -> RecordRefView {
    RecordRefView { table: "run"@, key: RecordKeyView::Number(u.run as int) }
}

/// The next piece of work after `event`.
pub open spec fn next_action(u: MeasurementUpload, event: UploadEvent, action: UploadAction) -> bool {
    match event {
        UploadEvent::Start => match action {
            UploadAction::StoreBenchmark { key, model } => {
                &&& key@ == benchmark_key(u)
                &&& model.measurements@.len() == 0
                &&& model.name@ == u.name@
                &&& model.description@ == u.description@
                &&& model.unit@ == u.unit@
                &&& model.improves == u.improves
            },
            _ => false,
        },
        UploadEvent::BenchmarkStored(b) => match action {
            UploadAction::CreateMeasurement { run, benchmark } => run@ == run_key(u) && benchmark@ == b.id@,
            _ => false,
        },
        UploadEvent::MeasurementCreated(None) => action == UploadAction::Fail(UploadError::NothingCreated),
        UploadEvent::MeasurementCreated(Some(m)) => match action {
            UploadAction::AddToRun { run_id, measurement } => run_id == u.run && measurement@ == m.id@,
            _ => false,
        },
        UploadEvent::RunUpdated(m) => action == UploadAction::Finish(m),
    }
}

/// Decides the next piece of work for storing `u` after `event`.
pub fn upload_step(u: &MeasurementUpload, event: UploadEvent) -> (action: UploadAction)
    ensures
        next_action(*u, event, action),
{
    match event {
        UploadEvent::Start => UploadAction::StoreBenchmark {
            key: RecordRef { table: String::from_str("benchmark"), key: RecordKey::Text(u.name.clone()) },
            model: CreateBenchmarkModel {
                measurements: Vec::new(),
                name: u.name.clone(),
                description: u.description.clone(),
                unit: u.unit.clone(),
                improves: u.improves,
            },
        },
        UploadEvent::BenchmarkStored(b) => UploadAction::CreateMeasurement {
            run: RecordRef::numbered("run", u.run),
            benchmark: b.id,
        },
        UploadEvent::MeasurementCreated(None) => UploadAction::Fail(UploadError::NothingCreated),
        UploadEvent::MeasurementCreated(Some(m)) => UploadAction::AddToRun { run_id: u.run, measurement: m.id },
        UploadEvent::RunUpdated(m) => UploadAction::Finish(m),
    }
}

/// At the start, the benchmark stored for a submission carries the
/// submission's own name, description, unit and direction of improvement,
/// and starts without measurements.
pub proof fn law_stored_benchmark_is_the_submitted_one(u: MeasurementUpload, action: UploadAction)
    requires
        next_action(u, UploadEvent::Start, action),
    ensures
        action is StoreBenchmark,
        action matches UploadAction::StoreBenchmark { key, model } ==> ({
            &&& model.improves == u.improves
            &&& model.name@ == u.name@
            &&& model.description@ == u.description@
            &&& model.unit@ == u.unit@
            &&& model.measurements@.len() == 0
            &&& key.table@ == "benchmark"@
            &&& key.key@ == RecordKeyView::Text(u.name@)
        }),
{
}

/// After the benchmark is stored, the measurement is created for the run
/// numbered as submitted and for that very benchmark; a created measurement
/// is added to that run; no created measurement is an error; once the run
/// lists it, the answer is the created measurement.
pub proof fn law_later_steps_follow_the_answers(u: MeasurementUpload, event: UploadEvent, action: UploadAction)
    requires
        next_action(u, event, action),
    ensures
        event matches UploadEvent::BenchmarkStored(b) ==> (action matches UploadAction::CreateMeasurement { run, benchmark }
            && run.table@ == "run"@ && run.key@ == RecordKeyView::Number(u.run as int) && benchmark@ == b.id@),
        event matches UploadEvent::MeasurementCreated(Some(m)) ==> (action matches UploadAction::AddToRun { run_id, measurement }
            && run_id == u.run && measurement@ == m.id@),
        event matches UploadEvent::MeasurementCreated(None) ==> (action matches UploadAction::Fail(e) && e == UploadError::NothingCreated),
        event matches UploadEvent::RunUpdated(m) ==> (action matches UploadAction::Finish(r) && r == m),
{
}

/// Submissions of the same benchmark name are stored under the same
/// benchmark record, whatever their other fields.
pub proof fn lemma_same_name_same_benchmark(u1: MeasurementUpload, u2: MeasurementUpload)
    requires
        u1.name@ == u2.name@,
    ensures
        benchmark_key(u1) == benchmark_key(u2),
{
}

} // verus!
