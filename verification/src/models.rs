//! The records that the bot keeps: runs, benchmarks and the references
//! between them, held as plain values.

use vstd::prelude::*;

verus! {

/// Which direction of a benchmark's value counts as an improvement.
#[derive(Clone, Copy, PartialEq, Eq, Structural, Debug)]
pub enum BenchmarkImproves {
    Up,
    Down,
}

/// The key part of a database record reference.
///
/// Numbers and strings are the keys this application creates; any other kind
/// of key is carried by its textual rendering.
#[derive(Debug)]
pub enum RecordKey {
    Number(i64),
    Text(String),
    Other(String),
}

/// The mathematical value of a [`RecordKey`].
pub enum RecordKeyView {
    Number(int),
    Text(Seq<char>),
    Other(Seq<char>),
}

impl View for RecordKey {
    type V = RecordKeyView;

    open spec fn view(&self) -> RecordKeyView {
        match self {
            RecordKey::Number(n) => RecordKeyView::Number(*n as int),
            RecordKey::Text(s) => RecordKeyView::Text(s@),
            RecordKey::Other(s) => RecordKeyView::Other(s@),
        }
    }
}

impl RecordKey {
    /// A copy of the key.
    pub fn duplicate(&self) -> (r: RecordKey)
        ensures
            r@ == self@,
    {
        match self {
            RecordKey::Number(n) => RecordKey::Number(*n),
            RecordKey::Text(s) => RecordKey::Text(s.clone()),
            RecordKey::Other(s) => RecordKey::Other(s.clone()),
        }
    }

    /// Whether two keys are equal.
    pub fn same_as(&self, other: &RecordKey) -> (r: bool)
        ensures
            r == (self@ == other@),
    {
        match (self, other) {
            (RecordKey::Number(a), RecordKey::Number(b)) => *a == *b,
            (RecordKey::Text(a), RecordKey::Text(b)) => *a == *b,
            (RecordKey::Other(a), RecordKey::Other(b)) => *a == *b,
            _ => false,
        }
    }
}

/// A reference to a database record: its table and its key.
#[derive(Debug)]
pub struct RecordRef {
    pub table: String,
    pub key: RecordKey,
}

/// The mathematical value of a [`RecordRef`].
pub struct RecordRefView {
    pub table: Seq<char>,
    pub key: RecordKeyView,
}

impl View for RecordRef {
    type V = RecordRefView;

    open spec fn view(&self) -> RecordRefView {
        RecordRefView { table: self.table@, key: self.key@ }
    }
}

impl RecordRef {
    /// The reference to the record with the given table and numeric key
    /// (`RecordId::from_table_key(table, key)`).
    pub fn numbered(table: &str, key: i64) -> (r: RecordRef)
        ensures
            r@ == (RecordRefView { table: table@, key: RecordKeyView::Number(key as int) }),
    {
        RecordRef { table: table.to_owned(), key: RecordKey::Number(key) }
    }

    /// A copy of the reference.
    pub fn duplicate(&self) -> (r: RecordRef)
        ensures
            r@ == self@,
    {
        RecordRef { table: self.table.clone(), key: self.key.duplicate() }
    }

    /// Whether two references point at the same record.
    pub fn same_as(&self, other: &RecordRef) -> (r: bool)
        ensures
            r == (self@ == other@),
    {
        self.table == other.table && self.key.same_as(&other.key)
    }
}

/// A point in time: whole seconds since the Unix epoch and the nanoseconds
/// past that second.
#[derive(Clone, Copy, PartialEq, Eq, Structural, Debug)]
pub struct Timestamp {
    pub secs: i64,
    pub nanos: u32,
}

/// A stored record of which only the reference is read.
#[derive(Debug)]
pub struct Record {
    pub id: RecordRef,
}

/// A benchmark run of one workflow execution, as stored.
#[derive(Debug)]
pub struct RunModel {
    pub id: RecordRef,
    pub datetime: Timestamp,
    pub author: String,
    pub pr: i64,
    pub commit: String,
    pub previous: Option<RecordRef>,
    pub measurements: Vec<RecordRef>,
}

/// The content of a run record to be written.
#[derive(Debug)]
pub struct CreateRunModel {
    pub datetime: Timestamp,
    pub author: String,
    pub pr: i64,
    pub commit: String,
    pub previous: Option<RecordRef>,
    pub measurements: Vec<RecordRef>,
}

/// The content of a benchmark record to be written.
#[derive(Debug)]
pub struct CreateBenchmarkModel {
    pub measurements: Vec<RecordRef>,
    pub name: String,
    pub description: String,
    pub unit: String,
    pub improves: BenchmarkImproves,
}

} // verus!
