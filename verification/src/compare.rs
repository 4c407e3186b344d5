//! Comparing a run's measurements with those of the run before it.
//!
//! The measured values are floating-point numbers and stay with the caller;
//! this module decides which earlier measurement a new one is compared
//! against, and what the sign of the change means for a benchmark.

use vstd::prelude::*;
use crate::models::{BenchmarkImproves, RecordRef, RecordRefView};

verus! {

/// Whether a change counts as an improvement, given how the difference
/// (old value minus new value) compares with zero and which direction the
/// benchmark improves in. A difference of zero always counts as improved.
pub open spec fn improved_spec(diff_at_least_zero: bool, diff_is_zero: bool, improves: BenchmarkImproves) -> bool {
    (diff_at_least_zero == (improves == BenchmarkImproves::Up)) || diff_is_zero
}

/// Decides whether a benchmark improved.
///
/// `diff_at_least_zero` and `diff_is_zero` are the outcomes of `diff >= 0.0`
/// and `diff == 0.0` on the difference; a difference that is not a number
/// gives `false` for both.
pub fn improved(diff_at_least_zero: bool, diff_is_zero: bool, improves: BenchmarkImproves) -> (r: bool)
    ensures
        r == improved_spec(diff_at_least_zero, diff_is_zero, improves),
{
    let up = match improves {
        BenchmarkImproves::Up => true,
        BenchmarkImproves::Down => false,
    };
    (diff_at_least_zero == up) || diff_is_zero
}

/// A benchmark that improves upwards improved exactly when the difference
/// is at least zero; one that improves downwards exactly when the difference
/// is not at least zero or is zero.
pub proof fn law_improvement_by_direction(diff_at_least_zero: bool, diff_is_zero: bool)
    ensures
        improved_spec(diff_at_least_zero, diff_is_zero, BenchmarkImproves::Up) == (diff_at_least_zero || diff_is_zero),
        improved_spec(diff_at_least_zero, diff_is_zero, BenchmarkImproves::Down) == (!diff_at_least_zero || diff_is_zero),
{
}

/// A difference of zero is an improvement whichever way the benchmark improves.
pub proof fn lemma_no_change_is_improvement(diff_at_least_zero: bool, improves: BenchmarkImproves)
    ensures
        improved_spec(diff_at_least_zero, true, improves),
{
}

/// For a non-zero difference, the two directions of improvement give
/// opposite outcomes.
pub proof fn lemma_directions_disagree(diff_at_least_zero: bool)
    ensures
        improved_spec(diff_at_least_zero, false, BenchmarkImproves::Up)
            != improved_spec(diff_at_least_zero, false, BenchmarkImproves::Down),
{
}

/// The outcome word shown for a benchmark.
pub fn status_text(improved: bool) -> (r: &'static str)
    ensures
        r@ == (if improved { "IMPROVED"@ } else { "DECLINED"@ }),
{
    if improved {
        "IMPROVED"
    } else {
        "DECLINED"
    }
}

/// The text colour class of a benchmark's outcome.
pub fn outcome_class(improved: bool) -> (r: &'static str)
    ensures
        r@ == (if improved { "text-green-500"@ } else { "text-red-500"@ }),
{
    if improved {
        "text-green-500"
    } else {
        "text-red-500"
    }
}

/// The background class of a row in the benchmark table.
pub fn row_background(odd: bool) -> (r: &'static str)
    ensures
        r@ == (if !odd { "bg-gray-300"@ } else { ""@ }),
{
    if !odd {
        "bg-gray-300"
    } else {
        ""
    }
}

/// What identifies a measurement across runs: the probe and chip it ran
/// on, the probe speed, and the benchmark it measures.
#[derive(Debug)]
pub struct MeasurementKey {
    pub probe: String,
    pub chip: String,
    pub speed_khz: usize,
    pub benchmark: RecordRef,
}

/// The mathematical value of a [`MeasurementKey`].
pub struct MeasurementKeyView {
    pub probe: Seq<char>,
    pub chip: Seq<char>,
    pub speed_khz: nat,
    pub benchmark: RecordRefView,
}

impl View for MeasurementKey {
    type V = MeasurementKeyView;

    open spec fn view(&self) -> MeasurementKeyView {
        MeasurementKeyView {
            probe: self.probe@,
            chip: self.chip@,
            speed_khz: self.speed_khz as nat,
            benchmark: self.benchmark@,
        }
    }
}

/// Two measurements are comparable when chip, probe, speed and benchmark
/// all agree.
pub open spec fn comparable(old: MeasurementKeyView, new: MeasurementKeyView) -> bool {
    &&& old.chip == new.chip
    &&& old.probe == new.probe
    &&& old.speed_khz == new.speed_khz
    &&& old.benchmark == new.benchmark
}

/// `previous[j]` is the first measurement of `previous` comparable with `new`.
pub open spec fn is_first_comparable(previous: Seq<MeasurementKey>, new: MeasurementKeyView, j: int) -> bool {
    &&& 0 <= j < previous.len()
    &&& comparable(previous[j]@, new)
    &&& forall|k: int| 0 <= k < j ==> !comparable(#[trigger] previous[k]@, new)
}

/// No measurement of `previous` is comparable with `new`.
pub open spec fn none_comparable(previous: Seq<MeasurementKey>, new: MeasurementKeyView) -> bool {
    forall|k: int| 0 <= k < previous.len() ==> !comparable(#[trigger] previous[k]@, new)
}

/// `found` is what a search of `previous` for `new` must give back: the
/// position of the first comparable measurement, or nothing if there is none.
pub open spec fn first_comparable(previous: Seq<MeasurementKey>, new: MeasurementKeyView, found: Option<usize>) -> bool {
    match found {
        Some(j) => is_first_comparable(previous, new, j as int),
        None => none_comparable(previous, new),
    }
}

/// The measurement a new one is compared against agrees with it in probe,
/// chip, speed and benchmark, and it is the earliest such measurement; when
/// none is found, no measurement of the previous run agrees in all four.
pub proof fn law_pairing_is_exact(previous: Seq<MeasurementKey>, new: MeasurementKeyView, found: Option<usize>)
    requires
        first_comparable(previous, new, found),
    ensures
        found matches Some(j) ==> {
            &&& j < previous.len()
            &&& previous[j as int]@.probe == new.probe
            &&& previous[j as int]@.chip == new.chip
            &&& previous[j as int]@.speed_khz == new.speed_khz
            &&& previous[j as int]@.benchmark == new.benchmark
        },
        forall|k: int|
            0 <= k < previous.len() && (#[trigger] previous[k]@).probe == new.probe
                && previous[k]@.chip == new.chip && previous[k]@.speed_khz == new.speed_khz
                && previous[k]@.benchmark == new.benchmark ==> (found matches Some(j) && j <= k),
{
    assert forall|k: int|
        0 <= k < previous.len() && (#[trigger] previous[k]@).probe == new.probe
            && previous[k]@.chip == new.chip && previous[k]@.speed_khz == new.speed_khz
            && previous[k]@.benchmark == new.benchmark implies (found matches Some(j) && j <= k) by {
        assert(comparable(previous[k]@, new));
        match found {
            Some(j) => {
                if k < j {
                    assert(!comparable(previous[k]@, new));
                }
            },
            None => {
                assert(!comparable(previous[k]@, new));
            },
        }
    }
}

/// Whether two measurement keys are comparable.
pub fn is_comparable(old: &MeasurementKey, new: &MeasurementKey) -> (r: bool)
    ensures
        r == comparable(old@, new@),
{
    old.chip == new.chip && old.probe == new.probe && old.speed_khz == new.speed_khz
        && old.benchmark.same_as(&new.benchmark)
}

/// The position of the first measurement in `previous` that `new` is
/// compared against, if any.
pub fn find_previous(previous: &Vec<MeasurementKey>, new: &MeasurementKey) -> (r: Option<usize>)
    ensures
        first_comparable(previous@, new@, r),
{
    let mut j: usize = 0;
    while j < previous.len()
        invariant
            j <= previous.len(),
            forall|k: int| 0 <= k < j ==> !comparable(#[trigger] previous@[k]@, new@),
        decreases previous.len() - j,
    {
        if is_comparable(&previous[j], new) {
            return Some(j);
        }
        j = j + 1;
    }
    None
}

/// For each measurement of the current run, the position of the measurement
/// of the previous run it is compared against; nothing where the run has no
/// previous run or no comparable measurement.
pub fn match_previous(current: &Vec<MeasurementKey>, previous: &Option<Vec<MeasurementKey>>) -> (r: Vec<Option<usize>>)
    ensures
        r.len() == current.len(),
        forall|i: int| 0 <= i < current.len() ==> match previous {
            Some(p) => first_comparable(p@, current@[i]@, #[trigger] r@[i]),
            None => r@[i] is None,
        },
{
    let mut r: Vec<Option<usize>> = Vec::new();
    let mut i: usize = 0;
    while i < current.len()
        invariant
            i <= current.len(),
            r.len() == i,
            forall|k: int| 0 <= k < i ==> match previous {
                Some(p) => first_comparable(p@, current@[k]@, #[trigger] r@[k]),
                None => r@[k] is None,
            },
        decreases current.len() - i,
    {
        let found = match previous {
            Some(p) => find_previous(p, &current[i]),
            None => None,
        };
        r.push(found);
        i = i + 1;
    }
    r
}

} // verus!
