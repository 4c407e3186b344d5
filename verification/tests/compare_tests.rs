use perfbot::compare::{find_previous, improved, match_previous, outcome_class, row_background, status_text, MeasurementKey};
use perfbot::models::{BenchmarkImproves, RecordKey, RecordRef};

fn key(probe: &str, chip: &str, speed: usize, bench: &str) -> MeasurementKey {
    MeasurementKey {
        probe: probe.to_string(),
        chip: chip.to_string(),
        speed_khz: speed,
        benchmark: RecordRef { table: "benchmark".to_string(), key: RecordKey::Text(bench.to_string()) },
    }
}

#[test]
fn improvement_follows_direction() {
    assert!(improved(true, false, BenchmarkImproves::Up));
    assert!(!improved(true, false, BenchmarkImproves::Down));
    assert!(!improved(false, false, BenchmarkImproves::Up));
    assert!(improved(false, false, BenchmarkImproves::Down));
}

#[test]
fn no_change_counts_as_improved() {
    assert!(improved(true, true, BenchmarkImproves::Up));
    assert!(improved(true, true, BenchmarkImproves::Down));
}

#[test]
fn not_a_number_difference() {
    let diff = f64::NAN;
    assert!(!improved(diff >= 0.0, diff == 0.0, BenchmarkImproves::Up));
    assert!(improved(diff >= 0.0, diff == 0.0, BenchmarkImproves::Down));
}

#[test]
fn outcome_texts() {
    assert_eq!(status_text(true), "IMPROVED");
    assert_eq!(status_text(false), "DECLINED");
    assert_eq!(outcome_class(true), "text-green-500");
    assert_eq!(outcome_class(false), "text-red-500");
    assert_eq!(row_background(false), "bg-gray-300");
    assert_eq!(row_background(true), "");
}

#[test]
fn finds_first_comparable_measurement() {
    let previous = vec![
        key("stlink", "nrf52", 1000, "ram"),
        key("jlink", "nrf52", 4000, "ram"),
        key("jlink", "nrf52", 4000, "ram"),
    ];
    assert_eq!(find_previous(&previous, &key("jlink", "nrf52", 4000, "ram")), Some(1));
    assert_eq!(find_previous(&previous, &key("jlink", "nrf52", 1000, "ram")), None);
    assert_eq!(find_previous(&previous, &key("jlink", "nrf52", 4000, "flash")), None);
    assert_eq!(find_previous(&previous, &key("jlink", "rp2040", 4000, "ram")), None);
}

#[test]
fn benchmark_reference_must_agree_in_table_and_key() {
    let mut other = key("jlink", "nrf52", 4000, "ram");
    other.benchmark.table = "run".to_string();
    let previous = vec![other];
    assert_eq!(find_previous(&previous, &key("jlink", "nrf52", 4000, "ram")), None);
}

#[test]
fn pairs_each_measurement_of_a_run() {
    let current = vec![key("a", "c", 1, "x"), key("b", "c", 1, "x")];
    let previous = vec![key("b", "c", 1, "x")];
    assert_eq!(match_previous(&current, &Some(previous)), vec![None, Some(0)]);
    assert_eq!(match_previous(&current, &None), vec![None, None]);
    assert_eq!(match_previous(&Vec::new(), &None), Vec::<Option<usize>>::new());
}
