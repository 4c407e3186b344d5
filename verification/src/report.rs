//! The text of the comments the bot posts on pull requests.

use itertools::Itertools;
use vstd::prelude::*;
use crate::text::{format_i64, has_substring, int_text, occurs_at};

verus! {

/// `parts` with `sep` between each two of them.
pub open spec fn joined(parts: Seq<Seq<char>>, sep: Seq<char>) -> Seq<char>
    decreases parts.len(),
{
    if parts.len() == 0 {
        Seq::empty()
    } else if parts.len() == 1 {
        parts[0]
    } else {
        joined(parts.drop_last(), sep) + sep + parts.last()
    }
}

/// The views of a list of strings.
pub open spec fn views(parts: Seq<String>) -> Seq<Seq<char>> {
    parts.map_values(|s: String| s@)
}

/// Joins strings with a separator, through `Itertools::join`.
///
/// Trusted: `Itertools::join` writes the first item, then the separator and
/// the next item for each further item; a `String` item is written as its
/// characters, so the result is `joined` of the items' views.
#[verifier::external_body]
fn join_strings(parts: &Vec<String>, sep: &str) -> (r: String)
    ensures
        r@ == joined(views(parts@), sep@),
{
    parts.iter().join(sep)
}

/// One benchmark's line in the results table. The numbers arrive already
/// rendered as text.
#[derive(Debug)]
pub struct ResultRow {
    pub name: String,
    pub abs: String,
    pub diff: String,
    pub unit: String,
    pub percent_change: String,
    pub improved: bool,
}

/// The text of a results table line.
pub open spec fn row_text(row: ResultRow) -> Seq<char> {
    "| "@ + row.name@ + "  | "@ + row.abs@ + row.unit@ + " ("@ + row.diff@ + row.unit@ + ")  | "@
        + row.percent_change@ + " | "@ + (if row.improved { "IMPROVED"@ } else { "DECLINED"@ })
        + " |"@
}

/// The last column of a results line reads `IMPROVED` for an improved
/// benchmark and `DECLINED` otherwise.
pub proof fn law_row_outcome(row: ResultRow)
    ensures
        row.improved ==> row_text(row).subrange(row_text(row).len() - 10, row_text(row).len() as int)
            == "IMPROVED |"@,
        !row.improved ==> row_text(row).subrange(row_text(row).len() - 10, row_text(row).len() as int)
            == "DECLINED |"@,
{
    reveal_strlit("IMPROVED");
    reveal_strlit("DECLINED");
    reveal_strlit(" |");
    reveal_strlit("IMPROVED |");
    reveal_strlit("DECLINED |");
    let t = row_text(row);
    let head = "| "@ + row.name@ + "  | "@ + row.abs@ + row.unit@ + " ("@ + row.diff@ + row.unit@ + ")  | "@
        + row.percent_change@ + " | "@;
    let word = if row.improved { "IMPROVED"@ } else { "DECLINED"@ };
    assert(t == head + word + " |"@);
    assert(t.subrange(t.len() - 10, t.len() as int) =~= word + " |"@);
    if row.improved {
        assert(word + " |"@ =~= "IMPROVED |"@);
    } else {
        assert(word + " |"@ =~= "DECLINED |"@);
    }
}

/// Renders a results table line.
pub fn result_row_text(row: &ResultRow) -> (r: String)
    ensures
        r@ == row_text(*row),
{
    let mut s = String::from_str("| ");
    s.append(row.name.as_str());
    s.append("  | ");
    s.append(row.abs.as_str());
    s.append(row.unit.as_str());
    s.append(" (");
    s.append(row.diff.as_str());
    s.append(row.unit.as_str());
    s.append(")  | ");
    s.append(row.percent_change.as_str());
    s.append(" | ");
    s.append(crate::compare::status_text(row.improved));
    s.append(" |");
    s
}

/// The results section of a report: a notice when there is nothing to
/// show, the table otherwise.
pub open spec fn results_section(results: Seq<char>) -> Seq<char> {
    if results.len() == 0 {
        "No benchmarks were found. Check your CI workflows."@
    } else {
        "\n| Name          | Change (abs)  | Change (%)    | Outcome       |\n| ------------- | ------------- | ------------- | ------------- |\n"@
            + results + "\n        "@
    }
}

/// The whole report comment for a run.
pub open spec fn report_text(public_url: Seq<char>, run_id: int, rows: Seq<Seq<char>>) -> Seq<char> {
    "# Benchmarks\n\n"@ + public_url + "/run/"@ + int_text(run_id) + "\n\n"@
        + results_section(joined(rows, "\n"@)) + "\n    "@
}

proof fn lemma_occurs_in_prefix(a: Seq<char>, b: Seq<char>, x: Seq<char>, i: int)
    requires
        occurs_at(a, x, i),
    ensures
        occurs_at(a + b, x, i),
{
    assert((a + b).subrange(i, i + x.len()) =~= a.subrange(i, i + x.len()));
}

proof fn lemma_occurs_in_suffix(a: Seq<char>, b: Seq<char>, x: Seq<char>, i: int)
    requires
        occurs_at(b, x, i),
    ensures
        occurs_at(a + b, x, i + a.len()),
{
    assert((a + b).subrange(i + a.len(), i + a.len() + x.len()) =~= b.subrange(i, i + x.len()));
}

proof fn lemma_part_in_joined(parts: Seq<Seq<char>>, sep: Seq<char>, k: int)
    requires
        0 <= k < parts.len(),
    ensures
        has_substring(joined(parts, sep), parts[k]),
    decreases parts.len(),
{
    if parts.len() == 1 {
        assert(joined(parts, sep).subrange(0, parts[k].len() as int) =~= parts[k]);
        assert(occurs_at(joined(parts, sep), parts[k], 0));
    } else {
        let front = joined(parts.drop_last(), sep);
        if k == parts.len() - 1 {
            assert(parts.last().subrange(0, parts[k].len() as int) =~= parts[k]);
            assert(occurs_at(parts.last(), parts[k], 0));
            lemma_occurs_in_suffix(front + sep, parts.last(), parts[k], 0);
        } else {
            lemma_part_in_joined(parts.drop_last(), sep, k);
            let i = choose|i: int| occurs_at(front, parts[k], i);
            lemma_occurs_in_prefix(front, sep, parts[k], i);
            lemma_occurs_in_prefix(front + sep, parts.last(), parts[k], i);
        }
    }
}

/// Every non-empty table line appears in the report.
pub proof fn law_report_shows_every_row(public_url: Seq<char>, run_id: int, rows: Seq<Seq<char>>, k: int)
    requires
        0 <= k < rows.len(),
        rows[k].len() > 0,
    ensures
        has_substring(report_text(public_url, run_id, rows), rows[k]),
{
    let results = joined(rows, "\n"@);
    lemma_part_in_joined(rows, "\n"@, k);
    let i = choose|i: int| occurs_at(results, rows[k], i);
    assert(results.len() > 0);
    let head = "\n| Name          | Change (abs)  | Change (%)    | Outcome       |\n| ------------- | ------------- | ------------- | ------------- |\n"@;
    lemma_occurs_in_suffix(head, results, rows[k], i);
    lemma_occurs_in_prefix(head + results, "\n        "@, rows[k], i + head.len());
    let pre = "# Benchmarks\n\n"@ + public_url + "/run/"@ + int_text(run_id) + "\n\n"@;
    let section = results_section(results);
    assert(section == head + results + "\n        "@);
    lemma_occurs_in_suffix(pre, section, rows[k], i + head.len());
    lemma_occurs_in_prefix(pre + section, "\n    "@, rows[k], i + head.len() + pre.len());
    assert(report_text(public_url, run_id, rows) == pre + section + "\n    "@);
}

/// A report without table lines links the run's page and says that no
/// benchmarks were found.
pub proof fn law_report_without_rows(public_url: Seq<char>, run_id: int)
    ensures
        report_text(public_url, run_id, Seq::empty()) == "# Benchmarks\n\n"@ + public_url + "/run/"@
            + int_text(run_id) + "\n\nNo benchmarks were found. Check your CI workflows.\n    "@,
{
    reveal_strlit("\n\n");
    reveal_strlit("\n\nNo benchmarks were found. Check your CI workflows.\n    ");
    reveal_strlit("No benchmarks were found. Check your CI workflows.");
    reveal_strlit("\n    ");
    assert("\n\n"@ + "No benchmarks were found. Check your CI workflows."@ + "\n    "@
        =~= "\n\nNo benchmarks were found. Check your CI workflows.\n    "@);
}

/// Renders the report comment for run `run_id` from its table lines.
pub fn report_body(public_url: &str, run_id: i64, rows: &Vec<String>) -> (r: String)
    ensures
        r@ == report_text(public_url@, run_id as int, views(rows@)),
{
    let results = join_strings(rows, "\n");
    let section = if results.as_str().is_empty() {
        String::from_str("No benchmarks were found. Check your CI workflows.")
    } else {
        let mut t = String::from_str(
            "\n| Name          | Change (abs)  | Change (%)    | Outcome       |\n| ------------- | ------------- | ------------- | ------------- |\n",
        );
        t.append(results.as_str());
        t.append("\n        ");
        t
    };
    let mut s = String::from_str("# Benchmarks\n\n");
    s.append(public_url);
    s.append("/run/");
    let id = format_i64(run_id);
    s.append(id.as_str());
    s.append("\n\n");
    s.append(section.as_str());
    s.append("\n    ");
    s
}

} // verus!
