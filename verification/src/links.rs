//! Links and labels shown for runs, and the choice of database transport.

use vstd::prelude::*;
use crate::models::{RecordKey, RunModel, Timestamp};
use crate::text::{contains, format_i64, has_substring, int_text, parse_i64, parse_i64_spec, lemma_i64_text_roundtrip};

verus! {

/// The page of a pull request on GitHub.
pub open spec fn pr_url_text(org: Seq<char>, repo: Seq<char>, pr: int) -> Seq<char> {
    "https://github.com/"@ + org + "/"@ + repo + "/pull/"@ + int_text(pr)
}

/// Renders the page of pull request `pr` of `org/repo`.
pub fn pr_url(org: &str, repo: &str, pr: i64) -> (r: String)
    ensures
        r@ == pr_url_text(org@, repo@, pr as int),
{
    let mut s = String::from_str("https://github.com/");
    s.append(org);
    s.append("/");
    s.append(repo);
    s.append("/pull/");
    let n = format_i64(pr);
    s.append(n.as_str());
    s
}

/// The label of a pull request link: `#` and its number.
pub fn pr_label(pr: i64) -> (r: String)
    ensures
        r@ == "#"@ + int_text(pr as int),
{
    let mut s = String::from_str("#");
    let n = format_i64(pr);
    s.append(n.as_str());
    s
}

/// Renders the page of `commit` within pull request `pr` of `org/repo`.
pub fn commit_url(org: &str, repo: &str, pr: i64, commit: &str) -> (r: String)
    ensures
        r@ == pr_url_text(org@, repo@, pr as int) + "/commits/"@ + commit@,
{
    let mut s = pr_url(org, repo, pr);
    s.append("/commits/");
    s.append(commit);
    s
}

/// Renders the GitHub profile page of `author`.
pub fn author_url(author: &str) -> (r: String)
    ensures
        r@ == "https://github.com/"@ + author@,
{
    let mut s = String::from_str("https://github.com/");
    s.append(author);
    s
}

/// The number under which a run's page is reached: its key written out and
/// read back as a signed number. Only runs keyed by a number have a page.
pub fn run_route_id(run: &RunModel) -> (r: i64)
    requires
        run.id.key is Number,
    ensures
        r == run.id.key->Number_0,
{
    match &run.id.key {
        RecordKey::Number(n) => {
            let text = format_i64(*n);
            proof {
                lemma_i64_text_roundtrip(*n);
            }
            match parse_i64(text.as_str()) {
                Some(v) => v,
                None => 0,
            }
        },
        _ => 0,
    }
}

/// How chrono renders the instant `secs` seconds and `nanos` nanoseconds
/// after the Unix epoch in RFC 3339 in UTC with whole seconds and a `Z`
/// suffix, or `None` where chrono cannot represent that instant.
pub uninterp spec fn rfc3339_seconds(secs: int, nanos: int) -> Option<Seq<char>>;

/// Trusted: `DateTime::<Utc>::from_timestamp(secs, nanos)` followed by
/// `to_rfc3339_opts(SecondsFormat::Secs, true)`; the result depends on the
/// two numbers alone and is named by `rfc3339_seconds`.
#[verifier::external_body]
fn rfc3339_date(t: Timestamp) -> (r: Option<String>)
    ensures
        match r {
            Some(s) => rfc3339_seconds(t.secs as int, t.nanos as int) == Some(s@),
            None => rfc3339_seconds(t.secs as int, t.nanos as int) is None,
        },
{
    match chrono::DateTime::<chrono::Utc>::from_timestamp(t.secs, t.nanos) {
        Some(d) => Some(d.to_rfc3339_opts(chrono::SecondsFormat::Secs, true)),
        None => None,
    }
}

/// The date shown for a run: its time in RFC 3339 in UTC, to the second;
/// `None` where the time lies outside what can be written as a date.
pub fn run_date_text(run: &RunModel) -> (r: Option<String>)
    ensures
        match r {
            Some(s) => rfc3339_seconds(run.datetime.secs as int, run.datetime.nanos as int) == Some(s@),
            None => rfc3339_seconds(run.datetime.secs as int, run.datetime.nanos as int) is None,
        },
{
    rfc3339_date(run.datetime)
}

/// A database address on this machine is reached over plain WebSocket,
/// any other over TLS.
pub open spec fn is_local_address(address: Seq<char>) -> bool {
    has_substring(address, "localhost"@) || has_substring(address, "127.0.0.1"@)
}

/// Whether the database at `address` is reached over plain WebSocket.
pub fn uses_plain_websocket(address: &str) -> (r: bool)
    ensures
        r == is_local_address(address@),
{
    contains(address, "localhost") || contains(address, "127.0.0.1")
}

} // verus!
