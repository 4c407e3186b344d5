//! Benchmark log entries of the log service: how submitted entries and
//! list queries are normalised, what the answers hold, and the comment
//! posted for a new entry.

use vstd::prelude::*;
use crate::text::{ascii_lower, law_ascii_lower_char_by_char, lowered_char_by_char, format_i64, int_text, parse_u64, parse_u64_spec, to_ascii_lowercase};

verus! {

/// A stored benchmark log entry. `timestamp` is in whole seconds since the
/// Unix epoch.
#[derive(Debug)]
pub struct Log {
    pub id: i32,
    pub probe: String,
    pub chip: String,
    pub os: String,
    pub protocol: String,
    pub protocol_speed: i32,
    pub commit_hash: String,
    pub timestamp: i64,
    pub kind: String,
    pub read_speed: i32,
    pub write_speed: i32,
}

/// A benchmark log entry as submitted. `timestamp` is in whole seconds
/// since the Unix epoch.
#[derive(Debug)]
pub struct NewLog {
    pub probe: String,
    pub chip: String,
    pub os: String,
    pub protocol: String,
    pub protocol_speed: i32,
    pub commit_hash: String,
    pub timestamp: i64,
    pub kind: String,
    pub read_speed: i32,
    pub write_speed: i32,
}

/// `n` is `old` with its probe, chip, OS, kind and protocol lower-cased and
/// every other field unchanged.
pub open spec fn is_normalized_from(n: NewLog, old: NewLog) -> bool {
    &&& n.probe@ == ascii_lower(old.probe@)
    &&& n.chip@ == ascii_lower(old.chip@)
    &&& n.os@ == ascii_lower(old.os@)
    &&& n.kind@ == ascii_lower(old.kind@)
    &&& n.protocol@ == ascii_lower(old.protocol@)
    &&& n.protocol_speed == old.protocol_speed
    &&& n.commit_hash@ == old.commit_hash@
    &&& n.timestamp == old.timestamp
    &&& n.read_speed == old.read_speed
    &&& n.write_speed == old.write_speed
}

impl NewLog {
    /// Lower-cases the fields that entries are looked up by, so that
    /// lookups do not depend on case.
    pub fn normalized(self) -> (r: NewLog)
        ensures
            is_normalized_from(r, self),
    {
        NewLog {
            probe: to_ascii_lowercase(self.probe.as_str()),
            chip: to_ascii_lowercase(self.chip.as_str()),
            os: to_ascii_lowercase(self.os.as_str()),
            kind: to_ascii_lowercase(self.kind.as_str()),
            protocol: to_ascii_lowercase(self.protocol.as_str()),
            protocol_speed: self.protocol_speed,
            commit_hash: self.commit_hash,
            timestamp: self.timestamp,
            read_speed: self.read_speed,
            write_speed: self.write_speed,
        }
    }
}

/// The optional conditions of a list query.
#[derive(Debug)]
pub struct ListFilter {
    pub probe: Option<String>,
    pub chip: Option<String>,
    pub os: Option<String>,
    pub kind: Option<String>,
    pub protocol: Option<String>,
    pub protocol_speed: Option<i32>,
}

/// `n` is the condition `old` lower-cased, absent where `old` is absent.
pub open spec fn lowered_condition(n: Option<String>, old: Option<String>) -> bool {
    match old {
        Some(o) => n is Some && n->0@ == ascii_lower(o@),
        None => n is None,
    }
}

/// `n` is `old` with every text condition lower-cased.
pub open spec fn is_lowered_filter(n: ListFilter, old: ListFilter) -> bool {
    &&& lowered_condition(n.probe, old.probe)
    &&& lowered_condition(n.chip, old.chip)
    &&& lowered_condition(n.os, old.os)
    &&& lowered_condition(n.kind, old.kind)
    &&& lowered_condition(n.protocol, old.protocol)
    &&& n.protocol_speed == old.protocol_speed
}

fn lower_condition(c: Option<String>) -> (r: Option<String>)
    ensures
        lowered_condition(r, c),
{
    match c {
        Some(s) => Some(to_ascii_lowercase(s.as_str())),
        None => None,
    }
}

impl ListFilter {
    /// Lower-cases each text condition, as entries are stored lower-cased.
    pub fn normalized(self) -> (r: ListFilter)
        ensures
            is_lowered_filter(r, self),
    {
        ListFilter {
            probe: lower_condition(self.probe),
            chip: lower_condition(self.chip),
            os: lower_condition(self.os),
            kind: lower_condition(self.kind),
            protocol: lower_condition(self.protocol),
            protocol_speed: self.protocol_speed,
        }
    }
}

/// Normalising an entry lower-cases its probe, chip, OS, kind and protocol
/// character by character and leaves every other field as submitted.
pub proof fn law_normalize_changes_only_lookup_fields(n: NewLog, old: NewLog)
    requires
        is_normalized_from(n, old),
    ensures
        lowered_char_by_char(n.probe@, old.probe@),
        lowered_char_by_char(n.chip@, old.chip@),
        lowered_char_by_char(n.os@, old.os@),
        lowered_char_by_char(n.kind@, old.kind@),
        lowered_char_by_char(n.protocol@, old.protocol@),
        n.read_speed == old.read_speed,
        n.write_speed == old.write_speed,
        n.protocol_speed == old.protocol_speed,
        n.timestamp == old.timestamp,
        n.commit_hash@ == old.commit_hash@,
{
    law_ascii_lower_char_by_char(old.probe@);
    law_ascii_lower_char_by_char(old.chip@);
    law_ascii_lower_char_by_char(old.os@);
    law_ascii_lower_char_by_char(old.kind@);
    law_ascii_lower_char_by_char(old.protocol@);
}

/// `n` is the condition `old` lower-cased character by character, absent
/// exactly where `old` is absent.
pub open spec fn condition_lowered_char_by_char(n: Option<String>, old: Option<String>) -> bool {
    &&& (n is Some <==> old is Some)
    &&& (old is Some ==> lowered_char_by_char(n->0@, old->0@))
}

proof fn lemma_condition(n: Option<String>, old: Option<String>)
    requires
        lowered_condition(n, old),
    ensures
        condition_lowered_char_by_char(n, old),
{
    if old is Some {
        law_ascii_lower_char_by_char(old->0@);
    }
}

/// Normalising a list query lower-cases every text condition (probe, chip,
/// OS, kind, protocol) character by character, keeps absent conditions
/// absent, and keeps the speed condition.
pub proof fn law_filter_lowercases_every_text_condition(n: ListFilter, old: ListFilter)
    requires
        is_lowered_filter(n, old),
    ensures
        condition_lowered_char_by_char(n.probe, old.probe),
        condition_lowered_char_by_char(n.chip, old.chip),
        condition_lowered_char_by_char(n.os, old.os),
        condition_lowered_char_by_char(n.kind, old.kind),
        condition_lowered_char_by_char(n.protocol, old.protocol),
        n.protocol_speed == old.protocol_speed,
{
    lemma_condition(n.probe, old.probe);
    lemma_condition(n.chip, old.chip);
    lemma_condition(n.os, old.os);
    lemma_condition(n.kind, old.kind);
    lemma_condition(n.protocol, old.protocol);
}

/// Normalising an entry that is already normalised changes nothing.
pub proof fn lemma_normalize_idempotent(a: NewLog, b: NewLog, c: NewLog)
    requires
        is_normalized_from(b, a),
        is_normalized_from(c, b),
    ensures
        c.probe@ == b.probe@,
        c.chip@ == b.chip@,
        c.os@ == b.os@,
        c.kind@ == b.kind@,
        c.protocol@ == b.protocol@,
        c.commit_hash@ == b.commit_hash@,
{
    crate::text::lemma_ascii_lower_idempotent(a.probe@);
    crate::text::lemma_ascii_lower_idempotent(a.chip@);
    crate::text::lemma_ascii_lower_idempotent(a.os@);
    crate::text::lemma_ascii_lower_idempotent(a.kind@);
    crate::text::lemma_ascii_lower_idempotent(a.protocol@);
}

/// The answer to a list query: the entries, or the error text.
#[derive(Debug)]
pub struct ListResponse {
    pub error: Option<String>,
    pub logs: Vec<Log>,
}

impl ListResponse {
    /// The answer for a query outcome; `Err` carries the error's text.
    pub fn from_query(r: Result<Vec<Log>, String>) -> (res: ListResponse)
        ensures
            match r {
                Ok(logs) => res.error is None && res.logs@ == logs@,
                Err(e) => res.error == Some(e) && res.logs@.len() == 0,
            },
    {
        match r {
            Ok(logs) => ListResponse { error: None, logs },
            Err(e) => ListResponse { error: Some(e), logs: Vec::new() },
        }
    }
}

/// The answer to an added entry: the stored entry, or the error text.
#[derive(Debug)]
pub struct AddResponse {
    pub error: Option<String>,
    pub log: Option<Log>,
}

impl AddResponse {
    /// The answer for an insert outcome; `Err` carries the error's text.
    pub fn from_query(r: Result<Log, String>) -> (res: AddResponse)
        ensures
            match r {
                Ok(log) => res.error is None && res.log == Some(log),
                Err(e) => res.error == Some(e) && res.log is None,
            },
    {
        match r {
            Ok(log) => AddResponse { error: None, log: Some(log) },
            Err(e) => AddResponse { error: Some(e), log: None },
        }
    }
}

/// The pull request to comment on for an added entry: the `pr` query
/// parameter where it is present and reads as an unsigned number.
pub fn comment_target(pr: &Option<String>) -> (r: Option<u64>)
    ensures
        r == match pr {
            Some(s) => parse_u64_spec(s@),
            None => None,
        },
{
    match pr {
        Some(s) => parse_u64(s.as_str()),
        None => None,
    }
}

/// The comment posted on a pull request for a new entry.
pub open spec fn log_comment_text(log: Log) -> Seq<char> {
    "\n**Ran performance benchmarks**\nCommit: "@ + log.commit_hash@ + "\nProbe: "@ + log.probe@
        + "\nChip: "@ + log.chip@ + "\nKind: "@ + log.kind@ + "\nRead: "@
        + int_text(log.read_speed as int) + "\nWrite: "@ + int_text(log.write_speed as int)
        + "\n    "@
}

/// Renders the comment for a new entry.
pub fn log_comment_body(log: &Log) -> (r: String)
    ensures
        r@ == log_comment_text(*log),
{
    let mut s = String::from_str("\n**Ran performance benchmarks**\nCommit: ");
    s.append(log.commit_hash.as_str());
    s.append("\nProbe: ");
    s.append(log.probe.as_str());
    s.append("\nChip: ");
    s.append(log.chip.as_str());
    s.append("\nKind: ");
    s.append(log.kind.as_str());
    s.append("\nRead: ");
    let read = format_i64(log.read_speed as i64);
    s.append(read.as_str());
    s.append("\nWrite: ");
    let write = format_i64(log.write_speed as i64);
    s.append(write.as_str());
    s.append("\n    ");
    s
}

/// The claims of the token that authenticates the bot as a GitHub app.
#[derive(Debug)]
pub struct Claims {
    pub iat: u64,
    pub exp: u64,
    pub iss: u64,
}

/// The claims for a token issued at `now` (seconds since the Unix epoch):
/// valid from now for ten minutes, issued by the app `app_id`.
pub fn app_token_claims(now: u64, app_id: u64) -> (c: Claims)
    requires
        now + 600 <= u64::MAX,
    ensures
        c.iat == now,
        c.exp == now + 600,
        c.iss == app_id,
{
    Claims { iat: now, exp: now + 10 * 60, iss: app_id }
}

} // verus!
