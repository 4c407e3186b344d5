//! The chat commands the bot answers, and the summary it gives for `!perf`.

use vstd::prelude::*;
use crate::text::{has_prefix, starts_with};

verus! {

/// A command the bot answers in a chat room.
#[derive(Clone, Copy, PartialEq, Eq, Structural, Debug)]
pub enum BotCommand {
    /// `!help`: describe the commands.
    Help,
    /// `!perf`: summarise the benchmarks of the open pull requests.
    Perf,
}

/// The command a message body asks for: a body that begins with `!help`
/// asks for help, else one that begins with `!perf` for the summary.
pub open spec fn command_spec(body: Seq<char>) -> Option<BotCommand> {
    if has_prefix(body, "!help"@) {
        Some(BotCommand::Help)
    } else if has_prefix(body, "!perf"@) {
        Some(BotCommand::Perf)
    } else {
        None
    }
}

/// The command a message asks for. Only messages in rooms the bot has
/// joined are answered; a message without a text body counts as empty.
pub fn command_for_message(joined: bool, text_body: &Option<String>) -> (r: Option<BotCommand>)
    ensures
        r == (if !joined {
            None
        } else {
            match text_body {
                Some(b) => command_spec(b@),
                None => command_spec(Seq::empty()),
            }
        }),
{
    if !joined {
        return None;
    }
    let empty = String::new();
    let body: &str = match text_body {
        Some(b) => b.as_str(),
        None => empty.as_str(),
    };
    if starts_with(body, "!help") {
        Some(BotCommand::Help)
    } else if starts_with(body, "!perf") {
        Some(BotCommand::Perf)
    } else {
        None
    }
}

/// A message beginning with `!help` is answered with help, whatever follows.
pub proof fn lemma_help_prefix(rest: Seq<char>)
    ensures
        command_spec("!help"@ + rest) == Some(BotCommand::Help),
{
    assert(("!help"@ + rest).subrange(0, "!help"@.len() as int) =~= "!help"@);
}

/// A message beginning with `!perf` asks for the summary, and a message
/// that does not begin with `!` asks for nothing.
pub proof fn law_commands_by_prefix(rest: Seq<char>, body: Seq<char>)
    ensures
        command_spec("!perf"@ + rest) == Some(BotCommand::Perf),
        (body.len() == 0 || body[0] != '!') ==> command_spec(body) is None,
{
    reveal_strlit("!perf");
    reveal_strlit("!help");
    assert(("!perf"@ + rest).subrange(0, "!perf"@.len() as int) =~= "!perf"@);
    assert(("!perf"@ + rest).subrange(0, 5)[4] != "!help"@[4]);
    if body.len() == 0 || body[0] != '!' {
        if body.len() >= 5 {
            assert(body.subrange(0, 5)[0] != "!help"@[0]);
            assert(body.subrange(0, 5)[0] != "!perf"@[0]);
        }
    }
}

/// The text counted for a pull request is its latest commit between single
/// quotes.
pub proof fn law_latest_commit_literal(commits: Seq<String>)
    requires
        commits.len() > 0,
    ensures
        ({
            let t = latest_commit_literal(commits);
            &&& t.len() == commits[commits.len() - 1]@.len() + 2
            &&& t[0] == '\''
            &&& t[t.len() - 1] == '\''
            &&& t.subrange(1, t.len() - 1) == commits[commits.len() - 1]@
        }),
{
    reveal_strlit("'");
    let t = latest_commit_literal(commits);
    assert(t.subrange(1, t.len() - 1) =~= commits[commits.len() - 1]@);
}

/// An open pull request and the number of benchmarks recorded for its
/// latest commit.
#[derive(Debug)]
pub struct Pr {
    pub number: u64,
    pub benchmarks: usize,
}

/// The content of the `!perf` answer.
#[derive(Debug)]
pub struct PerfTemplate {
    pub prs: Vec<Pr>,
}

/// The content of the `!help` answer.
#[derive(Debug)]
pub struct HelpTemplate {}

/// An open pull request and its commits, oldest first.
#[derive(Debug)]
pub struct PrCommits {
    pub number: u64,
    pub commits: Vec<String>,
}

/// The commit whose benchmarks are counted for a pull request: its latest,
/// written as an SQL string literal.
pub open spec fn latest_commit_literal(commits: Seq<String>) -> Seq<char> {
    "'"@ + commits.last()@ + "'"@
}

/// For each pull request, the SQL literal of its latest commit.
pub fn perf_queries(prs: &Vec<PrCommits>) -> (r: Vec<String>)
    requires
        forall|i: int| 0 <= i < prs.len() ==> (#[trigger] prs@[i]).commits.len() > 0,
    ensures
        r.len() == prs.len(),
        forall|i: int| 0 <= i < prs.len() ==> (#[trigger] r@[i])@ == latest_commit_literal(prs@[i].commits@),
{
    let mut r: Vec<String> = Vec::new();
    let mut i: usize = 0;
    while i < prs.len()
        invariant
            i <= prs.len(),
            r.len() == i,
            forall|k: int| 0 <= k < prs.len() ==> (#[trigger] prs@[k]).commits.len() > 0,
            forall|k: int| 0 <= k < i ==> (#[trigger] r@[k])@ == latest_commit_literal(prs@[k].commits@),
        decreases prs.len() - i,
    {
        let commits = &prs[i].commits;
        let last = &commits[commits.len() - 1];
        let mut s = String::from_str("'");
        s.append(last.as_str());
        s.append("'");
        r.push(s);
        i = i + 1;
    }
    r
}

/// The `!perf` answer: each pull request with the number of benchmarks
/// counted for it, in the same order.
pub fn perf_summary(prs: &Vec<PrCommits>, counts: &Vec<usize>) -> (t: PerfTemplate)
    requires
        counts.len() == prs.len(),
    ensures
        t.prs.len() == prs.len(),
        forall|i: int| 0 <= i < prs.len() ==> (#[trigger] t.prs@[i]).number == prs@[i].number
            && t.prs@[i].benchmarks == counts@[i],
{
    let mut out: Vec<Pr> = Vec::new();
    let mut i: usize = 0;
    while i < prs.len()
        invariant
            i <= prs.len(),
            counts.len() == prs.len(),
            out.len() == i,
            forall|k: int| 0 <= k < i ==> (#[trigger] out@[k]).number == prs@[k].number
                && out@[k].benchmarks == counts@[k],
        decreases prs.len() - i,
    {
        out.push(Pr { number: prs[i].number, benchmarks: counts[i] });
        i = i + 1;
    }
    PerfTemplate { prs: out }
}

} // verus!
