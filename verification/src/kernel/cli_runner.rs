//! Running an agent's CLI: which CLIs are known, the environment the child
//! gets, how its output is kept, how a failure is reported, and how a
//! long-lived session's output is judged finished. Spawning the process and
//! reading its pipes belong to the program around this library.

use vstd::prelude::*;

use super::cli_adapter::{adapter_for_command, spec_adapter_for_command, BuiltinAdapter, CliAdapter};
use super::text::{
    chars_of, chars_range, first_word_bounds, is_blank, push_char, push_str, spec_contains, spec_trim,
    spec_words, str_contains, trim,
};
use crate::tui::prompt::{parse_usize, spec_parse_usize};

verus! {

broadcast use vstd::string::group_string_axioms;

/// The CLIs the orchestrator offers, with a description; each reads the
/// prompt on its standard input.
pub open spec fn spec_known_clis() -> Seq<(Seq<char>, Seq<char>)> {
    seq![
        ("gemini"@, "Google Gemini CLI"@),
        ("grok"@, "Grok Build"@),
        ("llm"@, "Simon Willison's LLM CLI"@),
        ("aichat"@, "aichat CLI"@),
        ("tgpt"@, "tgpt CLI"@),
        ("sgpt"@, "ShellGPT CLI"@),
        ("copilot"@, "GitHub Copilot CLI"@),
    ]
}

/// A pair of static strings as plain text.
pub open spec fn spec_pair(p: (&'static str, &'static str)) -> (Seq<char>, Seq<char>) {
    (p.0@, p.1@)
}

/// The known CLIs, in the order they are offered.
pub fn known_clis() -> (r: Vec<(&'static str, &'static str)>)
    ensures
        r@.map_values(|p: (&'static str, &'static str)| spec_pair(p)) == spec_known_clis(),
{
    let mut v: Vec<(&'static str, &'static str)> = Vec::new();
    v.push(("gemini", "Google Gemini CLI"));
    v.push(("grok", "Grok Build"));
    v.push(("llm", "Simon Willison's LLM CLI"));
    v.push(("aichat", "aichat CLI"));
    v.push(("tgpt", "tgpt CLI"));
    v.push(("sgpt", "ShellGPT CLI"));
    v.push(("copilot", "GitHub Copilot CLI"));
    assert(v@.map_values(|p: (&'static str, &'static str)| spec_pair(p)) =~= spec_known_clis());
    v
}

/// The known CLIs that are installed, in order; `installed[i]` tells
/// whether the `i`-th known CLI was found on the `PATH`.
pub fn detect_available_clis(installed: &[bool]) -> (r: Vec<(&'static str, &'static str)>)
    requires
        installed@.len() == spec_known_clis().len(),
    ensures
        r@.map_values(|p: (&'static str, &'static str)| spec_pair(p)) == spec_filter_by(spec_known_clis(), installed@),
{
    let all = known_clis();
    let mut r: Vec<(&'static str, &'static str)> = Vec::new();
    let mut i: usize = 0;
    let ghost known = spec_known_clis();
    while i < all.len()
        invariant
            i <= all@.len(),
            all@.len() == installed@.len(),
            all@.map_values(|p: (&'static str, &'static str)| spec_pair(p)) == known,
            known == spec_known_clis(),
            r@.map_values(|p: (&'static str, &'static str)| spec_pair(p)) == spec_filter_by(
                known.take(i as int),
                installed@.take(i as int),
            ),
        decreases all@.len() - i,
    {
        let ghost before = r@;
        if installed[i] {
            r.push(all[i]);
        }
        proof {
            assert(known[i as int] == spec_pair(all@[i as int]));
            assert(known.take(i + 1) =~= known.take(i as int).push(known[i as int]));
            assert(installed@.take(i + 1) =~= installed@.take(i as int).push(installed@[i as int]));
            lemma_filter_by_push(known.take(i as int), installed@.take(i as int), known[i as int], installed@[i as int]);
            assert(r@.map_values(|p: (&'static str, &'static str)| spec_pair(p)) =~= spec_filter_by(
                known.take(i + 1),
                installed@.take(i + 1),
            ));
        }
        i = i + 1;
    }
    assert(known.take(i as int) =~= known);
    assert(installed@.take(i as int) =~= installed@);
    r
}

/// The items of `s` whose flag in `keep` is set, in order.
pub open spec fn spec_filter_by<A>(s: Seq<A>, keep: Seq<bool>) -> Seq<A>
    decreases s.len(),
{
    if s.len() == 0 || keep.len() == 0 {
        Seq::empty()
    } else {
        let rest = spec_filter_by(s.drop_last(), keep.drop_last());
        if keep.last() { rest.push(s.last()) } else { rest }
    }
}

/// Selecting by flags, one item more.
pub proof fn lemma_filter_by_push<A>(s: Seq<A>, keep: Seq<bool>, x: A, k: bool)
    requires
        s.len() == keep.len(),
    ensures
        spec_filter_by(s.push(x), keep.push(k)) == if k {
            spec_filter_by(s, keep).push(x)
        } else {
            spec_filter_by(s, keep)
        },
{
    assert(s.push(x).drop_last() =~= s);
    assert(keep.push(k).drop_last() =~= keep);
}

/// Single-quotes `value` for the shell: each `'` becomes `'\''`.
pub open spec fn spec_shell_escape(value: Seq<char>) -> Seq<char>
    decreases value.len(),
{
    if value.len() == 0 {
        Seq::empty()
    } else {
        spec_shell_escape(value.drop_last()) + if value.last() == '\'' {
            "'\\''"@
        } else {
            seq![value.last()]
        }
    }
}

/// `value` as one single-quoted shell word.
pub fn shell_quote(value: &str) -> (r: String)
    ensures
        r@ == "'"@ + spec_shell_escape(value@) + "'"@,
{
    let cs = chars_of(value);
    let mut s = String::from_str("'");
    let ghost head = s@;
    let mut i: usize = 0;
    while i < cs.len()
        invariant
            i <= cs@.len(),
            cs@ == value@,
            s@ == head + spec_shell_escape(cs@.take(i as int)),
        decreases cs@.len() - i,
    {
        let c = cs[i];
        if c == '\'' {
            push_str(&mut s, "'\\''");
        } else {
            push_char(&mut s, c);
        }
        proof {
            assert(cs@.take(i + 1).drop_last() =~= cs@.take(i as int));
            assert(cs@.take(i + 1).last() == c);
            assert(s@ =~= head + spec_shell_escape(cs@.take(i + 1)));
        }
        i = i + 1;
    }
    assert(cs@.take(cs@.len() as int) =~= cs@);
    push_str(&mut s, "'");
    s
}

/// The environment a CLI's process gets on top of the orchestrator's:
/// the Gemini workspace trust flag, then the variables of the command's
/// adapter.
pub open spec fn spec_child_env(cli_cmd: Seq<char>) -> Seq<(Seq<char>, Seq<char>)> {
    seq![("GEMINI_CLI_TRUST_WORKSPACE"@, "true"@)] + match spec_adapter_for_command(cli_cmd) {
        Some(a) => a.spec_env(),
        None => Seq::empty(),
    }
}

/// Builds the environment a CLI's process gets.
pub fn child_env(cli_cmd: &str) -> (r: Vec<(&'static str, &'static str)>)
    ensures
        r@.map_values(|p: (&'static str, &'static str)| spec_pair(p)) == spec_child_env(cli_cmd@),
{
    let mut r: Vec<(&'static str, &'static str)> = Vec::new();
    r.push(("GEMINI_CLI_TRUST_WORKSPACE", "true"));
    let ghost head = r@;
    match adapter_for_command(cli_cmd) {
        Some(a) => {
            let extra = a.env();
            let mut i: usize = 0;
            while i < extra.len()
                invariant
                    i <= extra@.len(),
                    extra@.map_values(|p: (&'static str, &'static str)| (p.0@, p.1@)) == a.spec_env(),
                    r@ == head + extra@.take(i as int),
                decreases extra@.len() - i,
            {
                r.push(extra[i]);
                assert(r@ =~= head + extra@.take(i + 1));
                i = i + 1;
            }
            assert(extra@.take(extra@.len() as int) =~= extra@);
            assert(r@.map_values(|p: (&'static str, &'static str)| spec_pair(p)) =~= spec_child_env(cli_cmd@)) by {
                assert forall|k: int| 0 <= k < extra@.len() implies #[trigger] spec_pair(extra@[k]) == a.spec_env()[k] by {
                    assert(extra@.map_values(|p: (&'static str, &'static str)| (p.0@, p.1@))[k] == a.spec_env()[k]);
                }
            }
        },
        None => {
            assert(r@.map_values(|p: (&'static str, &'static str)| spec_pair(p)) =~= spec_child_env(cli_cmd@));
        },
    }
    r
}

/// A line of the CLI's error output that is only terminal noise: blank, or
/// the colour-support warning.
pub open spec fn spec_stderr_noise(line: Seq<char>) -> bool {
    spec_contains(line, "256-color support not detected"@) || spec_trim(line).len() == 0
}

/// Whether an error-output line is noise and is not shown.
pub fn stderr_is_noise(line: &str) -> (r: bool)
    ensures
        r == spec_stderr_noise(line@),
{
    str_contains(line, "256-color support not detected") || is_blank(line)
}

/// The lines read, each followed by a newline, as the output is kept.
pub open spec fn spec_collect_lines(lines: Seq<Seq<char>>) -> Seq<char>
    decreases lines.len(),
{
    if lines.len() == 0 {
        Seq::empty()
    } else {
        spec_collect_lines(lines.drop_last()) + lines.last() + "\n"@
    }
}

/// Keeps one more line of output.
pub fn collect_line(output: &mut String, line: &str)
    ensures
        final(output)@ == old(output)@ + line@ + "\n"@,
{
    push_str(output, line);
    push_str(output, "\n");
}

/// The message of a CLI that exited with a failure status (`status` as
/// the system reports it): with its trimmed error output when there is
/// any.
pub open spec fn spec_failure_message(cmd: Seq<char>, status: Seq<char>, stderr: Seq<char>) -> Seq<char> {
    if spec_trim(stderr).len() == 0 {
        "CLI '"@ + cmd + "' retornou exit code "@ + status
    } else {
        "CLI '"@ + cmd + "' retornou exit code "@ + status + ": "@ + spec_trim(stderr)
    }
}

/// Builds the message of a failed CLI.
pub fn failure_message(cmd: &str, status: &str, stderr: &str) -> (r: String)
    ensures
        r@ == spec_failure_message(cmd@, status@, stderr@),
{
    let mut s = String::from_str("CLI '");
    push_str(&mut s, cmd);
    push_str(&mut s, "' retornou exit code ");
    push_str(&mut s, status);
    let t = trim(stderr);
    if t.unicode_len() > 0 {
        push_str(&mut s, ": ");
        push_str(&mut s, t.as_str());
    }
    s
}

/// What a successful CLI run returns: its output cleaned by the command's
/// adapter, or as read when no adapter applies.
pub fn finish_output(cli_cmd: &str, full_output: String) -> (r: String)
    ensures
        r@ == match spec_adapter_for_command(cli_cmd@) {
            Some(_) => spec_trim(full_output@),
            None => full_output@,
        },
{
    match adapter_for_command(cli_cmd) {
        Some(a) => a.clean_output(full_output.as_str()),
        None => full_output,
    }
}

/// The binary of a command: its first word, if it has one.
pub fn cli_binary(cmd: &str) -> (r: Option<String>)
    ensures
        match r {
            Some(b) => spec_words(cmd@).len() > 0 && b@ == spec_words(cmd@)[0],
            None => spec_words(cmd@).len() == 0,
        },
{
    let cs = chars_of(cmd);
    match first_word_bounds(&cs) {
        None => None,
        Some((a, b)) => {
            let w = chars_range(&cs, a, b);
            Some(super::text::string_from_chars(&w))
        },
    }
}

/// The menu choice typed when picking a CLI.
#[derive(Debug, Clone, Copy, PartialEq, Eq)]
pub enum CliChoice {
    /// The `i`-th available CLI.
    Available(usize),
    /// Type a command by hand.
    Custom,
    /// Work by hand, pasting prompts.
    Manual,
}

/// What the number typed picks among `n` available CLIs: `1..=n` picks a
/// CLI, `n + 1` asks for a command, anything else (or no number) means
/// manual mode.
pub open spec fn spec_cli_choice(input: Seq<char>, n: nat) -> CliChoice {
    let k: nat = match spec_parse_usize(spec_trim(input)) {
        Some(v) => v as nat,
        None => 0,
    };
    if 1 <= k <= n {
        CliChoice::Available((k - 1) as usize)
    } else if k == n + 1 {
        CliChoice::Custom
    } else {
        CliChoice::Manual
    }
}

/// Reads the menu choice.
pub fn cli_choice(input: &str, available: usize) -> (r: CliChoice)
    ensures
        r == spec_cli_choice(input@, available as nat),
{
    let t = trim(input);
    let k: usize = match parse_usize(t.as_str()) {
        Some(v) => v,
        None => 0,
    };
    if k >= 1 && k <= available {
        CliChoice::Available(k - 1)
    } else if available < usize::MAX && k == available + 1 {
        CliChoice::Custom
    } else {
        CliChoice::Manual
    }
}

// ── Reading a long-lived session ───────────────────────────────────────────

/// How many empty reads in a row end the answer once output has come.
pub const IDLE_READS: u64 = 3;

/// How many empty reads in a row, before any output, give up.
pub const MAX_WAIT_CYCLES: u64 = 30;

/// What one read of a session's output leads to.
#[derive(Debug, Clone, Copy, PartialEq, Eq)]
pub enum SessionRead {
    /// Read again.
    More,
    /// The answer is complete.
    Done,
    /// The agent did not answer in time.
    TimedOut,
}

/// Waiting for a session's answer: whether output came, and how many empty
/// reads in a row there were since the last output.
#[derive(Debug, Clone, Copy, PartialEq, Eq)]
pub struct SessionWait {
    pub got_output: bool,
    pub idle: u64,
    pub waited: u64,
}

/// The counters stay small: after output fewer than three empty reads are
/// pending, and before any output both counters move together below the
/// limit.
pub open spec fn spec_session_wait_wf(s: SessionWait) -> bool {
    &&& s.waited < MAX_WAIT_CYCLES
    &&& s.got_output ==> s.idle < IDLE_READS
    &&& !s.got_output ==> s.idle == s.waited
}

impl SessionWait {
    /// Nothing read yet.
    pub fn new() -> (r: SessionWait)
        ensures
            r == (SessionWait { got_output: false, idle: 0, waited: 0 }),
            spec_session_wait_wf(r),
    {
        SessionWait { got_output: false, idle: 0, waited: 0 }
    }

    /// Accounts for one read (`empty` when it brought nothing): output resets
    /// both counters; three empty reads after output end the answer; thirty
    /// empty reads in a row give up.
    pub fn read(&mut self, empty: bool) -> (r: SessionRead)
        requires
            spec_session_wait_wf(*old(self)),
        ensures
            r == SessionRead::More ==> spec_session_wait_wf(*final(self)),
            !empty ==> r == SessionRead::More && *final(self) == (SessionWait { got_output: true, idle: 0, waited: 0 }),
            empty ==> final(self).idle == old(self).idle + 1 && final(self).got_output == old(self).got_output,
            empty && old(self).got_output && old(self).idle + 1 >= IDLE_READS ==> r == SessionRead::Done,
            empty && !(old(self).got_output && old(self).idle + 1 >= IDLE_READS) ==> final(self).waited
                == old(self).waited + 1 && r == (if old(self).waited + 1 >= MAX_WAIT_CYCLES {
                SessionRead::TimedOut
            } else {
                SessionRead::More
            }),
    {
        if !empty {
            self.got_output = true;
            self.idle = 0;
            self.waited = 0;
            return SessionRead::More;
        }
        self.idle = self.idle + 1;
        if self.got_output && self.idle >= IDLE_READS {
            return SessionRead::Done;
        }
        self.waited = self.waited + 1;
        if self.waited >= MAX_WAIT_CYCLES {
            SessionRead::TimedOut
        } else {
            SessionRead::More
        }
    }
}

} // verus!
