//! Secret detection in patches: words that usually name credentials, and
//! headers that touch `.env` files.

use vstd::prelude::*;

use super::text::{
    chars_of, lines, occurs_at, second_word_bounds, spec_lines, spec_starts_with,
    spec_trim_start_matches, spec_words, starts_with, string_from_chars, trim_start_matches_from,
};

verus! {

broadcast use vstd::string::group_string_axioms;

/// One finding of `scan_diff`: what was found and on which line (from 1).
#[derive(Debug, Clone, PartialEq, Eq)]
pub struct SecurityViolation {
    pub pattern: String,
    pub line_number: usize,
}

impl View for SecurityViolation {
    type V = (Seq<char>, usize);

    open spec fn view(&self) -> (Seq<char>, usize) {
        (self.pattern@, self.line_number)
    }
}

/// What the `regex` crate answers when `pattern` is compiled and matched
/// against `haystack` (`false` when the pattern does not compile).
pub uninterp spec fn regex_matches(pattern: Seq<char>, haystack: Seq<char>) -> bool;

/// `regex::Regex::new(pattern)` then `Regex::is_match(haystack)`. The
/// contract names the answer; regular-expression semantics are not stated.
#[verifier::external_body]
fn regex_is_match(pattern: &str, haystack: &str) -> (r: bool)
    ensures
        r == regex_matches(pattern@, haystack@),
{
    match regex::Regex::new(pattern) {
        Ok(re) => re.is_match(haystack),
        Err(_) => false,
    }
}

/// The detectors, in the order `scan_diff` applies them: a word-bounded
/// pattern and the label reported for it.
pub open spec fn spec_detectors() -> Seq<(Seq<char>, Seq<char>)> {
    seq![
        ("\\bAPI_KEY\\b"@, "API_KEY"@),
        ("\\bapi_key\\b"@, "api_key"@),
        ("\\bTOKEN\\b"@, "TOKEN"@),
        ("\\btoken\\b"@, "token"@),
        ("\\bPASSWORD\\b"@, "PASSWORD"@),
        ("\\bpassword\\b"@, "password"@),
        ("\\bSECRET\\b"@, "SECRET"@),
        ("\\bsecret\\b"@, "secret"@),
        ("\\bPRIVATE_KEY\\b"@, "PRIVATE_KEY"@),
        ("\\bprivate_key\\b"@, "private_key"@),
    ]
}

/// The path in a diff header line, its second word, with leading `a/` and
/// then `b/` prefixes removed.
pub open spec fn spec_header_path(line: Seq<char>) -> Seq<char> {
    let w = if spec_words(line).len() > 1 {
        spec_words(line)[1]
    } else {
        Seq::empty()
    };
    spec_trim_start_matches(spec_trim_start_matches(w, "a/"@), "b/"@)
}

/// The line's path is `.env` or a `.env.<suffix>` file.
pub open spec fn spec_is_env_path(line: Seq<char>) -> bool {
    spec_header_path(line) == ".env"@ || spec_starts_with(spec_header_path(line), ".env."@)
}

/// The line is a `--- ` or `+++ ` header naming an environment file.
pub open spec fn spec_is_env_header(line: Seq<char>) -> bool {
    (spec_starts_with(line, "--- "@) || spec_starts_with(line, "+++ "@)) && spec_is_env_path(line)
}

/// The answers of the regex engine for the detectors on one line, in
/// detector order.
pub open spec fn spec_regex_hits(line: Seq<char>) -> Seq<bool> {
    Seq::new(10, |j: int| regex_matches(spec_detectors()[j].0, line))
}

/// Findings of the first `k` detectors, given whether each one matched.
pub open spec fn spec_flagged_hits(hits: Seq<bool>, number: usize, k: int) -> Seq<(Seq<char>, usize)>
    decreases k,
{
    if k <= 0 {
        Seq::empty()
    } else {
        let prev = spec_flagged_hits(hits, number, k - 1);
        if hits[k - 1] {
            prev.push((spec_detectors()[k - 1].1, number))
        } else {
            prev
        }
    }
}

/// All findings on line `number`, given whether each detector matched:
/// the labels of the matching detectors in detector order, then `.env` for
/// a header naming an environment file.
pub open spec fn spec_findings_from_hits(line: Seq<char>, number: usize, hits: Seq<bool>) -> Seq<(Seq<char>, usize)> {
    let found = spec_flagged_hits(hits, number, 10);
    if spec_is_env_header(line) {
        found.push((".env"@, number))
    } else {
        found
    }
}

/// All findings on one line, with the regex engine's answers.
pub open spec fn spec_line_findings(line: Seq<char>, number: usize) -> Seq<(Seq<char>, usize)> {
    spec_findings_from_hits(line, number, spec_regex_hits(line))
}

/// The findings on line `number` of a patch, given for each of the ten
/// detectors (in `spec_detectors` order) whether its pattern matched.
pub fn line_findings(line: &str, number: usize, hits: &[bool]) -> (r: Vec<SecurityViolation>)
    requires
        hits@.len() == 10,
    ensures
        r@.map_values(|v: SecurityViolation| v@) == spec_findings_from_hits(line@, number, hits@),
{
    let mut found: Vec<SecurityViolation> = Vec::new();
    let mut k: usize = 0;
    while k < 10
        invariant
            k <= 10,
            hits@.len() == 10,
            found@.map_values(|v: SecurityViolation| v@) == spec_flagged_hits(hits@, number, k as int),
        decreases 10 - k,
    {
        let (_, label) = detector(k);
        if hits[k] {
            let ghost prev = found@.map_values(|v: SecurityViolation| v@);
            found.push(SecurityViolation { pattern: String::from_str(label), line_number: number });
            assert(found@.map_values(|v: SecurityViolation| v@) =~= prev.push((label@, number)));
        }
        k = k + 1;
    }
    let cs = chars_of(line);
    let old_header = chars_of("--- ");
    let new_header = chars_of("+++ ");
    proof {
        reveal_strlit("--- ");
        reveal_strlit("+++ ");
    }
    let is_header = starts_with(&cs, &old_header) || starts_with(&cs, &new_header);
    if is_header && contains_env_path(line) {
        let ghost prev = found@.map_values(|v: SecurityViolation| v@);
        found.push(SecurityViolation { pattern: String::from_str(".env"), line_number: number });
        assert(found@.map_values(|v: SecurityViolation| v@) =~= prev.push((".env"@, number)));
    }
    found
}

/// Findings over lines, each line numbered by its position from 1.
pub open spec fn spec_scan_lines(ls: Seq<Seq<char>>) -> Seq<(Seq<char>, usize)>
    decreases ls.len(),
{
    if ls.len() == 0 {
        Seq::empty()
    } else {
        spec_scan_lines(ls.drop_last()) + spec_line_findings(ls.last(), ls.len() as usize)
    }
}

/// Whether a diff header line names `.env` or a `.env.*` file.
pub fn contains_env_path(line: &str) -> (r: bool)
    ensures
        r == spec_is_env_path(line@),
{
    let cs = chars_of(line);
    let (a, b) = second_word_bounds(&cs);
    let pa = chars_of("a/");
    let pb = chars_of("b/");
    let c = trim_start_matches_from(&cs, a, b, &pa);
    let d = trim_start_matches_from(&cs, c, b, &pb);
    let env = chars_of(".env");
    let env_dot = chars_of(".env.");
    let is_env = b - d == env.len() && occurs_at(&cs, &env, d);
    let is_env_dot = b - d >= env_dot.len() && occurs_at(&cs, &env_dot, d);
    proof {
        let n = cs@.subrange(d as int, b as int);
        assert(spec_header_path(cs@) == n);
        if n.len() == env@.len() {
            assert(cs@.subrange(d as int, d + env@.len()) =~= n);
        }
        if env_dot@.len() <= n.len() {
            assert(n.take(env_dot@.len() as int) =~= cs@.subrange(d as int, d + env_dot@.len()));
        }
    }
    is_env || is_env_dot
}

/// The detector patterns and labels as executable strings.
fn detector(k: usize) -> (r: (&'static str, &'static str))
    requires
        k < 10,
    ensures
        r.0@ == spec_detectors()[k as int].0,
        r.1@ == spec_detectors()[k as int].1,
{
    match k {
        0 => ("\\bAPI_KEY\\b", "API_KEY"),
        1 => ("\\bapi_key\\b", "api_key"),
        2 => ("\\bTOKEN\\b", "TOKEN"),
        3 => ("\\btoken\\b", "token"),
        4 => ("\\bPASSWORD\\b", "PASSWORD"),
        5 => ("\\bpassword\\b", "password"),
        6 => ("\\bSECRET\\b", "SECRET"),
        7 => ("\\bsecret\\b", "secret"),
        8 => ("\\bPRIVATE_KEY\\b", "PRIVATE_KEY"),
        _ => ("\\bprivate_key\\b", "private_key"),
    }
}

/// Scans a patch for likely secrets: each line (numbered from 1) is
/// matched against word patterns for API keys, tokens, passwords, secrets
/// and private keys, and `--- `/`+++ ` headers are checked for `.env`
/// files. Every finding is returned, in line order.
pub fn scan_diff(content: &str) -> (r: Vec<SecurityViolation>)
    ensures
        r@.map_values(|v: SecurityViolation| v@) == spec_scan_lines(spec_lines(content@)),
{
    let cs = chars_of(content);
    let ls = lines(&cs);
    let ghost sl = spec_lines(cs@);
    let mut violations: Vec<SecurityViolation> = Vec::new();
    let mut i: usize = 0;
    while i < ls.len()
        invariant
            i <= ls@.len(),
            ls@.len() == sl.len(),
            forall|k: int| 0 <= k < ls@.len() ==> #[trigger] ls@[k]@ == sl[k],
            violations@.map_values(|v: SecurityViolation| v@) == spec_scan_lines(sl.take(i as int)),
        decreases ls@.len() - i,
    {
        let line_number = i + 1;
        let line = string_from_chars(&ls[i]);
        let ghost l = sl[i as int];
        assert(line@ == l);
        let mut hits: Vec<bool> = Vec::new();
        let mut k: usize = 0;
        while k < 10
            invariant
                k <= 10,
                line@ == l,
                hits@ == spec_regex_hits(l).take(k as int),
            decreases 10 - k,
        {
            let (pattern, _) = detector(k);
            let hit = regex_is_match(pattern, line.as_str());
            hits.push(hit);
            assert(hits@ =~= spec_regex_hits(l).take(k + 1));
            k = k + 1;
        }
        assert(hits@ =~= spec_regex_hits(l));
        let found = line_findings(line.as_str(), line_number, hits.as_slice());
        let ghost prev = violations@.map_values(|v: SecurityViolation| v@);
        let mut j: usize = 0;
        while j < found.len()
            invariant
                j <= found@.len(),
                violations@.map_values(|v: SecurityViolation| v@) == prev + found@.map_values(
                    |v: SecurityViolation| v@,
                ).take(j as int),
            decreases found@.len() - j,
        {
            let v = SecurityViolation { pattern: found[j].pattern.clone(), line_number: found[j].line_number };
            let ghost before = violations@.map_values(|v: SecurityViolation| v@);
            violations.push(v);
            assert(violations@.map_values(|v: SecurityViolation| v@) =~= before.push(found@[j as int]@));
            assert(found@.map_values(|v: SecurityViolation| v@).take(j + 1) =~= found@.map_values(
                |v: SecurityViolation| v@,
            ).take(j as int).push(found@[j as int]@));
            j = j + 1;
        }
        proof {
            assert(found@.map_values(|v: SecurityViolation| v@).take(found@.len() as int) =~= found@.map_values(
                |v: SecurityViolation| v@,
            ));
            assert(sl.take(i + 1).drop_last() =~= sl.take(i as int));
            assert(sl.take(i + 1).last() == l);
            assert(violations@.map_values(|v: SecurityViolation| v@) =~= spec_scan_lines(
                sl.take(i + 1),
            ));
        }
        i = i + 1;
    }
    assert(sl.take(ls@.len() as int) =~= sl);
    violations
}

/// A diff header, old side (`--- `) or new side (`+++ `), that names `.env`
/// or a `.env.*` file is reported as a `.env` finding on its own line,
/// whatever the detectors answer: a patch that deletes, adds or edits an
/// environment file is flagged.
pub proof fn law_env_headers_are_flagged(l: Seq<char>, n: usize, hits: Seq<bool>)
    requires
        spec_starts_with(l, "--- "@) || spec_starts_with(l, "+++ "@),
        spec_is_env_path(l),
    ensures
        spec_findings_from_hits(l, n, hits).contains((".env"@, n)),
        spec_line_findings(l, n).contains((".env"@, n)),
{
    let f = spec_findings_from_hits(l, n, hits);
    assert(f[f.len() - 1] == (".env"@, n));
    let g = spec_line_findings(l, n);
    assert(g[g.len() - 1] == (".env"@, n));
}

/// The findings of a line are part of the findings of the whole patch.
proof fn lemma_scan_keeps_line_findings(ls: Seq<Seq<char>>, k: int, x: (Seq<char>, usize))
    requires
        0 <= k < ls.len(),
        spec_line_findings(ls[k], (k + 1) as usize).contains(x),
    ensures
        spec_scan_lines(ls).contains(x),
    decreases ls.len(),
{
    let init = ls.drop_last();
    let prev = spec_scan_lines(init);
    let last = spec_line_findings(ls.last(), ls.len() as usize);
    if k == ls.len() - 1 {
        let j = choose|j: int| 0 <= j < last.len() && last[j] == x;
        assert((prev + last)[prev.len() + j] == x);
    } else {
        assert(init[k] == ls[k]);
        lemma_scan_keeps_line_findings(init, k, x);
        let j = choose|j: int| 0 <= j < prev.len() && prev[j] == x;
        assert((prev + last)[j] == x);
    }
}

/// Scanning a patch reports every `--- ` or `+++ ` header that names an
/// environment file, with its line number (from 1).
pub proof fn law_scan_flags_env_headers(ls: Seq<Seq<char>>, k: int)
    requires
        0 <= k < ls.len(),
        ls.len() <= usize::MAX,
        spec_starts_with(ls[k], "--- "@) || spec_starts_with(ls[k], "+++ "@),
        spec_is_env_path(ls[k]),
    ensures
        spec_scan_lines(ls).contains((".env"@, (k + 1) as usize)),
{
    law_env_headers_are_flagged(ls[k], (k + 1) as usize, spec_regex_hits(ls[k]));
    lemma_scan_keeps_line_findings(ls, k, (".env"@, (k + 1) as usize));
}

} // verus!
