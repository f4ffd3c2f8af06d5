//! Unified-diff validation and the list of files a patch modifies.

use vstd::prelude::*;

use super::compute_sha256;
use super::spec_sha256_label;
use super::text::{
    chars_of, lines, seq_contains, spec_lines, spec_starts_with, spec_trim, spec_trim_start,
    starts_with, string_from_range, trim_range,
};

verus! {

broadcast use vstd::string::group_string_axioms;

/// A patch that passed the unified-diff check.
#[derive(Debug, Clone)]
pub struct ParsedDiff {
    pub files_modified: Vec<String>,
    pub is_valid_unified_diff: bool,
    pub raw: String,
}

/// Why a text is not accepted as a patch.
#[derive(Debug, Clone, Copy, PartialEq, Eq)]
pub enum DiffError {
    /// The text is empty or whitespace only.
    Empty,
    /// The text lacks a `--- ` or a `+++ ` header line.
    NotUnifiedDiff,
}

impl DiffError {
    /// The human-readable message of the error.
    pub fn message(&self) -> (r: String)
        ensures
            r@ == (match self {
                DiffError::Empty => "diff content is empty"@,
                DiffError::NotUnifiedDiff => "diff is not a valid unified diff"@,
            }),
    {
        match self {
            DiffError::Empty => String::from_str("diff content is empty"),
            DiffError::NotUnifiedDiff => String::from_str("diff is not a valid unified diff"),
        }
    }
}

/// Some line of `ls` begins with `p`.
pub open spec fn spec_some_line_starts_with(ls: Seq<Seq<char>>, p: Seq<char>) -> bool {
    exists|i: int| 0 <= i < ls.len() && spec_starts_with(#[trigger] ls[i], p)
}

/// The path that a `+++ b/<path>` line names.
pub open spec fn spec_new_path(l: Seq<char>) -> Seq<char> {
    spec_trim(l.skip("+++ b/"@.len() as int))
}

/// The line names a modified file: it begins with `+++ b/` and the path
/// after it is not blank.
pub open spec fn spec_names_path(l: Seq<char>) -> bool {
    spec_starts_with(l, "+++ b/"@) && spec_new_path(l).len() > 0
}

/// The files named by `+++ b/` lines, in order of first appearance, each once.
pub open spec fn spec_modified_files(ls: Seq<Seq<char>>) -> Seq<Seq<char>>
    decreases ls.len(),
{
    if ls.len() == 0 {
        Seq::empty()
    } else {
        let prev = spec_modified_files(ls.drop_last());
        let l = ls.last();
        if spec_names_path(l) && !prev.contains(spec_new_path(l)) {
            prev.push(spec_new_path(l))
        } else {
            prev
        }
    }
}

/// The paths appear once each, are not blank, and each is named by some line.
pub open spec fn spec_paths_well_formed(ls: Seq<Seq<char>>, paths: Seq<Seq<char>>) -> bool {
    &&& forall|i: int, j: int| 0 <= i < j < paths.len() ==> paths[i] != paths[j]
    &&& forall|i: int| 0 <= i < paths.len() ==> (#[trigger] paths[i]).len() > 0
    &&& forall|i: int| 0 <= i < paths.len() ==> spec_path_named(ls, #[trigger] paths[i])
}

/// Some line of `ls` is a `+++ b/` line that names `p`.
pub open spec fn spec_path_named(ls: Seq<Seq<char>>, p: Seq<char>) -> bool {
    exists|k: int| 0 <= k < ls.len() && spec_names_path(#[trigger] ls[k]) && spec_new_path(ls[k]) == p
}

/// Every path named by some line is in the list of modified files.
pub open spec fn spec_paths_complete(ls: Seq<Seq<char>>, paths: Seq<Seq<char>>) -> bool {
    forall|k: int| 0 <= k < ls.len() && spec_names_path(#[trigger] ls[k]) ==> paths.contains(
        spec_new_path(ls[k]),
    )
}

/// The list of modified files has no duplicate, no blank path, no path that
/// no line names, and misses none that a line names.
pub proof fn lemma_modified_files(ls: Seq<Seq<char>>)
    ensures
        spec_paths_well_formed(ls, spec_modified_files(ls)),
        spec_paths_complete(ls, spec_modified_files(ls)),
    decreases ls.len(),
{
    if ls.len() > 0 {
        let init = ls.drop_last();
        lemma_modified_files(init);
        let prev = spec_modified_files(init);
        let cur = spec_modified_files(ls);
        assert forall|i: int| 0 <= i < cur.len() implies spec_path_named(ls, #[trigger] cur[i]) by {
            if i < prev.len() {
                let k = choose|k: int|
                    0 <= k < init.len() && spec_names_path(#[trigger] init[k]) && spec_new_path(
                        init[k],
                    ) == prev[i];
                assert(ls[k] == init[k]);
            } else {
                assert(ls[ls.len() - 1] == ls.last());
            }
        }
        assert forall|k: int| 0 <= k < ls.len() && spec_names_path(#[trigger] ls[k]) implies cur.contains(
            spec_new_path(ls[k]),
        ) by {
            if k < ls.len() - 1 {
                assert(init[k] == ls[k]);
                let j = choose|j: int| 0 <= j < prev.len() && prev[j] == spec_new_path(init[k]);
                assert(cur[j] == prev[j]);
            } else {
                if prev.contains(spec_new_path(ls.last())) {
                    let j = choose|j: int| 0 <= j < prev.len() && prev[j] == spec_new_path(ls.last());
                    assert(cur[j] == prev[j]);
                } else {
                    assert(cur[cur.len() - 1] == spec_new_path(ls.last()));
                }
            }
        }
    }
}

/// What `parse_diff` returns for `content`.
pub open spec fn spec_parse_diff(content: Seq<char>) -> Result<Seq<Seq<char>>, DiffError> {
    if spec_trim(content).len() == 0 {
        Err(DiffError::Empty)
    } else if !spec_some_line_starts_with(spec_lines(content), "--- "@)
        || !spec_some_line_starts_with(spec_lines(content), "+++ "@) {
        Err(DiffError::NotUnifiedDiff)
    } else {
        Ok(spec_modified_files(spec_lines(content)))
    }
}

/// Checks that `content` is a unified diff (not blank, with a `--- ` line
/// and a `+++ ` line) and lists the files that its `+++ b/` lines name.
pub fn parse_diff(content: &str) -> (r: Result<ParsedDiff, DiffError>)
    ensures
        match spec_parse_diff(content@) {
            Ok(files) => r matches Ok(p) && p.files_modified.deep_view() == files
                && p.is_valid_unified_diff && p.raw@ == content@,
            Err(e) => r == Err::<ParsedDiff, DiffError>(e),
        },
        r matches Ok(p) ==> spec_paths_well_formed(spec_lines(content@), p.files_modified.deep_view())
            && spec_paths_complete(spec_lines(content@), p.files_modified.deep_view()),
{
    let cs = chars_of(content);
    let (a, b) = super::text::trim_bounds(&cs);
    if a == b {
        return Err(DiffError::Empty);
    }
    let ls = lines(&cs);
    let old_header = chars_of("--- ");
    let new_header = chars_of("+++ ");
    let path_header = chars_of("+++ b/");
    let ghost sl = spec_lines(cs@);
    let mut has_old = false;
    let mut has_new = false;
    let mut i: usize = 0;
    while i < ls.len()
        invariant
            i <= ls@.len(),
            ls@.len() == sl.len(),
            forall|k: int| 0 <= k < ls@.len() ==> #[trigger] ls@[k]@ == sl[k],
            old_header@ == "--- "@,
            new_header@ == "+++ "@,
            has_old == exists|k: int| 0 <= k < i && spec_starts_with(#[trigger] sl[k], "--- "@),
            has_new == exists|k: int| 0 <= k < i && spec_starts_with(#[trigger] sl[k], "+++ "@),
        decreases ls@.len() - i,
    {
        assert(ls@[i as int]@ == sl[i as int]);
        if starts_with(&ls[i], &old_header) {
            has_old = true;
        }
        if starts_with(&ls[i], &new_header) {
            has_new = true;
        }
        i = i + 1;
    }
    if !has_old || !has_new {
        return Err(DiffError::NotUnifiedDiff);
    }
    let mut files: Vec<String> = Vec::new();
    let mut seen: Vec<Vec<char>> = Vec::new();
    let mut j: usize = 0;
    while j < ls.len()
        invariant
            j <= ls@.len(),
            ls@.len() == sl.len(),
            forall|k: int| 0 <= k < ls@.len() ==> #[trigger] ls@[k]@ == sl[k],
            path_header@ == "+++ b/"@,
            files.deep_view() == spec_modified_files(sl.take(j as int)),
            seen.deep_view() == files.deep_view(),
        decreases ls@.len() - j,
    {
        let line = &ls[j];
        let ghost l = sl[j as int];
        assert(line@ == l);
        assert(sl.take(j + 1).drop_last() =~= sl.take(j as int));
        assert(sl.take(j + 1).last() == l);
        if starts_with(line, &path_header) {
            let (p, q) = trim_range(line, path_header.len(), line.len());
            proof {
                assert(line@.subrange(path_header@.len() as int, line@.len() as int) =~= l.skip(
                    "+++ b/"@.len() as int,
                ));
            }
            if p < q {
                let path: Vec<char> = line_slice(line, p, q);
                if !seq_contains(&seen, &path) {
                    let s = string_from_range(line, p, q);
                    let ghost old_seen = seen.deep_view();
                    let ghost old_files = files.deep_view();
                    assert(path.deep_view() =~= path@);
                    files.push(s);
                    seen.push(path);
                    proof {
                        assert(seen.deep_view() =~= old_seen.push(path@));
                        assert(files.deep_view() =~= old_files.push(s@));
                        assert(files.deep_view() =~= spec_modified_files(sl.take(j as int)).push(
                            spec_new_path(l),
                        ));
                        assert(seen.deep_view() =~= files.deep_view());
                    }
                }
            }
        }
        j = j + 1;
    }
    proof {
        assert(sl.take(ls@.len() as int) =~= sl);
        lemma_modified_files(sl);
        assert(spec_some_line_starts_with(sl, "--- "@));
        assert(spec_some_line_starts_with(sl, "+++ "@));
    }
    Ok(ParsedDiff { files_modified: files, is_valid_unified_diff: true, raw: String::from_str(content) })
}

/// The characters `cs[from..to]`.
fn line_slice(cs: &[char], from: usize, to: usize) -> (r: Vec<char>)
    requires
        from <= to <= cs@.len(),
    ensures
        r@ == cs@.subrange(from as int, to as int),
{
    let mut r: Vec<char> = Vec::new();
    let mut i = from;
    while i < to
        invariant
            from <= i <= to <= cs@.len(),
            r@ == cs@.subrange(from as int, i as int),
        decreases to - i,
    {
        r.push(cs[i]);
        i = i + 1;
        assert(r@ =~= cs@.subrange(from as int, i as int));
    }
    r
}

/// The hash recorded for a patch: `compute_sha256` of its text.
pub fn compute_patch_hash(content: &str) -> (r: String)
    ensures
        r@ == spec_sha256_label(content),
        r@.len() == 71,
{
    compute_sha256(content)
}

} // verus!
