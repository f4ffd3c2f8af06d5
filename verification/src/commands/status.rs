//! What the `status` command reports besides reading files: the next
//! command to run and the state of each patch.

use vstd::prelude::*;

use crate::kernel::text::{chars_eq, chars_of, chars_range, push_str, str_eq};
use crate::schemas::{CycleState, CycleStatus};

verus! {

broadcast use vstd::string::group_string_axioms;

/// The command suggested for a cycle in `status`.
pub open spec fn spec_suggested_command(status: CycleStatus) -> Seq<char> {
    match status {
        CycleStatus::Initialized => "ai-orchestrator run"@,
        CycleStatus::DevDone | CycleStatus::AuditRequested => "ai-orchestrator audit"@,
        CycleStatus::Approved => "ai-orchestrator apply"@,
        CycleStatus::Rejected => "revise plan/contexto e execute ai-orchestrator run"@,
        CycleStatus::Applied => "git diff HEAD && git commit"@,
    }
}

/// The next command to run for a cycle in `status`.
pub fn suggested_command(status: &CycleStatus) -> (r: &'static str)
    ensures
        r@ == spec_suggested_command(*status),
{
    match status {
        CycleStatus::Initialized => "ai-orchestrator run",
        CycleStatus::DevDone | CycleStatus::AuditRequested => "ai-orchestrator audit",
        CycleStatus::Approved => "ai-orchestrator apply",
        CycleStatus::Rejected => "revise plan/contexto e execute ai-orchestrator run",
        CycleStatus::Applied => "git diff HEAD && git commit",
    }
}

/// The state of the patch stored at `relative`: the current cycle's patch
/// shows the cycle's verdict; every other patch is pending.
pub open spec fn spec_patch_status(cycle: CycleState, relative: Seq<char>) -> Seq<char> {
    match cycle.patch_file {
        Some(f) => if f@ == relative {
            match cycle.status {
                CycleStatus::Approved => "audited:approved"@,
                CycleStatus::Rejected => "audited:rejected"@,
                CycleStatus::Applied => "applied"@,
                _ => "pending"@,
            }
        } else {
            "pending"@
        },
        None => "pending"@,
    }
}

/// The state shown for the patch stored at `relative`.
pub fn patch_status(cycle: &CycleState, relative: &str) -> (r: &'static str)
    ensures
        r@ == spec_patch_status(*cycle, relative@),
{
    match &cycle.patch_file {
        Some(f) => if str_eq(f.as_str(), relative) {
            match cycle.status {
                CycleStatus::Approved => "audited:approved",
                CycleStatus::Rejected => "audited:rejected",
                CycleStatus::Applied => "applied",
                _ => "pending",
            }
        } else {
            "pending"
        },
        None => "pending",
    }
}

/// What the short status prints for the audit: its verdict, or `pending`.
pub fn audit_label(audit_approved: Option<bool>) -> (r: &'static str)
    ensures
        r@ == (match audit_approved {
            Some(true) => "approved"@,
            Some(false) => "rejected"@,
            None => "pending"@,
        }),
{
    match audit_approved {
        Some(true) => "approved",
        Some(false) => "rejected",
        None => "pending",
    }
}

// ── Patch files ────────────────────────────────────────────────────────────

/// The position of the last `c` in `s`, or `-1`.
pub open spec fn spec_last_index_of(s: Seq<char>, c: char) -> int
    decreases s.len(),
{
    if s.len() == 0 {
        -1
    } else if s.last() == c {
        s.len() - 1
    } else {
        spec_last_index_of(s.drop_last(), c)
    }
}

/// The file name has the extension `diff` (`Path::extension`): the text
/// after its last dot, with something before that dot.
pub open spec fn spec_is_diff_file(name: Seq<char>) -> bool {
    let k = spec_last_index_of(name, '.');
    k > 0 && name.skip(k + 1) == "diff"@
}

/// Where the last `c` of `s` is, within `s`.
proof fn lemma_last_index_bounds(s: Seq<char>, c: char)
    ensures
        -1 <= spec_last_index_of(s, c) < s.len(),
    decreases s.len(),
{
    if s.len() > 0 && s.last() != c {
        lemma_last_index_bounds(s.drop_last(), c);
    }
}

/// The position of the last `c` in `cs`.
fn last_index_of(cs: &[char], c: char) -> (r: Option<usize>)
    ensures
        match r {
            Some(i) => spec_last_index_of(cs@, c) == i,
            None => spec_last_index_of(cs@, c) == -1,
        },
{
    let mut i: usize = cs.len();
    assert(cs@.take(i as int) =~= cs@);
    while i > 0 && cs[i - 1] != c
        invariant
            i <= cs@.len(),
            spec_last_index_of(cs@, c) == spec_last_index_of(cs@.take(i as int), c),
        decreases i,
    {
        assert(cs@.take(i as int).drop_last() =~= cs@.take(i - 1));
        i = i - 1;
    }
    if i == 0 {
        assert(cs@.take(0) =~= Seq::<char>::empty());
        None
    } else {
        assert(cs@.take(i as int).last() == c);
        Some(i - 1)
    }
}

/// Whether `name` is a patch file (see `spec_is_diff_file`).
pub fn is_diff_file(name: &str) -> (r: bool)
    ensures
        r == spec_is_diff_file(name@),
{
    let cs = chars_of(name);
    proof {
        lemma_last_index_bounds(name@, '.');
        reveal_strlit("diff");
    }
    match last_index_of(cs.as_slice(), '.') {
        Some(k) => {
            if k == 0 {
                return false;
            }
            assert(spec_last_index_of(cs@, '.') == k as int);
            let n = cs.len();
            assert(k < n);
            let ext = chars_range(cs.as_slice(), k + 1, n);
            let diff = chars_of("diff");
            assert(ext@ =~= name@.skip(k + 1));
            chars_eq(ext.as_slice(), diff.as_slice())
        },
        None => false,
    }
}

/// The newest patch among the files of the patches folder, given their
/// names and modification times: a `.diff` file whose time no other
/// `.diff` file exceeds, the first such in the listing.
pub fn latest_patch(names: &[String], times: &[u128]) -> (r: Option<usize>)
    requires
        names@.len() == times@.len(),
    ensures
        match r {
            None => forall|j: int| 0 <= j < names@.len() ==> !spec_is_diff_file(#[trigger] names@[j]@),
            Some(i) => {
                &&& i < names@.len()
                &&& spec_is_diff_file(names@[i as int]@)
                &&& forall|j: int|
                    0 <= j < names@.len() && spec_is_diff_file(#[trigger] names@[j]@) ==> times@[j] <= times@[i as int]
                        && (j < i ==> times@[j] < times@[i as int])
            },
        },
{
    let mut best: Option<usize> = None;
    let mut i: usize = 0;
    while i < names.len()
        invariant
            i <= names@.len(),
            names@.len() == times@.len(),
            match best {
                None => forall|j: int| 0 <= j < i ==> !spec_is_diff_file(#[trigger] names@[j]@),
                Some(b) => {
                    &&& b < i
                    &&& spec_is_diff_file(names@[b as int]@)
                    &&& forall|j: int|
                        0 <= j < i && spec_is_diff_file(#[trigger] names@[j]@) ==> times@[j] <= times@[b as int]
                            && (j < b ==> times@[j] < times@[b as int])
                },
            },
        decreases names@.len() - i,
    {
        if is_diff_file(names[i].as_str()) {
            match best {
                None => {
                    best = Some(i);
                },
                Some(b) => {
                    if times[i] > times[b] {
                        best = Some(i);
                    }
                },
            }
        }
        i = i + 1;
    }
    best
}

/// A patch as the status report lists it: its path below the
/// orchestrator's folder and its state.
#[derive(Debug, Clone, PartialEq, Eq)]
pub struct PatchEntry {
    pub file: String,
    pub status: &'static str,
}

/// The report's entries as (file, state) pairs.
pub open spec fn spec_entries(v: Seq<PatchEntry>) -> Seq<(Seq<char>, Seq<char>)> {
    v.map_values(|e: PatchEntry| (e.file@, e.status@))
}

/// The `.diff` files of the listing, in listing order, each with its path
/// below the orchestrator's folder and its state.
pub open spec fn spec_patch_entries(cycle: CycleState, names: Seq<Seq<char>>) -> Seq<(Seq<char>, Seq<char>)>
    decreases names.len(),
{
    if names.len() == 0 {
        Seq::empty()
    } else {
        let prev = spec_patch_entries(cycle, names.drop_last());
        let name = names.last();
        if spec_is_diff_file(name) {
            let file = "patches/"@ + name;
            prev.push((file, spec_patch_status(cycle, file)))
        } else {
            prev
        }
    }
}

/// `a` comes no later than `b` in the order of `str::cmp` (character by
/// character, a prefix first).
pub open spec fn spec_chars_le(a: Seq<char>, b: Seq<char>) -> bool
    decreases a.len(),
{
    if a.len() == 0 {
        true
    } else if b.len() == 0 {
        false
    } else if a[0] != b[0] {
        a[0] < b[0]
    } else {
        spec_chars_le(a.drop_first(), b.drop_first())
    }
}

/// The entries are in ascending order of their files.
pub open spec fn spec_sorted_by_file(v: Seq<(Seq<char>, Seq<char>)>) -> bool {
    forall|i: int, j: int| 0 <= i < j < v.len() ==> spec_chars_le(#[trigger] v[i].0, #[trigger] v[j].0)
}

/// Any two texts are ordered one way or the other.
pub proof fn lemma_chars_le_total(a: Seq<char>, b: Seq<char>)
    ensures
        spec_chars_le(a, b) || spec_chars_le(b, a),
    decreases a.len(),
{
    if a.len() > 0 && b.len() > 0 && a[0] == b[0] {
        lemma_chars_le_total(a.drop_first(), b.drop_first());
    }
}

/// The order is transitive.
pub proof fn lemma_chars_le_trans(a: Seq<char>, b: Seq<char>, c: Seq<char>)
    requires
        spec_chars_le(a, b),
        spec_chars_le(b, c),
    ensures
        spec_chars_le(a, c),
    decreases a.len(),
{
    if a.len() > 0 && b.len() > 0 && c.len() > 0 && a[0] == b[0] && b[0] == c[0] {
        lemma_chars_le_trans(a.drop_first(), b.drop_first(), c.drop_first());
    }
}

/// Whether `a` comes no later than `b`.
fn chars_le(a: &[char], b: &[char]) -> (r: bool)
    ensures
        r == spec_chars_le(a@, b@),
{
    let mut i: usize = 0;
    assert(a@.skip(0) =~= a@);
    assert(b@.skip(0) =~= b@);
    while i < a.len() && i < b.len() && a[i] == b[i]
        invariant
            i <= a@.len() && i <= b@.len(),
            spec_chars_le(a@, b@) == spec_chars_le(a@.skip(i as int), b@.skip(i as int)),
        decreases a@.len() - i,
    {
        assert(a@.skip(i as int).drop_first() =~= a@.skip(i + 1));
        assert(b@.skip(i as int).drop_first() =~= b@.skip(i + 1));
        i = i + 1;
    }
    if i == a.len() {
        true
    } else if i == b.len() {
        false
    } else {
        a[i] < b[i]
    }
}

/// The patches of the report: the `.diff` files of the listing with their
/// states, in ascending order of their paths.
pub fn collect_patches(cycle: &CycleState, names: &[String]) -> (r: Vec<PatchEntry>)
    ensures
        spec_sorted_by_file(spec_entries(r@)),
        spec_entries(r@).to_multiset() == spec_patch_entries(*cycle, names.deep_view()).to_multiset(),
{
    broadcast use vstd::seq_lib::group_to_multiset_ensures;

    let mut found: Vec<PatchEntry> = Vec::new();
    let mut i: usize = 0;
    while i < names.len()
        invariant
            i <= names@.len(),
            spec_entries(found@) == spec_patch_entries(*cycle, names.deep_view().take(i as int)),
        decreases names@.len() - i,
    {
        assert(names.deep_view().take(i + 1).drop_last() =~= names.deep_view().take(i as int));
        assert(names.deep_view().take(i + 1).last() == names@[i as int]@);
        if is_diff_file(names[i].as_str()) {
            let mut file = String::from_str("patches/");
            push_str(&mut file, names[i].as_str());
            let status = patch_status(cycle, file.as_str());
            let ghost before = spec_entries(found@);
            found.push(PatchEntry { file, status });
            assert(spec_entries(found@) =~= before.push((found@.last().file@, status@)));
        }
        i = i + 1;
    }
    assert(names.deep_view().take(names@.len() as int) =~= names.deep_view());
    let mut sorted: Vec<PatchEntry> = Vec::new();
    let mut k: usize = 0;
    while k < found.len()
        invariant
            k <= found@.len(),
            spec_sorted_by_file(spec_entries(sorted@)),
            spec_entries(sorted@).to_multiset() == spec_entries(found@).take(k as int).to_multiset(),
        decreases found@.len() - k,
    {
        let e = PatchEntry { file: found[k].file.clone(), status: found[k].status };
        assert(spec_entries(found@)[k as int] == (e.file@, e.status@));
        let key = chars_of(e.file.as_str());
        let mut p: usize = 0;
        loop
            invariant
                p <= sorted@.len(),
                key@ == e.file@,
                forall|q: int| 0 <= q < p ==> spec_chars_le(#[trigger] spec_entries(sorted@)[q].0, e.file@),
            ensures
                p <= sorted@.len(),
                forall|q: int| 0 <= q < p ==> spec_chars_le(#[trigger] spec_entries(sorted@)[q].0, e.file@),
                p < sorted@.len() ==> !spec_chars_le(spec_entries(sorted@)[p as int].0, e.file@),
            decreases sorted@.len() - p,
        {
            if p >= sorted.len() {
                break;
            }
            let cur = chars_of(sorted[p].file.as_str());
            assert(spec_entries(sorted@)[p as int].0 == cur@);
            if !chars_le(cur.as_slice(), key.as_slice()) {
                break;
            }
            p = p + 1;
        }
        let ghost old_view = spec_entries(sorted@);
        let ghost x = (e.file@, e.status@);
        proof {
            if p < old_view.len() {
                lemma_chars_le_total(old_view[p as int].0, e.file@);
            }
        }
        sorted.insert(p, e);
        proof {
            let nv = spec_entries(sorted@);
            assert(nv =~= old_view.insert(p as int, x));
            assert forall|i: int, j: int| 0 <= i < j < nv.len() implies spec_chars_le(#[trigger] nv[i].0, #[trigger] nv[j].0) by {
                if j < p {
                    assert(nv[i] == old_view[i] && nv[j] == old_view[j]);
                } else if j == p {
                    assert(nv[i] == old_view[i]);
                } else if i == p {
                    assert(nv[j] == old_view[j - 1]);
                    if j - 1 > p {
                        lemma_chars_le_trans(x.0, old_view[p as int].0, old_view[j - 1].0);
                    }
                } else if i < p {
                    assert(nv[i] == old_view[i] && nv[j] == old_view[j - 1]);
                } else {
                    assert(nv[i] == old_view[i - 1] && nv[j] == old_view[j - 1]);
                }
            }
            vstd::seq_lib::to_multiset_insert(old_view, p as int, x);
            assert(spec_entries(found@).take(k + 1) =~= spec_entries(found@).take(k as int).push(x));
            vstd::seq_lib::to_multiset_build(spec_entries(found@).take(k as int), x);
        }
        k = k + 1;
    }
    assert(spec_entries(found@).take(found@.len() as int) =~= spec_entries(found@));
    sorted
}

// ── Plan steps ─────────────────────────────────────────────────────────────

/// What the `regex` crate counts when `pattern` is compiled and its
/// non-overlapping matches in `haystack` are listed (none when the pattern
/// does not compile).
pub uninterp spec fn regex_match_count(pattern: Seq<char>, haystack: Seq<char>) -> nat;

/// `regex::Regex::new(pattern)` then `Regex::find_iter(haystack).count()`.
/// The contract names the count; regular-expression semantics are not
/// stated.
#[verifier::external_body]
fn regex_count_matches(pattern: &str, haystack: &str) -> (r: usize)
    ensures
        r as nat == regex_match_count(pattern@, haystack@),
{
    match regex::Regex::new(pattern) {
        Ok(re) => re.find_iter(haystack).count(),
        Err(_) => 0,
    }
}

/// A numbered step of a plan: at a line's start, digits, a dot and
/// whitespace.
pub const STEP_PATTERN: &'static str = "(?m)^\\d+\\.\\s+";

/// How many numbered steps the plan has.
pub fn count_steps(plan: &str) -> (r: usize)
    ensures
        r as nat == regex_match_count(STEP_PATTERN@, plan@),
{
    regex_count_matches(STEP_PATTERN, plan)
}

} // verus!
