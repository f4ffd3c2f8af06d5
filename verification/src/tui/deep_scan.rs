//! The deep scan of the shared memory: reading the `ai-memory` search
//! output into pages, naming the audit event each page stands for, and the
//! home screen's knowledge feed. Running the `ai-memory` CLI and writing the
//! events belongs to the program around this library.

use vstd::prelude::*;

use crate::kernel::db::EventType;
use crate::kernel::text::{
    chars_of, chars_range, ends_with, lemma_index_of_char, push_char, push_str, spec_ends_with, spec_index_of,
    spec_starts_with, starts_with, str_eq, str_starts_with, string_from_chars, string_from_range,
    chars_eq, contains, find, lemma_find_from, lines, spec_contains, spec_find, spec_lines, spec_trim,
    trim_bounds, is_blank, join_strings, occurs_at, push_decimal, spec_decimal, spec_join,
};
use vstd::string::StringSliceAdditionalSpecFns;
use vstd::wrapping::u64_specs::{wrapping_add, wrapping_mul};

verus! {

broadcast use vstd::string::group_string_axioms;

// ── Event metadata of a page ───────────────────────────────────────────────

/// The hash that names a page without a run: starting from zero, each byte
/// of the path multiplies the hash by 31 and adds itself, wrapping at 2^64.
pub open spec fn spec_path_hash(bytes: Seq<u8>) -> u64
    decreases bytes.len(),
{
    if bytes.len() == 0 {
        0
    } else {
        wrapping_add(wrapping_mul(spec_path_hash(bytes.drop_last()), 31), bytes.last() as u64)
    }
}

/// Computes the path hash.
pub fn path_hash(path: &str) -> (r: u64)
    ensures
        r == spec_path_hash(path.spec_bytes()),
{
    let bytes = path.as_bytes();
    let mut h: u64 = 0;
    let mut i: usize = 0;
    while i < bytes.len()
        invariant
            i <= bytes@.len(),
            bytes@ == path.spec_bytes(),
            h == spec_path_hash(bytes@.take(i as int)),
        decreases bytes@.len() - i,
    {
        assert(bytes@.take(i + 1).drop_last() =~= bytes@.take(i as int));
        h = h.wrapping_mul(31).wrapping_add(bytes[i] as u64);
        i = i + 1;
    }
    assert(bytes@.take(bytes@.len() as int) =~= bytes@);
    h
}

/// The lower-case hexadecimal digit of `d` (below sixteen).
pub open spec fn spec_hex_char(d: nat) -> char {
    if d < 10 {
        (48 + d) as char
    } else {
        (87 + d) as char
    }
}

/// The last `n` hexadecimal digits of `v`, zero-padded on the left.
pub open spec fn spec_hex_digits(v: nat, n: nat) -> Seq<char>
    decreases n,
{
    if n == 0 {
        Seq::empty()
    } else {
        spec_hex_digits(v / 16, (n - 1) as nat).push(spec_hex_char(v % 16))
    }
}

/// `format!("{:016x}", v)`: sixteen lower-case hexadecimal digits.
pub open spec fn spec_hex16(v: u64) -> Seq<char> {
    spec_hex_digits(v as nat, 16)
}

/// Appends the last `n` hexadecimal digits of `v`.
fn push_hex_digits(s: &mut String, v: u64, n: usize)
    ensures
        final(s)@ == old(s)@ + spec_hex_digits(v as nat, n as nat),
    decreases n,
{
    if n > 0 {
        push_hex_digits(s, v / 16, n - 1);
        let d = v % 16;
        let c: char = if d < 10 {
            ((48 + d) as u8) as char
        } else {
            ((87 + d) as u8) as char
        };
        push_char(s, c);
        assert(s@ =~= old(s)@ + spec_hex_digits(v as nat, n as nat));
    }
}

/// The run a page of `handoffs/` belongs to: after `run_`, the first path
/// segment (`<id>` of `run_<id>/…` or of `run_<id>.md`), without its `.md`
/// ending if it has one; a page not named `run_…` gets a name made of its
/// hash.
pub open spec fn spec_run_of_segment(seg: Seq<char>, hash: u64) -> Seq<char> {
    if spec_starts_with(seg, "run_"@) {
        let rest = seg.skip(4);
        let slash = spec_index_of(rest, '/');
        let first = if slash >= 0 { rest.take(slash) } else { rest };
        if spec_ends_with(first, ".md"@) {
            first.take(first.len() - 3)
        } else {
            first
        }
    } else {
        "scan-"@ + spec_hex16(hash)
    }
}

/// The event kind and run a memory page stands for, by its folder:
/// `handoffs/` pages are handoffs of the run they name, `decisions/` pages
/// passed gates, `plans/` and `notes/` pages enriched gates, and any other
/// page a handoff; a page without a run gets a name made of its hash.
pub open spec fn spec_scan_metadata(path: Seq<char>, hash: u64) -> (Seq<char>, Seq<char>) {
    if spec_starts_with(path, "handoffs/"@) {
        ("handoff_created"@, spec_run_of_segment(path.skip(9), hash))
    } else if spec_starts_with(path, "decisions/"@) {
        ("gate_passed"@, "scan-decisions-"@ + spec_hex16(hash))
    } else if spec_starts_with(path, "plans/"@) || spec_starts_with(path, "notes/"@) {
        ("gate_enriched"@, "scan-notes-"@ + spec_hex16(hash))
    } else {
        ("handoff_created"@, "scan-other-"@ + spec_hex16(hash))
    }
}

/// The position of the first `c` in `cs`, or `cs.len()`.
fn first_char_at(cs: &[char], c: char) -> (r: usize)
    ensures
        r <= cs@.len(),
        spec_index_of(cs@, c) == (if r == cs@.len() { -1 } else { r as int }),
{
    let mut i: usize = 0;
    while i < cs.len() && cs[i] != c
        invariant
            i <= cs@.len(),
            forall|j: int| 0 <= j < i ==> cs@[j] != c,
        decreases cs@.len() - i,
    {
        i = i + 1;
    }
    proof {
        lemma_index_of_char(cs@, c, i as int);
    }
    i
}

/// The run named by a page's path below `handoffs/`.
fn run_of_segment(seg: &[char], path: &str) -> (r: String)
    ensures
        r@ == spec_run_of_segment(seg@, spec_path_hash(path.spec_bytes())),
{
    let run_prefix = chars_of("run_");
    proof {
        reveal_strlit("run_");
    }
    if starts_with(seg, run_prefix.as_slice()) {
        let rest = chars_range(seg, 4, seg.len());
        assert(rest@ =~= seg@.skip(4));
        let k = first_char_at(rest.as_slice(), '/');
        let first = chars_range(rest.as_slice(), 0, k);
        assert(first@ =~= (if k < rest@.len() { rest@.take(k as int) } else { rest@ }));
        let md = chars_of(".md");
        proof {
            reveal_strlit(".md");
        }
        if ends_with(first.as_slice(), md.as_slice()) {
            string_from_range(first.as_slice(), 0, first.len() - 3)
        } else {
            string_from_chars(first.as_slice())
        }
    } else {
        let mut s = String::from_str("scan-");
        push_hex_digits(&mut s, path_hash(path), 16);
        s
    }
}

/// The event kind and run a memory page stands for (see
/// `spec_scan_metadata`).
pub fn extract_metadata_from_path(path: &str) -> (r: (&'static str, String))
    ensures
        (r.0@, r.1@) == spec_scan_metadata(path@, spec_path_hash(path.spec_bytes())),
{
    if str_starts_with(path, "handoffs/") {
        let cs = chars_of(path);
        proof {
            reveal_strlit("handoffs/");
        }
        let seg = chars_range(cs.as_slice(), 9, cs.len());
        assert(seg@ =~= path@.skip(9));
        ("handoff_created", run_of_segment(seg.as_slice(), path))
    } else if str_starts_with(path, "decisions/") {
        let mut s = String::from_str("scan-decisions-");
        push_hex_digits(&mut s, path_hash(path), 16);
        ("gate_passed", s)
    } else if str_starts_with(path, "plans/") || str_starts_with(path, "notes/") {
        let mut s = String::from_str("scan-notes-");
        push_hex_digits(&mut s, path_hash(path), 16);
        ("gate_enriched", s)
    } else {
        let mut s = String::from_str("scan-other-");
        push_hex_digits(&mut s, path_hash(path), 16);
        ("handoff_created", s)
    }
}

/// The page the dashboard reads for a run is the page the deep scan files
/// under that run: for a run id without `/`, `handoffs/run_<id>.md` names a
/// handoff of run `<id>`.
pub proof fn law_run_page_names_its_run(run_id: Seq<char>, hash: u64)
    requires
        forall|i: int| 0 <= i < run_id.len() ==> run_id[i] != '/',
    ensures
        spec_scan_metadata("handoffs/run_"@ + run_id + ".md"@, hash) == ("handoff_created"@, run_id),
{
    reveal_strlit("handoffs/run_");
    reveal_strlit("handoffs/");
    reveal_strlit("run_");
    reveal_strlit(".md");
    reveal_strlit("handoff_created");
    let path = "handoffs/run_"@ + run_id + ".md"@;
    assert(path.take(9) =~= "handoffs/"@);
    let seg = path.skip(9);
    assert(seg =~= "run_"@ + run_id + ".md"@);
    assert(seg.take(4) =~= "run_"@);
    let rest = seg.skip(4);
    assert(rest =~= run_id + ".md"@);
    assert forall|j: int| 0 <= j < rest.len() implies rest[j] != '/' by {
        if j < run_id.len() {
            assert(rest[j] == run_id[j]);
        } else {
            assert(rest[j] == ".md"@[j - run_id.len()]);
        }
    }
    lemma_index_of_char(rest, '/', rest.len() as int);
    assert(rest.skip(rest.len() - 3) =~= ".md"@);
    assert(rest.take(rest.len() - 3) =~= run_id);
}

/// The event kind named by the scan: a handoff, a passed gate, or else an
/// enriched gate.
pub fn scan_event_type(name: &str) -> (r: EventType)
    ensures
        r == (if name@ == "handoff_created"@ {
            EventType::HandoffCreated
        } else if name@ == "gate_passed"@ {
            EventType::GatePassed
        } else {
            EventType::GateEnriched
        }),
{
    if str_eq(name, "handoff_created") {
        EventType::HandoffCreated
    } else if str_eq(name, "gate_passed") {
        EventType::GatePassed
    } else {
        EventType::GateEnriched
    }
}

// ── Pages listed by a search ───────────────────────────────────────────────

/// A page of the shared memory: where it is and its title.
#[derive(Debug, Clone, PartialEq, Eq)]
pub struct MemoryPageInfo {
    pub path: String,
    pub title: String,
}

/// The pages as (path, title) pairs.
pub open spec fn spec_pages(v: Seq<MemoryPageInfo>) -> Seq<(Seq<char>, Seq<char>)> {
    v.map_values(|p: MemoryPageInfo| (p.path@, p.title@))
}

/// Some page of `pages` is at `path`.
pub open spec fn spec_has_path(pages: Seq<(Seq<char>, Seq<char>)>, path: Seq<char>) -> bool {
    exists|i: int| 0 <= i < pages.len() && #[trigger] pages[i].0 == path
}

/// What a search output line leaves after its two-space indent (nothing
/// when the line is not indented so).
pub open spec fn spec_unindent(line: Seq<char>) -> Seq<char> {
    if spec_starts_with(line, "  "@) {
        line.skip(2)
    } else {
        Seq::empty()
    }
}

/// The path a path line names: the text before `  rank=`, trimmed.
pub open spec fn spec_path_of_line(stripped: Seq<char>) -> Seq<char> {
    let cut = spec_find(stripped, "  rank="@);
    spec_trim(if cut >= 0 { stripped.take(cut) } else { stripped })
}

/// A path that names a page: it has a folder and is a markdown file.
pub open spec fn spec_page_path(path: Seq<char>) -> bool {
    spec_contains(path, "/"@) && spec_ends_with(path, ".md"@)
}

/// One line of the search output read, from the path waiting for its title
/// and the pages found so far. A line indented by two spaces names a page
/// (`<path>  rank=<score>`); the next non-blank line indented further, with
/// no `<` in it, is its title, and the page is listed unless its path
/// already is; any other line forgets the waiting path.
pub open spec fn spec_scan_line(
    last: Option<Seq<char>>,
    pages: Seq<(Seq<char>, Seq<char>)>,
    line: Seq<char>,
) -> (Option<Seq<char>>, Seq<(Seq<char>, Seq<char>)>) {
    let stripped = spec_unindent(line);
    if spec_starts_with(stripped, "  "@) || stripped.len() == 0 {
        match last {
            Some(p) => if spec_trim(stripped).len() > 0 && !spec_contains(stripped, "<"@) {
                (
                    None,
                    if spec_has_path(pages, p) {
                        pages
                    } else {
                        pages.push((p, spec_trim(stripped)))
                    },
                )
            } else {
                (last, pages)
            },
            None => (None, pages),
        }
    } else {
        let path = spec_path_of_line(stripped);
        if spec_page_path(path) {
            (Some(path), pages)
        } else {
            (None, pages)
        }
    }
}

/// The first `n` lines read, starting with no waiting path.
pub open spec fn spec_scan_lines(
    lines: Seq<Seq<char>>,
    n: nat,
    pages: Seq<(Seq<char>, Seq<char>)>,
) -> (Option<Seq<char>>, Seq<(Seq<char>, Seq<char>)>)
    decreases n,
{
    if n == 0 || n > lines.len() {
        (None, pages)
    } else {
        let prev = spec_scan_lines(lines, (n - 1) as nat, pages);
        spec_scan_line(prev.0, prev.1, lines[n - 1])
    }
}

/// The pages after one search's output is read.
pub open spec fn spec_collect_pages(output: Seq<char>, pages: Seq<(Seq<char>, Seq<char>)>) -> Seq<
    (Seq<char>, Seq<char>),
> {
    spec_scan_lines(spec_lines(output), spec_lines(output).len(), pages).1
}

/// No path is listed twice.
pub open spec fn spec_unique_paths(pages: Seq<(Seq<char>, Seq<char>)>) -> bool {
    forall|i: int, j: int| 0 <= i < j < pages.len() ==> #[trigger] pages[i].0 != #[trigger] pages[j].0
}

/// Whether a page at `path` is already listed.
fn listed(pages: &Vec<MemoryPageInfo>, path: &[char]) -> (r: bool)
    ensures
        r == spec_has_path(spec_pages(pages@), path@),
{
    let mut i: usize = 0;
    while i < pages.len()
        invariant
            i <= pages@.len(),
            forall|j: int| 0 <= j < i ==> spec_pages(pages@)[j].0 != path@,
        decreases pages@.len() - i,
    {
        let p = chars_of(pages[i].path.as_str());
        if chars_eq(p.as_slice(), path) {
            assert(spec_pages(pages@)[i as int].0 == path@);
            return true;
        }
        i = i + 1;
    }
    false
}

/// The view of the waiting path.
pub open spec fn spec_opt_chars(o: Option<Vec<char>>) -> Option<Seq<char>> {
    match o {
        Some(v) => Some(v@),
        None => None,
    }
}

/// Reads one line (see `spec_scan_line`).
fn scan_line(last: Option<Vec<char>>, pages: &mut Vec<MemoryPageInfo>, line: &[char]) -> (r: Option<Vec<char>>)
    ensures
        (spec_opt_chars(r), spec_pages(final(pages)@)) == spec_scan_line(
            spec_opt_chars(last),
            spec_pages(old(pages)@),
            line@,
        ),
{
    proof {
        reveal_strlit("  ");
        reveal_strlit("<");
        reveal_strlit("  rank=");
        reveal_strlit("/");
        reveal_strlit(".md");
    }
    let indent = chars_of("  ");
    let stripped: Vec<char> = if starts_with(line, indent.as_slice()) {
        chars_range(line, 2, line.len())
    } else {
        Vec::new()
    };
    assert(stripped@ =~= spec_unindent(line@));
    if starts_with(stripped.as_slice(), indent.as_slice()) || stripped.len() == 0 {
        match last {
            Some(p) => {
                let (a, b) = trim_bounds(stripped.as_slice());
                let lt = chars_of("<");
                if a < b && !contains(stripped.as_slice(), lt.as_slice()) {
                    if !listed(pages, p.as_slice()) {
                        let ghost before = spec_pages(pages@);
                        let page = MemoryPageInfo {
                            path: string_from_chars(p.as_slice()),
                            title: string_from_range(stripped.as_slice(), a, b),
                        };
                        pages.push(page);
                        assert(spec_pages(pages@) =~= before.push((p@, spec_trim(stripped@))));
                    }
                    None
                } else {
                    Some(p)
                }
            },
            None => None,
        }
    } else {
        let rank = chars_of("  rank=");
        let part: Vec<char> = match find(stripped.as_slice(), rank.as_slice()) {
            Some(cut) => {
                proof {
                    lemma_find_from(stripped@, rank@, 0);
                }
                chars_range(stripped.as_slice(), 0, cut)
            },
            None => chars_range(stripped.as_slice(), 0, stripped.len()),
        };
        assert(part@ =~= (if spec_find(stripped@, "  rank="@) >= 0 {
            stripped@.take(spec_find(stripped@, "  rank="@))
        } else {
            stripped@
        }));
        let (a, b) = trim_bounds(part.as_slice());
        let path = chars_range(part.as_slice(), a, b);
        let slash = chars_of("/");
        let md = chars_of(".md");
        if contains(path.as_slice(), slash.as_slice()) && ends_with(path.as_slice(), md.as_slice()) {
            Some(path)
        } else {
            None
        }
    }
}

/// Reads one search's output into `pages`: each page it lists is added in
/// order, unless its path is already listed.
pub fn collect_memory_pages(output: &str, pages: &mut Vec<MemoryPageInfo>)
    ensures
        spec_pages(final(pages)@) == spec_collect_pages(output@, spec_pages(old(pages)@)),
{
    let cs = chars_of(output);
    let ls = lines(cs.as_slice());
    let ghost all = spec_lines(output@);
    let ghost start = spec_pages(pages@);
    let mut last: Option<Vec<char>> = None;
    let mut i: usize = 0;
    while i < ls.len()
        invariant
            i <= ls@.len(),
            ls@.len() == all.len(),
            all == spec_lines(output@),
            forall|k: int| 0 <= k < ls@.len() ==> #[trigger] ls@[k]@ == all[k],
            (spec_opt_chars(last), spec_pages(pages@)) == spec_scan_lines(all, i as nat, start),
        decreases ls@.len() - i,
    {
        assert(ls@[i as int]@ == all[i as int]);
        last = scan_line(last, pages, ls[i].as_slice());
        i = i + 1;
    }
}

/// Reading a search's output never lists a path twice, and lists only
/// markdown pages in a folder: what held of the pages before still holds.
pub proof fn law_scanned_pages_are_unique_markdown(output: Seq<char>, pages: Seq<(Seq<char>, Seq<char>)>)
    requires
        spec_unique_paths(pages),
        forall|i: int| 0 <= i < pages.len() ==> spec_page_path(#[trigger] pages[i].0),
    ensures
        spec_unique_paths(spec_collect_pages(output, pages)),
        forall|i: int|
            0 <= i < spec_collect_pages(output, pages).len() ==> spec_page_path(
                #[trigger] spec_collect_pages(output, pages)[i].0,
            ),
        spec_collect_pages(output, pages).take(pages.len() as int) == pages,
{
    lemma_scan_keeps(spec_lines(output), spec_lines(output).len(), pages);
}

/// The state after `n` lines keeps the pages' uniqueness and shape, and a
/// waiting path is a page path.
proof fn lemma_scan_keeps(lines: Seq<Seq<char>>, n: nat, pages: Seq<(Seq<char>, Seq<char>)>)
    requires
        spec_unique_paths(pages),
        forall|i: int| 0 <= i < pages.len() ==> spec_page_path(#[trigger] pages[i].0),
    ensures
        ({
            let st = spec_scan_lines(lines, n, pages);
            &&& spec_unique_paths(st.1)
            &&& forall|i: int| 0 <= i < st.1.len() ==> spec_page_path(#[trigger] st.1[i].0)
            &&& (st.0 matches Some(p) ==> spec_page_path(p))
            &&& st.1.len() >= pages.len()
            &&& st.1.take(pages.len() as int) == pages
        }),
    decreases n,
{
    if n == 0 || n > lines.len() {
        assert(pages.take(pages.len() as int) =~= pages);
    } else {
        lemma_scan_keeps(lines, (n - 1) as nat, pages);
        let prev = spec_scan_lines(lines, (n - 1) as nat, pages);
        let st = spec_scan_lines(lines, n, pages);
        if st.1 != prev.1 {
            let p = prev.0->0;
            assert(st.1 == prev.1.push((p, spec_trim(spec_unindent(lines[n - 1])))));
            assert(!spec_has_path(prev.1, p));
            assert forall|i: int, j: int| 0 <= i < j < st.1.len() implies #[trigger] st.1[i].0 != #[trigger] st.1[j].0 by {
                if j == prev.1.len() {
                    assert(prev.1[i].0 != p);
                } else {
                    assert(st.1[i] == prev.1[i] && st.1[j] == prev.1[j]);
                }
            }
            assert(st.1.take(pages.len() as int) =~= prev.1.take(pages.len() as int));
        }
    }
}

// ── The knowledge feed and the run's memory page ──────────────────────────

/// `s` with every occurrence of `p` taken out, left to right
/// (`str::replace(p, "")`).
pub open spec fn spec_remove_all(s: Seq<char>, p: Seq<char>) -> Seq<char>
    decreases s.len(),
{
    if s.len() == 0 {
        Seq::empty()
    } else if p.len() > 0 && spec_starts_with(s, p) {
        spec_remove_all(s.skip(p.len() as int), p)
    } else {
        seq![s[0]] + spec_remove_all(s.drop_first(), p)
    }
}

/// Removes every occurrence of `p` from `cs`.
fn remove_all(cs: &[char], p: &[char]) -> (r: Vec<char>)
    ensures
        r@ == spec_remove_all(cs@, p@),
{
    let mut out: Vec<char> = Vec::new();
    let mut i: usize = 0;
    assert(cs@.skip(0) =~= cs@);
    while i < cs.len()
        invariant
            i <= cs@.len(),
            out@ + spec_remove_all(cs@.skip(i as int), p@) == spec_remove_all(cs@, p@),
        decreases cs@.len() - i,
    {
        let ghost rest = cs@.skip(i as int);
        assert(rest.take(p@.len() as int) =~= cs@.subrange(i as int, i + p@.len()) || p@.len() > rest.len());
        if p.len() > 0 && occurs_at(cs, p, i) {
            assert(rest.take(p@.len() as int) =~= cs@.subrange(i as int, i + p@.len()));
            assert(rest.skip(p@.len() as int) =~= cs@.skip(i + p@.len()));
            i = i + p.len();
        } else {
            proof {
                if p@.len() > 0 && p@.len() <= rest.len() {
                    assert(rest.take(p@.len() as int) =~= cs@.subrange(i as int, i + p@.len()));
                }
                assert(rest.drop_first() =~= cs@.skip(i + 1));
                assert(out@.push(cs@[i as int]) + spec_remove_all(cs@.skip(i + 1), p@) =~= out@ + (seq![rest[0]]
                    + spec_remove_all(rest.drop_first(), p@)));
            }
            out.push(cs[i]);
            i = i + 1;
        }
    }
    assert(cs@.skip(i as int) =~= Seq::<char>::empty());
    assert(out@ + Seq::<char>::empty() =~= out@);
    out
}

/// At most the first `n` items of `s`.
pub open spec fn spec_take_upto<T>(s: Seq<T>, n: nat) -> Seq<T> {
    if s.len() > n {
        s.take(n as int)
    } else {
        s
    }
}

/// The feed made of a search's output: nothing when the output is blank;
/// else the output without its `<mark>` and `</mark>` highlights, cut to
/// its first fifty lines.
pub open spec fn spec_memory_feed(output: Seq<char>) -> Option<Seq<char>> {
    if spec_trim(output).len() == 0 {
        None
    } else {
        let clean = spec_remove_all(spec_remove_all(output, "<mark>"@), "</mark>"@);
        Some(spec_join(spec_take_upto(spec_lines(clean), 50), "\n"@))
    }
}

/// Builds the home screen's feed from a search's output (see
/// `spec_memory_feed`).
pub fn memory_feed(output: &str) -> (r: Option<String>)
    ensures
        match r {
            Some(t) => spec_memory_feed(output@) == Some(t@),
            None => spec_memory_feed(output@) is None,
        },
{
    if is_blank(output) {
        return None;
    }
    let cs = chars_of(output);
    let open = chars_of("<mark>");
    let close = chars_of("</mark>");
    let once = remove_all(cs.as_slice(), open.as_slice());
    let clean = remove_all(once.as_slice(), close.as_slice());
    let ls = lines(clean.as_slice());
    let n: usize = if ls.len() > 50 { 50 } else { ls.len() };
    let mut parts: Vec<String> = Vec::new();
    let mut i: usize = 0;
    while i < n
        invariant
            i <= n <= ls@.len(),
            n == (if ls@.len() > 50 { 50 } else { ls@.len() }),
            ls@.len() == spec_lines(clean@).len(),
            forall|k: int| 0 <= k < ls@.len() ==> #[trigger] ls@[k]@ == spec_lines(clean@)[k],
            parts.deep_view() == spec_lines(clean@).take(i as int),
        decreases n - i,
    {
        let ghost before = parts.deep_view();
        parts.push(string_from_chars(ls[i].as_slice()));
        assert(parts.deep_view() =~= before.push(ls@[i as int]@));
        assert(spec_lines(clean@).take(i + 1) =~= spec_lines(clean@).take(i as int).push(spec_lines(clean@)[i as int]));
        i = i + 1;
    }
    assert(parts.deep_view() =~= spec_take_upto(spec_lines(clean@), 50));
    Some(join_strings(parts.as_slice(), "\n"))
}

/// What the feed shows when no search gave anything.
pub const FEED_UNAVAILABLE: &'static str = "── Feed de Conhecimento ──\n\nai-memory não disponível\nou sem páginas recentes.\n\nPressione 'r' para tentar novamente.";

/// The canonical memory page of a run's handoff.
pub fn run_page_path(run_id: &str) -> (r: String)
    ensures
        r@ == "handoffs/run_"@ + run_id@ + ".md"@,
{
    let mut s = String::from_str("handoffs/run_");
    push_str(&mut s, run_id);
    push_str(&mut s, ".md");
    s
}

/// What the dashboard shows of a run's memory: the run's own handoff page
/// when it was read and is not blank, else the best page a search for the
/// run found, else a note that none was found.
pub open spec fn spec_run_memory_text(run_id: Seq<char>, direct: Option<Seq<char>>, searched: Option<Seq<char>>) -> Seq<
    char,
> {
    if direct matches Some(d) && spec_trim(d).len() > 0 {
        "📄 Handoff vinculado ao run "@ + run_id + "\n\n"@ + direct->0
    } else if searched matches Some(b) && spec_trim(b).len() > 0 {
        "🔍 Busca por run_id "@ + run_id + " (melhor match)\n\n"@ + searched->0
    } else {
        "Nenhuma página de handoff encontrada no ai-memory para o run_id:\n"@ + run_id
            + "\n\n(Fase 4.3b: handoffs são sincronizados via write-page em etapas anteriores do ciclo)"@
    }
}

/// Builds what the dashboard shows of a run's memory from the two reads
/// (`None` where a read failed).
pub fn run_memory_text(run_id: &str, direct: Option<&str>, searched: Option<&str>) -> (r: String)
    ensures
        r@ == spec_run_memory_text(
            run_id@,
            match direct {
                Some(d) => Some(d@),
                None => None,
            },
            match searched {
                Some(b) => Some(b@),
                None => None,
            },
        ),
{
    match direct {
        Some(d) => {
            if !is_blank(d) {
                let mut s = String::from_str("📄 Handoff vinculado ao run ");
                push_str(&mut s, run_id);
                push_str(&mut s, "\n\n");
                push_str(&mut s, d);
                return s;
            }
        },
        None => {},
    }
    match searched {
        Some(b) => {
            if !is_blank(b) {
                let mut s = String::from_str("🔍 Busca por run_id ");
                push_str(&mut s, run_id);
                push_str(&mut s, " (melhor match)\n\n");
                push_str(&mut s, b);
                return s;
            }
        },
        None => {},
    }
    let mut s = String::from_str("Nenhuma página de handoff encontrada no ai-memory para o run_id:\n");
    push_str(&mut s, run_id);
    push_str(&mut s, "\n\n(Fase 4.3b: handoffs são sincronizados via write-page em etapas anteriores do ciclo)");
    s
}

/// The closing report of a deep scan.
pub fn scan_report(ingested: u64, skipped: u64, failed: u64) -> (r: String)
    ensures
        r@ == "\n✅ Deep Scan concluído!\n   Ingeridos: "@ + spec_decimal(ingested as nat) + "\n   Já existiam: "@
            + spec_decimal(skipped as nat) + "\n   Erros: "@ + spec_decimal(failed as nat),
{
    let mut s = String::from_str("\n✅ Deep Scan concluído!\n   Ingeridos: ");
    push_decimal(&mut s, ingested);
    push_str(&mut s, "\n   Já existiam: ");
    push_decimal(&mut s, skipped);
    push_str(&mut s, "\n   Erros: ");
    push_decimal(&mut s, failed);
    s
}

} // verus!
