pub mod apply;
pub mod cycle;
pub mod gate_text;
pub mod plan;
pub mod run;
pub mod session;
pub mod status;

use vstd::prelude::*;

use crate::kernel::text::{
    chars_of, find, is_blank, lemma_find_from, lines, push_str, spec_contains, spec_find, spec_find_from,
    spec_lines, spec_occurs_at, spec_starts_with, spec_trim, starts_with, str_contains, str_eq,
    str_starts_with, string_from_range, trim,
};
use crate::kernel::spec_sha256_label;
use crate::schemas::Task;

verus! {

broadcast use vstd::string::group_string_axioms;

/// The marker that introduces the human's notes in a gate's text.
pub const NOTES_MARKER: &'static str = "[NOTAS DO HUMANO]";

/// The word shown for the working tree's state.
pub fn status_label(ok: bool) -> (r: &'static str)
    ensures
        r@ == (if ok { "clean"@ } else { "dirty"@ }),
{
    if ok {
        "clean"
    } else {
        "dirty"
    }
}

/// What an interactive gate passes on: the content as it was, or, when the
/// human typed notes that hold more than whitespace, the content followed
/// by the notes under the marker.
pub open spec fn spec_gate_content(content: Seq<char>, notes: Option<Seq<char>>) -> Seq<char> {
    match notes {
        Some(n) => if spec_trim(n).len() > 0 {
            content + "\n\n"@ + NOTES_MARKER@ + "\n"@ + n
        } else {
            content
        },
        None => content,
    }
}

/// Composes what a gate passes on.
pub fn gate_content(content: &str, notes: Option<&str>) -> (r: String)
    ensures
        r@ == spec_gate_content(
            content@,
            match notes {
                Some(n) => Some(n@),
                None => None,
            },
        ),
{
    let mut s = String::from_str(content);
    match notes {
        Some(n) => {
            if !is_blank(n) {
                push_str(&mut s, "\n\n");
                push_str(&mut s, NOTES_MARKER);
                push_str(&mut s, "\n");
                push_str(&mut s, n);
            }
        },
        None => {},
    }
    s
}

/// The human's notes in a gate's text: whatever follows the first marker,
/// trimmed; `None` when there is no marker.
pub open spec fn spec_human_notes(text: Seq<char>) -> Option<Seq<char>> {
    let i = spec_find(text, NOTES_MARKER@);
    if i < 0 {
        None
    } else {
        Some(spec_trim(text.skip(i + NOTES_MARKER@.len())))
    }
}

/// Extracts the human's notes from a gate's text.
pub fn human_notes(text: &str) -> (r: Option<String>)
    ensures
        match r {
            Some(n) => spec_human_notes(text@) == Some(n@),
            None => spec_human_notes(text@) is None,
        },
{
    let cs = chars_of(text);
    let n = cs.len();
    let marker = chars_of(NOTES_MARKER);
    match find(&cs, &marker) {
        None => None,
        Some(i) => {
            proof {
                lemma_find_from(cs@, marker@, 0);
                assert(spec_occurs_at(cs@, marker@, i as int));
                assert(i + marker@.len() <= cs@.len());
            }
            let start = i + marker.len();
            let rest = string_from_range(&cs, start, n);
            let t = trim(rest.as_str());
            proof {
                assert(rest@ =~= cs@.skip(start as int));
            }
            Some(t)
        },
    }
}

/// The notes marker holds no line break and opens with `[`.
proof fn lemma_marker_shape()
    ensures
        NOTES_MARKER@.len() == 17,
        NOTES_MARKER@[0] == '[',
        forall|q: int| 0 <= q < NOTES_MARKER@.len() ==> NOTES_MARKER@[q] != '\n',
{
    reveal_strlit("[NOTAS DO HUMANO]");
}

/// The marker cannot start before the notes' separator in a gate's text
/// whose content does not carry it.
proof fn lemma_marker_first_at_separator(content: Seq<char>, full: Seq<char>)
    requires
        !spec_contains(content, NOTES_MARKER@),
        full.len() >= content.len() + 2 + NOTES_MARKER@.len(),
        full.subrange(0, content.len() as int) == content,
        full[content.len() as int] == '\n',
        full[content.len() as int + 1] == '\n',
    ensures
        forall|j: int| 0 <= j < content.len() + 2 ==> !spec_occurs_at(full, NOTES_MARKER@, j),
{
    lemma_marker_shape();
    let m = NOTES_MARKER@;
    assert forall|j: int| 0 <= j < content.len() + 2 implies !spec_occurs_at(full, m, j) by {
        if spec_occurs_at(full, m, j) {
            let w = full.subrange(j, j + m.len());
            if j + m.len() <= content.len() {
                assert(content.subrange(j, j + m.len()) =~= w);
                assert(spec_occurs_at(content, m, j));
            } else if j < content.len() {
                let k = content.len() - j;
                assert(w[k] == full[j + k]);
            } else {
                assert(w[0] == full[j]);
            }
        }
    }
}

/// What the human adds at a gate comes out again, trimmed, on the other
/// side: the notes read from a gate's text are the notes typed, as long as
/// the content shown did not itself carry the marker.
pub proof fn law_gate_notes_round_trip(content: Seq<char>, notes: Seq<char>)
    requires
        !spec_contains(content, NOTES_MARKER@),
        spec_trim(notes).len() > 0,
    ensures
        spec_human_notes(spec_gate_content(content, Some(notes))) == Some(spec_trim(notes)),
{
    reveal_strlit("\n\n");
    reveal_strlit("\n");
    lemma_marker_shape();
    let m = NOTES_MARKER@;
    let full = content + "\n\n"@ + m + "\n"@ + notes;
    let at: int = content.len() as int + 2;
    assert(full.subrange(0, content.len() as int) =~= content);
    assert(full.subrange(at, at + m.len() as int) =~= m);
    assert(spec_occurs_at(full, m, at));
    assert(full[content.len() as int] == '\n');
    assert(full[content.len() as int + 1] == '\n');
    lemma_marker_first_at_separator(content, full);
    lemma_find_from(full, m, 0);
    let f = spec_find(full, m);
    assert(f == at);
    assert(full.skip(at + m.len() as int) =~= "\n"@ + notes);
    crate::kernel::text::lemma_trim_skips_leading_newline(notes);
}

// ── The exported plan file ─────────────────────────────────────────────────

/// The warning at the top of the exported plan file.
pub const PLAN_HEADER: &'static str = "<!-- ⚠️ ESTE ARQUIVO É GERADO AUTOMATICAMENTE PELO AI-ORQUESTRATOR. NÃO EDITE DIRETAMENTE. -->\n\n";

/// The note at the end of the exported plan file.
pub const PLAN_FOOTER: &'static str = "\n---\n*Nota: Este arquivo é uma exportação do SQLite. O banco de dados é a fonte da verdade.*\n";

/// The check box of a task in the exported plan.
pub open spec fn spec_plan_mark(status: Seq<char>) -> Seq<char> {
    if status == "completed"@ {
        "[x]"@
    } else if status == "blocked"@ {
        "[!]"@
    } else {
        "[ ]"@
    }
}

/// One task's line in the exported plan.
pub open spec fn spec_plan_line(t: Task) -> Seq<char> {
    "- "@ + spec_plan_mark(t.status@) + " "@ + t.description@ + match t.assigned_to {
        Some(a) => " (@"@ + a@ + ")"@,
        None => Seq::empty(),
    } + "\n"@
}

/// The lines of all tasks.
pub open spec fn spec_plan_lines(tasks: Seq<Task>) -> Seq<char>
    decreases tasks.len(),
{
    if tasks.len() == 0 {
        Seq::empty()
    } else {
        spec_plan_lines(tasks.drop_last()) + spec_plan_line(tasks.last())
    }
}

/// The exported plan file: the warning, the title, the todo list (or a
/// note that it is empty) and the closing note.
pub open spec fn spec_plan_markdown(title: Seq<char>, tasks: Seq<Task>) -> Seq<char> {
    PLAN_HEADER@ + "# "@ + title + "\n\n## Todo List\n\n"@ + (if tasks.len() == 0 {
        "  (nenhuma tarefa definida)\n"@
    } else {
        spec_plan_lines(tasks)
    }) + PLAN_FOOTER@
}

/// Renders the plan file that `export_plan_to_markdown` writes.
pub fn plan_markdown(title: &str, tasks: &[Task]) -> (r: String)
    ensures
        r@ == spec_plan_markdown(title@, tasks@),
{
    let mut s = String::from_str(PLAN_HEADER);
    push_str(&mut s, "# ");
    push_str(&mut s, title);
    push_str(&mut s, "\n\n## Todo List\n\n");
    if tasks.len() == 0 {
        push_str(&mut s, "  (nenhuma tarefa definida)\n");
    } else {
        let ghost head = s@;
        let mut i: usize = 0;
        while i < tasks.len()
            invariant
                i <= tasks@.len(),
                s@ == head + spec_plan_lines(tasks@.take(i as int)),
            decreases tasks@.len() - i,
        {
            let t = &tasks[i];
            push_str(&mut s, "- ");
            let mark = if str_eq(t.status.as_str(), "completed") {
                "[x]"
            } else if str_eq(t.status.as_str(), "blocked") {
                "[!]"
            } else {
                "[ ]"
            };
            push_str(&mut s, mark);
            push_str(&mut s, " ");
            push_str(&mut s, t.description.as_str());
            match &t.assigned_to {
                Some(a) => {
                    push_str(&mut s, " (@");
                    push_str(&mut s, a.as_str());
                    push_str(&mut s, ")");
                },
                None => {},
            }
            push_str(&mut s, "\n");
            proof {
                assert(tasks@.take(i + 1).drop_last() =~= tasks@.take(i as int));
                assert(tasks@.take(i + 1).last() == tasks@[i as int]);
            }
            i = i + 1;
        }
        assert(tasks@.take(tasks@.len() as int) =~= tasks@);
    }
    push_str(&mut s, PLAN_FOOTER);
    s
}

/// Whether `plan.md` is in sync with the plan's last recorded version:
/// no file is no conflict; a file with no version recorded is one; else
/// the file's hash must be the recorded one.
pub fn plan_in_sync(file_hash: Option<&str>, recorded_hash: Option<&str>) -> (r: bool)
    ensures
        r == spec_hash_in_sync(
            match file_hash {
                Some(f) => Some(f@),
                None => None,
            },
            match recorded_hash {
                Some(h) => Some(h@),
                None => None,
            },
        ),
{
    match file_hash {
        None => true,
        Some(f) => match recorded_hash {
            Some(h) => str_eq(f, h),
            None => false,
        },
    }
}

/// A plan file that was exported and recorded is found in sync as long as
/// it keeps the content written: the hash recorded at export is the hash of
/// the text written, so the file's hash matches it exactly when the file's
/// text hashes like the text written.
pub proof fn law_exported_plan_stays_in_sync(written: &str, on_disk: &str)
    ensures
        on_disk@ == written@ ==> spec_sha256_label(on_disk) == spec_sha256_label(written),
        (spec_sha256_label(on_disk) == spec_sha256_label(written)) <==> spec_hash_in_sync(
            Some(spec_sha256_label(on_disk)),
            Some(spec_sha256_label(written)),
        ),
{
}

/// What `plan_in_sync` decides, over plain text.
pub open spec fn spec_hash_in_sync(file_hash: Option<Seq<char>>, recorded_hash: Option<Seq<char>>) -> bool {
    match file_hash {
        None => true,
        Some(f) => match recorded_hash {
            Some(h) => f == h,
            None => false,
        },
    }
}

// ── Previewing content at a gate ───────────────────────────────────────────

/// How a previewed line is shown.
#[derive(Debug, Clone, Copy, PartialEq, Eq)]
pub enum LineStyle {
    /// An added line of a diff.
    Added,
    /// A removed line of a diff.
    Removed,
    /// A hunk header.
    Hunk,
    /// A file header.
    Header,
    /// Anything else, dimmed.
    Dim,
}

/// The content is a unified diff: it has `--- ` and `+++ ` headers at the
/// start of a line and a hunk after a line break.
pub open spec fn spec_is_diff(c: Seq<char>) -> bool {
    (spec_contains(c, "\n--- "@) || spec_starts_with(c, "--- "@)) && (spec_contains(c, "\n+++ "@)
        || spec_starts_with(c, "+++ "@)) && spec_contains(c, "\n@@"@)
}

/// A line that opens the diff part of the content.
pub open spec fn spec_opens_diff(l: Seq<char>) -> bool {
    spec_starts_with(l, "--- "@) || spec_starts_with(l, "+++ "@) || l == "--- DIFF ---"@
}

/// The style of a line, inside or outside the diff part.
pub open spec fn spec_line_style(in_diff: bool, l: Seq<char>) -> LineStyle {
    if !in_diff {
        LineStyle::Dim
    } else if spec_starts_with(l, "+"@) && !spec_starts_with(l, "+++"@) {
        LineStyle::Added
    } else if spec_starts_with(l, "-"@) && !spec_starts_with(l, "---"@) {
        LineStyle::Removed
    } else if spec_starts_with(l, "@@"@) {
        LineStyle::Hunk
    } else if spec_starts_with(l, "+++"@) || spec_starts_with(l, "---"@) {
        LineStyle::Header
    } else {
        LineStyle::Dim
    }
}

/// Whether the diff part has begun after the first `k` lines.
pub open spec fn spec_in_diff_after(c: Seq<char>, k: int) -> bool
    decreases k,
{
    if k <= 0 {
        spec_is_diff(c) && (spec_starts_with(c, "--- "@) || spec_starts_with(c, "+++ "@) || spec_starts_with(
            c,
            "@@"@,
        ))
    } else {
        spec_in_diff_after(c, k - 1) || (spec_is_diff(c) && spec_opens_diff(spec_lines(c)[k - 1]))
    }
}

/// The style of line `k` of the content.
pub open spec fn spec_preview_style(c: Seq<char>, k: int) -> LineStyle {
    spec_line_style(spec_in_diff_after(c, k + 1), spec_lines(c)[k])
}

/// The preview of a gate's content: the styles of its first `max_lines`
/// lines, and how many lines are cut off.
pub fn preview_styles(content: &str, max_lines: usize) -> (r: (Vec<LineStyle>, usize))
    ensures
        r.0@.len() == (if spec_lines(content@).len() < max_lines { spec_lines(content@).len() } else { max_lines as nat }),
        forall|k: int| 0 <= k < r.0@.len() ==> r.0@[k] == #[trigger] spec_preview_style(content@, k),
        r.1 == (if spec_lines(content@).len() > max_lines { spec_lines(content@).len() - max_lines } else { 0 }),
{
    let cs = chars_of(content);
    let ls = lines(&cs);
    let total = ls.len();
    let shown = if total < max_lines { total } else { max_lines };
    let is_diff = (str_contains(content, "\n--- ") || str_starts_with(content, "--- ")) && (str_contains(
        content,
        "\n+++ ",
    ) || str_starts_with(content, "+++ ")) && str_contains(content, "\n@@");
    let mut in_diff = is_diff && (str_starts_with(content, "--- ") || str_starts_with(content, "+++ ")
        || str_starts_with(content, "@@"));
    let open1 = chars_of("--- ");
    let open2 = chars_of("+++ ");
    let marker = chars_of("--- DIFF ---");
    let plus = chars_of("+");
    let plus3 = chars_of("+++");
    let minus = chars_of("-");
    let minus3 = chars_of("---");
    let hunk = chars_of("@@");
    let mut styles: Vec<LineStyle> = Vec::new();
    let mut k: usize = 0;
    while k < shown
        invariant
            k <= shown,
            shown <= ls@.len(),
            ls@.len() == spec_lines(content@).len(),
            forall|j: int| 0 <= j < ls@.len() ==> #[trigger] ls@[j]@ == spec_lines(content@)[j],
            is_diff == spec_is_diff(content@),
            in_diff == spec_in_diff_after(content@, k as int),
            open1@ == "--- "@ && open2@ == "+++ "@ && marker@ == "--- DIFF ---"@,
            plus@ == "+"@ && plus3@ == "+++"@ && minus@ == "-"@ && minus3@ == "---"@ && hunk@ == "@@"@,
            styles@.len() == k,
            forall|j: int| 0 <= j < k ==> styles@[j] == #[trigger] spec_preview_style(content@, j),
        decreases shown - k,
    {
        let line = &ls[k];
        if is_diff && (starts_with(line, &open1) || starts_with(line, &open2) || crate::kernel::text::chars_eq(
            line,
            &marker,
        )) {
            in_diff = true;
        }
        let style = if !in_diff {
            LineStyle::Dim
        } else if starts_with(line, &plus) && !starts_with(line, &plus3) {
            LineStyle::Added
        } else if starts_with(line, &minus) && !starts_with(line, &minus3) {
            LineStyle::Removed
        } else if starts_with(line, &hunk) {
            LineStyle::Hunk
        } else if starts_with(line, &plus3) || starts_with(line, &minus3) {
            LineStyle::Header
        } else {
            LineStyle::Dim
        };
        styles.push(style);
        proof {
            assert(ls@[k as int]@ == spec_lines(content@)[k as int]);
        }
        k = k + 1;
    }
    let cut = if total > max_lines { total - max_lines } else { 0 };
    (styles, cut)
}

} // verus!
