//! What the human is shown when the dev mode stops for a decision: the
//! Dev's patch with its files and risks, the question whether to apply it,
//! and the task's outcome before the next one.

use vstd::prelude::*;

use crate::kernel::text::{
    chars_of, join_strings, lines, push_decimal, push_str, spec_decimal, spec_join, spec_lines, string_from_chars,
};

verus! {

broadcast use vstd::string::group_string_axioms;

/// The risks as shown: `nenhum` when there are none.
pub open spec fn spec_risks_line(risks: Seq<Seq<char>>) -> Seq<char> {
    if risks.len() == 0 {
        "nenhum"@
    } else {
        spec_join(risks, ", "@)
    }
}

/// The header of a patch under review: its files and its risks.
pub open spec fn spec_review_header(files: Seq<Seq<char>>, risks: Seq<Seq<char>>) -> Seq<char> {
    "Arquivos: "@ + spec_join(files, ", "@) + "\nRiscos: "@ + spec_risks_line(risks) + "\n\n"@
}

fn push_review_header(s: &mut String, files: &[String], risks: &[String])
    ensures
        final(s)@ == old(s)@ + spec_review_header(files.deep_view(), risks.deep_view()),
{
    push_str(s, "Arquivos: ");
    let f = join_strings(files, ", ");
    push_str(s, f.as_str());
    push_str(s, "\nRiscos: ");
    if risks.len() == 0 {
        push_str(s, "nenhum");
    } else {
        let r = join_strings(risks, ", ");
        push_str(s, r.as_str());
    }
    push_str(s, "\n\n");
}

/// The patch as the terminal shows it for review: header, then the whole
/// diff.
pub fn diff_review_text(files: &[String], risks: &[String], diff: &str) -> (r: String)
    ensures
        r@ == spec_review_header(files.deep_view(), risks.deep_view()) + diff@,
{
    let mut s = String::new();
    push_review_header(&mut s, files, risks);
    push_str(&mut s, diff);
    s
}

/// How many lines of the diff the screen shows.
pub const PREVIEW_LINES: usize = 30;

/// At most the first `n` items of `s`.
pub open spec fn spec_first<T>(s: Seq<T>, n: nat) -> Seq<T> {
    if s.len() > n {
        s.take(n as int)
    } else {
        s
    }
}

/// The patch as the screen shows it for review: header, the diff's first
/// thirty lines, and how many more there are.
pub open spec fn spec_diff_review_preview(files: Seq<Seq<char>>, risks: Seq<Seq<char>>, diff: Seq<char>) -> Seq<char> {
    let ls = spec_lines(diff);
    spec_review_header(files, risks) + spec_join(spec_first(ls, PREVIEW_LINES as nat), "\n"@) + if ls.len() > PREVIEW_LINES {
        "\n... (+"@ + spec_decimal((ls.len() - PREVIEW_LINES) as nat) + " linhas)"@
    } else {
        Seq::empty()
    }
}

/// Builds the on-screen review of a patch.
pub fn diff_review_preview(files: &[String], risks: &[String], diff: &str) -> (r: String)
    ensures
        r@ == spec_diff_review_preview(files.deep_view(), risks.deep_view(), diff@),
{
    let mut s = String::new();
    push_review_header(&mut s, files, risks);
    let cs = chars_of(diff);
    let ls = lines(cs.as_slice());
    let n: usize = if ls.len() > PREVIEW_LINES { PREVIEW_LINES } else { ls.len() };
    let ghost all = spec_lines(diff@);
    let mut shown: Vec<String> = Vec::new();
    let mut i: usize = 0;
    while i < n
        invariant
            i <= n <= ls@.len(),
            n == (if ls@.len() > PREVIEW_LINES { PREVIEW_LINES } else { ls@.len() as usize }),
            cs@ == diff@,
            all == spec_lines(diff@),
            ls@.len() == all.len(),
            forall|k: int| 0 <= k < ls@.len() ==> #[trigger] ls@[k]@ == all[k],
            shown.deep_view() == all.take(i as int),
        decreases n - i,
    {
        let ghost before = shown.deep_view();
        shown.push(string_from_chars(ls[i].as_slice()));
        assert(shown.deep_view() =~= before.push(ls@[i as int]@));
        assert(all.take(i + 1) =~= all.take(i as int).push(all[i as int]));
        i = i + 1;
    }
    assert(shown.deep_view() =~= spec_first(all, PREVIEW_LINES as nat));
    let body = join_strings(shown.as_slice(), "\n");
    push_str(&mut s, body.as_str());
    if ls.len() > PREVIEW_LINES {
        push_str(&mut s, "\n... (+");
        push_decimal(&mut s, (ls.len() - PREVIEW_LINES) as u64);
        push_str(&mut s, " linhas)");
    }
    s
}

/// The first sixteen characters of a patch hash.
fn hash_head(hash: &str) -> (r: &str)
    requires
        hash@.len() >= 16,
    ensures
        r@ == hash@.take(16),
{
    hash.substring_char(0, 16)
}

/// The question whether to apply an approved patch.
pub fn apply_question(files: &[String], hash: &str) -> (r: String)
    requires
        hash@.len() >= 16,
    ensures
        r@ == "Aplicar patch?\n\nArquivos: "@ + spec_join(files.deep_view(), ", "@) + "\nHash: "@ + hash@.take(16),
{
    let mut s = String::from_str("Aplicar patch?\n\nArquivos: ");
    let f = join_strings(files, ", ");
    push_str(&mut s, f.as_str());
    push_str(&mut s, "\nHash: ");
    push_str(&mut s, hash_head(hash));
    s
}

/// What the human reads before deciding on the next task: the task, whether
/// its patch was applied, and the patch.
pub fn inter_task_info(description: &str, applied: bool, hash: &str) -> (r: String)
    requires
        hash@.len() >= 16,
    ensures
        r@ == "Tarefa: "@ + description@ + "\nStatus: "@ + (if applied {
            "aplicado"@
        } else {
            "skipped"@
        }) + "\nPatch: "@ + hash@.take(16),
{
    let mut s = String::from_str("Tarefa: ");
    push_str(&mut s, description);
    push_str(&mut s, "\nStatus: ");
    if applied {
        push_str(&mut s, "aplicado");
    } else {
        push_str(&mut s, "skipped");
    }
    push_str(&mut s, "\nPatch: ");
    push_str(&mut s, hash_head(hash));
    s
}

/// An audit-trail summary, tagged with the task it is about when there is
/// one.
pub fn task_log(task_id: Option<&str>, text: &str) -> (r: String)
    ensures
        r@ == match task_id {
            Some(id) => "[Task "@ + id@ + "] "@ + text@,
            None => text@,
        },
{
    match task_id {
        Some(id) => {
            let mut s = String::from_str("[Task ");
            push_str(&mut s, id);
            push_str(&mut s, "] ");
            push_str(&mut s, text);
            s
        },
        None => String::from_str(text),
    }
}

} // verus!
