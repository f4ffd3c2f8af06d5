//! Hand-offs between the Dev and Auditor agents, and the choice of the most
//! recent record among several.

use vstd::prelude::*;

use crate::schemas::{spec_handoff_check, AuditResponse, DevResponse, Handoff, HandoffStatus};

use super::text::{
    copy_strings, join_strings, push_str, spec_contains, spec_join, spec_occurs_at, spec_starts_with, spec_trim,
    spec_trim_start,
};

verus! {

broadcast use vstd::string::group_string_axioms;

/// The decisions the Dev hand-off records: the patch hash, then the
/// suggested tests when there are any.
pub open spec fn spec_dev_decisions(patch_hash: Seq<char>, tests: Seq<Seq<char>>) -> Seq<Seq<char>> {
    let first = seq!["Patch hash: "@ + patch_hash];
    if tests.len() > 0 {
        first.push("Testes sugeridos: "@ + spec_join(tests, "; "@))
    } else {
        first
    }
}

/// The hand-off from the Dev to the Auditor for a patch: waiting for audit,
/// with the Dev's summary, touched files and risks.
pub fn create_dev_to_auditor_handoff(
    _run_id: &str,
    step_id: &str,
    dev_response: &DevResponse,
    patch_hash: &str,
) -> (r: Handoff)
    ensures
        r.agent@ == "dev"@,
        r.target_agent@ == "auditor"@,
        r.step_id@ == step_id@,
        r.status == HandoffStatus::WaitingAudit,
        r.summary@ == dev_response.summary@,
        r.decisions.deep_view() == spec_dev_decisions(
            patch_hash@,
            dev_response.tests_suggested.deep_view(),
        ),
        r.files_touched.deep_view() == dev_response.files_touched.deep_view(),
        r.open_questions@.len() == 0,
        r.risks.deep_view() == dev_response.risks.deep_view(),
        r.next_action@ == "Revisar o patch, validar escopo e auditar riscos de segurança."@,
{
    let mut first = String::from_str("Patch hash: ");
    push_str(&mut first, patch_hash);
    let mut decisions: Vec<String> = Vec::new();
    decisions.push(first);
    if dev_response.tests_suggested.len() > 0 {
        let mut tests = String::from_str("Testes sugeridos: ");
        let joined = join_strings(dev_response.tests_suggested.as_slice(), "; ");
        push_str(&mut tests, joined.as_str());
        decisions.push(tests);
    }
    proof {
        assert(decisions.deep_view() =~= spec_dev_decisions(
            patch_hash@,
            dev_response.tests_suggested.deep_view(),
        ));
    }
    Handoff {
        agent: String::from_str("dev"),
        target_agent: String::from_str("auditor"),
        step_id: String::from_str(step_id),
        status: HandoffStatus::WaitingAudit,
        summary: dev_response.summary.clone(),
        decisions,
        files_touched: copy_strings(&dev_response.files_touched),
        open_questions: Vec::new(),
        risks: copy_strings(&dev_response.risks),
        next_action: String::from_str(
            "Revisar o patch, validar escopo e auditar riscos de segurança.",
        ),
    }
}

/// Each part of a joined text occurs in it.
pub proof fn lemma_join_contains_parts(parts: Seq<Seq<char>>, sep: Seq<char>, i: int)
    requires
        0 <= i < parts.len(),
    ensures
        spec_contains(spec_join(parts, sep), parts[i]),
    decreases parts.len(),
{
    let j = spec_join(parts, sep);
    if parts.len() == 1 {
        assert(j.subrange(0, parts[0].len() as int) =~= parts[0]);
        assert(spec_occurs_at(j, parts[i], 0));
    } else {
        let init = parts.drop_last();
        let ji = spec_join(init, sep);
        if i == parts.len() - 1 {
            let k: int = (ji.len() + sep.len()) as int;
            assert(j.subrange(k, k + parts[i].len()) =~= parts[i]);
            assert(spec_occurs_at(j, parts[i], k));
        } else {
            assert(init[i] == parts[i]);
            lemma_join_contains_parts(init, sep, i);
            let k = choose|k: int| spec_occurs_at(ji, parts[i], k);
            assert(j.subrange(k, k + parts[i].len()) =~= ji.subrange(k, k + parts[i].len()));
            assert(spec_occurs_at(j, parts[i], k));
        }
    }
}

/// Every test the Dev suggests reaches the Auditor: the Dev hand-off's
/// decisions are the patch hash and, when there are suggested tests, one
/// "Testes sugeridos: " line in which each of them occurs.
pub proof fn law_dev_handoff_lists_every_test(patch_hash: Seq<char>, tests: Seq<Seq<char>>)
    ensures
        spec_dev_decisions(patch_hash, tests)[0] == "Patch hash: "@ + patch_hash,
        tests.len() == 0 ==> spec_dev_decisions(patch_hash, tests).len() == 1,
        tests.len() > 0 ==> {
            let d = spec_dev_decisions(patch_hash, tests);
            &&& d.len() == 2
            &&& spec_starts_with(d[1], "Testes sugeridos: "@)
            &&& forall|i: int| 0 <= i < tests.len() ==> spec_contains(d[1], #[trigger] tests[i])
        },
{
    if tests.len() > 0 {
        let d = spec_dev_decisions(patch_hash, tests);
        let p = "Testes sugeridos: "@;
        let j = spec_join(tests, "; "@);
        assert(d[1] == p + j);
        assert(d[1].take(p.len() as int) =~= p);
        assert forall|i: int| 0 <= i < tests.len() implies spec_contains(d[1], #[trigger] tests[i]) by {
            lemma_join_contains_parts(tests, "; "@, i);
            let k = choose|k: int| spec_occurs_at(j, tests[i], k);
            assert(d[1].subrange(p.len() + k, p.len() + k + tests[i].len()) =~= j.subrange(k, k + tests[i].len()));
            assert(spec_occurs_at(d[1], tests[i], p.len() + k));
        }
    }
}

/// The summary of a rejection: the Auditor's blocking reason, or a default.
pub open spec fn spec_rejection_summary(blocked_reason: Option<String>) -> Seq<char> {
    match blocked_reason {
        Some(reason) => reason@,
        None => "Patch rejected by auditor"@,
    }
}

/// The hand-off from the Auditor back to the Dev after a rejection: the
/// required changes become both decisions and open questions, the problems
/// become risks.
pub fn create_auditor_to_dev_handoff(
    _run_id: &str,
    step_id: &str,
    audit_response: &AuditResponse,
) -> (r: Handoff)
    ensures
        r.agent@ == "auditor"@,
        r.target_agent@ == "dev"@,
        r.step_id@ == step_id@,
        r.status == HandoffStatus::Rejected,
        r.summary@ == spec_rejection_summary(audit_response.blocked_reason),
        r.decisions.deep_view() == audit_response.required_changes.deep_view(),
        r.files_touched@.len() == 0,
        r.open_questions.deep_view() == audit_response.required_changes.deep_view(),
        r.risks.deep_view() == audit_response.problems.deep_view(),
        r.next_action@ == "Revise the implementation and submit a new patch for review."@,
{
    let summary = match &audit_response.blocked_reason {
        Some(reason) => reason.clone(),
        None => String::from_str("Patch rejected by auditor"),
    };
    Handoff {
        agent: String::from_str("auditor"),
        target_agent: String::from_str("dev"),
        step_id: String::from_str(step_id),
        status: HandoffStatus::Rejected,
        summary,
        decisions: copy_strings(&audit_response.required_changes),
        files_touched: Vec::new(),
        open_questions: copy_strings(&audit_response.required_changes),
        risks: copy_strings(&audit_response.problems),
        next_action: String::from_str(
            "Revise the implementation and submit a new patch for review.",
        ),
    }
}

/// A word made of non-whitespace characters is not blank.
proof fn lemma_word_not_blank(s: Seq<char>)
    requires
        s.len() > 0,
        !super::text::spec_is_whitespace(s[0]),
    ensures
        spec_trim(s).len() > 0,
{
    assert(spec_trim_start(s) == s);
    if super::text::spec_is_whitespace(s.last()) {
        assert(s.len() > 1);
    }
    lemma_trim_end_keeps_first(s);
}

proof fn lemma_trim_end_keeps_first(s: Seq<char>)
    requires
        s.len() > 0,
        !super::text::spec_is_whitespace(s[0]),
    ensures
        super::text::spec_trim_end(s).len() > 0,
    decreases s.len(),
{
    if super::text::spec_is_whitespace(s.last()) {
        assert(s.len() > 1);
        assert(s.drop_last()[0] == s[0]);
        lemma_trim_end_keeps_first(s.drop_last());
    }
}

/// A hand-off built for a step validates exactly when the step id is not
/// blank: its agent names are never blank.
pub proof fn law_created_handoffs_validate(dev: Handoff, audit: Handoff, step_id: Seq<char>)
    requires
        dev.agent@ == "dev"@,
        dev.target_agent@ == "auditor"@,
        audit.agent@ == "auditor"@,
        audit.target_agent@ == "dev"@,
        dev.step_id@ == step_id,
        audit.step_id@ == step_id,
    ensures
        (spec_handoff_check(dev.agent@, dev.target_agent@, dev.step_id@) is Ok) <==> spec_trim(
            step_id,
        ).len() > 0,
        (spec_handoff_check(audit.agent@, audit.target_agent@, audit.step_id@) is Ok) <==> spec_trim(
            step_id,
        ).len() > 0,
{
    reveal_strlit("dev");
    reveal_strlit("auditor");
    lemma_word_not_blank("dev"@);
    lemma_word_not_blank("auditor"@);
}

/// The index of the most recent entry (largest time); on ties the earliest
/// such entry wins. `None` for no entries.
pub open spec fn spec_latest_index(times: Seq<u128>) -> Option<int>
    decreases times.len(),
{
    if times.len() == 0 {
        None
    } else {
        match spec_latest_index(times.drop_last()) {
            None => Some(times.len() - 1),
            Some(i) => if times.last() > times[i] {
                Some(times.len() - 1)
            } else {
                Some(i)
            },
        }
    }
}

/// `spec_latest_index` names the first entry with the largest time, and is
/// `None` only when there is no entry.
pub proof fn lemma_latest_index(times: Seq<u128>)
    ensures
        times.len() == 0 <==> spec_latest_index(times) is None,
        spec_latest_index(times) matches Some(i) ==> 0 <= i < times.len()
            && (forall|j: int| 0 <= j < times.len() ==> times[j] <= times[i])
            && (forall|j: int| 0 <= j < i ==> times[j] < times[i]),
    decreases times.len(),
{
    if times.len() > 0 {
        let init = times.drop_last();
        lemma_latest_index(init);
        assert forall|j: int| 0 <= j < init.len() implies init[j] == times[j] by {}
    }
}

/// Picks the most recent of several entries by modification time, as the
/// hand-off and patch lookups do: the first entry with the largest time.
pub fn latest_index(times: &Vec<u128>) -> (r: Option<usize>)
    ensures
        r matches Some(i) ==> spec_latest_index(times@) == Some(i as int),
        r is None ==> spec_latest_index(times@) is None,
        r matches Some(i) ==> i < times@.len() && (forall|j: int| 0 <= j < times@.len() ==> times@[j] <= times@[i as int]),
{
    let mut best: Option<usize> = None;
    let mut i: usize = 0;
    while i < times.len()
        invariant
            i <= times@.len(),
            best matches Some(b) ==> b < i,
            match best {
                Some(b) => spec_latest_index(times@.take(i as int)) == Some(b as int),
                None => spec_latest_index(times@.take(i as int)) is None,
            },
        decreases times@.len() - i,
    {
        assert(times@.take(i + 1).drop_last() =~= times@.take(i as int));
        assert(times@.take(i + 1).last() == times@[i as int]);
        if let Some(b) = best {
            assert(times@.take(i + 1)[b as int] == times@[b as int]);
        }
        best = match best {
            None => Some(i),
            Some(b) => if times[i] > times[b] {
                Some(i)
            } else {
                Some(b)
            },
        };
        i = i + 1;
    }
    assert(times@.take(times@.len() as int) =~= times@);
    proof {
        lemma_latest_index(times@);
    }
    best
}

} // verus!
