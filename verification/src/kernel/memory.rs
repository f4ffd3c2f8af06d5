//! The shared memory file: how a hand-off is summarized into the Markdown
//! context that every agent reads.

use vstd::prelude::*;

use crate::schemas::{Handoff, HandoffStatus};

use super::{compute_sha256, sha256_of, spec_hex_lower};

use super::text::{push_str, spec_contains, spec_join, spec_occurs_at, str_eq};

verus! {

broadcast use vstd::string::group_string_axioms;

/// The label under which an agent appears in the memory file.
pub open spec fn spec_agent_label(agent: Seq<char>) -> Seq<char> {
    if agent == "dev"@ {
        "IA Dev"@
    } else if agent == "auditor"@ {
        "IA Auditora"@
    } else if agent == "architect"@ {
        "IA Arquiteta"@
    } else {
        agent
    }
}

/// The Portuguese label of a hand-off status.
pub open spec fn spec_status_label(status: HandoffStatus) -> Seq<char> {
    match status {
        HandoffStatus::WaitingAudit => "Aguardando auditoria"@,
        HandoffStatus::Approved => "Aprovado"@,
        HandoffStatus::Rejected => "Reprovado — requer correções"@,
        HandoffStatus::ReadyForDev => "Pronto para Dev"@,
        HandoffStatus::WaitingHuman => "Aguardando humano"@,
    }
}

/// The label of an agent in the memory file.
pub fn agent_label(agent: &str) -> (r: String)
    ensures
        r@ == spec_agent_label(agent@),
{
    if str_eq(agent, "dev") {
        String::from_str("IA Dev")
    } else if str_eq(agent, "auditor") {
        String::from_str("IA Auditora")
    } else if str_eq(agent, "architect") {
        String::from_str("IA Arquiteta")
    } else {
        String::from_str(agent)
    }
}

/// The label of a hand-off status in the memory file.
pub fn status_label(status: HandoffStatus) -> (r: &'static str)
    ensures
        r@ == spec_status_label(status),
{
    match status {
        HandoffStatus::WaitingAudit => "Aguardando auditoria",
        HandoffStatus::Approved => "Aprovado",
        HandoffStatus::Rejected => "Reprovado — requer correções",
        HandoffStatus::ReadyForDev => "Pronto para Dev",
        HandoffStatus::WaitingHuman => "Aguardando humano",
    }
}

/// Each item as a `  - item` line.
pub open spec fn spec_bullets(items: Seq<Seq<char>>) -> Seq<Seq<char>> {
    items.map_values(|it: Seq<char>| "  - "@ + it)
}

/// A bulleted list, one item per line, or `empty` when there are no items.
pub open spec fn spec_bullet_block(items: Seq<Seq<char>>, empty: Seq<char>) -> Seq<char> {
    if items.len() == 0 {
        empty
    } else {
        spec_join(spec_bullets(items), "\n"@)
    }
}

/// Renders a bulleted list of `items`, or `empty` when there are none.
pub fn bullet_block(items: &Vec<String>, empty: &str) -> (r: String)
    ensures
        r@ == spec_bullet_block(items.deep_view(), empty@),
{
    if items.len() == 0 {
        return String::from_str(empty);
    }
    let mut lines: Vec<String> = Vec::new();
    let mut i: usize = 0;
    while i < items.len()
        invariant
            i <= items@.len(),
            lines.deep_view() == spec_bullets(items.deep_view().take(i as int)),
        decreases items@.len() - i,
    {
        let mut line = String::from_str("  - ");
        push_str(&mut line, items[i].as_str());
        let ghost prev = lines.deep_view();
        lines.push(line);
        proof {
            assert(lines.deep_view() =~= prev.push(line@));
            assert(spec_bullets(items.deep_view().take(i + 1)) =~= spec_bullets(
                items.deep_view().take(i as int),
            ).push("  - "@ + items@[i as int]@));
        }
        i = i + 1;
    }
    assert(items.deep_view().take(items@.len() as int) =~= items.deep_view());
    super::text::join_strings(lines.as_slice(), "\n")
}

/// The Markdown section that a hand-off adds to the memory file.
pub open spec fn spec_handoff_section(run_id: Seq<char>, h: Handoff, timestamp: Seq<char>) -> Seq<char> {
    let summary = if h.summary@.len() == 0 {
        "(sem resumo)"@
    } else {
        h.summary@
    };
    let next = if h.next_action@.len() == 0 {
        "(sem próxima ação definida)"@
    } else {
        h.next_action@
    };
    "\n## ["@ + spec_agent_label(h.agent@) + "] Run "@ + run_id + " — "@ + timestamp
        + "\n**Status:** "@ + spec_status_label(h.status) + "  \n**Resumo:** "@ + summary
        + "\n**Próxima ação:** "@ + next + "\n\n**Arquivos tocados:**\n"@ + spec_bullet_block(
        h.files_touched.deep_view(),
        "  (nenhum arquivo)"@,
    ) + "\n\n**Decisões tomadas:**\n"@ + spec_bullet_block(h.decisions.deep_view(), "  (nenhuma)"@)
        + "\n\n**Riscos identificados:**\n"@ + spec_bullet_block(h.risks.deep_view(), "  (nenhum)"@)
        + "\n\n**Dúvidas em aberto:**\n"@ + spec_bullet_block(
        h.open_questions.deep_view(),
        "  (nenhuma)"@,
    ) + "\n"@
}

/// The Markdown section appended to the memory context for a hand-off of
/// run `run_id` at `timestamp` (RFC 3339): agent and status labels, summary,
/// next action, and the files, decisions, risks and open questions as lists.
pub fn handoff_section(run_id: &str, handoff: &Handoff, timestamp: &str) -> (r: String)
    ensures
        r@ == spec_handoff_section(run_id@, *handoff, timestamp@),
{
    let mut s = String::from_str("\n## [");
    let label = agent_label(handoff.agent.as_str());
    push_str(&mut s, label.as_str());
    push_str(&mut s, "] Run ");
    push_str(&mut s, run_id);
    push_str(&mut s, " — ");
    push_str(&mut s, timestamp);
    push_str(&mut s, "\n**Status:** ");
    push_str(&mut s, status_label(handoff.status));
    push_str(&mut s, "  \n**Resumo:** ");
    if handoff.summary.as_str().is_empty() {
        push_str(&mut s, "(sem resumo)");
    } else {
        push_str(&mut s, handoff.summary.as_str());
    }
    push_str(&mut s, "\n**Próxima ação:** ");
    if handoff.next_action.as_str().is_empty() {
        push_str(&mut s, "(sem próxima ação definida)");
    } else {
        push_str(&mut s, handoff.next_action.as_str());
    }
    push_str(&mut s, "\n\n**Arquivos tocados:**\n");
    let files = bullet_block(&handoff.files_touched, "  (nenhum arquivo)");
    push_str(&mut s, files.as_str());
    push_str(&mut s, "\n\n**Decisões tomadas:**\n");
    let decisions = bullet_block(&handoff.decisions, "  (nenhuma)");
    push_str(&mut s, decisions.as_str());
    push_str(&mut s, "\n\n**Riscos identificados:**\n");
    let risks = bullet_block(&handoff.risks, "  (nenhum)");
    push_str(&mut s, risks.as_str());
    push_str(&mut s, "\n\n**Dúvidas em aberto:**\n");
    let questions = bullet_block(&handoff.open_questions, "  (nenhuma)");
    push_str(&mut s, questions.as_str());
    push_str(&mut s, "\n");
    assert(s@ =~= spec_handoff_section(run_id@, *handoff, timestamp@));
    s
}

/// A list as the memory file shows it: each item on its own `  - ` line,
/// or `none` when there is no item.
pub open spec fn spec_listed(items: Seq<Seq<char>>, none: Seq<char>) -> Seq<char> {
    if items.len() == 0 {
        none
    } else {
        spec_join(items.map_values(|it: Seq<char>| "  - "@ + it), "\n"@)
    }
}

/// A hand-off's section lists the hand-off's own decisions under
/// "Decisões tomadas" and its own risks under "Riscos identificados", each
/// list running up to the next heading: what one agent decided and feared
/// reaches the agents that read the memory.
pub proof fn law_section_lists_decisions_and_risks(run_id: Seq<char>, h: Handoff, timestamp: Seq<char>)
    ensures
        spec_contains(
            spec_handoff_section(run_id, h, timestamp),
            "**Decisões tomadas:**\n"@ + spec_listed(h.decisions.deep_view(), "  (nenhuma)"@)
                + "\n\n**Riscos identificados:**\n"@,
        ),
        spec_contains(
            spec_handoff_section(run_id, h, timestamp),
            "**Riscos identificados:**\n"@ + spec_listed(h.risks.deep_view(), "  (nenhum)"@)
                + "\n\n**Dúvidas em aberto:**\n"@,
        ),
{
    let summary = if h.summary@.len() == 0 {
        "(sem resumo)"@
    } else {
        h.summary@
    };
    let next = if h.next_action@.len() == 0 {
        "(sem próxima ação definida)"@
    } else {
        h.next_action@
    };
    let fb = spec_bullet_block(h.files_touched.deep_view(), "  (nenhum arquivo)"@);
    let db = spec_bullet_block(h.decisions.deep_view(), "  (nenhuma)"@);
    let rb = spec_bullet_block(h.risks.deep_view(), "  (nenhum)"@);
    let qb = spec_bullet_block(h.open_questions.deep_view(), "  (nenhuma)"@);
    assert(db == spec_listed(h.decisions.deep_view(), "  (nenhuma)"@));
    assert(rb == spec_listed(h.risks.deep_view(), "  (nenhum)"@));
    let a = "\n## ["@ + spec_agent_label(h.agent@) + "] Run "@ + run_id + " — "@ + timestamp
        + "\n**Status:** "@ + spec_status_label(h.status) + "  \n**Resumo:** "@ + summary
        + "\n**Próxima ação:** "@ + next + "\n\n**Arquivos tocados:**\n"@ + fb;
    let hd = "\n\n**Decisões tomadas:**\n"@;
    let hr = "\n\n**Riscos identificados:**\n"@;
    let hq = "\n\n**Dúvidas em aberto:**\n"@;
    let sec = spec_handoff_section(run_id, h, timestamp);
    assert(sec == a + hd + db + hr + rb + hq + qb + "\n"@);
    reveal_strlit("\n\n**Decisões tomadas:**\n");
    reveal_strlit("**Decisões tomadas:**\n");
    reveal_strlit("\n\n**Riscos identificados:**\n");
    reveal_strlit("**Riscos identificados:**\n");
    reveal_strlit("\n\n**Dúvidas em aberto:**\n");
    let t1 = "**Decisões tomadas:**\n"@ + db + hr;
    let k1: int = (a.len() + 2) as int;
    assert(hd =~= "\n\n"@ + "**Decisões tomadas:**\n"@) by {
        reveal_strlit("\n\n");
    }
    assert(sec.subrange(k1, k1 + t1.len()) =~= t1);
    assert(spec_occurs_at(sec, t1, k1));
    let t2 = "**Riscos identificados:**\n"@ + rb + hq;
    let k2: int = (a.len() + hd.len() + db.len() + 2) as int;
    assert(hr =~= "\n\n"@ + "**Riscos identificados:**\n"@) by {
        reveal_strlit("\n\n");
    }
    assert(sec.subrange(k2, k2 + t2.len()) =~= t2);
    assert(spec_occurs_at(sec, t2, k2));
}

/// `compute_sha256` of a text given by its characters: `sha256:` and the
/// hex digest of its UTF-8 bytes.
pub open spec fn spec_text_hash(t: Seq<char>) -> Seq<char> {
    "sha256:"@ + spec_hex_lower(sha256_of(vstd::utf8::encode_utf8(t)))
}

/// The memory context after a hand-off is synced, and the hash recorded for
/// it.
#[derive(Debug, Clone)]
pub struct SyncedContext {
    pub content: String,
    pub memory_hash: String,
}

/// Syncing a hand-off into the memory context: the context read before,
/// with the hand-off's section appended, and the hash of that new context
/// (the one the sync state records).
pub fn synced_context(old_context: &str, run_id: &str, handoff: &Handoff, timestamp: &str) -> (r: SyncedContext)
    ensures
        r.content@ == old_context@ + spec_handoff_section(run_id@, *handoff, timestamp@),
        r.memory_hash@ == spec_text_hash(r.content@),
        r.memory_hash@.len() == 71,
{
    let mut content = String::from_str(old_context);
    let section = handoff_section(run_id, handoff, timestamp);
    push_str(&mut content, section.as_str());
    let memory_hash = compute_sha256(content.as_str());
    SyncedContext { content, memory_hash }
}

/// Every sync adds its hand-off's section at the end and keeps what the
/// context held: the old context is a prefix of the new one, and what
/// follows it is exactly the hand-off's section.
pub proof fn law_sync_appends_to_the_context(old_context: Seq<char>, run_id: Seq<char>, h: Handoff, timestamp: Seq<char>)
    ensures
        ({
            let new = old_context + spec_handoff_section(run_id, h, timestamp);
            &&& new.take(old_context.len() as int) == old_context
            &&& new.skip(old_context.len() as int) == spec_handoff_section(run_id, h, timestamp)
        }),
{
    let new = old_context + spec_handoff_section(run_id, h, timestamp);
    assert(new.take(old_context.len() as int) =~= old_context);
    assert(new.skip(old_context.len() as int) =~= spec_handoff_section(run_id, h, timestamp));
}

} // verus!
