//! The rules for applying an approved patch: the checks that must all pass
//! before the workspace is touched, the confirmation, the commit message and
//! the cycle's final state. Running git and reading files belong to the
//! program around this library.

use vstd::prelude::*;

use crate::kernel::config::{join_path, spec_join_path};
use crate::kernel::patch::compute_patch_hash;
use crate::kernel::security::{scan_diff, spec_scan_lines};
use crate::kernel::spec_sha256_label;
use crate::kernel::text::{join_strings, push_decimal, push_str, spec_decimal, spec_join, spec_lines, spec_trim, str_eq, trim};
use crate::schemas::{CycleState, CycleStatus};

verus! {

broadcast use vstd::string::group_string_axioms;

/// Why a patch is not applied.
#[derive(Debug, Clone, PartialEq, Eq)]
pub enum ApplyError {
    /// The cycle was not approved by the Auditor.
    NotApproved,
    /// The cycle names no patch file.
    NoPatchFile,
    /// The cycle names no audit response.
    NoAuditFile,
    /// The stored audit does not approve the patch.
    AuditNotApproving,
    /// The patch file changed since it was approved.
    HashMismatch,
    /// The patch breaks a security rule.
    SecurityViolations,
    /// The repository's HEAD is not the commit the patch was made on.
    HeadMoved { expected: String, found: String },
    /// The working tree has uncommitted changes.
    DirtyTree,
    /// The human did not type the confirmation word.
    NotConfirmed,
}

impl ApplyError {
    /// The human-readable message.
    pub fn message(&self) -> (r: String)
        ensures
            r@ == (match self {
                ApplyError::NotApproved => "current cycle is not approved. Run `ai-orchestrator run` or `ai-orchestrator audit` first."@,
                ApplyError::NoPatchFile => "current cycle does not reference a patch file"@,
                ApplyError::NoAuditFile => "current cycle does not reference an audit response"@,
                ApplyError::AuditNotApproving => "latest audit did not approve this patch"@,
                ApplyError::HashMismatch => "patch hash mismatch: patch file content changed since approval"@,
                ApplyError::SecurityViolations => "security violations detected in patch. Refusing to apply."@,
                ApplyError::HeadMoved { expected, found } => "HEAD moved since patch generation. Expected "@
                    + expected@ + ", found "@ + found@ + "."@,
                ApplyError::DirtyTree => "working tree is dirty. Refusing to apply patch."@,
                ApplyError::NotConfirmed => "application aborted: confirmation text did not match APPLY"@,
            }),
    {
        match self {
            ApplyError::NotApproved => String::from_str(
                "current cycle is not approved. Run `ai-orchestrator run` or `ai-orchestrator audit` first.",
            ),
            ApplyError::NoPatchFile => String::from_str("current cycle does not reference a patch file"),
            ApplyError::NoAuditFile => String::from_str("current cycle does not reference an audit response"),
            ApplyError::AuditNotApproving => String::from_str("latest audit did not approve this patch"),
            ApplyError::HashMismatch => String::from_str(
                "patch hash mismatch: patch file content changed since approval",
            ),
            ApplyError::SecurityViolations => String::from_str(
                "security violations detected in patch. Refusing to apply.",
            ),
            ApplyError::HeadMoved { expected, found } => {
                let mut s = String::from_str("HEAD moved since patch generation. Expected ");
                push_str(&mut s, expected.as_str());
                push_str(&mut s, ", found ");
                push_str(&mut s, found.as_str());
                push_str(&mut s, ".");
                s
            },
            ApplyError::DirtyTree => String::from_str("working tree is dirty. Refusing to apply patch."),
            ApplyError::NotConfirmed => String::from_str(
                "application aborted: confirmation text did not match APPLY",
            ),
        }
    }
}

/// The patch still hashes to what was approved.
pub open spec fn spec_hash_matches(cycle: CycleState, diff: &str) -> bool {
    match cycle.patch_hash {
        Some(h) => h@ == spec_sha256_label(diff),
        None => false,
    }
}

/// The patch file still hashes to the approved hash (the check a dry run
/// makes before `git apply --check`).
pub fn check_hash(cycle: &CycleState, diff: &str) -> (r: Result<(), ApplyError>)
    ensures
        r is Ok <==> spec_hash_matches(*cycle, diff),
        r is Err ==> r == Err::<(), ApplyError>(ApplyError::HashMismatch),
{
    let hash = compute_patch_hash(diff);
    let matches = match &cycle.patch_hash {
        Some(h) => str_eq(h.as_str(), hash.as_str()),
        None => false,
    };
    if matches {
        Ok(())
    } else {
        Err(ApplyError::HashMismatch)
    }
}

/// The first two checks before applying: the patch file still hashes to the
/// approved hash, then it breaks no security rule.
pub fn check_patch(cycle: &CycleState, diff: &str) -> (r: Result<(), ApplyError>)
    ensures
        !spec_hash_matches(*cycle, diff) ==> r == Err::<(), ApplyError>(ApplyError::HashMismatch),
        spec_hash_matches(*cycle, diff) && spec_scan_lines(spec_lines(diff@)).len() > 0 ==> r == Err::<
            (),
            ApplyError,
        >(ApplyError::SecurityViolations),
        r is Ok <==> spec_hash_matches(*cycle, diff) && spec_scan_lines(spec_lines(diff@)).len() == 0,
{
    match check_hash(cycle, diff) {
        Err(e) => {
            return Err(e);
        },
        Ok(()) => {},
    }
    let violations = scan_diff(diff);
    if violations.len() > 0 {
        return Err(ApplyError::SecurityViolations);
    }
    Ok(())
}

/// The next checks: the repository is still at the commit the patch was made
/// on (`head` is the current HEAD), then the working tree is clean.
pub fn check_repository(cycle: &CycleState, head: &str, clean: bool) -> (r: Result<(), ApplyError>)
    ensures
        head@ != cycle.base_commit@ ==> (r matches Err(ApplyError::HeadMoved { expected, found })
            && expected@ == cycle.base_commit@ && found@ == head@),
        head@ == cycle.base_commit@ && !clean ==> r == Err::<(), ApplyError>(ApplyError::DirtyTree),
        r is Ok <==> head@ == cycle.base_commit@ && clean,
{
    if !str_eq(head, cycle.base_commit.as_str()) {
        return Err(
            ApplyError::HeadMoved { expected: cycle.base_commit.clone(), found: String::from_str(head) },
        );
    }
    if !clean {
        return Err(ApplyError::DirtyTree);
    }
    Ok(())
}

/// The human confirmed: the line typed is `APPLY`, surrounding whitespace
/// aside.
pub fn confirmation(input: &str) -> (r: Result<(), ApplyError>)
    ensures
        r is Ok <==> spec_trim(input@) == "APPLY"@,
        r is Err ==> r == Err::<(), ApplyError>(ApplyError::NotConfirmed),
{
    let t = trim(input);
    if str_eq(t.as_str(), "APPLY") {
        Ok(())
    } else {
        Err(ApplyError::NotConfirmed)
    }
}

/// The commit message of an applied patch.
pub open spec fn spec_commit_message(step_id: Seq<char>, summary: Seq<char>, score: nat, files: Seq<Seq<char>>) -> Seq<char> {
    "[ai-orchestrator] step "@ + step_id + ": "@ + summary + " (score: "@ + spec_decimal(score) + ", arquivos: "@
        + spec_join(files, ", "@) + ")"@
}

/// Builds the commit message: the step, the last hand-off's summary, the
/// audit score and the files the patch modifies.
pub fn commit_message(step_id: &str, summary: &str, score: u64, files: &[String]) -> (r: String)
    ensures
        r@ == spec_commit_message(step_id@, summary@, score as nat, files.deep_view()),
{
    let mut s = String::from_str("[ai-orchestrator] step ");
    push_str(&mut s, step_id);
    push_str(&mut s, ": ");
    push_str(&mut s, summary);
    push_str(&mut s, " (score: ");
    push_decimal(&mut s, score);
    push_str(&mut s, ", arquivos: ");
    let joined = join_strings(files, ", ");
    push_str(&mut s, joined.as_str());
    push_str(&mut s, ")");
    s
}

/// The cycle after its patch was applied at `now`.
pub fn mark_applied(cycle: &mut CycleState, now: String)
    ensures
        final(cycle).status == CycleStatus::Applied,
        final(cycle).updated_at == now,
        final(cycle).run_id == old(cycle).run_id,
        final(cycle).step_id == old(cycle).step_id,
        final(cycle).base_commit == old(cycle).base_commit,
        final(cycle).plan_hash == old(cycle).plan_hash,
        final(cycle).memory_hash == old(cycle).memory_hash,
        final(cycle).patch_file == old(cycle).patch_file,
        final(cycle).patch_hash == old(cycle).patch_hash,
        final(cycle).audit_file == old(cycle).audit_file,
        final(cycle).audit_approved == old(cycle).audit_approved,
        final(cycle).created_at == old(cycle).created_at,
{
    cycle.status = CycleStatus::Applied;
    cycle.updated_at = now;
}

/// A path is absolute when it starts at the root.
pub open spec fn spec_is_absolute(p: Seq<char>) -> bool {
    p.len() > 0 && p[0] == '/'
}

/// The files the `apply` command works on.
#[derive(Debug)]
pub struct ApplyTargets {
    pub patch_path: String,
    pub audit_path: String,
}

/// What the `apply` command checks before reading anything: the cycle is
/// approved, the patch to apply (the one given, relative to the workspace,
/// or the cycle's own, relative to the orchestrator's directory) and the
/// cycle's audit response.
pub open spec fn spec_apply_targets(
    cycle: CycleState,
    requested: Option<Seq<char>>,
    workspace_dir: Seq<char>,
    orchestrator_dir: Seq<char>,
) -> Result<(Seq<char>, Seq<char>), ApplyError> {
    if cycle.status != CycleStatus::Approved {
        Err(ApplyError::NotApproved)
    } else {
        let patch: Result<Seq<char>, ApplyError> = match requested {
            Some(p) => if spec_is_absolute(p) {
                Ok(p)
            } else {
                Ok(spec_join_path(workspace_dir, p))
            },
            None => match cycle.patch_file {
                Some(f) => Ok(spec_join_path(orchestrator_dir, f@)),
                None => Err(ApplyError::NoPatchFile),
            },
        };
        match patch {
            Err(e) => Err(e),
            Ok(p) => match cycle.audit_file {
                Some(a) => Ok((p, spec_join_path(orchestrator_dir, a@))),
                None => Err(ApplyError::NoAuditFile),
            },
        }
    }
}

/// Decides what the `apply` command works on, or why it refuses.
pub fn apply_targets(
    cycle: &CycleState,
    requested: Option<&str>,
    workspace_dir: &str,
    orchestrator_dir: &str,
) -> (r: Result<ApplyTargets, ApplyError>)
    ensures
        match spec_apply_targets(
            *cycle,
            match requested {
                Some(p) => Some(p@),
                None => None,
            },
            workspace_dir@,
            orchestrator_dir@,
        ) {
            Ok((p, a)) => r matches Ok(t) && t.patch_path@ == p && t.audit_path@ == a,
            Err(e) => r == Err::<ApplyTargets, ApplyError>(e),
        },
{
    if cycle.status != CycleStatus::Approved {
        return Err(ApplyError::NotApproved);
    }
    let patch_path = match requested {
        Some(p) => {
            if p.unicode_len() > 0 && p.get_char(0) == '/' {
                String::from_str(p)
            } else {
                join_path(workspace_dir, p)
            }
        },
        None => match &cycle.patch_file {
            Some(f) => join_path(orchestrator_dir, f.as_str()),
            None => {
                return Err(ApplyError::NoPatchFile);
            },
        },
    };
    let audit_path = match &cycle.audit_file {
        Some(a) => join_path(orchestrator_dir, a.as_str()),
        None => {
            return Err(ApplyError::NoAuditFile);
        },
    };
    Ok(ApplyTargets { patch_path, audit_path })
}

} // verus!
