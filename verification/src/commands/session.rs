//! The registry of long-lived agent sessions (`sessions.json`).

use vstd::prelude::*;

use crate::kernel::config::{join_path, spec_join_path};

verus! {

/// One registered session: its process and what runs in it.
#[derive(Debug, Clone)]
pub struct SessionInfo {
    pub pid: u32,
    pub agent_name: String,
    pub command: Vec<String>,
}

/// Where the registry of a workspace is kept.
pub fn sessions_path(orchestrator_dir: &str) -> (r: String)
    ensures
        r@ == spec_join_path(orchestrator_dir@, "sessions.json"@),
{
    join_path(orchestrator_dir, "sessions.json")
}

} // verus!
