//! The two working agents: the Dev, who writes a patch for a task, and the
//! Auditor, who reviews it. Each has a fixed system prompt and builds its
//! user prompt from the orchestrator's context.

pub mod auditor;
pub mod dev;

use vstd::prelude::*;

use crate::providers::ProviderResponse;

verus! {

/// One completed agent call: the parsed reply, the prompt that was sent and
/// the provider's raw answer.
#[derive(Debug, Clone)]
pub struct AgentCall<T> {
    pub parsed: T,
    pub prompt: String,
    pub provider_response: ProviderResponse,
}

} // verus!
