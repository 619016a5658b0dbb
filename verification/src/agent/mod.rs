//! Decisions of the agent driver: how a segment's model/tool loop steps, what a finishing
//! or waiting checkpoint commits, which saved records a projection reads and what lifecycle
//! hooks see. The Host runtime performs the storage, clock, model and tool calls between
//! these decisions.
pub mod driver;
pub mod hooks;
pub mod segment;

use crate::message::ToolCall;
use crate::run::{ApprovalTarget, InputContent, OutcomeResult};
use crate::values::{Id, JsonDigest, Scope};
use vstd::prelude::*;

verus! {

/// Why a model response ended.
#[derive(Debug, Clone, Copy, PartialEq, Eq, Structural)]
pub enum ModelFinish {
    /// The model ended its turn.
    Stop,
    /// The model requested tool calls.
    ToolCalls,
    /// The output limit was reached.
    Length,
    /// The model refused.
    Refusal,
}

/// Provider continuation data returned with a response.
#[derive(Debug, Clone, PartialEq, Eq)]
pub struct OpaqueContinuation {
    /// Provider that produced it.
    pub provider: Id,
    /// Route that produced it.
    pub route_digest: JsonDigest,
    /// Provider data as JSON text.
    pub data: String,
}

impl OpaqueContinuation {
    /// Route that produced this continuation.
    pub fn route_digest(&self) -> (digest: &JsonDigest)
        ensures
            *digest == self.route_digest,
    {
        &self.route_digest
    }
}

/// A completed model response.
#[derive(Debug, Clone, PartialEq, Eq)]
pub struct ModelResponse {
    /// Final text.
    pub text: String,
    /// Why the response ended.
    pub finish: ModelFinish,
    /// Requested tool calls.
    pub tool_calls: Vec<ToolCall>,
    /// Provider continuation data.
    pub continuation: Vec<OpaqueContinuation>,
}

/// A failed model exchange.
#[derive(Debug, Clone, PartialEq, Eq)]
pub struct ModelFailure {
    /// Wire name of the failure kind.
    pub kind: Id,
    /// Text received before the failure.
    pub partial_text: String,
}

impl ModelFailure {
    /// Text received before the failure.
    pub fn partial_text(&self) -> (text: &str)
        ensures
            text@ == self.partial_text@,
    {
        self.partial_text.as_str()
    }
}

/// Result of one model exchange.
#[derive(Debug, Clone, PartialEq, Eq)]
pub enum ModelExchangeOutcome {
    /// The provider completed a response.
    Completed {
        /// The response.
        response: ModelResponse,
    },
    /// The exchange failed.
    Failed {
        /// The failure.
        failure: ModelFailure,
    },
}

/// A model exchange, or an approval that policy required before it.
#[derive(Debug, Clone, PartialEq, Eq)]
pub enum Guarded {
    /// The exchange ran.
    Completed(ModelExchangeOutcome),
    /// Policy required approval of the target first.
    ApprovalRequired(ApprovalTarget),
}

/// The outcome a segment proposes before the finishing transaction.
#[derive(Debug, Clone, PartialEq, Eq)]
pub struct PreparedOutcome {
    /// Proposed result.
    pub result: OutcomeResult,
    /// Proposed output.
    pub output: Vec<InputContent>,
    /// Continuation data to persist with a success.
    pub continuation: Vec<OpaqueContinuation>,
}

/// What a model invocation is for.
#[derive(Debug, Clone, Copy, PartialEq, Eq, Structural)]
pub enum ModelPurpose {
    /// The agent's own turns.
    Agent,
    /// Context compaction.
    Compaction,
    /// Output verification.
    Verification,
}

/// A registered model binding a route may use.
#[derive(Debug, Clone, PartialEq, Eq)]
pub struct ModelBindingRef {
    /// Binding identity.
    pub id: Id,
}

/// A routing rule: which bindings serve a profile binding for a purpose.
#[derive(Debug, Clone, PartialEq, Eq)]
pub struct RouteRule {
    /// Profile model binding the rule applies to.
    pub model_binding: Id,
    /// Purpose the rule applies to.
    pub purpose: ModelPurpose,
    /// Preferred binding.
    pub primary: ModelBindingRef,
    /// Bindings to fall back to, in order.
    pub fallbacks: Vec<ModelBindingRef>,
    /// Wire name of the rule's model version policy.
    pub version_policy: Id,
}

/// What a router needs to select a route for one model step.
#[derive(Debug, Clone, PartialEq, Eq)]
pub struct RouteRequest {
    /// Profile model binding being routed.
    pub model_binding: Id,
    /// Purpose of the step.
    pub purpose: ModelPurpose,
    /// Capabilities every candidate route must offer.
    pub required_capabilities: Vec<Id>,
    /// Estimated input tokens, before projection.
    pub input_tokens: u64,
    /// Output token limit of the step.
    pub max_output_tokens: u64,
    /// Scope the step runs in.
    pub scope: Scope,
    /// Bindings the rule allows, preferred first.
    pub allowed_bindings: Vec<Id>,
    /// Wire name of the rule's model version policy.
    pub version_policy: Id,
}

/// A stored model response record.
#[derive(Debug, Clone, PartialEq, Eq)]
pub struct StoredModelResponse {
    /// Physical attempt that produced it.
    pub request_id: Id,
    /// Route that produced it.
    pub route_digest: JsonDigest,
    /// What the exchange returned.
    pub outcome: ModelExchangeOutcome,
}

/// A lease that fences one worker's ownership of a run.
#[derive(Debug, Clone, PartialEq, Eq)]
pub struct RunLease {
    /// Owning worker.
    pub owner_id: Id,
    /// Fencing generation.
    pub generation: u64,
    /// UTC milliseconds at which ownership ends.
    pub expires_at_ms: i64,
}

} // verus!
