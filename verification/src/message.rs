use crate::run::InputContent;
use crate::values::{Id, JsonDigest, RecordRef};
use vstd::prelude::*;

verus! {

/// A model-planned tool call and the protected reference to its bound input.
#[derive(Debug, Clone, PartialEq, Eq)]
pub struct ToolCall {
    /// Core call identity.
    pub call_id: Id,
    /// Selected tool name.
    pub name: Id,
    /// Model-owned arguments as JSON text.
    pub arguments: String,
    /// Protected bound input, once system inputs are bound.
    pub bound_input_ref: Option<RecordRef>,
}

/// Classification of a tool result.
#[derive(Debug, Clone, Copy, PartialEq, Eq, Structural)]
pub enum ToolResultStatus {
    /// The tool reported success.
    Succeeded,
    /// The tool reported failure.
    Failed,
    /// Whether the tool took effect is not known.
    Unknown,
}

/// What is known of a tool's external effect.
#[derive(Debug, Clone, Copy, PartialEq, Eq, Structural)]
pub enum ToolEffect {
    /// No effect was applied.
    NotApplied,
    /// The effect was applied.
    Applied,
    /// The effect may or may not have been applied.
    Unknown,
}

/// Recorded result of one tool call.
#[derive(Debug, Clone, PartialEq, Eq)]
pub struct ToolResult {
    /// Call that produced the result.
    pub call_id: Id,
    /// Result classification.
    pub status: ToolResultStatus,
    /// Known external effect.
    pub effect: ToolEffect,
    /// Public observation.
    pub content: Vec<InputContent>,
}

/// Transcript author role.
#[derive(Debug, Clone, Copy, PartialEq, Eq, Structural)]
pub enum MessageRole {
    /// Pinned system instructions.
    System,
    /// Caller input.
    User,
    /// Model output.
    Assistant,
    /// Tool observation.
    Tool,
}

/// Transcript provenance.
#[derive(Debug, Clone, Copy, PartialEq, Eq, Structural)]
pub enum MessageOrigin {
    /// Submitted by the caller.
    User,
    /// Produced by the model.
    Model,
    /// Produced by tool execution.
    Tool,
    /// Supplied by the Host.
    Host,
}

/// Who may read a message.
#[derive(Debug, Clone, Copy, PartialEq, Eq, Structural)]
pub enum Visibility {
    /// Shown to the user only.
    User,
    /// Given to the model only.
    Model,
    /// Shown to the user and given to the model.
    UserAndModel,
    /// Kept for audit only.
    Internal,
}

/// One block of message content.
#[derive(Debug, Clone, PartialEq, Eq)]
pub enum ContentBlock {
    /// Caller-visible content.
    Content {
        /// The content.
        content: InputContent,
    },
    /// Provider continuation data, only replayable on its own route.
    ProviderOpaque {
        /// Provider that produced it.
        provider: Id,
        /// Route that produced it.
        route_digest: JsonDigest,
        /// Protected stored continuation.
        data_ref: RecordRef,
    },
}

/// A transcript message.
#[derive(Debug, Clone, PartialEq, Eq)]
pub struct Message {
    /// Message identity.
    pub message_id: Id,
    /// Owning run.
    pub run_id: Id,
    /// Positive transcript sequence.
    pub sequence: u64,
    /// Author role.
    pub role: MessageRole,
    /// Content blocks.
    pub content: Vec<ContentBlock>,
    /// Provenance.
    pub origin: MessageOrigin,
    /// Readers.
    pub visibility: Visibility,
}

} // verus!
