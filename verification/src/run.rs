use crate::error::{ContractError, ErrorCode};
use crate::values::{Id, JsonDigest, RecordRef, VersionedRef};
use vstd::prelude::*;

verus! {

/// Current run checkpoint format, independent of profile and event formats.
pub const RUN_SNAPSHOT_SCHEMA_VERSION: &'static str = "wickle.run-snapshot.v1";

/// Current durable event format.
pub const RUN_EVENT_SCHEMA_VERSION: &'static str = "wickle.run-event.v1";

/// Supported run checkpoint versions.
#[derive(Debug, Clone, Copy, PartialEq, Eq, Structural)]
pub enum RunSnapshotSchemaVersion {
    /// First checkpoint format.
    V1,
}

/// Supported session checkpoint versions.
#[derive(Debug, Clone, Copy, PartialEq, Eq, Structural)]
pub enum SessionSchemaVersion {
    /// First session format.
    V1,
}

/// Supported durable event versions.
#[derive(Debug, Clone, Copy, PartialEq, Eq, Structural)]
pub enum RunEventSchemaVersion {
    /// First durable event format.
    V1,
}

/// Caller-visible content.
#[derive(Debug, Clone, PartialEq, Eq)]
pub enum InputContent {
    /// Plain text.
    Text {
        /// Text content.
        text: String,
    },
}

impl InputContent {
    /// An independent copy of the content.
    pub fn copy(&self) -> (content: InputContent)
        ensures
            content == *self,
    {
        match self {
            InputContent::Text { text } => InputContent::Text { text: text.clone() },
        }
    }
}

/// Requested output form of a run.
#[derive(Debug, Clone, PartialEq, Eq)]
pub enum OutputContract {
    /// Free text.
    Text {},
    /// JSON that satisfies a registered schema.
    JsonSchema {
        /// Exact schema definition.
        schema_ref: VersionedRef,
    },
}

/// Why a Host submitted a run. Trigger data does not authenticate its sender.
#[derive(Debug, Clone, PartialEq, Eq)]
pub enum RunTrigger {
    /// Direct user request.
    User {},
    /// An event verified by the Host.
    Event {
        /// Host event identity.
        source_id: Id,
    },
    /// A schedule occurrence computed by the Host.
    Schedule {
        /// Occurrence identity, not a cron expression for the core to run.
        source_id: Id,
    },
    /// Child execution requested by a Host orchestration layer.
    Child {
        /// Parent run identity. Execution capability is checked separately.
        parent_run_id: Id,
    },
}

/// Caller request data; trusted execution context is supplied separately.
#[derive(Debug, Clone, PartialEq, Eq)]
pub struct RunRequest {
    /// Host-generated idempotency identity within scope and session.
    pub request_id: Id,
    /// Session whose pinned profile will be used.
    pub session_id: Id,
    /// User data, without injected tool calls or provider continuation state.
    pub input: Vec<InputContent>,
    /// Verified trigger provenance.
    pub trigger: RunTrigger,
    /// Optional output override; Host policy must authorize its use.
    pub output_contract: Option<OutputContract>,
}

/// Exact request for human input, bound to the originating call.
#[derive(Debug, Clone, PartialEq, Eq)]
pub struct InputRequest {
    /// Stable input request identity.
    pub input_request_id: Id,
    /// Call that must receive the answer.
    pub call_id: Id,
    /// Question shown by the Host.
    pub question: String,
    /// Optional exact schema for the answer.
    pub schema_ref: Option<VersionedRef>,
}

/// Mathematical value of an [`InputRequest`].
pub struct InputRequestView {
    pub input_request_id: Seq<char>,
    pub call_id: Seq<char>,
    pub question: Seq<char>,
    pub schema_ref: Option<(Seq<char>, Seq<char>)>,
}

/// The value of an optional versioned reference.
pub open spec fn opt_versioned_view(r: Option<VersionedRef>) -> Option<(Seq<char>, Seq<char>)> {
    match r {
        Some(v) => Some(v@),
        None => None,
    }
}

/// The value of an optional record reference.
pub open spec fn opt_record_view(r: Option<RecordRef>) -> Option<(Seq<char>, u64, Seq<char>)> {
    match r {
        Some(v) => Some(v@),
        None => None,
    }
}

/// The value of an optional identifier.
pub open spec fn opt_id_view(r: Option<Id>) -> Option<Seq<char>> {
    match r {
        Some(v) => Some(v@),
        None => None,
    }
}

impl View for InputRequest {
    type V = InputRequestView;

    open spec fn view(&self) -> InputRequestView {
        InputRequestView {
            input_request_id: self.input_request_id@,
            call_id: self.call_id@,
            question: self.question@,
            schema_ref: opt_versioned_view(self.schema_ref),
        }
    }
}

impl InputRequest {
    /// Whether two input requests are equal in every field.
    pub fn same(&self, other: &InputRequest) -> (same: bool)
        ensures
            same == (self@ == other@),
    {
        let schema_same = match (&self.schema_ref, &other.schema_ref) {
            (Some(a), Some(b)) => a.same(b),
            (None, None) => true,
            _ => false,
        };
        self.input_request_id.same(&other.input_request_id) && self.call_id.same(&other.call_id)
            && self.question == other.question && schema_same
    }

    /// An independent request equal in every field.
    pub fn copy(&self) -> (r: InputRequest)
        ensures
            r@ == self@,
    {
        let schema_ref = match &self.schema_ref {
            Some(v) => Some(v.copy()),
            None => None,
        };
        InputRequest {
            input_request_id: self.input_request_id.copy(),
            call_id: self.call_id.copy(),
            question: self.question.clone(),
            schema_ref,
        }
    }
}

/// Exact operation or candidate to which approval applies.
#[derive(Debug, Clone, PartialEq, Eq)]
pub enum ApprovalTarget {
    /// Tool approval binds the final execution input digest.
    Tool {
        /// Core call identity.
        call_id: Id,
        /// Digest that includes system-owned inputs.
        binding_digest: JsonDigest,
    },
    /// Review of a fixed candidate.
    Candidate {
        /// Stored candidate identity.
        candidate_ref: RecordRef,
        /// Exact verifier definition.
        verifier_ref: VersionedRef,
    },
}

/// Mathematical value of an [`ApprovalTarget`].
pub enum ApprovalTargetView {
    Tool { call_id: Seq<char>, binding_digest: Seq<char> },
    Candidate { candidate_ref: (Seq<char>, u64, Seq<char>), verifier_ref: (Seq<char>, Seq<char>) },
}

impl View for ApprovalTarget {
    type V = ApprovalTargetView;

    open spec fn view(&self) -> ApprovalTargetView {
        match self {
            ApprovalTarget::Tool { call_id, binding_digest } => ApprovalTargetView::Tool {
                call_id: call_id@,
                binding_digest: binding_digest@,
            },
            ApprovalTarget::Candidate { candidate_ref, verifier_ref } => ApprovalTargetView::Candidate {
                candidate_ref: candidate_ref@,
                verifier_ref: verifier_ref@,
            },
        }
    }
}

impl ApprovalTarget {
    /// Whether two approval targets are equal.
    pub fn same(&self, other: &ApprovalTarget) -> (same: bool)
        ensures
            same == (self@ == other@),
    {
        match (self, other) {
            (
                ApprovalTarget::Tool { call_id: a, binding_digest: b },
                ApprovalTarget::Tool { call_id: c, binding_digest: d },
            ) => a.same(c) && b.same(d),
            (
                ApprovalTarget::Candidate { candidate_ref: a, verifier_ref: b },
                ApprovalTarget::Candidate { candidate_ref: c, verifier_ref: d },
            ) => a.same(c) && b.same(d),
            _ => false,
        }
    }

    /// An independent target equal to this one.
    pub fn copy(&self) -> (t: ApprovalTarget)
        ensures
            t@ == self@,
    {
        match self {
            ApprovalTarget::Tool { call_id, binding_digest } => ApprovalTarget::Tool {
                call_id: call_id.copy(),
                binding_digest: binding_digest.copy(),
            },
            ApprovalTarget::Candidate { candidate_ref, verifier_ref } => ApprovalTarget::Candidate {
                candidate_ref: candidate_ref.copy(),
                verifier_ref: verifier_ref.copy(),
            },
        }
    }
}

/// Typed reason a run waits without making additional model calls.
#[derive(Debug, Clone, PartialEq, Eq)]
pub enum WaitTarget {
    /// Explicit approval of fixed data.
    Approval {
        /// Approval target.
        target: ApprovalTarget,
    },
    /// Answer to a recorded input request.
    Input {
        /// Input request.
        request: InputRequest,
    },
    /// Confirmation of an uncertain external effect.
    External {
        /// Call with uncertain effect.
        call_id: Id,
        /// Stable external idempotency/reconciliation key.
        effect_key: Id,
    },
}

/// Mathematical value of a [`WaitTarget`].
pub enum WaitTargetView {
    Approval { target: ApprovalTargetView },
    Input { request: InputRequestView },
    External { call_id: Seq<char>, effect_key: Seq<char> },
}

impl View for WaitTarget {
    type V = WaitTargetView;

    open spec fn view(&self) -> WaitTargetView {
        match self {
            WaitTarget::Approval { target } => WaitTargetView::Approval { target: target@ },
            WaitTarget::Input { request } => WaitTargetView::Input { request: request@ },
            WaitTarget::External { call_id, effect_key } => WaitTargetView::External {
                call_id: call_id@,
                effect_key: effect_key@,
            },
        }
    }
}

impl WaitTarget {
    /// Whether two wait targets are equal.
    pub fn same(&self, other: &WaitTarget) -> (same: bool)
        ensures
            same == (self@ == other@),
    {
        match (self, other) {
            (WaitTarget::Approval { target: a }, WaitTarget::Approval { target: b }) => a.same(b),
            (WaitTarget::Input { request: a }, WaitTarget::Input { request: b }) => a.same(b),
            (
                WaitTarget::External { call_id: a, effect_key: b },
                WaitTarget::External { call_id: c, effect_key: d },
            ) => a.same(c) && b.same(d),
            _ => false,
        }
    }

    /// An independent target equal to this one.
    pub fn copy(&self) -> (t: WaitTarget)
        ensures
            t@ == self@,
    {
        match self {
            WaitTarget::Approval { target } => WaitTarget::Approval { target: target.copy() },
            WaitTarget::Input { request } => WaitTarget::Input { request: request.copy() },
            WaitTarget::External { call_id, effect_key } => WaitTarget::External {
                call_id: call_id.copy(),
                effect_key: effect_key.copy(),
            },
        }
    }
}

/// Saved wait identity, target, and optional expiry.
#[derive(Debug, Clone, PartialEq, Eq)]
pub struct WaitState {
    /// Unique wait identity used to reject stale answers.
    pub wait_id: Id,
    /// Data or effect being awaited.
    pub target: WaitTarget,
    /// UTC milliseconds since Unix epoch; the run deadline still applies.
    pub expires_at_ms: Option<i64>,
}

/// Mathematical value of a [`WaitState`].
pub struct WaitStateView {
    pub wait_id: Seq<char>,
    pub target: WaitTargetView,
    pub expires_at_ms: Option<i64>,
}

impl View for WaitState {
    type V = WaitStateView;

    open spec fn view(&self) -> WaitStateView {
        WaitStateView { wait_id: self.wait_id@, target: self.target@, expires_at_ms: self.expires_at_ms }
    }
}

impl WaitState {
    /// Whether two waits are equal in every field.
    pub fn same(&self, other: &WaitState) -> (same: bool)
        ensures
            same == (self@ == other@),
    {
        self.wait_id.same(&other.wait_id) && self.target.same(&other.target)
            && self.expires_at_ms == other.expires_at_ms
    }

    /// An independent wait equal in every field.
    pub fn copy(&self) -> (w: WaitState)
        ensures
            w@ == self@,
    {
        WaitState { wait_id: self.wait_id.copy(), target: self.target.copy(), expires_at_ms: self.expires_at_ms }
    }
}

/// A specific answer or recovery request; none of these grant execution permission.
#[derive(Debug, Clone, PartialEq, Eq)]
pub enum ResumeAction {
    /// Accept a fixed approval target.
    Approve {
        /// Matching wait identity.
        wait_id: Id,
        /// Exact target presented for approval.
        target: ApprovalTarget,
    },
    /// Reject a fixed approval target.
    Deny {
        /// Matching wait identity.
        wait_id: Id,
        /// Exact target presented for approval.
        target: ApprovalTarget,
        /// User-supplied rejection reason.
        reason: String,
    },
    /// Supply data for a recorded input request.
    Input {
        /// Matching wait identity.
        wait_id: Id,
        /// Answer data as JSON text, validated against the saved request by the resume handler.
        answer: String,
    },
    /// Supply a protected receipt for an external effect.
    External {
        /// Matching wait identity.
        wait_id: Id,
        /// Evidence to be verified by the authorized handler.
        receipt_ref: RecordRef,
    },
    /// Resume an interrupted nonterminal execution.
    Recover {
        /// Host-verified recovery evidence.
        recovery_ref: RecordRef,
    },
}

/// Idempotent resume command; state/policy enforcement is performed by the driver.
#[derive(Debug, Clone, PartialEq, Eq)]
pub struct ResumeCommand {
    /// Run to resume.
    pub run_id: Id,
    /// Revision the caller observed.
    pub expected_revision: u64,
    /// Deduplicates retries of the same decision.
    pub command_id: Id,
    /// Typed decision or recovery evidence.
    pub action: ResumeAction,
}

/// Public run status categories.
#[derive(Debug, Clone, Copy, PartialEq, Eq, Structural)]
pub enum RunStatus {
    /// Actively processing.
    Running,
    /// Persisted wait.
    Waiting,
    /// Completion policy satisfied.
    Succeeded,
    /// Unrecoverable failure.
    Failed,
    /// Explicit cancellation completed.
    Cancelled,
    /// A finite execution budget was exhausted.
    Exhausted,
}

impl RunStatus {
    /// Whether a status cannot be resumed as the same run.
    pub open spec fn terminal(self) -> bool {
        !(self is Running || self is Waiting)
    }

    /// Whether this status cannot be resumed as the same run.
    pub fn is_terminal(self) -> (terminal: bool)
        ensures
            terminal == self.terminal(),
    {
        !matches!(self, RunStatus::Running | RunStatus::Waiting)
    }
}

/// Driver phases; transition execution belongs to the runtime.
#[derive(Debug, Clone, Copy, PartialEq, Eq, Structural)]
pub enum RunPhase {
    /// Admission validation and initial storage.
    Admission,
    /// Context and request preparation.
    Prepare,
    /// One model invocation.
    Model,
    /// Tool round processing.
    Tool,
    /// Output and completion checks.
    Verify,
    /// Saved wait.
    Waiting,
    /// Terminal outcome committed.
    Finish,
}

/// Stored budget consumption; usage measurement and reservation happen elsewhere.
#[derive(Debug, Clone, Copy, Default, PartialEq, Eq, Structural)]
pub struct BudgetUsage {
    /// Reserved physical model attempts.
    pub model_calls: u64,
    /// Reserved physical tool attempts.
    pub tool_attempts: u64,
    /// Candidate repair attempts.
    pub repair_attempts: u64,
    /// Execution recovery attempts.
    pub recovery_attempts: u64,
    /// Elapsed milliseconds including waits.
    pub elapsed_ms: u64,
}

/// The budget that stopped an execution.
#[derive(Debug, Clone, Copy, PartialEq, Eq, Structural)]
pub enum BudgetKind {
    /// Model attempts.
    ModelCalls,
    /// Tool attempts.
    ToolAttempts,
    /// Repairs.
    RepairAttempts,
    /// Recoveries.
    RecoveryAttempts,
    /// Elapsed wall time.
    Elapsed,
}

/// What supports a successful outcome.
#[derive(Debug, Clone, Copy, PartialEq, Eq, Structural)]
pub enum CompletionBasis {
    /// The model ended its turn; external business success is not asserted.
    TurnEnded,
    /// A pinned verifier accepted the candidate.
    Verified,
}

/// Recorded verifier classification, separate from transport errors.
#[derive(Debug, Clone, Copy, PartialEq, Eq, Structural)]
pub enum VerificationVerdict {
    /// Candidate accepted.
    Pass,
    /// Candidate needs revision.
    Revise,
    /// Human review required.
    Wait,
    /// Candidate rejected.
    Fail,
}

/// Evidence supporting the recorded verifier decision.
#[derive(Debug, Clone, PartialEq, Eq)]
pub struct VerificationSummary {
    /// Verifier actually used.
    pub verifier_ref: VersionedRef,
    /// Exact evaluation criteria.
    pub criteria_ref: VersionedRef,
    /// Decision classification.
    pub verdict: VerificationVerdict,
    /// Protected evidence records.
    pub evidence: Vec<RecordRef>,
}

/// Classified failure of an execution.
#[derive(Debug, Clone, PartialEq, Eq)]
pub struct Failure {
    /// Stable failure classification.
    pub code: Id,
    /// Protected diagnostic record, when one exists.
    pub diagnostic_ref: Option<RecordRef>,
}

/// Outcome-specific data. Success always names its completion basis.
#[derive(Debug, Clone, PartialEq, Eq)]
pub enum OutcomeResult {
    /// Saved waiting outcome for the current execution segment.
    Waiting {
        /// Wait data.
        wait: WaitState,
    },
    /// Completion policy satisfied.
    Succeeded {
        /// Why completion was accepted.
        completion_basis: CompletionBasis,
    },
    /// Execution failed.
    Failed {
        /// Classified failure.
        failure: Failure,
    },
    /// Cancellation completed; existing effects remain in their records.
    Cancelled {
        /// Cancellation reason.
        reason: String,
    },
    /// Execution budget exhausted.
    Exhausted {
        /// Exhausted budget.
        budget: BudgetKind,
    },
}

impl OutcomeResult {
    /// The public status that an outcome stands for.
    pub open spec fn status_of(self) -> RunStatus {
        match self {
            OutcomeResult::Waiting { .. } => RunStatus::Waiting,
            OutcomeResult::Succeeded { .. } => RunStatus::Succeeded,
            OutcomeResult::Failed { .. } => RunStatus::Failed,
            OutcomeResult::Cancelled { .. } => RunStatus::Cancelled,
            OutcomeResult::Exhausted { .. } => RunStatus::Exhausted,
        }
    }

    /// Public status of this outcome.
    pub fn status(&self) -> (status: RunStatus)
        ensures
            status == self.status_of(),
            status != RunStatus::Running,
    {
        match self {
            OutcomeResult::Waiting { .. } => RunStatus::Waiting,
            OutcomeResult::Succeeded { .. } => RunStatus::Succeeded,
            OutcomeResult::Failed { .. } => RunStatus::Failed,
            OutcomeResult::Cancelled { .. } => RunStatus::Cancelled,
            OutcomeResult::Exhausted { .. } => RunStatus::Exhausted,
        }
    }
}

/// Produced artifact metadata.
#[derive(Debug, Clone, PartialEq, Eq)]
pub struct ArtifactRef {
    /// Protected original.
    pub record_ref: RecordRef,
    /// Declared media type.
    pub media_type: String,
}

/// Why a stored outcome lacks the evidence its result requires.
pub enum OutcomeFault {
    /// A success that still names unresolved effects.
    UnresolvedEffects,
    /// A verified success without a passing verifier record.
    Verification,
}

/// The contract location reported for an outcome fault.
pub open spec fn outcome_fault_path(fault: OutcomeFault) -> Seq<char> {
    match fault {
        OutcomeFault::UnresolvedEffects => "outcome.unresolved_effects"@,
        OutcomeFault::Verification => "outcome.verification"@,
    }
}

/// Stored outcome; it is the authority for completion, not an event or text delta.
#[derive(Debug, Clone, PartialEq, Eq)]
pub struct RunOutcome {
    /// Outcome classification and required status-specific data.
    pub result: OutcomeResult,
    /// Final or partial output.
    pub output: Vec<InputContent>,
    /// Produced artifact metadata.
    pub artifacts: Vec<ArtifactRef>,
    /// Consumption recorded at this checkpoint.
    pub usage: BudgetUsage,
    /// Exact checkpoint revision.
    pub checkpoint_revision: u64,
    /// Optional verifier evidence; mandatory for verified success.
    pub verification: Option<VerificationSummary>,
    /// Effects that must not be blindly repeated.
    pub unresolved_effects: Vec<RecordRef>,
}

impl RunOutcome {
    /// The first missing piece of evidence, in the order the checks are made.
    pub open spec fn fault(self) -> Option<OutcomeFault> {
        if self.result is Succeeded && self.unresolved_effects.len() > 0 {
            Some(OutcomeFault::UnresolvedEffects)
        } else if (self.result matches OutcomeResult::Succeeded { completion_basis }
            && completion_basis == CompletionBasis::Verified) && !(self.verification matches Some(v)
            && v.verdict == VerificationVerdict::Pass) {
            Some(OutcomeFault::Verification)
        } else {
            None
        }
    }

    /// Check required evidence for a verified success.
    pub fn validate(&self) -> (checked: Result<(), ContractError>)
        ensures
            checked is Ok <==> self.fault() is None,
            checked matches Err(e) ==> e.code == ErrorCode::InvalidContract && e.path@
                == outcome_fault_path(self.fault().unwrap()),
    {
        if matches!(self.result, OutcomeResult::Succeeded { .. }) && self.unresolved_effects.len() > 0 {
            return Err(ContractError::new(ErrorCode::InvalidContract, "outcome.unresolved_effects"));
        }
        let verified = match &self.result {
            OutcomeResult::Succeeded { completion_basis } => *completion_basis == CompletionBasis::Verified,
            _ => false,
        };
        let passed = match &self.verification {
            Some(v) => v.verdict == VerificationVerdict::Pass,
            None => false,
        };
        if verified && !passed {
            return Err(ContractError::new(ErrorCode::InvalidContract, "outcome.verification"));
        }
        Ok(())
    }
}

} // verus!
