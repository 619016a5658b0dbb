use crate::error::{ContractError, ErrorCode};
use crate::message::{ToolCall, ToolResult, ToolResultStatus};
use crate::model::ModelInvocationRecord;
use crate::profile::{CompletionPolicy, ResolvedProfile, RunLimits};
use crate::run::{
    BudgetUsage, CompletionBasis, OutcomeFault, OutcomeResult, RunOutcome, RunPhase, RunRequest,
    RunEventSchemaVersion, RunSnapshotSchemaVersion, RunStatus, SessionSchemaVersion,
    VerificationSummary, WaitState, outcome_fault_path,
};
use crate::values::{
    canonical_digest_text, empty_object_digest, Id, JsonDigest, RecordRef, Scope, VersionedRef,
};
use vstd::prelude::*;

verus! {

/// State of one planned tool call; this does not execute state transitions.
#[derive(Debug, Clone, PartialEq, Eq)]
pub enum ToolCallState {
    /// Plan is saved and no dispatch is recorded.
    Planned {},
    /// Dispatch was reserved and may have happened.
    Dispatching {
        /// Physical attempt identity.
        attempt_id: Id,
        /// Stable key for external deduplication/reconciliation.
        idempotency_key: Id,
    },
    /// Result was recorded.
    Settled {
        /// Paired tool result.
        result: ToolResult,
    },
    /// Effect is unknown after interruption.
    Unknown {
        /// Uncertain attempt identity.
        attempt_id: Id,
        /// Original external effect key.
        idempotency_key: Id,
    },
}

/// Planned model arguments and the corresponding dispatch/result state.
#[derive(Debug, Clone, PartialEq, Eq)]
pub struct ToolLedgerEntry {
    /// Original call and protected bound-input reference.
    pub call: ToolCall,
    /// Dispatch/result state.
    pub state: ToolCallState,
}

/// Protected system-input storage reference and versions used in request identity.
#[derive(Debug, Clone, PartialEq, Eq)]
pub struct SystemInputSnapshotRef {
    /// Protected storage location; excluded from logical request identity.
    pub snapshot_ref: RecordRef,
    /// Digest of the validated owned values, including an explicit empty map.
    pub values_digest: JsonDigest,
    /// Exact registered input-definition versions, as (definition, version) pairs in key order.
    pub definition_versions: Vec<(Id, Id)>,
}

/// The value of (definition, version) pairs.
pub open spec fn version_pairs_view(pairs: Seq<(Id, Id)>) -> Seq<(Seq<char>, Seq<char>)> {
    pairs.map_values(|p: (Id, Id)| (p.0@, p.1@))
}

/// Whether key `a` sorts strictly before key `b`, comparing characters by code point and
/// a proper prefix before its extensions.
pub open spec fn key_before(a: Seq<char>, b: Seq<char>) -> bool
    decreases a.len(),
{
    if a.len() == 0 {
        b.len() > 0
    } else if b.len() == 0 {
        false
    } else if a[0] != b[0] {
        (a[0] as u32) < (b[0] as u32)
    } else {
        key_before(a.drop_first(), b.drop_first())
    }
}

/// No key sorts before itself.
pub proof fn lemma_key_before_irreflexive(a: Seq<char>)
    ensures
        !key_before(a, a),
    decreases a.len(),
{
    if a.len() > 0 {
        lemma_key_before_irreflexive(a.drop_first());
    }
}

/// Sorting before is transitive.
pub proof fn lemma_key_before_transitive(a: Seq<char>, b: Seq<char>, c: Seq<char>)
    requires
        key_before(a, b),
        key_before(b, c),
    ensures
        key_before(a, c),
    decreases a.len(),
{
    if a.len() > 0 && b.len() > 0 && c.len() > 0 && a[0] == b[0] && b[0] == c[0] {
        lemma_key_before_transitive(a.drop_first(), b.drop_first(), c.drop_first());
    }
}

/// At the first position where two keys differ, the key with the smaller code point sorts
/// first, whatever their lengths.
pub proof fn lemma_key_before_first_difference(a: Seq<char>, b: Seq<char>, k: int)
    requires
        0 <= k < a.len(),
        k < b.len(),
        a.take(k) == b.take(k),
        a[k] != b[k],
    ensures
        key_before(a, b) <==> (a[k] as u32) < (b[k] as u32),
    decreases k,
{
    if k > 0 {
        assert(a[0] == a.take(k)[0] && b[0] == b.take(k)[0]);
        assert(a.drop_first().take(k - 1) =~= a.take(k).drop_first());
        assert(b.drop_first().take(k - 1) =~= b.take(k).drop_first());
        lemma_key_before_first_difference(a.drop_first(), b.drop_first(), k - 1);
    }
}

/// A proper prefix sorts before each of its extensions, and no key sorts before a proper
/// prefix of itself.
pub proof fn lemma_key_before_prefix(a: Seq<char>, b: Seq<char>)
    requires
        a.len() < b.len(),
        b.take(a.len() as int) == a,
    ensures
        key_before(a, b),
        !key_before(b, a),
    decreases a.len(),
{
    if a.len() > 0 {
        assert(a[0] == b.take(a.len() as int)[0]);
        assert(b.drop_first().take(a.drop_first().len() as int) =~= a.drop_first());
        lemma_key_before_prefix(a.drop_first(), b.drop_first());
    }
}

impl SystemInputSnapshotRef {
    /// Definition keys are in strictly ascending key order, as in a map keyed by definition.
    pub open spec fn wf(self) -> bool {
        forall|i: int| 0 <= i < self.definition_versions@.len() - 1 ==> key_before(
            #[trigger] self.definition_versions@[i].0@,
            self.definition_versions@[i + 1].0@,
        )
    }

    /// In a well-formed snapshot reference, later keys sort after earlier ones, so no
    /// definition appears twice.
    pub proof fn lemma_keys_distinct(self, i: int, j: int)
        requires
            self.wf(),
            0 <= i < j < self.definition_versions@.len(),
        ensures
            key_before(self.definition_versions@[i].0@, self.definition_versions@[j].0@),
            self.definition_versions@[i].0@ != self.definition_versions@[j].0@,
        decreases j - i,
    {
        let keys = self.definition_versions@;
        assert(key_before(keys[j - 1].0@, keys[j].0@));
        if i < j - 1 {
            self.lemma_keys_distinct(i, j - 1);
            lemma_key_before_transitive(keys[i].0@, keys[j - 1].0@, keys[j].0@);
        }
        if keys[i].0@ == keys[j].0@ {
            lemma_key_before_irreflexive(keys[i].0@);
        }
    }

    /// Check that the definition keys are in strictly ascending key order.
    pub fn check_versions(&self) -> (checked: Result<(), ContractError>)
        ensures
            checked is Ok <==> self.wf(),
            checked matches Err(e) ==> e.code == ErrorCode::InvalidContract && e.path@
                == "system_inputs.definition_versions"@,
    {
        let n = self.definition_versions.len();
        if n < 2 {
            return Ok(());
        }
        let mut i: usize = 0;
        while i < n - 1
            invariant
                n == self.definition_versions@.len(),
                n >= 2,
                i <= n - 1,
                forall|k: int| 0 <= k < i ==> key_before(
                    #[trigger] self.definition_versions@[k].0@,
                    self.definition_versions@[k + 1].0@,
                ),
            decreases n - 1 - i,
        {
            if !precedes(self.definition_versions[i].0.as_str(), self.definition_versions[i + 1].0.as_str()) {
                return Err(ContractError::new(ErrorCode::InvalidContract, "system_inputs.definition_versions"));
            }
            i = i + 1;
        }
        Ok(())
    }
}

fn precedes(a: &str, b: &str) -> (before: bool)
    ensures
        before == key_before(a@, b@),
{
    let la = a.unicode_len();
    let lb = b.unicode_len();
    let mut i: usize = 0;
    assert(a@.skip(0) =~= a@);
    assert(b@.skip(0) =~= b@);
    while i < la && i < lb
        invariant
            la == a@.len(),
            lb == b@.len(),
            i <= la,
            i <= lb,
            key_before(a@, b@) == key_before(a@.skip(i as int), b@.skip(i as int)),
        decreases la - i,
    {
        let ca = a.get_char(i);
        let cb = b.get_char(i);
        assert(a@.skip(i as int)[0] == ca);
        assert(b@.skip(i as int)[0] == cb);
        if ca != cb {
            return (ca as u32) < (cb as u32);
        }
        assert(a@.skip(i as int).drop_first() =~= a@.skip(i + 1));
        assert(b@.skip(i as int).drop_first() =~= b@.skip(i + 1));
        i = i + 1;
    }
    i == la && i < lb
}

/// The system-input part of a start's logical identity.
#[derive(Debug, Clone, PartialEq, Eq)]
pub struct AdmissionInputs {
    /// Digest of the system-input values.
    pub values_digest: JsonDigest,
    /// Definition versions of the system inputs.
    pub definition_versions: Vec<(Id, Id)>,
}

/// The system-input part of logical start input: the saved values digest and versions,
/// or, when the start has no system inputs, the digest of the empty object and no versions.
pub fn admission_digest_inputs(system_inputs: Option<&SystemInputSnapshotRef>) -> (inputs: AdmissionInputs)
    ensures
        match system_inputs {
            Some(s) => inputs.values_digest@ == s.values_digest@ && version_pairs_view(
                inputs.definition_versions@,
            ) == version_pairs_view(s.definition_versions@),
            None => inputs.values_digest@ == canonical_digest_text(seq![123u8, 125u8])
                && inputs.definition_versions@.len() == 0,
        },
{
    match system_inputs {
        None => AdmissionInputs { values_digest: empty_object_digest(), definition_versions: Vec::new() },
        Some(s) => {
            let mut versions: Vec<(Id, Id)> = Vec::new();
            let mut i: usize = 0;
            while i < s.definition_versions.len()
                invariant
                    i <= s.definition_versions@.len(),
                    version_pairs_view(versions@) == version_pairs_view(s.definition_versions@.take(i as int)),
                decreases s.definition_versions@.len() - i,
            {
                let pair = &s.definition_versions[i];
                let ghost before = versions@;
                versions.push((pair.0.copy(), pair.1.copy()));
                proof {
                    assert(s.definition_versions@.take(i + 1) =~= s.definition_versions@.take(i as int).push(*pair));
                    assert(versions@ == before.push(versions@.last()));
                    assert(version_pairs_view(versions@) =~= version_pairs_view(before).push((pair.0@, pair.1@)));
                    assert(version_pairs_view(s.definition_versions@.take(i + 1)) =~= version_pairs_view(
                        s.definition_versions@.take(i as int),
                    ).push((pair.0@, pair.1@)));
                }
                i = i + 1;
            }
            proof {
                assert(s.definition_versions@.take(s.definition_versions@.len() as int) =~= s.definition_versions@);
            }
            AdmissionInputs { values_digest: s.values_digest.copy(), definition_versions: versions }
        },
    }
}

/// Session metadata pinned across requests. A store enforces the active-run rule.
#[derive(Debug, Clone, PartialEq, Eq)]
pub struct SessionSnapshot {
    /// Session document version.
    pub schema_version: SessionSchemaVersion,
    /// Session identity.
    pub session_id: Id,
    /// Owning scope.
    pub scope: Scope,
    /// Pinned profile identity.
    pub profile_digest: JsonDigest,
    /// Pinned prompt data reference.
    pub prompt_snapshot: RecordRef,
    /// Current transcript revision.
    pub transcript_revision: u64,
    /// One active running/waiting run, or omission when none exists.
    pub active_run_id: Option<Id>,
}

/// Exact context source selection.
#[derive(Debug, Clone, PartialEq, Eq)]
pub struct ContextSourceRef {
    /// Source definition.
    pub source_ref: VersionedRef,
    /// Adapter binding, when the source is served by an adapter.
    pub binding_id: Option<Id>,
}

/// When a context source collects.
#[derive(Debug, Clone, Copy, PartialEq, Eq, Structural)]
pub enum ContextTrigger {
    /// Once for the run.
    BeforeRun,
    /// Before each model step.
    BeforeModel,
}

/// Saved context-source execution position for retry and resume reuse.
#[derive(Debug, Clone, PartialEq, Eq)]
pub struct SourceExecutionState {
    /// Exact source selection, including adapter binding when applicable.
    pub source: ContextSourceRef,
    /// Stable context request identity.
    pub context_request_id: Id,
    /// Collection trigger.
    pub trigger: ContextTrigger,
    /// Required for a before_model collection.
    pub model_step_id: Option<Id>,
    /// Committed context batch, including empty/unavailable results.
    pub batch_ref: RecordRef,
}

/// Run checkpoint. Call `validate` at the storage boundary.
/// Protected inputs are references, not automatically exposed execution arguments.
#[derive(Debug, Clone, PartialEq, Eq)]
pub struct RunSnapshot {
    /// Checkpoint document version.
    pub schema_version: RunSnapshotSchemaVersion,
    /// Run identity.
    pub run_id: Id,
    /// Original caller request.
    pub request: RunRequest,
    /// Logical input digest used for deduplication.
    pub request_digest: JsonDigest,
    /// Scope used for storage, policy, tools, and resume.
    pub scope: Scope,
    /// Immutable profile and resolved definition identities.
    pub profile: ResolvedProfile,
    /// Current execution status.
    pub status: RunStatus,
    /// Current driver phase.
    pub phase: RunPhase,
    /// Current logical model step, if allocated.
    pub model_step_id: Option<Id>,
    /// Effective limits, no greater than profile limits.
    pub limits: RunLimits,
    /// Saved usage/reservations.
    pub usage: BudgetUsage,
    /// Physical model attempt records.
    pub model_ledger: Vec<ModelInvocationRecord>,
    /// Saved tool plans and states.
    pub tool_ledger: Vec<ToolLedgerEntry>,
    /// Pinned, protected system values and their contract revisions.
    pub system_inputs: Option<SystemInputSnapshotRef>,
    /// Saved wait data, only while waiting.
    pub wait: Option<WaitState>,
    /// Last waiting or terminal outcome.
    pub outcome: Option<RunOutcome>,
    /// Pinned assembly metadata, without process-local handler objects.
    pub assembly_ref: Option<RecordRef>,
    /// Committed context batches.
    pub context_batches: Vec<RecordRef>,
    /// Saved collection positions.
    pub source_states: Vec<SourceExecutionState>,
    /// Compare-and-swap revision.
    pub revision: u64,
    /// Last durable event sequence; ephemeral deltas do not consume it.
    pub last_event_seq: u64,
}

/// The checkpoint invariant that a snapshot breaks first.
pub enum SnapshotFault {
    /// Scope or logical request digest differs from the pinned profile and admission input.
    RequestDigest,
    /// Effective limits exceed the profile's limits.
    Limits,
    /// A running snapshot is in a waiting or finished phase, or holds a wait or outcome.
    Status,
    /// A waiting snapshot lacks its wait or waiting phase.
    Wait,
    /// A terminal snapshot is unfinished, still waits, or lacks its outcome; or the
    /// outcome disagrees with status, revision or usage.
    Outcome,
    /// The stored outcome lacks required evidence.
    OutcomeEvidence(OutcomeFault),
    /// A waiting outcome names another wait than the snapshot.
    OutcomeWait,
    /// A success does not satisfy the pinned completion policy.
    CompletionBasis,
    /// Two tool ledger entries share a call identity.
    ToolCallId,
    /// A dispatched or uncertain call has no bound input.
    ToolBoundInput,
    /// A settled result belongs to another call.
    ToolResultCallId,
    /// A success retains an unsettled call or an unknown result.
    ToolUnsettled,
    /// A model attempt belongs to another run or repeats an attempt identity.
    ModelAttempt,
    /// A source state's model step does not match its trigger.
    SourceModelStep,
}

/// The error category reported for a snapshot fault.
pub open spec fn snapshot_fault_code(fault: SnapshotFault) -> ErrorCode {
    match fault {
        SnapshotFault::OutcomeEvidence(_) => ErrorCode::InvalidContract,
        _ => ErrorCode::InvalidSnapshot,
    }
}

/// The contract location reported for a snapshot fault.
pub open spec fn snapshot_fault_path(fault: SnapshotFault) -> Seq<char> {
    match fault {
        SnapshotFault::RequestDigest => "request_digest"@,
        SnapshotFault::Limits => "limits"@,
        SnapshotFault::Status => "status"@,
        SnapshotFault::Wait => "wait"@,
        SnapshotFault::Outcome => "outcome"@,
        SnapshotFault::OutcomeEvidence(f) => outcome_fault_path(f),
        SnapshotFault::OutcomeWait => "outcome.wait"@,
        SnapshotFault::CompletionBasis => "outcome.completion_basis"@,
        SnapshotFault::ToolCallId => "tool_ledger.call_id"@,
        SnapshotFault::ToolBoundInput => "tool_ledger.bound_input_ref"@,
        SnapshotFault::ToolResultCallId => "tool_ledger.result.call_id"@,
        SnapshotFault::ToolUnsettled => "tool_ledger.unsettled"@,
        SnapshotFault::ModelAttempt => "model_ledger.attempt_id"@,
        SnapshotFault::SourceModelStep => "source_states.model_step_id"@,
    }
}

/// Whether `error` reports `fault`.
pub open spec fn reports(error: ContractError, fault: SnapshotFault) -> bool {
    error.code == snapshot_fault_code(fault) && error.path@ == snapshot_fault_path(fault)
}

/// Whether a success basis satisfies the completion policy, given the verifier evidence.
pub open spec fn completion_accepted(
    policy: CompletionPolicy,
    basis: CompletionBasis,
    verification: Option<VerificationSummary>,
) -> bool {
    match policy {
        CompletionPolicy::TurnEnd {} => basis == CompletionBasis::TurnEnded,
        CompletionPolicy::Verified { verifier_ref } => basis == CompletionBasis::Verified
            && (verification matches Some(v) && v.verifier_ref@ == verifier_ref@),
    }
}

/// Whether a tool call state holds a settled result whose status is known.
pub open spec fn settled_known(state: ToolCallState) -> bool {
    state matches ToolCallState::Settled { result } && result.status != ToolResultStatus::Unknown
}

fn invalid(path: &str) -> (error: ContractError)
    ensures
        error.code == ErrorCode::InvalidSnapshot,
        error.path@ == path@,
{
    ContractError::new(ErrorCode::InvalidSnapshot, path)
}

impl RunSnapshot {
    /// Status, phase, wait and outcome presence disagree.
    pub open spec fn status_fault(self) -> Option<SnapshotFault> {
        if self.status == RunStatus::Running && (self.phase == RunPhase::Waiting || self.phase
            == RunPhase::Finish || self.wait is Some || self.outcome is Some) {
            Some(SnapshotFault::Status)
        } else if self.status == RunStatus::Waiting && (self.phase != RunPhase::Waiting
            || self.wait is None) {
            Some(SnapshotFault::Wait)
        } else if self.status.terminal() && (self.phase != RunPhase::Finish || self.wait is Some
            || self.outcome is None) {
            Some(SnapshotFault::Outcome)
        } else {
            None
        }
    }

    /// The stored outcome disagrees with the snapshot or lacks evidence.
    pub open spec fn recorded_outcome_fault(self) -> Option<SnapshotFault> {
        match self.outcome {
            None => None,
            Some(o) => if o.fault() is Some {
                Some(SnapshotFault::OutcomeEvidence(o.fault().unwrap()))
            } else if o.result.status_of() != self.status || o.checkpoint_revision != self.revision
                || o.usage != self.usage {
                Some(SnapshotFault::Outcome)
            } else if (o.result matches OutcomeResult::Waiting { wait } && !(self.wait matches Some(
                w,
            ) && w@ == wait@)) {
                Some(SnapshotFault::OutcomeWait)
            } else if (o.result matches OutcomeResult::Succeeded { completion_basis }
                && !completion_accepted(
                self.profile.pinned_profile().completion_policy,
                completion_basis,
                o.verification,
            )) {
                Some(SnapshotFault::CompletionBasis)
            } else {
                None
            },
        }
    }

    /// The fault of tool ledger entry `i`, given the entries before it.
    pub open spec fn tool_entry_fault(self, i: int) -> Option<SnapshotFault> {
        let entry = self.tool_ledger[i];
        if exists|j: int| 0 <= j < i && #[trigger] self.tool_ledger[j].call.call_id@ == entry.call.call_id@ {
            Some(SnapshotFault::ToolCallId)
        } else if (entry.state is Dispatching || entry.state is Unknown) && entry.call.bound_input_ref is None {
            Some(SnapshotFault::ToolBoundInput)
        } else if (entry.state matches ToolCallState::Settled { result } && result.call_id@
            != entry.call.call_id@) {
            Some(SnapshotFault::ToolResultCallId)
        } else if self.status == RunStatus::Succeeded && !settled_known(entry.state) {
            Some(SnapshotFault::ToolUnsettled)
        } else {
            None
        }
    }

    /// The first fault among the first `n` tool ledger entries.
    pub open spec fn tool_ledger_fault_upto(self, n: nat) -> Option<SnapshotFault>
        decreases n,
    {
        if n == 0 {
            None
        } else {
            match self.tool_ledger_fault_upto((n - 1) as nat) {
                Some(f) => Some(f),
                None => self.tool_entry_fault(n - 1),
            }
        }
    }

    /// Model attempt `i` belongs to another run or repeats an earlier attempt identity.
    pub open spec fn model_entry_faulty(self, i: int) -> bool {
        self.model_ledger[i].run_id@ != self.run_id@ || exists|j: int|
            0 <= j < i && #[trigger] self.model_ledger[j].attempt_id@ == self.model_ledger[i].attempt_id@
    }

    /// Source state `i` has a model step exactly when it is not collected before a model step.
    pub open spec fn source_state_faulty(self, i: int) -> bool {
        (self.source_states[i].trigger == ContextTrigger::BeforeModel) != (self.source_states[i].model_step_id is Some)
    }

    /// The first static checkpoint invariant that the snapshot breaks, given the digest
    /// of its admission input.
    pub open spec fn fault(self, admission: Seq<char>) -> Option<SnapshotFault> {
        if self.scope@ != self.profile.pinned_scope()@ || self.request_digest@ != admission {
            Some(SnapshotFault::RequestDigest)
        } else if !self.limits.within(self.profile.pinned_profile().limits) {
            Some(SnapshotFault::Limits)
        } else if self.status_fault() is Some {
            self.status_fault()
        } else if self.recorded_outcome_fault() is Some {
            self.recorded_outcome_fault()
        } else if self.tool_ledger_fault_upto(self.tool_ledger@.len()) is Some {
            self.tool_ledger_fault_upto(self.tool_ledger@.len())
        } else if exists|i: int| 0 <= i < self.model_ledger.len() && self.model_entry_faulty(i) {
            Some(SnapshotFault::ModelAttempt)
        } else if exists|i: int| 0 <= i < self.source_states.len() && self.source_state_faulty(i) {
            Some(SnapshotFault::SourceModelStep)
        } else {
            None
        }
    }

    /// Once the first `m` entries have a fault, every longer prefix reports that fault.
    pub proof fn lemma_tool_fault_stable(self, m: nat, n: nat)
        requires
            m <= n,
            self.tool_ledger_fault_upto(m) is Some,
        ensures
            self.tool_ledger_fault_upto(n) == self.tool_ledger_fault_upto(m),
        decreases n - m,
    {
        if m < n {
            self.lemma_tool_fault_stable(m, (n - 1) as nat);
        }
    }

    fn check_status(&self) -> (checked: Result<(), ContractError>)
        ensures
            checked is Ok <==> self.status_fault() is None,
            checked matches Err(e) ==> reports(e, self.status_fault().unwrap()),
    {
        if self.status == RunStatus::Running && (self.phase == RunPhase::Waiting || self.phase
            == RunPhase::Finish || self.wait.is_some() || self.outcome.is_some()) {
            return Err(invalid("status"));
        }
        if self.status == RunStatus::Waiting && (self.phase != RunPhase::Waiting || self.wait.is_none()) {
            return Err(invalid("wait"));
        }
        if self.status.is_terminal() && (self.phase != RunPhase::Finish || self.wait.is_some()
            || self.outcome.is_none()) {
            return Err(invalid("outcome"));
        }
        Ok(())
    }

    fn check_outcome(&self) -> (checked: Result<(), ContractError>)
        ensures
            checked is Ok <==> self.recorded_outcome_fault() is None,
            checked matches Err(e) ==> reports(e, self.recorded_outcome_fault().unwrap()),
    {
        if let Some(outcome) = &self.outcome {
            match outcome.validate() {
                Err(e) => return Err(e),
                Ok(()) => {},
            }
            if outcome.result.status() != self.status || outcome.checkpoint_revision != self.revision
                || outcome.usage != self.usage {
                return Err(invalid("outcome"));
            }
            if let OutcomeResult::Waiting { wait } = &outcome.result {
                let same = match &self.wait {
                    Some(w) => w.same(wait),
                    None => false,
                };
                if !same {
                    return Err(invalid("outcome.wait"));
                }
            }
            if let OutcomeResult::Succeeded { completion_basis } = &outcome.result {
                let accepted = match &self.profile.profile().completion_policy {
                    CompletionPolicy::TurnEnd {} => *completion_basis == CompletionBasis::TurnEnded,
                    CompletionPolicy::Verified { verifier_ref } => *completion_basis
                        == CompletionBasis::Verified && match &outcome.verification {
                        Some(v) => v.verifier_ref.same(verifier_ref),
                        None => false,
                    },
                };
                if !accepted {
                    return Err(invalid("outcome.completion_basis"));
                }
            }
        }
        Ok(())
    }

    fn check_tool_ledger(&self) -> (checked: Result<(), ContractError>)
        ensures
            checked is Ok <==> self.tool_ledger_fault_upto(self.tool_ledger@.len()) is None,
            checked matches Err(e) ==> reports(e, self.tool_ledger_fault_upto(self.tool_ledger@.len()).unwrap()),
    {
        let n = self.tool_ledger.len();
        let mut i: usize = 0;
        while i < n
            invariant
                n == self.tool_ledger@.len(),
                i <= n,
                self.tool_ledger_fault_upto(i as nat) is None,
            decreases n - i,
        {
            let entry = &self.tool_ledger[i];
            let mut j: usize = 0;
            while j < i
                invariant
                    i < n,
                    n == self.tool_ledger@.len(),
                    *entry == self.tool_ledger@[i as int],
                    self.tool_ledger_fault_upto(i as nat) is None,
                    j <= i,
                    forall|k: int| 0 <= k < j ==> self.tool_ledger@[k].call.call_id@ != entry.call.call_id@,
                decreases i - j,
            {
                if self.tool_ledger[j].call.call_id.same(&entry.call.call_id) {
                    proof {
                        assert(self.tool_ledger[j as int].call.call_id@ == entry.call.call_id@);
                        assert(self.tool_entry_fault(i as int) == Some(SnapshotFault::ToolCallId));
                        assert(self.tool_ledger_fault_upto((i + 1) as nat) == Some(SnapshotFault::ToolCallId));
                        self.lemma_tool_fault_stable((i + 1) as nat, n as nat);
                    }
                    return Err(invalid("tool_ledger.call_id"));
                }
                j = j + 1;
            }
            assert(!exists|k: int| 0 <= k < i && #[trigger] self.tool_ledger[k].call.call_id@
                == entry.call.call_id@);
            let dispatched = match &entry.state {
                ToolCallState::Dispatching { .. } => true,
                ToolCallState::Unknown { .. } => true,
                _ => false,
            };
            let (foreign_result, settled) = match &entry.state {
                ToolCallState::Settled { result } => (
                    !result.call_id.same(&entry.call.call_id),
                    result.status != ToolResultStatus::Unknown,
                ),
                _ => (false, false),
            };
            let fault: Option<&str> = if dispatched && entry.call.bound_input_ref.is_none() {
                Some("tool_ledger.bound_input_ref")
            } else if foreign_result {
                Some("tool_ledger.result.call_id")
            } else if self.status == RunStatus::Succeeded && !settled {
                Some("tool_ledger.unsettled")
            } else {
                None
            };
            match fault {
                Some(path) => {
                    proof {
                        assert(self.tool_entry_fault(i as int) is Some);
                        assert(self.tool_ledger_fault_upto((i + 1) as nat) == self.tool_entry_fault(i as int));
                        self.lemma_tool_fault_stable((i + 1) as nat, n as nat);
                    }
                    return Err(invalid(path));
                },
                None => {},
            }
            assert(self.tool_ledger_fault_upto((i + 1) as nat) is None);
            i = i + 1;
        }
        Ok(())
    }

    fn check_model_ledger(&self) -> (checked: Result<(), ContractError>)
        ensures
            checked is Ok <==> !exists|i: int| 0 <= i < self.model_ledger.len() && self.model_entry_faulty(i),
            checked matches Err(e) ==> reports(e, SnapshotFault::ModelAttempt),
    {
        let n = self.model_ledger.len();
        let mut i: usize = 0;
        while i < n
            invariant
                n == self.model_ledger@.len(),
                i <= n,
                forall|k: int| 0 <= k < i ==> !self.model_entry_faulty(k),
            decreases n - i,
        {
            let attempt = &self.model_ledger[i];
            if !attempt.run_id.same(&self.run_id) {
                assert(self.model_entry_faulty(i as int));
                return Err(invalid("model_ledger.attempt_id"));
            }
            let mut j: usize = 0;
            while j < i
                invariant
                    i < n,
                    n == self.model_ledger@.len(),
                    *attempt == self.model_ledger@[i as int],
                    j <= i,
                    forall|k: int| 0 <= k < j ==> self.model_ledger@[k].attempt_id@ != attempt.attempt_id@,
                decreases i - j,
            {
                if self.model_ledger[j].attempt_id.same(&attempt.attempt_id) {
                    assert(self.model_ledger[j as int].attempt_id@ == attempt.attempt_id@);
                    assert(self.model_entry_faulty(i as int));
                    return Err(invalid("model_ledger.attempt_id"));
                }
                j = j + 1;
            }
            assert(!self.model_entry_faulty(i as int));
            i = i + 1;
        }
        Ok(())
    }

    fn check_source_states(&self) -> (checked: Result<(), ContractError>)
        ensures
            checked is Ok <==> !exists|i: int| 0 <= i < self.source_states.len() && self.source_state_faulty(i),
            checked matches Err(e) ==> reports(e, SnapshotFault::SourceModelStep),
    {
        let n = self.source_states.len();
        let mut i: usize = 0;
        while i < n
            invariant
                n == self.source_states@.len(),
                i <= n,
                forall|k: int| 0 <= k < i ==> !self.source_state_faulty(k),
            decreases n - i,
        {
            let s = &self.source_states[i];
            if (s.trigger == ContextTrigger::BeforeModel) != s.model_step_id.is_some() {
                assert(self.source_state_faulty(i as int));
                return Err(invalid("source_states.model_step_id"));
            }
            i = i + 1;
        }
        Ok(())
    }

    /// Check static checkpoint invariants against the digest of the admission input,
    /// without performing recovery or authorization.
    pub fn validate_with_digest(&self, admission: &JsonDigest) -> (checked: Result<(), ContractError>)
        ensures
            checked is Ok <==> self.fault(admission@) is None,
            checked matches Err(e) ==> reports(e, self.fault(admission@).unwrap()),
    {
        if !self.scope.same(self.profile.scope()) || !self.request_digest.same(admission) {
            return Err(invalid("request_digest"));
        }
        if !self.limits.is_within(&self.profile.profile().limits) {
            return Err(invalid("limits"));
        }
        self.check_status()?;
        self.check_outcome()?;
        self.check_tool_ledger()?;
        self.check_model_ledger()?;
        self.check_source_states()?;
        Ok(())
    }

    /// Check static checkpoint invariants; `admission_json` is the canonical JSON of the
    /// logical start input (request, profile digest, system-input digest and versions),
    /// whose digest the request digest must be.
    pub fn validate(&self, admission_json: &[u8]) -> (checked: Result<(), ContractError>)
        ensures
            checked is Ok <==> self.fault(canonical_digest_text(admission_json@)) is None,
            checked matches Err(e) ==> reports(e, self.fault(canonical_digest_text(admission_json@)).unwrap()),
    {
        let admission = JsonDigest::of_canonical(admission_json);
        self.validate_with_digest(&admission)
    }
}

/// The first `n` tool ledger entries have no fault exactly when none of them has one.
pub proof fn lemma_tool_prefix_clean(s: RunSnapshot, n: nat)
    requires
        n <= s.tool_ledger.len(),
    ensures
        s.tool_ledger_fault_upto(n) is None <==> forall|i: int| 0 <= i < n ==> #[trigger] s.tool_entry_fault(i) is None,
    decreases n,
{
    if n > 0 {
        lemma_tool_prefix_clean(s, (n - 1) as nat);
        if s.tool_ledger_fault_upto((n - 1) as nat) is Some {
            let i = choose|i: int| 0 <= i < n - 1 && #[trigger] s.tool_entry_fault(i) is Some;
            assert(s.tool_entry_fault(i) is Some);
        }
    }
}

/// An accepted checkpoint is consistent: a terminal status has finished with an outcome
/// and no wait; a waiting status holds its wait; any outcome has the snapshot's status,
/// revision and usage; tool calls and model attempts are unique and attempts belong to the run.
pub proof fn lemma_accepted_snapshot_consistent(s: RunSnapshot, admission: Seq<char>)
    requires
        s.fault(admission) is None,
    ensures
        s.request_digest@ == admission,
        s.scope@ == s.profile.pinned_scope()@,
        s.limits.within(s.profile.pinned_profile().limits),
        s.status.terminal() <==> (s.phase == RunPhase::Finish && s.outcome is Some && s.wait is None),
        s.status == RunStatus::Waiting ==> s.phase == RunPhase::Waiting && s.wait is Some,
        s.status == RunStatus::Running ==> s.outcome is None && s.wait is None,
        s.outcome matches Some(o) ==> o.result.status_of() == s.status && o.checkpoint_revision
            == s.revision && o.usage == s.usage,
        forall|i: int, j: int|
            0 <= i < j < s.tool_ledger.len() ==> #[trigger] s.tool_ledger[i].call.call_id@
                != #[trigger] s.tool_ledger[j].call.call_id@,
        forall|i: int, j: int|
            0 <= i < j < s.model_ledger.len() ==> #[trigger] s.model_ledger[i].attempt_id@
                != #[trigger] s.model_ledger[j].attempt_id@,
        forall|i: int| 0 <= i < s.model_ledger.len() ==> #[trigger] s.model_ledger[i].run_id@ == s.run_id@,
{
    lemma_tool_prefix_clean(s, s.tool_ledger@.len());
    assert forall|i: int, j: int| 0 <= i < j < s.tool_ledger.len() implies #[trigger] s.tool_ledger[i].call.call_id@
        != #[trigger] s.tool_ledger[j].call.call_id@ by {
        assert(s.tool_entry_fault(j) is None);
    }
    assert forall|i: int, j: int| 0 <= i < j < s.model_ledger.len() implies #[trigger] s.model_ledger[i].attempt_id@
        != #[trigger] s.model_ledger[j].attempt_id@ by {
        assert(!s.model_entry_faulty(j));
    }
    assert forall|i: int| 0 <= i < s.model_ledger.len() implies #[trigger] s.model_ledger[i].run_id@ == s.run_id@ by {
        assert(!s.model_entry_faulty(i));
    }
}

/// An accepted checkpoint's effective limits are, kind by kind, no greater than the
/// limits of its pinned profile.
pub proof fn lemma_accepted_limits_within_profile(s: RunSnapshot, admission: Seq<char>)
    requires
        s.fault(admission) is None,
    ensures
        s.limits@.max_model_calls <= s.profile.pinned_profile().limits@.max_model_calls,
        s.limits@.max_tool_attempts <= s.profile.pinned_profile().limits@.max_tool_attempts,
        s.limits@.max_repair_attempts <= s.profile.pinned_profile().limits@.max_repair_attempts,
        s.limits@.max_recovery_attempts <= s.profile.pinned_profile().limits@.max_recovery_attempts,
        s.limits@.max_elapsed_ms <= s.profile.pinned_profile().limits@.max_elapsed_ms,
{
}

/// A checkpoint whose effective limit of any kind exceeds its profile's limit of that kind
/// is refused, whatever else it holds.
pub proof fn lemma_excess_limit_refused(s: RunSnapshot, admission: Seq<char>)
    requires
        s.limits@.max_model_calls > s.profile.pinned_profile().limits@.max_model_calls
            || s.limits@.max_tool_attempts > s.profile.pinned_profile().limits@.max_tool_attempts
            || s.limits@.max_repair_attempts > s.profile.pinned_profile().limits@.max_repair_attempts
            || s.limits@.max_recovery_attempts > s.profile.pinned_profile().limits@.max_recovery_attempts
            || s.limits@.max_elapsed_ms > s.profile.pinned_profile().limits@.max_elapsed_ms,
    ensures
        s.fault(admission) is Some,
{
}

/// An accepted successful checkpoint retains no unresolved effect and no unsettled or
/// unknown tool result, satisfies its completion policy, and a verified success carries a
/// passing verifier record from the pinned verifier.
pub proof fn lemma_accepted_success_is_settled(s: RunSnapshot, admission: Seq<char>)
    requires
        s.fault(admission) is None,
        s.status == RunStatus::Succeeded,
    ensures
        s.outcome matches Some(o) && o.unresolved_effects.len() == 0 && (o.result matches OutcomeResult::Succeeded {
            completion_basis,
        } && completion_accepted(s.profile.pinned_profile().completion_policy, completion_basis, o.verification)
            && (completion_basis == CompletionBasis::Verified ==> (o.verification matches Some(v) && v.verdict
            == crate::run::VerificationVerdict::Pass))),
        forall|i: int| 0 <= i < s.tool_ledger.len() ==> settled_known(#[trigger] s.tool_ledger[i].state),
{
    lemma_tool_prefix_clean(s, s.tool_ledger@.len());
    assert forall|i: int| 0 <= i < s.tool_ledger.len() implies settled_known(#[trigger] s.tool_ledger[i].state) by {
        assert(s.tool_entry_fault(i) is None);
    }
}

/// Durable facts reference stored records rather than copying protected inputs.
#[derive(Debug, Clone, PartialEq, Eq)]
pub enum RunEventPayload {
    /// Admission committed.
    RunStarted {
        /// Accepted request reference.
        request_ref: RecordRef,
        /// Pinned profile identity.
        profile_digest: JsonDigest,
    },
    /// Tool plan committed.
    ToolPlanned {
        /// Protected call record.
        call_ref: RecordRef,
    },
    /// Tool result committed.
    ToolSettled {
        /// Protected result record.
        result_ref: RecordRef,
    },
    /// Verifier decision committed.
    VerificationCompleted {
        /// Recorded verification evidence.
        verification_ref: RecordRef,
    },
    /// Wait committed.
    RunWaiting {
        /// Recorded wait.
        wait_ref: RecordRef,
    },
    /// Resume command consumed.
    RunResumed {
        /// Consumed command record.
        command_ref: RecordRef,
    },
    /// Terminal outcome committed.
    RunFinished {
        /// Authoritative outcome record.
        outcome_ref: RecordRef,
    },
    /// Model route and invocation identity committed.
    ModelRouteSelected {
        /// Invocation record.
        invocation_ref: RecordRef,
        /// Selected route identity.
        route_digest: JsonDigest,
    },
}

/// A durable event committed atomically with authoritative state by the store.
#[derive(Debug, Clone, PartialEq, Eq)]
pub struct RunEvent {
    /// Independent event wire version.
    pub schema_version: RunEventSchemaVersion,
    /// Stable event identity for deduplication.
    pub event_id: Id,
    /// Owning scope.
    pub scope: Scope,
    /// Owning run.
    pub run_id: Id,
    /// Owning session.
    pub session_id: Id,
    /// Positive durable event sequence.
    pub seq: u64,
    /// UTC milliseconds since Unix epoch.
    pub timestamp_ms: i64,
    /// Typed event data with authorized record references.
    pub payload: RunEventPayload,
}

impl RunEvent {
    /// Durable event sequences are positive.
    pub open spec fn wf(self) -> bool {
        self.seq > 0
    }
}

/// Non-durable presentation hints; these carry no durable sequence or completion claim.
#[derive(Debug, Clone, PartialEq, Eq)]
pub enum EphemeralEvent {
    /// Candidate text from an incomplete model response.
    CandidateTextDelta {
        /// Owning run.
        run_id: Id,
        /// Physical model attempt.
        attempt_id: Id,
        /// Candidate text, not a committed final answer.
        text: String,
    },
}

} // verus!
