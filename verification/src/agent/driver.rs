use super::{
    ModelBindingRef, ModelExchangeOutcome, ModelPurpose, OpaqueContinuation, RouteRequest, RouteRule,
    StoredModelResponse,
};
use crate::profile::AgentProfile;
use crate::error::{error_code_wire_name, ContractError, ErrorCode};
use crate::message::{ContentBlock, Message, MessageOrigin, MessageRole, Visibility};
use crate::model::{ModelInvocationRecord, ResolvedModelRoute};
use crate::run::{
    opt_record_view, BudgetKind, BudgetUsage, CompletionBasis, Failure, InputContent, OutcomeResult,
    RunOutcome, RunPhase, RunStatus, WaitState,
};
use crate::run::RunEventSchemaVersion;
use crate::snapshot::{RunEvent, RunEventPayload, RunSnapshot};
use crate::values::{canonical_digest_text, Id, JsonDigest, RecordRef, Scope};
use vstd::prelude::*;

verus! {

/// `result` is a failure classified as `code`, without a diagnostic record.
pub open spec fn failed_as(result: OutcomeResult, code: Seq<char>) -> bool {
    result matches OutcomeResult::Failed { failure } && failure.code@ == code && failure.diagnostic_ref is None
}

/// A failed outcome with a static classification.
pub fn failed(code: &str) -> (result: OutcomeResult)
    requires
        code@.len() > 0,
    ensures
        failed_as(result, code@),
{
    let id = match Id::new(code) {
        Ok(id) => id,
        Err(_) => {
            assert(false);
            unreached()
        },
    };
    OutcomeResult::Failed { failure: Failure { code: id, diagnostic_ref: None } }
}

/// The budget named by a budget error's location; any other location stands for elapsed time.
pub open spec fn budget_kind_of(path: Seq<char>) -> BudgetKind {
    if path == "budget.model_calls"@ {
        BudgetKind::ModelCalls
    } else if path == "budget.tool_attempts"@ {
        BudgetKind::ToolAttempts
    } else if path == "budget.repair_attempts"@ {
        BudgetKind::RepairAttempts
    } else if path == "budget.recovery_attempts"@ {
        BudgetKind::RecoveryAttempts
    } else {
        BudgetKind::Elapsed
    }
}

fn str_eq(a: &str, b: &str) -> (same: bool)
    ensures
        same == (a@ == b@),
{
    a.to_owned() == b.to_owned()
}

/// The budget named by a budget error's location.
pub fn budget_kind_for(path: &str) -> (kind: BudgetKind)
    ensures
        kind == budget_kind_of(path@),
{
    if str_eq(path, "budget.model_calls") {
        BudgetKind::ModelCalls
    } else if str_eq(path, "budget.tool_attempts") {
        BudgetKind::ToolAttempts
    } else if str_eq(path, "budget.repair_attempts") {
        BudgetKind::RepairAttempts
    } else if str_eq(path, "budget.recovery_attempts") {
        BudgetKind::RecoveryAttempts
    } else {
        BudgetKind::Elapsed
    }
}

/// Errors that end the segment without an outcome: ownership, storage and clock failures.
pub open spec fn is_unsettled_error(code: ErrorCode) -> bool {
    code == ErrorCode::LeaseLost || code == ErrorCode::RevisionConflict || code
        == ErrorCode::PersistenceUnavailable || code == ErrorCode::StateNotFound || code
        == ErrorCode::ClockUnavailable || code == ErrorCode::ClockRegression
}

/// The recorded cancellation reason: the requested reason, or `cancelled`.
pub open spec fn cancel_reason_text(reason: Option<&str>) -> Seq<char> {
    match reason {
        Some(r) => r@,
        None => "cancelled"@,
    }
}

/// The cancellation reason to record.
pub fn cancel_reason(reason: Option<&str>) -> (text: String)
    ensures
        text@ == cancel_reason_text(reason),
{
    match reason {
        Some(r) => r.to_owned(),
        None => "cancelled".to_owned(),
    }
}

/// The output kept from text: nothing for empty text, otherwise the text itself.
pub open spec fn text_output(text: Seq<char>) -> Seq<Seq<char>> {
    if text.len() == 0 { Seq::empty() } else { seq![text] }
}

/// The texts of text content.
pub open spec fn output_texts(output: Seq<InputContent>) -> Seq<Seq<char>> {
    output.map_values(|c: InputContent| match c { InputContent::Text { text } => text@ })
}

pub(crate) fn text_content(text: &str) -> (output: Vec<InputContent>)
    ensures
        output_texts(output@) == text_output(text@),
{
    if text.unicode_len() == 0 {
        let output: Vec<InputContent> = Vec::new();
        assert(output_texts(output@) =~= Seq::<Seq<char>>::empty());
        output
    } else {
        let mut output: Vec<InputContent> = Vec::new();
        output.push(InputContent::Text { text: text.to_owned() });
        assert(output_texts(output@) =~= seq![text@]);
        output
    }
}

/// Every wire name of an error category is nonempty.
pub proof fn lemma_wire_name_nonempty(code: ErrorCode)
    ensures
        error_code_wire_name(code).len() > 0,
{
    match code {
        ErrorCode::AccessDenied => reveal_strlit("access_denied"),
        ErrorCode::PolicyUnavailable => reveal_strlit("policy_unavailable"),
        ErrorCode::DeadlineExceeded => reveal_strlit("deadline_exceeded"),
        ErrorCode::Cancelled => reveal_strlit("cancelled"),
        ErrorCode::RuntimeUnavailable => reveal_strlit("runtime_unavailable"),
        ErrorCode::InvalidJson => reveal_strlit("invalid_json"),
        ErrorCode::InvalidContract => reveal_strlit("invalid_contract"),
        ErrorCode::UnsupportedSchemaVersion => reveal_strlit("unsupported_schema_version"),
        ErrorCode::InvalidReference => reveal_strlit("invalid_reference"),
        ErrorCode::ComponentUnavailable => reveal_strlit("component_unavailable"),
        ErrorCode::UnsupportedContractVersion => reveal_strlit("unsupported_contract_version"),
        ErrorCode::CapabilityUnsupported => reveal_strlit("capability_unsupported"),
        ErrorCode::InvalidConfiguration => reveal_strlit("invalid_configuration"),
        ErrorCode::InvalidSchema => reveal_strlit("invalid_schema"),
        ErrorCode::ProfileMismatch => reveal_strlit("profile_mismatch"),
        ErrorCode::InvalidSnapshot => reveal_strlit("invalid_snapshot"),
        ErrorCode::StateNotFound => reveal_strlit("state_not_found"),
        ErrorCode::RequestConflict => reveal_strlit("request_conflict"),
        ErrorCode::SessionBusy => reveal_strlit("session_busy"),
        ErrorCode::RunConflict => reveal_strlit("run_conflict"),
        ErrorCode::RevisionConflict => reveal_strlit("revision_conflict"),
        ErrorCode::LeaseBusy => reveal_strlit("lease_busy"),
        ErrorCode::LeaseLost => reveal_strlit("lease_lost"),
        ErrorCode::InvalidTransition => reveal_strlit("invalid_transition"),
        ErrorCode::InvalidEvent => reveal_strlit("invalid_event"),
        ErrorCode::InvalidMessage => reveal_strlit("invalid_message"),
        ErrorCode::RecordConflict => reveal_strlit("record_conflict"),
        ErrorCode::PersistenceUnavailable => reveal_strlit("persistence_unavailable"),
        ErrorCode::BudgetExceeded => reveal_strlit("budget_exceeded"),
        ErrorCode::ClockUnavailable => reveal_strlit("clock_unavailable"),
        ErrorCode::ClockRegression => reveal_strlit("clock_regression"),
        ErrorCode::ModelRouteDenied => reveal_strlit("model_route_denied"),
        ErrorCode::ModelContextIncompatible => reveal_strlit("model_context_incompatible"),
    }
}

/// A success that cancellation or the run deadline overtook becomes a cancellation or
/// an elapsed-time exhaustion; any other result stands.
pub open spec fn settled_result_matches(
    settled: OutcomeResult,
    result: OutcomeResult,
    cancelled: bool,
    reason: Option<&str>,
    elapsed_ms: u64,
    max_elapsed_ms: u64,
) -> bool {
    if result is Succeeded && cancelled {
        settled matches OutcomeResult::Cancelled { reason: text } && text@ == cancel_reason_text(reason)
    } else if result is Succeeded && elapsed_ms >= max_elapsed_ms {
        settled == (OutcomeResult::Exhausted { budget: BudgetKind::Elapsed })
    } else {
        settled == result
    }
}

/// Settle a proposed success against cancellation and the run deadline.
pub fn settle_success(
    result: OutcomeResult,
    cancelled: bool,
    reason: Option<&str>,
    elapsed_ms: u64,
    max_elapsed_ms: u64,
) -> (settled: OutcomeResult)
    ensures
        settled_result_matches(settled, result, cancelled, reason, elapsed_ms, max_elapsed_ms),
        !(settled is Succeeded) || !cancelled,
        !(settled is Succeeded) || elapsed_ms < max_elapsed_ms,
        settled is Waiting ==> settled == result,
        settled is Succeeded ==> settled == result,
{
    let succeeded = matches!(result, OutcomeResult::Succeeded { .. });
    if succeeded && cancelled {
        OutcomeResult::Cancelled { reason: cancel_reason(reason) }
    } else if succeeded && elapsed_ms >= max_elapsed_ms {
        OutcomeResult::Exhausted { budget: BudgetKind::Elapsed }
    } else {
        result
    }
}

/// The first settlement of a finishing segment: a success overtaken by cancellation or
/// the deadline is replaced and its output dropped.
pub fn finish_candidate(
    result: OutcomeResult,
    output: Vec<InputContent>,
    cancelled: bool,
    reason: Option<&str>,
    elapsed_ms: u64,
    max_elapsed_ms: u64,
) -> (settled: (OutcomeResult, Vec<InputContent>))
    ensures
        settled_result_matches(settled.0, result, cancelled, reason, elapsed_ms, max_elapsed_ms),
        settled.1@ == if result is Succeeded && (cancelled || elapsed_ms >= max_elapsed_ms) {
            Seq::<InputContent>::empty()
        } else {
            output@
        },
{
    let overtaken = matches!(result, OutcomeResult::Succeeded { .. }) && (cancelled || elapsed_ms >= max_elapsed_ms);
    let settled = settle_success(result, cancelled, reason, elapsed_ms, max_elapsed_ms);
    if overtaken {
        (settled, Vec::new())
    } else {
        (settled, output)
    }
}

/// Whether a finishing transaction is still owed: a run whose saved status is already
/// terminal keeps its stored outcome, and finishing it again does nothing.
pub fn finish_owed(saved_status: RunStatus) -> (owed: bool)
    ensures
        owed == !saved_status.terminal(),
{
    !saved_status.is_terminal()
}

/// A model request is projected only while the run is not cancelled.
pub fn check_projection(cancelled: bool) -> (checked: Result<(), ContractError>)
    ensures
        checked is Ok <==> !cancelled,
        checked matches Err(e) ==> e.code == ErrorCode::Cancelled && e.path@ == "agent.projection"@,
{
    if cancelled {
        Err(ContractError::new(ErrorCode::Cancelled, "agent.projection"))
    } else {
        Ok(())
    }
}

/// Whether a finishing segment falls back to the saved partial response: it has no
/// output and did not succeed.
pub fn needs_saved_output(result: &OutcomeResult, output: &Vec<InputContent>) -> (needed: bool)
    ensures
        needed == (output@.len() == 0 && !(result is Succeeded)),
{
    output.len() == 0 && !matches!(result, OutcomeResult::Succeeded { .. })
}

/// The final transaction needs the lease to outlive the settlement time.
pub fn check_finish_lease(now_ms: i64, lease_expires_at_ms: i64) -> (checked: Result<(), ContractError>)
    ensures
        checked is Ok <==> now_ms < lease_expires_at_ms,
        checked matches Err(e) ==> e.code == ErrorCode::LeaseLost && e.path@ == "agent.finish"@,
{
    if now_ms >= lease_expires_at_ms {
        Err(ContractError::new(ErrorCode::LeaseLost, "agent.finish"))
    } else {
        Ok(())
    }
}

/// The response record of the last model attempt, if it has one.
pub open spec fn last_response_view(ledger: Seq<ModelInvocationRecord>) -> Option<(Seq<char>, u64, Seq<char>)> {
    if ledger.len() == 0 {
        None
    } else {
        opt_record_view(ledger.last().response_ref)
    }
}

/// The response record named for a failure is that of the ledger's final attempt, never an
/// earlier one; an empty ledger names none.
pub proof fn lemma_last_response_is_final_attempt(ledger: Seq<ModelInvocationRecord>, attempt: ModelInvocationRecord)
    ensures
        last_response_view(ledger.push(attempt)) == opt_record_view(attempt.response_ref),
        last_response_view(Seq::<ModelInvocationRecord>::empty()) is None,
{
    assert(ledger.push(attempt).last() == attempt);
}

fn last_response_ref(ledger: &Vec<ModelInvocationRecord>) -> (r: Option<RecordRef>)
    ensures
        opt_record_view(r) == last_response_view(ledger@),
{
    if ledger.len() == 0 {
        None
    } else {
        match &ledger[ledger.len() - 1].response_ref {
            Some(r) => Some(r.copy()),
            None => None,
        }
    }
}

/// A checkpoint to commit and the revision it replaces.
#[derive(Debug, Clone, PartialEq, Eq)]
pub struct CheckpointCommit {
    /// Revision the transaction expects to replace.
    pub expected_revision: u64,
    /// Checkpoint to commit; its outcome is the authoritative outcome record.
    pub snapshot: RunSnapshot,
}

/// Build the finishing checkpoint: the next revision and event sequence, the settled
/// usage, the outcome's status in the finish phase, and the outcome itself. A failure
/// names the last model attempt's response as its diagnostic.
pub fn finish_commit(
    snapshot: RunSnapshot,
    result: OutcomeResult,
    output: Vec<InputContent>,
    elapsed_ms: u64,
) -> (committed: Result<CheckpointCommit, ContractError>)
    ensures
        committed is Err <==> (snapshot.revision == u64::MAX || snapshot.last_event_seq == u64::MAX),
        committed matches Err(e) ==> if snapshot.revision == u64::MAX {
            e.code == ErrorCode::RevisionConflict && e.path@ == "agent.finish"@
        } else {
            e.code == ErrorCode::InvalidSnapshot && e.path@ == "agent.event"@
        },
        committed matches Ok(c) ==> {
            &&& c.expected_revision == snapshot.revision
            &&& c.snapshot == (RunSnapshot {
                revision: (snapshot.revision + 1) as u64,
                last_event_seq: (snapshot.last_event_seq + 1) as u64,
                usage: BudgetUsage { elapsed_ms, ..snapshot.usage },
                status: result.status_of(),
                phase: RunPhase::Finish,
                outcome: c.snapshot.outcome,
                ..snapshot
            })
            &&& c.snapshot.outcome matches Some(o)
            &&& o.output == output
            &&& o.artifacts@.len() == 0
            &&& o.usage == c.snapshot.usage
            &&& o.checkpoint_revision == c.snapshot.revision
            &&& o.verification is None
            &&& o.unresolved_effects@.len() == 0
            &&& match result {
                OutcomeResult::Failed { failure } => o.result matches OutcomeResult::Failed { failure: f }
                    && f.code == failure.code && opt_record_view(f.diagnostic_ref) == last_response_view(
                    snapshot.model_ledger@,
                ) && if snapshot.model_ledger@.len() > 0 {
                    opt_record_view(f.diagnostic_ref) == opt_record_view(snapshot.model_ledger@.last().response_ref)
                } else {
                    f.diagnostic_ref is None
                },
                _ => o.result == result,
            }
        },
        committed matches Ok(c) ==> (snapshot.wait is None && !(result is Waiting) && (result is Succeeded
            ==> result == (OutcomeResult::Succeeded { completion_basis: CompletionBasis::TurnEnded })
            && snapshot.profile.pinned_profile().completion_policy is TurnEnd)) ==> c.snapshot.status_fault() is None
            && c.snapshot.recorded_outcome_fault() is None,
{
    let expected_revision = snapshot.revision;
    let revision = match snapshot.revision.checked_add(1) {
        Some(r) => r,
        None => return Err(ContractError::new(ErrorCode::RevisionConflict, "agent.finish")),
    };
    let seq = match snapshot.last_event_seq.checked_add(1) {
        Some(s) => s,
        None => return Err(ContractError::new(ErrorCode::InvalidSnapshot, "agent.event")),
    };
    let diagnostic = last_response_ref(&snapshot.model_ledger);
    let status = result.status();
    let result = match result {
        OutcomeResult::Failed { failure } => OutcomeResult::Failed {
            failure: Failure { code: failure.code, diagnostic_ref: diagnostic },
        },
        other => other,
    };
    let mut snapshot = snapshot;
    snapshot.revision = revision;
    snapshot.last_event_seq = seq;
    snapshot.usage.elapsed_ms = elapsed_ms;
    snapshot.status = status;
    snapshot.phase = RunPhase::Finish;
    let outcome = RunOutcome {
        result,
        output,
        artifacts: Vec::new(),
        usage: snapshot.usage,
        checkpoint_revision: revision,
        verification: None,
        unresolved_effects: Vec::new(),
    };
    snapshot.outcome = Some(outcome);
    Ok(CheckpointCommit { expected_revision, snapshot })
}

fn checkpoint_event(
    snapshot: &RunSnapshot,
    run_id: &Id,
    event_id: Id,
    scope: Scope,
    timestamp_ms: i64,
    payload: RunEventPayload,
) -> (event: Result<RunEvent, ContractError>)
    ensures
        event is Ok <==> snapshot.last_event_seq > 0,
        event matches Ok(e) ==> {
            &&& e.wf()
            &&& e.seq == snapshot.last_event_seq
            &&& e.event_id == event_id
            &&& e.scope == scope
            &&& e.run_id@ == run_id@
            &&& e.session_id@ == snapshot.request.session_id@
            &&& e.timestamp_ms == timestamp_ms
            &&& e.payload == payload
        },
        event matches Err(e) ==> e.code == ErrorCode::InvalidSnapshot && e.path@ == "agent.event"@,
{
    if snapshot.last_event_seq == 0 {
        return Err(ContractError::new(ErrorCode::InvalidSnapshot, "agent.event"));
    }
    Ok(RunEvent {
        schema_version: RunEventSchemaVersion::V1,
        event_id,
        scope,
        run_id: run_id.copy(),
        session_id: snapshot.request.session_id.copy(),
        seq: snapshot.last_event_seq,
        timestamp_ms,
        payload,
    })
}

/// The durable event of a finishing checkpoint: it carries the checkpoint's last event
/// sequence, which must be positive, and references the outcome record.
pub fn finished_event(
    snapshot: &RunSnapshot,
    run_id: &Id,
    event_id: Id,
    scope: Scope,
    timestamp_ms: i64,
    outcome_ref: RecordRef,
) -> (event: Result<RunEvent, ContractError>)
    ensures
        event is Ok <==> snapshot.last_event_seq > 0,
        event matches Ok(e) ==> {
            &&& e.wf()
            &&& e.seq == snapshot.last_event_seq
            &&& e.event_id == event_id
            &&& e.scope == scope
            &&& e.run_id@ == run_id@
            &&& e.session_id@ == snapshot.request.session_id@
            &&& e.timestamp_ms == timestamp_ms
            &&& e.payload == (RunEventPayload::RunFinished { outcome_ref })
        },
        event matches Err(e) ==> e.code == ErrorCode::InvalidSnapshot && e.path@ == "agent.event"@,
{
    checkpoint_event(snapshot, run_id, event_id, scope, timestamp_ms, RunEventPayload::RunFinished { outcome_ref })
}

/// The durable event of a waiting checkpoint: it carries the checkpoint's last event
/// sequence, which must be positive, and references the recorded wait.
pub fn waiting_event(
    snapshot: &RunSnapshot,
    run_id: &Id,
    event_id: Id,
    scope: Scope,
    timestamp_ms: i64,
    wait_ref: RecordRef,
) -> (event: Result<RunEvent, ContractError>)
    ensures
        event is Ok <==> snapshot.last_event_seq > 0,
        event matches Ok(e) ==> {
            &&& e.wf()
            &&& e.seq == snapshot.last_event_seq
            &&& e.event_id == event_id
            &&& e.scope == scope
            &&& e.run_id@ == run_id@
            &&& e.session_id@ == snapshot.request.session_id@
            &&& e.timestamp_ms == timestamp_ms
            &&& e.payload == (RunEventPayload::RunWaiting { wait_ref })
        },
        event matches Err(e) ==> e.code == ErrorCode::InvalidSnapshot && e.path@ == "agent.event"@,
{
    checkpoint_event(snapshot, run_id, event_id, scope, timestamp_ms, RunEventPayload::RunWaiting { wait_ref })
}

/// Build the checkpoint of a segment that waits: the next revision and event sequence,
/// the settled usage, the waiting status and phase, the saved wait, and a waiting outcome
/// that names the same wait, keeps the partial output and lists the effects that must not
/// be repeated blindly.
pub fn wait_commit(
    snapshot: RunSnapshot,
    wait: WaitState,
    output: Vec<InputContent>,
    unresolved_effects: Vec<RecordRef>,
    elapsed_ms: u64,
) -> (committed: Result<CheckpointCommit, ContractError>)
    ensures
        committed is Err <==> (snapshot.revision == u64::MAX || snapshot.last_event_seq == u64::MAX),
        committed matches Err(e) ==> if snapshot.revision == u64::MAX {
            e.code == ErrorCode::RevisionConflict && e.path@ == "agent.wait"@
        } else {
            e.code == ErrorCode::InvalidSnapshot && e.path@ == "agent.event"@
        },
        committed matches Ok(c) ==> {
            &&& c.expected_revision == snapshot.revision
            &&& c.snapshot == (RunSnapshot {
                revision: (snapshot.revision + 1) as u64,
                last_event_seq: (snapshot.last_event_seq + 1) as u64,
                usage: BudgetUsage { elapsed_ms, ..snapshot.usage },
                status: RunStatus::Waiting,
                phase: RunPhase::Waiting,
                wait: c.snapshot.wait,
                outcome: c.snapshot.outcome,
                ..snapshot
            })
            &&& c.snapshot.wait matches Some(w) && w@ == wait@
            &&& c.snapshot.outcome matches Some(o)
            &&& o.result matches OutcomeResult::Waiting { wait: saved } && saved@ == wait@
            &&& o.output == output
            &&& o.artifacts@.len() == 0
            &&& o.usage == c.snapshot.usage
            &&& o.checkpoint_revision == c.snapshot.revision
            &&& o.verification is None
            &&& o.unresolved_effects == unresolved_effects
        },
        committed matches Ok(c) ==> c.snapshot.status_fault() is None && c.snapshot.recorded_outcome_fault() is None,
{
    let expected_revision = snapshot.revision;
    let revision = match snapshot.revision.checked_add(1) {
        Some(r) => r,
        None => return Err(ContractError::new(ErrorCode::RevisionConflict, "agent.wait")),
    };
    let seq = match snapshot.last_event_seq.checked_add(1) {
        Some(s) => s,
        None => return Err(ContractError::new(ErrorCode::InvalidSnapshot, "agent.event")),
    };
    let saved = wait.copy();
    let mut snapshot = snapshot;
    snapshot.revision = revision;
    snapshot.last_event_seq = seq;
    snapshot.usage.elapsed_ms = elapsed_ms;
    snapshot.status = RunStatus::Waiting;
    snapshot.phase = RunPhase::Waiting;
    snapshot.wait = Some(wait);
    let outcome = RunOutcome {
        result: OutcomeResult::Waiting { wait: saved },
        output,
        artifacts: Vec::new(),
        usage: snapshot.usage,
        checkpoint_revision: revision,
        verification: None,
        unresolved_effects,
    };
    snapshot.outcome = Some(outcome);
    Ok(CheckpointCommit { expected_revision, snapshot })
}

/// Continuations of a success must come from the route of the last model attempt.
pub fn check_continuations(
    status: RunStatus,
    continuation: &Vec<OpaqueContinuation>,
    last_route: Option<&ResolvedModelRoute>,
) -> (checked: Result<(), ContractError>)
    ensures
        checked is Ok <==> (status != RunStatus::Succeeded || continuation@.len() == 0 || (last_route matches Some(
            route,
        ) && forall|i: int| 0 <= i < continuation@.len() ==> #[trigger] continuation@[i].route_digest@
            == route.route_digest@)),
        checked matches Err(e) ==> if last_route is None {
            e.code == ErrorCode::InvalidSnapshot && e.path@ == "agent.continuation"@
        } else {
            e.code == ErrorCode::ModelContextIncompatible && e.path@ == "agent.continuation"@
        },
{
    if status != RunStatus::Succeeded {
        return Ok(());
    }
    let mut i: usize = 0;
    while i < continuation.len()
        invariant
            status == RunStatus::Succeeded,
            i <= continuation@.len(),
            i > 0 ==> last_route is Some,
            last_route matches Some(route) ==> forall|k: int| 0 <= k < i ==> #[trigger] continuation@[k].route_digest@
                == route.route_digest@,
        decreases continuation@.len() - i,
    {
        let route = match last_route {
            Some(r) => r,
            None => return Err(ContractError::new(ErrorCode::InvalidSnapshot, "agent.continuation")),
        };
        if !continuation[i].route_digest().same(route.digest()) {
            assert(continuation@[i as int].route_digest@ != route.route_digest@);
            return Err(ContractError::new(ErrorCode::ModelContextIncompatible, "agent.continuation"));
        }
        i = i + 1;
    }
    Ok(())
}

/// The transcript content a finishing run commits: for a success with content, its
/// output followed by its stored continuation blocks; otherwise no message.
pub fn finish_transcript(
    status: RunStatus,
    output: &Vec<InputContent>,
    opaque: Vec<ContentBlock>,
) -> (content: Option<Vec<ContentBlock>>)
    ensures
        content is Some <==> status == RunStatus::Succeeded && output@.len() + opaque@.len() > 0,
        content matches Some(c) ==> c@ == output@.map_values(|o: InputContent| ContentBlock::Content { content: o })
            + opaque@,
{
    if status != RunStatus::Succeeded || (output.len() == 0 && opaque.len() == 0) {
        return None;
    }
    let mut content: Vec<ContentBlock> = Vec::new();
    let mut i: usize = 0;
    while i < output.len()
        invariant
            i <= output@.len(),
            content@ == output@.take(i as int).map_values(|o: InputContent| ContentBlock::Content { content: o }),
        decreases output@.len() - i,
    {
        content.push(ContentBlock::Content { content: output[i].copy() });
        assert(output@.take(i + 1) =~= output@.take(i as int).push(output@[i as int]));
        assert(content@ =~= output@.take(i + 1).map_values(|o: InputContent| ContentBlock::Content { content: o }));
        i = i + 1;
    }
    assert(output@.take(output@.len() as int) =~= output@);
    let mut opaque = opaque;
    content.append(&mut opaque);
    Some(content)
}

/// The transcript sequence of the next message.
pub fn next_message_sequence(transcript_revision: u64) -> (sequence: Result<u64, ContractError>)
    ensures
        sequence is Ok <==> transcript_revision < u64::MAX,
        sequence matches Ok(s) ==> s == transcript_revision + 1 && s > 0,
        sequence matches Err(e) ==> e.code == ErrorCode::InvalidSnapshot && e.path@ == "message.sequence"@,
{
    match transcript_revision.checked_add(1) {
        Some(s) => Ok(s),
        None => Err(ContractError::new(ErrorCode::InvalidSnapshot, "message.sequence")),
    }
}

/// The assistant message a finishing run commits: the model's content, shown to the
/// user and given to the model, at the transcript sequence after `transcript_revision`.
pub fn assistant_message(
    message_id: Id,
    run_id: &Id,
    transcript_revision: u64,
    content: Vec<ContentBlock>,
) -> (message: Result<Message, ContractError>)
    ensures
        message is Ok <==> transcript_revision < u64::MAX,
        message matches Ok(m) ==> {
            &&& m.message_id == message_id
            &&& m.run_id@ == run_id@
            &&& m.sequence == transcript_revision + 1
            &&& m.role == MessageRole::Assistant
            &&& m.content == content
            &&& m.origin == MessageOrigin::Model
            &&& m.visibility == Visibility::UserAndModel
        },
        message matches Err(e) ==> e.code == ErrorCode::InvalidSnapshot && e.path@ == "message.sequence"@,
{
    let sequence = next_message_sequence(transcript_revision)?;
    Ok(Message {
        message_id,
        run_id: run_id.copy(),
        sequence,
        role: MessageRole::Assistant,
        content,
        origin: MessageOrigin::Model,
        visibility: Visibility::UserAndModel,
    })
}

/// Start a model step: the next revision in the prepare phase, with the new step and the
/// settled elapsed time.
pub fn prepare_step(snapshot: RunSnapshot, step: Id, elapsed_ms: u64) -> (prepared: Result<CheckpointCommit, ContractError>)
    ensures
        prepared is Err <==> snapshot.revision == u64::MAX,
        prepared matches Err(e) ==> e.code == ErrorCode::RevisionConflict && e.path@ == "agent.prepare"@,
        prepared matches Ok(c) ==> c.expected_revision == snapshot.revision && c.snapshot == (RunSnapshot {
            revision: (snapshot.revision + 1) as u64,
            phase: RunPhase::Prepare,
            model_step_id: Some(step),
            usage: BudgetUsage { elapsed_ms, ..snapshot.usage },
            ..snapshot
        }),
{
    let expected_revision = snapshot.revision;
    let revision = match snapshot.revision.checked_add(1) {
        Some(r) => r,
        None => return Err(ContractError::new(ErrorCode::RevisionConflict, "agent.prepare")),
    };
    let mut snapshot = snapshot;
    snapshot.revision = revision;
    snapshot.phase = RunPhase::Prepare;
    snapshot.model_step_id = Some(step);
    snapshot.usage.elapsed_ms = elapsed_ms;
    Ok(CheckpointCommit { expected_revision, snapshot })
}

/// Rule `i` routes the profile binding for the agent's own turns.
pub open spec fn routes_agent(rules: Seq<RouteRule>, binding: Seq<char>, i: int) -> bool {
    rules[i].model_binding@ == binding && rules[i].purpose == ModelPurpose::Agent
}

/// The first rule that routes the profile binding for the agent's own turns.
pub fn select_agent_rule(rules: &Vec<RouteRule>, binding: &Id) -> (rule: Result<usize, ContractError>)
    ensures
        rule is Ok <==> exists|i: int| 0 <= i < rules@.len() && routes_agent(rules@, binding@, i),
        rule matches Ok(i) ==> i < rules@.len() && routes_agent(rules@, binding@, i as int) && forall|j: int|
            0 <= j < i ==> !routes_agent(rules@, binding@, j),
        rule matches Err(e) ==> e.code == ErrorCode::ModelRouteDenied && e.path@ == "agent.routing"@,
{
    let mut i: usize = 0;
    while i < rules.len()
        invariant
            i <= rules@.len(),
            forall|j: int| 0 <= j < i ==> !routes_agent(rules@, binding@, j),
        decreases rules@.len() - i,
    {
        if rules[i].model_binding.same(binding) && rules[i].purpose == ModelPurpose::Agent {
            assert(routes_agent(rules@, binding@, i as int));
            return Ok(i);
        }
        i = i + 1;
    }
    Err(ContractError::new(ErrorCode::ModelRouteDenied, "agent.routing"))
}

/// The bindings a rule allows: its primary binding, then its fallbacks.
pub fn allowed_bindings(rule: &RouteRule) -> (bindings: Vec<Id>)
    ensures
        bindings@.len() == rule.fallbacks@.len() + 1,
        bindings@[0]@ == rule.primary.id@,
        forall|i: int| 0 <= i < rule.fallbacks@.len() ==> #[trigger] bindings@[i + 1]@ == rule.fallbacks@[i].id@,
{
    let mut bindings: Vec<Id> = Vec::new();
    bindings.push(rule.primary.id.copy());
    let mut i: usize = 0;
    while i < rule.fallbacks.len()
        invariant
            i <= rule.fallbacks@.len(),
            bindings@.len() == i + 1,
            bindings@[0]@ == rule.primary.id@,
            forall|k: int| 0 <= k < i ==> #[trigger] bindings@[k + 1]@ == rule.fallbacks@[k].id@,
        decreases rule.fallbacks@.len() - i,
    {
        bindings.push(rule.fallbacks[i].id.copy());
        i = i + 1;
    }
    bindings
}

/// The bindings a rule allows, by identity: its primary binding, then its fallbacks.
pub open spec fn rule_bindings(rule: RouteRule) -> Seq<Seq<char>> {
    seq![rule.primary.id@] + rule.fallbacks@.map_values(|b: ModelBindingRef| b.id@)
}

/// The identities of a sequence of bindings.
pub open spec fn ids_view(ids: Seq<Id>) -> Seq<Seq<char>> {
    ids.map_values(|i: Id| i@)
}

/// The route request of an agent turn: the profile's binding for the agent's own turns,
/// requiring text, with no input estimate yet, the Host's output limit, the run's scope,
/// and the bindings and version policy of the first rule that routes the binding.
pub fn agent_route_request(
    profile: &AgentProfile,
    rules: &Vec<RouteRule>,
    scope: &Scope,
    max_output_tokens: u64,
) -> (request: Result<RouteRequest, ContractError>)
    ensures
        request is Ok <==> exists|i: int| 0 <= i < rules@.len() && routes_agent(rules@, profile.model_binding@, i),
        request matches Ok(r) ==> exists|i: int| {
            &&& 0 <= i < rules@.len()
            &&& routes_agent(rules@, profile.model_binding@, i)
            &&& forall|j: int| 0 <= j < i ==> !routes_agent(rules@, profile.model_binding@, j)
            &&& ids_view(r.allowed_bindings@) == rule_bindings(rules@[i])
            &&& r.version_policy@ == rules@[i].version_policy@
        },
        request matches Ok(r) ==> {
            &&& r.model_binding@ == profile.model_binding@
            &&& r.purpose == ModelPurpose::Agent
            &&& ids_view(r.required_capabilities@) == seq!["text"@]
            &&& r.input_tokens == 0
            &&& r.max_output_tokens == max_output_tokens
            &&& r.scope@ == scope@
        },
        request matches Err(e) ==> e.code == ErrorCode::ModelRouteDenied && e.path@ == "agent.routing"@,
{
    let index = select_agent_rule(rules, &profile.model_binding)?;
    let rule = &rules[index];
    let allowed = allowed_bindings(rule);
    assert forall|k: int| 0 <= k < allowed@.len() implies ids_view(allowed@)[k] == rule_bindings(*rule)[k] by {
        if k > 0 {
            assert(allowed@[(k - 1) + 1]@ == rule.fallbacks@[k - 1].id@);
        }
    }
    assert(ids_view(allowed@) =~= rule_bindings(*rule));
    proof {
        reveal_strlit("text");
    }
    let text = match Id::new("text") {
        Ok(id) => id,
        Err(_) => {
            assert(false);
            unreached()
        },
    };
    let mut required: Vec<Id> = Vec::new();
    required.push(text);
    assert(ids_view(required@) =~= seq!["text"@]);
    Ok(RouteRequest {
        model_binding: profile.model_binding.copy(),
        purpose: ModelPurpose::Agent,
        required_capabilities: required,
        input_tokens: 0,
        max_output_tokens,
        scope: scope.copy(),
        allowed_bindings: allowed,
        version_policy: rule.version_policy.copy(),
    })
}

/// The monotonic time of the next heartbeat.
pub fn heartbeat_wake_at(monotonic_ms: u64, interval_ms: u64) -> (wake: Result<u64, ContractError>)
    ensures
        wake is Ok <==> monotonic_ms + interval_ms <= u64::MAX,
        wake matches Ok(t) ==> t == monotonic_ms + interval_ms,
        wake matches Err(e) ==> e.code == ErrorCode::ClockUnavailable && e.path@ == "agent.heartbeat"@,
{
    match monotonic_ms.checked_add(interval_ms) {
        Some(t) => Ok(t),
        None => Err(ContractError::new(ErrorCode::ClockUnavailable, "agent.heartbeat")),
    }
}

/// How long a lease still owns the run; a lease with no time left is lost.
pub fn lease_remaining_ms(lease_expires_at_ms: i64, now_ms: i64) -> (remaining: Result<u64, ContractError>)
    ensures
        remaining is Ok <==> 0 < lease_expires_at_ms - now_ms <= i64::MAX,
        remaining matches Ok(r) ==> r == lease_expires_at_ms - now_ms,
        remaining matches Err(e) ==> e.code == ErrorCode::LeaseLost && e.path@ == "agent.heartbeat"@,
{
    match lease_expires_at_ms.checked_sub(now_ms) {
        Some(d) => if d > 0 {
            Ok(d as u64)
        } else {
            Err(ContractError::new(ErrorCode::LeaseLost, "agent.heartbeat"))
        },
        None => Err(ContractError::new(ErrorCode::LeaseLost, "agent.heartbeat")),
    }
}

/// How a driven segment ends: a stored terminal outcome is authoritative even if an
/// acknowledgement or the final heartbeat was lost; otherwise the segment's error comes
/// first, then the heartbeat's.
pub fn drive_result(
    stored_terminal: bool,
    segment: Result<(), ContractError>,
    heartbeat: Result<(), ContractError>,
) -> (ended: Result<(), ContractError>)
    ensures
        stored_terminal ==> ended is Ok,
        !stored_terminal ==> match segment {
            Err(e) => ended matches Err(x) && x == e,
            Ok(()) => ended == heartbeat,
        },
{
    if stored_terminal {
        Ok(())
    } else {
        match segment {
            Err(e) => Err(e),
            Ok(()) => heartbeat,
        }
    }
}

/// Attempt `i` of the ledger belongs to the current step and run and stored a response.
pub open spec fn holds_partial_response(snapshot: RunSnapshot, step: Seq<char>, i: int) -> bool {
    &&& snapshot.model_ledger[i].model_step_id@ == step
    &&& snapshot.model_ledger[i].run_id@ == snapshot.run_id@
    &&& snapshot.model_ledger[i].response_ref is Some
}

/// The latest attempt of the current step that stored a response, if any.
pub fn partial_invocation(snapshot: &RunSnapshot) -> (found: Option<usize>)
    ensures
        found is Some <==> (snapshot.model_step_id matches Some(step) && exists|i: int|
            0 <= i < snapshot.model_ledger@.len() && holds_partial_response(*snapshot, step@, i)),
        found matches Some(i) ==> snapshot.model_step_id matches Some(step) && i < snapshot.model_ledger@.len()
            && holds_partial_response(*snapshot, step@, i as int) && forall|j: int|
            i < j < snapshot.model_ledger@.len() ==> !holds_partial_response(*snapshot, step@, j),
{
    let step = match &snapshot.model_step_id {
        Some(step) => step,
        None => return None,
    };
    let mut i = snapshot.model_ledger.len();
    while i > 0
        invariant
            snapshot.model_step_id matches Some(s) && s == *step,
            i <= snapshot.model_ledger@.len(),
            forall|j: int| i <= j < snapshot.model_ledger@.len() ==> !holds_partial_response(*snapshot, step@, j),
        decreases i,
    {
        let entry = &snapshot.model_ledger[i - 1];
        if entry.model_step_id.same(step) && entry.run_id.same(&snapshot.run_id) && entry.response_ref.is_some() {
            assert(holds_partial_response(*snapshot, step@, i - 1));
            return Some(i - 1);
        }
        i = i - 1;
    }
    None
}

/// The text a stored response holds: a completed response's text, or a failure's partial text.
pub open spec fn response_text(outcome: ModelExchangeOutcome) -> Seq<char> {
    match outcome {
        ModelExchangeOutcome::Completed { response } => response.text@,
        ModelExchangeOutcome::Failed { failure } => failure.partial_text@,
    }
}

/// The saved partial output of an attempt, from its stored response record. The record
/// must be the one the attempt references and belong to the attempt and its route.
pub fn partial_output(
    invocation: &ModelInvocationRecord,
    record_ref: &RecordRef,
    response: &StoredModelResponse,
) -> (output: Result<Vec<InputContent>, ContractError>)
    requires
        invocation.response_ref is Some,
    ensures
        output is Ok <==> (invocation.response_ref.unwrap()@ == record_ref@ && response.request_id@
            == invocation.attempt_id@ && response.route_digest@ == invocation.route.route_digest@),
        output matches Ok(o) ==> output_texts(o@) == text_output(response_text(response.outcome)),
        output matches Err(e) ==> e.code == ErrorCode::InvalidSnapshot && e.path@ == "agent.partial_response"@,
{
    let expected = match &invocation.response_ref {
        Some(r) => r,
        None => {
            assert(false);
            unreached()
        },
    };
    if !expected.same(record_ref) {
        return Err(ContractError::new(ErrorCode::InvalidSnapshot, "agent.partial_response"));
    }
    if !response.request_id.same(&invocation.attempt_id) || !response.route_digest.same(invocation.route.digest()) {
        return Err(ContractError::new(ErrorCode::InvalidSnapshot, "agent.partial_response"));
    }
    let text = match &response.outcome {
        ModelExchangeOutcome::Completed { response } => response.text.as_str(),
        ModelExchangeOutcome::Failed { failure } => failure.partial_text(),
    };
    Ok(text_content(text))
}

/// Message `i` is the caller's request message of the run.
pub open spec fn is_request_message(messages: Seq<Message>, run_id: Seq<char>, i: int) -> bool {
    messages[i].run_id@ == run_id && messages[i].role == MessageRole::User
}

/// The run's request message: the first user message of the run.
pub fn find_request_message(messages: &Vec<Message>, run_id: &Id) -> (found: Result<usize, ContractError>)
    ensures
        found is Ok <==> exists|i: int| 0 <= i < messages@.len() && is_request_message(messages@, run_id@, i),
        found matches Ok(i) ==> i < messages@.len() && is_request_message(messages@, run_id@, i as int)
            && forall|j: int| 0 <= j < i ==> !is_request_message(messages@, run_id@, j),
        found matches Err(e) ==> e.code == ErrorCode::InvalidSnapshot && e.path@ == "agent.request_message"@,
{
    let mut i: usize = 0;
    while i < messages.len()
        invariant
            i <= messages@.len(),
            forall|j: int| 0 <= j < i ==> !is_request_message(messages@, run_id@, j),
        decreases messages@.len() - i,
    {
        if messages[i].run_id.same(run_id) && messages[i].role == MessageRole::User {
            assert(is_request_message(messages@, run_id@, i as int));
            return Ok(i);
        }
        i = i + 1;
    }
    Err(ContractError::new(ErrorCode::InvalidSnapshot, "agent.request_message"))
}

/// Whether the model may read a message.
pub open spec fn model_visible(message: Message) -> bool {
    message.visibility == Visibility::Model || message.visibility == Visibility::UserAndModel
}

/// The content blocks of the model-visible messages, in transcript order.
pub open spec fn visible_blocks(messages: Seq<Message>) -> Seq<ContentBlock>
    decreases messages.len(),
{
    if messages.len() == 0 {
        Seq::empty()
    } else if model_visible(messages.last()) {
        visible_blocks(messages.drop_last()) + messages.last().content@
    } else {
        visible_blocks(messages.drop_last())
    }
}

/// Only messages shown to the model contribute blocks: the blocks of a transcript are those
/// of its messages whose visibility is `Model` or `UserAndModel`, in order.
pub proof fn lemma_visible_blocks_keep_model_messages(messages: Seq<Message>)
    ensures
        visible_blocks(messages) == visible_blocks(
            messages.filter(|m: Message| m.visibility == Visibility::Model || m.visibility == Visibility::UserAndModel),
        ),
    decreases messages.len(),
{
    reveal(Seq::filter);
    if messages.len() > 0 {
        lemma_visible_blocks_keep_model_messages(messages.drop_last());
        let kept = messages.drop_last().filter(
            |m: Message| m.visibility == Visibility::Model || m.visibility == Visibility::UserAndModel,
        );
        assert(messages.filter(
            |m: Message| m.visibility == Visibility::Model || m.visibility == Visibility::UserAndModel,
        ) == if model_visible(messages.last()) {
            kept.push(messages.last())
        } else {
            kept
        });
        assert(kept.push(messages.last()).drop_last() =~= kept);
    }
}

/// Appending a message adds its blocks exactly when the model may read it: a `Model` or
/// `UserAndModel` message adds all its blocks, an `Internal` or `User` message adds none.
pub proof fn lemma_visible_blocks_push(messages: Seq<Message>, message: Message)
    ensures
        (message.visibility == Visibility::Model || message.visibility == Visibility::UserAndModel) ==> visible_blocks(
            messages.push(message),
        ) == visible_blocks(messages) + message.content@,
        (message.visibility == Visibility::Internal || message.visibility == Visibility::User) ==> visible_blocks(
            messages.push(message),
        ) == visible_blocks(messages),
{
    assert(messages.push(message).drop_last() =~= messages);
    assert(messages.push(message).last() == message);
}

/// Replay plan of continuation blocks: the distinct records to read, in order of first
/// appearance, and whether a block of another provider or route stopped the replay.
pub open spec fn opaque_plan_of(blocks: Seq<ContentBlock>, provider: Seq<char>, route: Seq<char>) -> (
    Seq<(Seq<char>, u64, Seq<char>)>,
    bool,
)
    decreases blocks.len(),
{
    if blocks.len() == 0 {
        (Seq::empty(), false)
    } else {
        let (reads, stopped) = opaque_plan_of(blocks.drop_last(), provider, route);
        if stopped {
            (reads, true)
        } else {
            match blocks.last() {
                ContentBlock::ProviderOpaque { provider: p, route_digest, data_ref } => if p@ != provider
                    || route_digest@ != route {
                    (reads, true)
                } else if reads.contains(data_ref@) {
                    (reads, false)
                } else {
                    (reads.push(data_ref@), false)
                },
                _ => (reads, false),
            }
        }
    }
}

/// Once a plan stops, later blocks do not change it.
pub proof fn lemma_opaque_plan_stopped(blocks: Seq<ContentBlock>, more: Seq<ContentBlock>, provider: Seq<char>, route: Seq<char>)
    requires
        opaque_plan_of(blocks, provider, route).1,
    ensures
        opaque_plan_of(blocks + more, provider, route) == opaque_plan_of(blocks, provider, route),
    decreases more.len(),
{
    if more.len() > 0 {
        lemma_opaque_plan_stopped(blocks, more.drop_last(), provider, route);
        assert((blocks + more).drop_last() =~= blocks + more.drop_last());
    } else {
        assert(blocks + more =~= blocks);
    }
}

/// Saved continuation records to read before projecting a request for a route, in order.
#[derive(Debug, Clone, PartialEq, Eq)]
pub struct OpaquePlan {
    /// Distinct continuation records, in order of first appearance.
    pub reads: Vec<RecordRef>,
    /// The error that stops the replay after the reads, when a block belongs to another
    /// provider or route.
    pub stop: Option<ContractError>,
}

/// Plan the replay of saved continuation blocks for the selected provider and route.
pub fn opaque_replay_plan(messages: &Vec<Message>, provider: &Id, route_digest: &JsonDigest) -> (plan: OpaquePlan)
    ensures
        plan.reads@.map_values(|r: RecordRef| r@) == opaque_plan_of(visible_blocks(messages@), provider@, route_digest@).0,
        plan.stop is Some == opaque_plan_of(visible_blocks(messages@), provider@, route_digest@).1,
        plan.stop matches Some(e) ==> e.code == ErrorCode::ModelContextIncompatible && e.path@ == "agent.opaque_route"@,
{
    let mut reads: Vec<RecordRef> = Vec::new();
    let mut i: usize = 0;
    while i < messages.len()
        invariant
            i <= messages@.len(),
            reads@.map_values(|r: RecordRef| r@) == opaque_plan_of(visible_blocks(messages@.take(i as int)), provider@, route_digest@).0,
            !opaque_plan_of(visible_blocks(messages@.take(i as int)), provider@, route_digest@).1,
        decreases messages@.len() - i,
    {
        let message = &messages[i];
        let ghost done = visible_blocks(messages@.take(i as int));
        proof {
            assert(messages@.take(i + 1).drop_last() =~= messages@.take(i as int));
            assert(messages@.take(i + 1).last() == *message);
        }
        if message.visibility == Visibility::Model || message.visibility == Visibility::UserAndModel {
            let mut j: usize = 0;
            while j < message.content.len()
                invariant
                    i < messages@.len(),
                    *message == messages@[i as int],
                    model_visible(*message),
                    messages@.take(i + 1).drop_last() == messages@.take(i as int),
                    messages@.take(i + 1).last() == *message,
                    done == visible_blocks(messages@.take(i as int)),
                    j <= message.content@.len(),
                    reads@.map_values(|r: RecordRef| r@) == opaque_plan_of(done + message.content@.take(j as int), provider@, route_digest@).0,
                    !opaque_plan_of(done + message.content@.take(j as int), provider@, route_digest@).1,
                decreases message.content@.len() - j,
            {
                let ghost prefix = done + message.content@.take(j as int);
                proof {
                    assert((done + message.content@.take(j + 1)).drop_last() =~= prefix);
                    assert((done + message.content@.take(j + 1)).last() == message.content@[j as int]);
                }
                match &message.content[j] {
                    ContentBlock::ProviderOpaque { provider: p, route_digest: r, data_ref } => {
                        if !p.same(provider) || !r.same(route_digest) {
                            proof {
                                let blocks = done + message.content@.take(j + 1);
                                assert(opaque_plan_of(blocks, provider@, route_digest@).1);
                                lemma_opaque_plan_stopped(blocks, message.content@.skip(j + 1), provider@, route_digest@);
                                assert(blocks + message.content@.skip(j + 1) =~= done + message.content@);
                                assert(visible_blocks(messages@.take(i + 1)) == done + message.content@);
                                lemma_opaque_plan_stopped(
                                    visible_blocks(messages@.take(i + 1)),
                                    visible_blocks_tail(messages@, i + 1),
                                    provider@,
                                    route_digest@,
                                );
                                lemma_visible_blocks_split(messages@, i + 1);
                                assert(messages@.take(messages@.len() as int) =~= messages@);
                            }
                            return OpaquePlan {
                                reads,
                                stop: Some(ContractError::new(ErrorCode::ModelContextIncompatible, "agent.opaque_route")),
                            };
                        }
                        let mut seen = false;
                        let mut k: usize = 0;
                        while k < reads.len()
                            invariant
                                k <= reads@.len(),
                                seen == exists|m: int| 0 <= m < k && reads@[m]@ == data_ref@,
                            decreases reads@.len() - k,
                        {
                            if reads[k].same(data_ref) {
                                seen = true;
                            }
                            k = k + 1;
                        }
                        let ghost before = reads@;
                        proof {
                            let views = before.map_values(|r: RecordRef| r@);
                            if seen {
                                let m = choose|m: int| 0 <= m < before.len() && before[m]@ == data_ref@;
                                assert(views[m] == data_ref@);
                                assert(views.contains(data_ref@));
                            } else {
                                assert forall|m: int| 0 <= m < views.len() implies views[m] != data_ref@ by {
                                    assert(views[m] == before[m]@);
                                }
                                assert(!views.contains(data_ref@));
                            }
                        }
                        if !seen {
                            reads.push(data_ref.copy());
                            proof {
                                assert(reads@.map_values(|r: RecordRef| r@) =~= before.map_values(|r: RecordRef| r@).push(data_ref@));
                            }
                        }
                    },
                    _ => {},
                }
                j = j + 1;
            }
            proof {
                assert(message.content@.take(message.content@.len() as int) =~= message.content@);
                assert(visible_blocks(messages@.take(i + 1)) == done + message.content@);
            }
        } else {
            assert(visible_blocks(messages@.take(i + 1)) == done);
        }
        i = i + 1;
    }
    proof {
        assert(messages@.take(messages@.len() as int) =~= messages@);
    }
    OpaquePlan { reads, stop: None }
}

/// The visible blocks of the messages after the first `n`.
pub open spec fn visible_blocks_tail(messages: Seq<Message>, n: int) -> Seq<ContentBlock> {
    visible_blocks(messages.skip(n))
}

/// The visible blocks of a transcript are those of its first `n` messages followed by
/// those of the rest.
pub proof fn lemma_visible_blocks_split(messages: Seq<Message>, n: int)
    requires
        0 <= n <= messages.len(),
    ensures
        visible_blocks(messages) == visible_blocks(messages.take(n)) + visible_blocks_tail(messages, n),
    decreases messages.len(),
{
    if messages.len() == n {
        assert(messages.take(n) =~= messages);
        assert(messages.skip(n) =~= Seq::<Message>::empty());
        assert(visible_blocks(messages.take(n)) + Seq::<ContentBlock>::empty() =~= visible_blocks(messages.take(n)));
    } else {
        lemma_visible_blocks_split(messages.drop_last(), n);
        assert(messages.drop_last().take(n) =~= messages.take(n));
        assert(messages.skip(n).drop_last() =~= messages.drop_last().skip(n));
        assert(messages.skip(n).last() == messages.last());
        if model_visible(messages.last()) {
            assert(visible_blocks(messages.take(n)) + visible_blocks(messages.drop_last().skip(n)) + messages.last().content@
                =~= visible_blocks(messages.take(n)) + (visible_blocks(messages.drop_last().skip(n)) + messages.last().content@));
        }
    }
}

/// A saved continuation record may be replayed only if it is the referenced record, was
/// produced on the selected route, and its canonical content has the referenced digest.
pub fn check_opaque_record(
    data_ref: &RecordRef,
    record_ref: &RecordRef,
    continuation: &OpaqueContinuation,
    route_digest: &JsonDigest,
    record_json: &[u8],
) -> (checked: Result<(), ContractError>)
    ensures
        checked is Ok <==> (record_ref@ == data_ref@ && continuation.route_digest@ == route_digest@
            && canonical_digest_text(record_json@) == data_ref.digest@),
        checked matches Err(e) ==> e.code == ErrorCode::ModelContextIncompatible && e.path@ == "agent.opaque_record"@,
{
    if !record_ref.same(data_ref) {
        return Err(ContractError::new(ErrorCode::ModelContextIncompatible, "agent.opaque_record"));
    }
    let digest = JsonDigest::of_canonical(record_json);
    if !continuation.route_digest().same(route_digest) || !digest.same(&data_ref.digest) {
        return Err(ContractError::new(ErrorCode::ModelContextIncompatible, "agent.opaque_record"));
    }
    Ok(())
}

} // verus!
