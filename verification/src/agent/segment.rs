//! The serial model/tool loop of one execution segment, as a step function from the
//! segment's state and the latest event to its next state and the next action. The Host
//! performs each action (a model exchange, one tool execution, the finishing transaction)
//! and reports what came back as the next event.
use super::driver::{
    budget_kind_for, budget_kind_of, cancel_reason, cancel_reason_text, failed, failed_as,
    is_unsettled_error, lemma_wire_name_nonempty, output_texts, text_content, text_output,
};
use super::{Guarded, ModelExchangeOutcome, ModelFinish, ModelResponse, OpaqueContinuation, PreparedOutcome};
use crate::error::{error_code_wire_name, ContractError, ErrorCode};
use crate::message::{ToolCall, ToolResult};
use crate::run::{
    ApprovalTarget, BudgetKind, CompletionBasis, InputContent, OutcomeResult, WaitState, WaitTarget,
};
use crate::values::{Id, JsonDigest};
use vstd::prelude::*;

verus! {

/// Where a segment stands between two events.
#[derive(Debug, Clone, PartialEq, Eq)]
pub enum SegmentState {
    /// The next event is the outcome of a model exchange.
    AwaitingModel,
    /// The planned calls of the last response run one at a time, in plan order.
    ExecutingTools {
        /// Call identity of the call handed out for execution.
        current: Id,
        /// Calls still to run after it, in plan order.
        remaining: Vec<ToolCall>,
        /// Observations of the calls settled so far in this round.
        observations: Vec<ToolResult>,
    },
    /// The segment has finished or stopped; no further step applies.
    Done,
}

/// What the Host reports after performing the last action.
#[derive(Debug, PartialEq, Eq)]
pub enum SegmentEvent {
    /// A model exchange ended, or failed before it completed.
    ModelAttempt {
        /// The exchange outcome, an approval required before it, or the error that stopped it.
        attempt: Result<Guarded, ContractError>,
        /// Identity that a wait begun by this step takes.
        wait_id: Id,
    },
    /// The current call settled with an observation for the model; calls that were
    /// unknown, invalid or denied settle with an error observation and no effect.
    ToolSettled {
        /// The recorded result.
        result: ToolResult,
    },
    /// The current call's effect is uncertain and must be confirmed before anything else runs.
    ToolUncertain {
        /// External idempotency key of the effect.
        effect_key: Id,
        /// Identity the wait takes.
        wait_id: Id,
    },
    /// Policy requires approval of the current call's bound input before it runs.
    ToolApprovalRequired {
        /// Digest of the bound execution input, system inputs included.
        binding_digest: JsonDigest,
        /// Identity the wait takes.
        wait_id: Id,
    },
    /// Executing the current call failed with an error.
    ToolFailed {
        /// The error.
        error: ContractError,
    },
}

/// What the Host does next.
#[derive(Debug, Clone, PartialEq, Eq)]
pub enum SegmentAction {
    /// Call the model again, with the observations of the round just settled.
    CallModel {
        /// Observations in plan order.
        observations: Vec<ToolResult>,
    },
    /// Run one planned call with its bound arguments.
    ExecuteTool {
        /// The call.
        call: ToolCall,
    },
    /// Commit the segment's outcome.
    Finish(PreparedOutcome),
    /// End the segment without an outcome.
    Abort(ContractError),
}

/// A prepared outcome that names no output and no continuation.
pub open spec fn bare(p: PreparedOutcome, result: OutcomeResult) -> bool {
    p.result == result && p.output@.len() == 0 && p.continuation@.len() == 0
}

/// `action` finishes with a failure classified as `code` and nothing else.
pub open spec fn finishes_failed(action: SegmentAction, code: Seq<char>) -> bool {
    action matches SegmentAction::Finish(p) && failed_as(p.result, code) && p.output@.len() == 0
        && p.continuation@.len() == 0
}

/// `action` stops the segment with an invalid-contract error at `path`.
pub open spec fn stops_invalid(action: SegmentAction, path: Seq<char>) -> bool {
    action matches SegmentAction::Abort(e) && e.code == ErrorCode::InvalidContract && e.path@ == path
}

/// The outcome an error settles to when it does not end the segment: cancellation, the
/// deadline and budgets settle as such; anything else is a failure named by its category.
pub open spec fn error_result(e: ContractError, cancel: Option<&str>, result: OutcomeResult) -> bool {
    if e.code == ErrorCode::Cancelled {
        result matches OutcomeResult::Cancelled { reason } && reason@ == cancel_reason_text(cancel)
    } else if e.code == ErrorCode::DeadlineExceeded {
        result == (OutcomeResult::Exhausted { budget: BudgetKind::Elapsed })
    } else if e.code == ErrorCode::BudgetExceeded {
        result == (OutcomeResult::Exhausted { budget: budget_kind_of(e.path@) })
    } else {
        failed_as(result, error_code_wire_name(e.code))
    }
}

/// Ownership, storage and clock errors end the segment as they are; any other error
/// settles the segment.
pub open spec fn error_step(e: ContractError, cancel: Option<&str>, next: SegmentState, action: SegmentAction) -> bool {
    &&& next is Done
    &&& if is_unsettled_error(e.code) {
        action == SegmentAction::Abort(e)
    } else {
        action matches SegmentAction::Finish(p) && p.output@.len() == 0 && p.continuation@.len() == 0
            && error_result(e, cancel, p.result)
    }
}

/// `action` finishes with a wait on `target`, taking identity `wait_id` and no expiry.
pub open spec fn finishes_waiting(action: SegmentAction, wait_id: Id, target: WaitTarget) -> bool {
    action matches SegmentAction::Finish(p) && bare(
        p,
        OutcomeResult::Waiting { wait: WaitState { wait_id, target, expires_at_ms: None } },
    )
}

/// The step after a model exchange. A refusal fails; planned calls run in plan order,
/// starting with the first; a response that ended its turn succeeds with its text and
/// continuation; any other response without calls fails as an unsupported tool exchange. A failed exchange
/// keeps its partial text; an approval required before the exchange waits on that target.
pub open spec fn model_step(
    attempt: Result<Guarded, ContractError>,
    wait_id: Id,
    cancel: Option<&str>,
    next: SegmentState,
    action: SegmentAction,
) -> bool {
    match attempt {
        Ok(Guarded::Completed(ModelExchangeOutcome::Completed { response })) => if response.finish
            == ModelFinish::Refusal {
            next is Done && finishes_failed(action, "model_refusal"@)
        } else if response.tool_calls@.len() > 0 {
            &&& action == (SegmentAction::ExecuteTool { call: response.tool_calls@[0] })
            &&& next matches SegmentState::ExecutingTools { current, remaining, observations }
            &&& current@ == response.tool_calls@[0].call_id@
            &&& remaining@ == response.tool_calls@.drop_first()
            &&& observations@.len() == 0
        } else if response.finish == ModelFinish::Stop {
            &&& next is Done
            &&& action matches SegmentAction::Finish(p)
            &&& p.result == (OutcomeResult::Succeeded { completion_basis: CompletionBasis::TurnEnded })
            &&& p.output@ == seq![InputContent::Text { text: response.text }]
            &&& p.continuation@ == response.continuation@
        } else {
            next is Done && finishes_failed(action, "tool_execution_unsupported"@)
        },
        Ok(Guarded::Completed(ModelExchangeOutcome::Failed { failure })) => {
            &&& next is Done
            &&& action matches SegmentAction::Finish(p)
            &&& failed_as(p.result, "model_"@ + failure.kind@)
            &&& output_texts(p.output@) == text_output(failure.partial_text@)
            &&& p.continuation@.len() == 0
        },
        Ok(Guarded::ApprovalRequired(target)) => next is Done && finishes_waiting(
            action,
            wait_id,
            WaitTarget::Approval { target },
        ),
        Err(e) => error_step(e, cancel, next, action),
    }
}

/// The step after the current call settled: its result must belong to it; the next call
/// runs, or, when none is left, the model is called with every observation of the round.
pub open spec fn settled_step(
    current: Id,
    remaining: Vec<ToolCall>,
    observations: Vec<ToolResult>,
    result: ToolResult,
    next: SegmentState,
    action: SegmentAction,
) -> bool {
    if result.call_id@ != current@ {
        next is Done && stops_invalid(action, "agent.tool_result"@)
    } else if remaining@.len() == 0 {
        &&& next is AwaitingModel
        &&& action matches SegmentAction::CallModel { observations: o }
        &&& o@ == observations@.push(result)
    } else {
        &&& action == (SegmentAction::ExecuteTool { call: remaining@[0] })
        &&& next matches SegmentState::ExecutingTools { current: c, remaining: r, observations: o }
        &&& c@ == remaining@[0].call_id@
        &&& r@ == remaining@.drop_first()
        &&& o@ == observations@.push(result)
    }
}

/// One step of a segment. Work that failed in the background stops the segment first; an
/// event that does not fit the state stops it as an invalid contract.
pub open spec fn segment_transition(
    state: SegmentState,
    event: SegmentEvent,
    local_error: Option<ContractError>,
    cancel: Option<&str>,
    next: SegmentState,
    action: SegmentAction,
) -> bool {
    match local_error {
        Some(e) => next is Done && action == SegmentAction::Abort(e),
        None => match (state, event) {
            (SegmentState::AwaitingModel, SegmentEvent::ModelAttempt { attempt, wait_id }) => model_step(
                attempt,
                wait_id,
                cancel,
                next,
                action,
            ),
            (
                SegmentState::ExecutingTools { current, remaining, observations },
                SegmentEvent::ToolSettled { result },
            ) => settled_step(current, remaining, observations, result, next, action),
            (SegmentState::ExecutingTools { current, .. }, SegmentEvent::ToolUncertain { effect_key, wait_id }) =>
                next is Done && finishes_waiting(
                action,
                wait_id,
                WaitTarget::External { call_id: current, effect_key },
            ),
            (
                SegmentState::ExecutingTools { current, .. },
                SegmentEvent::ToolApprovalRequired { binding_digest, wait_id },
            ) => next is Done && finishes_waiting(
                action,
                wait_id,
                WaitTarget::Approval { target: ApprovalTarget::Tool { call_id: current, binding_digest } },
            ),
            (SegmentState::ExecutingTools { .. }, SegmentEvent::ToolFailed { error }) => error_step(
                error,
                cancel,
                next,
                action,
            ),
            _ => next is Done && stops_invalid(action, "agent.segment"@),
        },
    }
}

fn waiting(wait_id: Id, target: WaitTarget) -> (action: SegmentAction)
    ensures
        finishes_waiting(action, wait_id, target),
{
    SegmentAction::Finish(
        PreparedOutcome {
            result: OutcomeResult::Waiting { wait: WaitState { wait_id, target, expires_at_ms: None } },
            output: Vec::new(),
            continuation: Vec::new(),
        },
    )
}

fn fail_with(code: &str) -> (action: SegmentAction)
    requires
        code@.len() > 0,
    ensures
        finishes_failed(action, code@),
{
    SegmentAction::Finish(PreparedOutcome { result: failed(code), output: Vec::new(), continuation: Vec::new() })
}

fn settle_error(error: ContractError, cancel_reason_requested: Option<&str>) -> (step: (SegmentState, SegmentAction))
    ensures
        error_step(error, cancel_reason_requested, step.0, step.1),
{
    let unsettled = match error.code {
        ErrorCode::LeaseLost | ErrorCode::RevisionConflict | ErrorCode::PersistenceUnavailable
        | ErrorCode::StateNotFound | ErrorCode::ClockUnavailable | ErrorCode::ClockRegression => true,
        _ => false,
    };
    if unsettled {
        return (SegmentState::Done, SegmentAction::Abort(error));
    }
    let result = if error.code == ErrorCode::Cancelled {
        OutcomeResult::Cancelled { reason: cancel_reason(cancel_reason_requested) }
    } else if error.code == ErrorCode::DeadlineExceeded {
        OutcomeResult::Exhausted { budget: BudgetKind::Elapsed }
    } else if error.code == ErrorCode::BudgetExceeded {
        OutcomeResult::Exhausted { budget: budget_kind_for(error.path.as_str()) }
    } else {
        let name = error.code.wire_name();
        proof {
            lemma_wire_name_nonempty(error.code);
        }
        failed(name)
    };
    (SegmentState::Done, SegmentAction::Finish(PreparedOutcome { result, output: Vec::new(), continuation: Vec::new() }))
}

fn after_model(attempt: Result<Guarded, ContractError>, wait_id: Id, cancel_reason_requested: Option<&str>) -> (step: (
    SegmentState,
    SegmentAction,
))
    ensures
        model_step(attempt, wait_id, cancel_reason_requested, step.0, step.1),
{
    match attempt {
        Ok(Guarded::Completed(ModelExchangeOutcome::Completed { response })) => {
            if response.finish == ModelFinish::Refusal {
                proof {
                    reveal_strlit("model_refusal");
                }
                (SegmentState::Done, fail_with("model_refusal"))
            } else if response.tool_calls.len() > 0 {
                let ghost planned = response.tool_calls@;
                let mut remaining = response.tool_calls;
                let call = remaining.remove(0);
                assert(remaining@ =~= planned.drop_first());
                let current = call.call_id.copy();
                (
                    SegmentState::ExecutingTools { current, remaining, observations: Vec::new() },
                    SegmentAction::ExecuteTool { call },
                )
            } else if response.finish == ModelFinish::Stop {
                let mut output: Vec<InputContent> = Vec::new();
                output.push(InputContent::Text { text: response.text });
                (
                    SegmentState::Done,
                    SegmentAction::Finish(
                        PreparedOutcome {
                            result: OutcomeResult::Succeeded { completion_basis: CompletionBasis::TurnEnded },
                            output,
                            continuation: response.continuation,
                        },
                    ),
                )
            } else {
                proof {
                    reveal_strlit("tool_execution_unsupported");
                }
                (SegmentState::Done, fail_with("tool_execution_unsupported"))
            }
        },
        Ok(Guarded::Completed(ModelExchangeOutcome::Failed { failure })) => {
            proof {
                reveal_strlit("model_");
            }
            let code = "model_".to_owned().concat(failure.kind.as_str());
            let output = text_content(failure.partial_text());
            let no_continuation: Vec<OpaqueContinuation> = Vec::new();
            (
                SegmentState::Done,
                SegmentAction::Finish(PreparedOutcome { result: failed(code.as_str()), output, continuation: no_continuation }),
            )
        },
        Ok(Guarded::ApprovalRequired(target)) => (
            SegmentState::Done,
            waiting(wait_id, WaitTarget::Approval { target }),
        ),
        Err(error) => settle_error(error, cancel_reason_requested),
    }
}

fn after_settled(current: Id, remaining: Vec<ToolCall>, observations: Vec<ToolResult>, result: ToolResult) -> (step: (
    SegmentState,
    SegmentAction,
))
    ensures
        settled_step(current, remaining, observations, result, step.0, step.1),
{
    if !result.call_id.same(&current) {
        return (SegmentState::Done, SegmentAction::Abort(ContractError::new(ErrorCode::InvalidContract, "agent.tool_result")));
    }
    let ghost settled = observations@;
    let mut observations = observations;
    observations.push(result);
    if remaining.len() == 0 {
        return (SegmentState::AwaitingModel, SegmentAction::CallModel { observations });
    }
    let ghost planned = remaining@;
    let mut remaining = remaining;
    let call = remaining.remove(0);
    assert(remaining@ =~= planned.drop_first());
    let current = call.call_id.copy();
    (SegmentState::ExecutingTools { current, remaining, observations }, SegmentAction::ExecuteTool { call })
}

/// Advance a segment by one event: the next state and what the Host does next.
pub fn segment_step(
    state: SegmentState,
    event: SegmentEvent,
    local_error: Option<ContractError>,
    cancel_reason_requested: Option<&str>,
) -> (step: (SegmentState, SegmentAction))
    ensures
        segment_transition(state, event, local_error, cancel_reason_requested, step.0, step.1),
{
    if let Some(error) = local_error {
        return (SegmentState::Done, SegmentAction::Abort(error));
    }
    let out_of_order = (
        SegmentState::Done,
        SegmentAction::Abort(ContractError::new(ErrorCode::InvalidContract, "agent.segment")),
    );
    match event {
        SegmentEvent::ModelAttempt { attempt, wait_id } => match state {
            SegmentState::AwaitingModel => after_model(attempt, wait_id, cancel_reason_requested),
            _ => out_of_order,
        },
        SegmentEvent::ToolSettled { result } => match state {
            SegmentState::ExecutingTools { current, remaining, observations } => after_settled(
                current,
                remaining,
                observations,
                result,
            ),
            _ => out_of_order,
        },
        SegmentEvent::ToolUncertain { effect_key, wait_id } => match state {
            SegmentState::ExecutingTools { current, .. } => (
                SegmentState::Done,
                waiting(wait_id, WaitTarget::External { call_id: current, effect_key }),
            ),
            _ => out_of_order,
        },
        SegmentEvent::ToolApprovalRequired { binding_digest, wait_id } => match state {
            SegmentState::ExecutingTools { current, .. } => (
                SegmentState::Done,
                waiting(
                    wait_id,
                    WaitTarget::Approval { target: ApprovalTarget::Tool { call_id: current, binding_digest } },
                ),
            ),
            _ => out_of_order,
        },
        SegmentEvent::ToolFailed { error } => match state {
            SegmentState::ExecutingTools { .. } => settle_error(error, cancel_reason_requested),
            _ => out_of_order,
        },
    }
}

/// A segment trace: a model response that plans calls, followed by one settled result per
/// planned call, each belonging to its call, every step taken by `segment_transition`.
pub open spec fn settled_round(
    states: Seq<SegmentState>,
    events: Seq<SegmentEvent>,
    actions: Seq<SegmentAction>,
    cancel: Option<&str>,
    response: ModelResponse,
    results: Seq<ToolResult>,
) -> bool {
    &&& response.finish != ModelFinish::Refusal
    &&& response.tool_calls@.len() > 0
    &&& results.len() == response.tool_calls@.len()
    &&& forall|i: int| 0 <= i < results.len() ==> #[trigger] results[i].call_id@ == response.tool_calls@[i].call_id@
    &&& states.len() == results.len() + 2
    &&& events.len() == results.len() + 1
    &&& actions.len() == results.len() + 1
    &&& states[0] is AwaitingModel
    &&& events[0] matches SegmentEvent::ModelAttempt { attempt, .. }
    &&& attempt == Ok::<Guarded, ContractError>(Guarded::Completed(ModelExchangeOutcome::Completed { response }))
    &&& forall|i: int| 1 <= i < events.len() ==> #[trigger] events[i] == (SegmentEvent::ToolSettled { result: results[i - 1] })
    &&& forall|i: int| 0 <= i < events.len() ==> #[trigger] segment_transition(
        states[i],
        events[i],
        None,
        cancel,
        states[i + 1],
        actions[i],
    )
}

proof fn lemma_round_prefix(
    states: Seq<SegmentState>,
    events: Seq<SegmentEvent>,
    actions: Seq<SegmentAction>,
    cancel: Option<&str>,
    response: ModelResponse,
    results: Seq<ToolResult>,
    k: int,
)
    requires
        settled_round(states, events, actions, cancel, response, results),
        0 <= k < results.len(),
    ensures
        actions[k] == (SegmentAction::ExecuteTool { call: response.tool_calls@[k] }),
        states[k + 1] matches SegmentState::ExecutingTools { current, remaining, observations } && current@
            == response.tool_calls@[k].call_id@ && remaining@ == response.tool_calls@.skip(k + 1)
            && observations@ == results.take(k),
    decreases k,
{
    let calls = response.tool_calls@;
    if k == 0 {
        assert(segment_transition(states[0], events[0], None, cancel, states[1], actions[0]));
        assert(calls.drop_first() =~= calls.skip(1));
        assert(results.take(0) =~= Seq::<ToolResult>::empty());
    } else {
        lemma_round_prefix(states, events, actions, cancel, response, results, k - 1);
        assert(events[k] == (SegmentEvent::ToolSettled { result: results[k - 1] }));
        assert(segment_transition(states[k], events[k], None, cancel, states[k + 1], actions[k]));
        assert(results[k - 1].call_id@ == calls[k - 1].call_id@);
        assert(calls.skip(k).len() > 0);
        assert(calls.skip(k)[0] == calls[k]);
        assert(calls.skip(k).drop_first() =~= calls.skip(k + 1));
        assert(results.take(k - 1).push(results[k - 1]) =~= results.take(k));
    }
}

/// When every call a response planned settles, the calls run once each, in plan order,
/// and the model is then called with every observation, in plan order.
pub proof fn lemma_settled_round(
    states: Seq<SegmentState>,
    events: Seq<SegmentEvent>,
    actions: Seq<SegmentAction>,
    cancel: Option<&str>,
    response: ModelResponse,
    results: Seq<ToolResult>,
)
    requires
        settled_round(states, events, actions, cancel, response, results),
    ensures
        forall|i: int| 0 <= i < results.len() ==> #[trigger] actions[i] == (SegmentAction::ExecuteTool {
            call: response.tool_calls@[i],
        }),
        actions.last() matches SegmentAction::CallModel { observations } && observations@ == results,
        states.last() is AwaitingModel,
{
    let n = results.len() as int;
    assert forall|i: int| 0 <= i < n implies #[trigger] actions[i] == (SegmentAction::ExecuteTool {
        call: response.tool_calls@[i],
    }) by {
        lemma_round_prefix(states, events, actions, cancel, response, results, i);
    }
    lemma_round_prefix(states, events, actions, cancel, response, results, n - 1);
    assert(events[n] == (SegmentEvent::ToolSettled { result: results[n - 1] }));
    assert(segment_transition(states[n], events[n], None, cancel, states[n + 1], actions[n]));
    assert(results[n - 1].call_id@ == response.tool_calls@[n - 1].call_id@);
    assert(response.tool_calls@.skip(n).len() == 0);
    assert(results.take(n - 1).push(results[n - 1]) =~= results);
}

/// A finished or stopped segment takes no further step: whatever is reported, nothing
/// more runs and no model is called.
pub proof fn lemma_done_is_final(
    event: SegmentEvent,
    local_error: Option<ContractError>,
    cancel: Option<&str>,
    next: SegmentState,
    action: SegmentAction,
)
    requires
        segment_transition(SegmentState::Done, event, local_error, cancel, next, action),
    ensures
        action is Abort,
        next is Done,
{
}

/// A wait begun while a call runs, for approval or for an uncertain effect, finishes the
/// segment: the next state is final and the waiting outcome names the current call.
pub proof fn lemma_tool_wait_ends_segment(
    current: Id,
    remaining: Vec<ToolCall>,
    observations: Vec<ToolResult>,
    event: SegmentEvent,
    cancel: Option<&str>,
    next: SegmentState,
    action: SegmentAction,
)
    requires
        event is ToolUncertain || event is ToolApprovalRequired,
        segment_transition(
            SegmentState::ExecutingTools { current, remaining, observations },
            event,
            None,
            cancel,
            next,
            action,
        ),
    ensures
        next is Done,
        action matches SegmentAction::Finish(p) && p.result matches OutcomeResult::Waiting { wait } && match wait.target {
            WaitTarget::External { call_id, .. } => call_id == current,
            WaitTarget::Approval { target: ApprovalTarget::Tool { call_id, .. } } => call_id == current,
            _ => false,
        },
{
}

/// What an error settles to, wherever it stops the segment: it ends the segment as it is
/// exactly for ownership, storage and clock errors; cancellation, the deadline and budgets
/// settle as such; any other error finishes the run failed under its category's wire name.
pub proof fn lemma_error_outcome(
    state: SegmentState,
    event: SegmentEvent,
    e: ContractError,
    wait_id: Id,
    cancel: Option<&str>,
    next: SegmentState,
    action: SegmentAction,
)
    requires
        (state is AwaitingModel && event == (SegmentEvent::ModelAttempt {
            attempt: Err::<Guarded, ContractError>(e),
            wait_id,
        })) || (state is ExecutingTools && event == (SegmentEvent::ToolFailed { error: e })),
        segment_transition(state, event, None, cancel, next, action),
    ensures
        next is Done,
        action is Abort <==> (e.code == ErrorCode::LeaseLost || e.code == ErrorCode::RevisionConflict || e.code
            == ErrorCode::PersistenceUnavailable || e.code == ErrorCode::StateNotFound || e.code
            == ErrorCode::ClockUnavailable || e.code == ErrorCode::ClockRegression),
        (e.code == ErrorCode::LeaseLost || e.code == ErrorCode::RevisionConflict || e.code
            == ErrorCode::PersistenceUnavailable || e.code == ErrorCode::StateNotFound || e.code
            == ErrorCode::ClockUnavailable || e.code == ErrorCode::ClockRegression) ==> action == SegmentAction::Abort(e),
        !(e.code == ErrorCode::LeaseLost || e.code == ErrorCode::RevisionConflict || e.code
            == ErrorCode::PersistenceUnavailable || e.code == ErrorCode::StateNotFound || e.code
            == ErrorCode::ClockUnavailable || e.code == ErrorCode::ClockRegression) ==> (action matches SegmentAction::Finish(p) && p.output@.len() == 0
            && p.continuation@.len() == 0),
        e.code == ErrorCode::Cancelled ==> (action matches SegmentAction::Finish(p)
            && p.result matches OutcomeResult::Cancelled { reason } && reason@ == match cancel {
            Some(r) => r@,
            None => "cancelled"@,
        }),
        e.code == ErrorCode::DeadlineExceeded ==> (action matches SegmentAction::Finish(p) && p.result == (
        OutcomeResult::Exhausted { budget: BudgetKind::Elapsed })),
        (!(e.code == ErrorCode::LeaseLost || e.code == ErrorCode::RevisionConflict || e.code
            == ErrorCode::PersistenceUnavailable || e.code == ErrorCode::StateNotFound || e.code
            == ErrorCode::ClockUnavailable || e.code == ErrorCode::ClockRegression) && e.code != ErrorCode::Cancelled && e.code != ErrorCode::DeadlineExceeded
            && e.code != ErrorCode::BudgetExceeded) ==> (action matches SegmentAction::Finish(p)
            && p.result matches OutcomeResult::Failed { failure } && failure.code@ == error_code_wire_name(e.code)
            && failure.diagnostic_ref is None),
{
}

} // verus!
