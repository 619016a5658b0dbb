use wickle::agent::segment::{segment_step, SegmentAction, SegmentEvent, SegmentState};
use wickle::agent::{
    Guarded, ModelExchangeOutcome, ModelFailure, ModelFinish, ModelResponse, OpaqueContinuation,
    PreparedOutcome,
};
use wickle::error::{ContractError, ErrorCode};
use wickle::message::{ToolCall, ToolEffect, ToolResult, ToolResultStatus};
use wickle::run::{
    ApprovalTarget, BudgetKind, CompletionBasis, InputContent, OutcomeResult, WaitState, WaitTarget,
};
use wickle::values::{Id, JsonDigest};

fn id(s: &str) -> Id {
    Id::new(s).unwrap()
}

fn digest(s: &str) -> JsonDigest {
    JsonDigest::of_canonical(s.as_bytes())
}

fn text(s: &str) -> InputContent {
    InputContent::Text { text: s.to_string() }
}

fn call(call_id: &str, name: &str, arguments: &str) -> ToolCall {
    ToolCall { call_id: id(call_id), name: id(name), arguments: arguments.into(), bound_input_ref: None }
}

fn response(finish: ModelFinish, calls: Vec<ToolCall>) -> ModelResponse {
    ModelResponse {
        text: "answer".to_string(),
        finish,
        tool_calls: calls,
        continuation: vec![OpaqueContinuation {
            provider: id("provider"),
            route_digest: digest("route"),
            data: "{}".into(),
        }],
    }
}

fn attempt(r: ModelResponse) -> SegmentEvent {
    SegmentEvent::ModelAttempt {
        attempt: Ok(Guarded::Completed(ModelExchangeOutcome::Completed { response: r })),
        wait_id: id("wait"),
    }
}

fn observation(call_id: &str, effect: ToolEffect, value: &str) -> ToolResult {
    ToolResult { call_id: id(call_id), status: ToolResultStatus::Succeeded, effect, content: vec![text(value)] }
}

fn finished(action: SegmentAction) -> PreparedOutcome {
    match action {
        SegmentAction::Finish(p) => p,
        other => panic!("expected an outcome, got {other:?}"),
    }
}

fn failure_code(result: &OutcomeResult) -> &str {
    match result {
        OutcomeResult::Failed { failure } => failure.code.as_str(),
        _ => panic!("not a failure"),
    }
}

fn step(state: SegmentState, event: SegmentEvent) -> (SegmentState, SegmentAction) {
    segment_step(state, event, None, None)
}

fn executing(current: &str, remaining: Vec<ToolCall>) -> SegmentState {
    SegmentState::ExecutingTools { current: id(current), remaining, observations: vec![] }
}

#[test]
fn two_planned_calls_run_in_plan_order_then_the_model_sees_both_observations() {
    let read = call("provider-0", "read", "{\"query\":\"first\"}");
    let write = call("provider-1", "write", "{\"query\":\"second\",\"limit\":2}");
    let planned = response(ModelFinish::ToolCalls, vec![read.clone(), write.clone()]);
    let (state, action) = step(SegmentState::AwaitingModel, attempt(planned));
    assert_eq!(action, SegmentAction::ExecuteTool { call: read });
    let first = observation("provider-0", ToolEffect::NotApplied, "read observation");
    let (state, action) = step(state, SegmentEvent::ToolSettled { result: first.clone() });
    assert_eq!(action, SegmentAction::ExecuteTool { call: write });
    let second = observation("provider-1", ToolEffect::Applied, "write observation");
    let (state, action) = step(state, SegmentEvent::ToolSettled { result: second.clone() });
    assert_eq!(action, SegmentAction::CallModel { observations: vec![first, second] });
    assert_eq!(state, SegmentState::AwaitingModel);
    let (state, action) = step(state, attempt(response(ModelFinish::Stop, vec![])));
    let p = finished(action);
    assert_eq!(p.result, OutcomeResult::Succeeded { completion_basis: CompletionBasis::TurnEnded });
    assert_eq!(p.output, vec![text("answer")]);
    assert_eq!(p.continuation.len(), 1);
    assert_eq!(state, SegmentState::Done);
}

#[test]
fn a_stop_with_planned_calls_still_runs_them() {
    let (state, action) = step(SegmentState::AwaitingModel, attempt(response(ModelFinish::Stop, vec![call("c", "read", "{}")])));
    assert_eq!(action, SegmentAction::ExecuteTool { call: call("c", "read", "{}") });
    assert_eq!(state, executing("c", vec![]));
}

#[test]
fn refusals_and_responses_without_a_turn_end_or_calls_fail_without_output() {
    let (state, action) = step(SegmentState::AwaitingModel, attempt(response(ModelFinish::Refusal, vec![call("c", "read", "{}")])));
    let p = finished(action);
    assert_eq!(failure_code(&p.result), "model_refusal");
    assert!(p.output.is_empty() && p.continuation.is_empty());
    assert_eq!(state, SegmentState::Done);
    let p = finished(step(SegmentState::AwaitingModel, attempt(response(ModelFinish::Length, vec![]))).1);
    assert_eq!(failure_code(&p.result), "tool_execution_unsupported");
    let p = finished(step(SegmentState::AwaitingModel, attempt(response(ModelFinish::ToolCalls, vec![]))).1);
    assert_eq!(failure_code(&p.result), "tool_execution_unsupported");
}

#[test]
fn a_failed_exchange_keeps_its_partial_text() {
    let failure = |partial: &str| SegmentEvent::ModelAttempt {
        attempt: Ok(Guarded::Completed(ModelExchangeOutcome::Failed {
            failure: ModelFailure { kind: id("timeout"), partial_text: partial.to_string() },
        })),
        wait_id: id("wait"),
    };
    let p = finished(step(SegmentState::AwaitingModel, failure("half an answ")).1);
    assert_eq!(failure_code(&p.result), "model_timeout");
    assert_eq!(p.output, vec![text("half an answ")]);
    let p = finished(step(SegmentState::AwaitingModel, failure("")).1);
    assert!(p.output.is_empty());
}

#[test]
fn approval_before_the_model_call_waits_on_that_target() {
    let target = ApprovalTarget::Tool { call_id: id("call"), binding_digest: digest("binding") };
    let event = SegmentEvent::ModelAttempt { attempt: Ok(Guarded::ApprovalRequired(target.clone())), wait_id: id("wait-1") };
    let (state, action) = step(SegmentState::AwaitingModel, event);
    let p = finished(action);
    let wait = WaitState { wait_id: id("wait-1"), target: WaitTarget::Approval { target }, expires_at_ms: None };
    assert_eq!(p.result, OutcomeResult::Waiting { wait });
    assert!(p.output.is_empty() && p.continuation.is_empty());
    assert_eq!(state, SegmentState::Done);
}

#[test]
fn approval_of_a_call_waits_before_it_or_any_later_call_runs() {
    let event = SegmentEvent::ToolApprovalRequired { binding_digest: digest("bound"), wait_id: id("wait-2") };
    let (state, action) = step(executing("provider-0", vec![call("provider-1", "write", "{}")]), event);
    let p = finished(action);
    let target = ApprovalTarget::Tool { call_id: id("provider-0"), binding_digest: digest("bound") };
    let wait = WaitState { wait_id: id("wait-2"), target: WaitTarget::Approval { target }, expires_at_ms: None };
    assert_eq!(p.result, OutcomeResult::Waiting { wait });
    assert_eq!(state, SegmentState::Done);
    let late = observation("provider-1", ToolEffect::NotApplied, "x");
    let (_, action) = step(state, SegmentEvent::ToolSettled { result: late });
    let SegmentAction::Abort(e) = action else { panic!("a finished segment takes no step") };
    assert_eq!((e.code, e.path.as_str()), (ErrorCode::InvalidContract, "agent.segment"));
}

#[test]
fn an_uncertain_effect_waits_for_external_confirmation() {
    let event = SegmentEvent::ToolUncertain { effect_key: id("effect-1"), wait_id: id("wait-3") };
    let (state, action) = step(executing("provider-0", vec![call("provider-1", "read", "{}")]), event);
    let p = finished(action);
    let wait = WaitState {
        wait_id: id("wait-3"),
        target: WaitTarget::External { call_id: id("provider-0"), effect_key: id("effect-1") },
        expires_at_ms: None,
    };
    assert_eq!(p.result, OutcomeResult::Waiting { wait });
    assert_eq!(p.result.status(), wickle::run::RunStatus::Waiting);
    assert_eq!(state, SegmentState::Done);
}

#[test]
fn a_result_for_another_call_stops_the_segment() {
    let result = observation("someone-else", ToolEffect::NotApplied, "x");
    let (state, action) = step(executing("provider-0", vec![]), SegmentEvent::ToolSettled { result });
    let SegmentAction::Abort(e) = action else { panic!("expected a stop") };
    assert_eq!((e.code, e.path.as_str()), (ErrorCode::InvalidContract, "agent.tool_result"));
    assert_eq!(state, SegmentState::Done);
}

#[test]
fn events_out_of_turn_stop_the_segment() {
    let result = observation("c", ToolEffect::NotApplied, "x");
    let (_, action) = step(SegmentState::AwaitingModel, SegmentEvent::ToolSettled { result });
    assert_eq!(action, SegmentAction::Abort(ContractError::new(ErrorCode::InvalidContract, "agent.segment")));
    let (_, action) = step(executing("c", vec![]), attempt(response(ModelFinish::Stop, vec![])));
    assert_eq!(action, SegmentAction::Abort(ContractError::new(ErrorCode::InvalidContract, "agent.segment")));
}

#[test]
fn ownership_storage_and_clock_errors_end_the_segment_without_an_outcome() {
    for code in [
        ErrorCode::LeaseLost,
        ErrorCode::RevisionConflict,
        ErrorCode::PersistenceUnavailable,
        ErrorCode::StateNotFound,
        ErrorCode::ClockUnavailable,
        ErrorCode::ClockRegression,
    ] {
        let event = SegmentEvent::ModelAttempt { attempt: Err(ContractError::new(code, "store")), wait_id: id("w") };
        let (_, action) = step(SegmentState::AwaitingModel, event);
        assert_eq!(action, SegmentAction::Abort(ContractError::new(code, "store")));
        let event = SegmentEvent::ToolFailed { error: ContractError::new(code, "store") };
        let (_, action) = step(executing("c", vec![]), event);
        assert_eq!(action, SegmentAction::Abort(ContractError::new(code, "store")));
    }
}

#[test]
fn a_recorded_background_error_takes_precedence() {
    let local = ContractError::new(ErrorCode::LeaseLost, "agent.heartbeat");
    let (state, action) = segment_step(
        SegmentState::AwaitingModel,
        attempt(response(ModelFinish::Stop, vec![])),
        Some(local.clone()),
        None,
    );
    assert_eq!(action, SegmentAction::Abort(local));
    assert_eq!(state, SegmentState::Done);
}

#[test]
fn cancellation_deadline_and_budgets_settle_as_such() {
    let err = |code, path: &str| SegmentEvent::ModelAttempt { attempt: Err(ContractError::new(code, path)), wait_id: id("w") };
    let p = finished(segment_step(SegmentState::AwaitingModel, err(ErrorCode::Cancelled, "x"), None, Some("stop")).1);
    assert_eq!(p.result, OutcomeResult::Cancelled { reason: "stop".into() });
    let p = finished(step(SegmentState::AwaitingModel, err(ErrorCode::Cancelled, "x")).1);
    assert_eq!(p.result, OutcomeResult::Cancelled { reason: "cancelled".into() });
    let p = finished(step(SegmentState::AwaitingModel, err(ErrorCode::DeadlineExceeded, "x")).1);
    assert_eq!(p.result, OutcomeResult::Exhausted { budget: BudgetKind::Elapsed });
    let p = finished(step(SegmentState::AwaitingModel, err(ErrorCode::BudgetExceeded, "budget.tool_attempts")).1);
    assert_eq!(p.result, OutcomeResult::Exhausted { budget: BudgetKind::ToolAttempts });
    let p = finished(step(SegmentState::AwaitingModel, err(ErrorCode::InvalidSchema, "x")).1);
    assert_eq!(failure_code(&p.result), "invalid_schema");
    let tool_err = SegmentEvent::ToolFailed { error: ContractError::new(ErrorCode::BudgetExceeded, "budget.tool_attempts") };
    let p = finished(step(executing("c", vec![]), tool_err).1);
    assert_eq!(p.result, OutcomeResult::Exhausted { budget: BudgetKind::ToolAttempts });
}
