use wickle::agent::driver::{
    agent_route_request, allowed_bindings, budget_kind_for, check_projection, finish_owed, cancel_reason, check_continuations, check_finish_lease,
    check_opaque_record, drive_result, failed, find_request_message, finish_candidate, finish_commit,
    finish_transcript, finished_event, heartbeat_wake_at, lease_remaining_ms, needs_saved_output, next_message_sequence,
    opaque_replay_plan, partial_invocation, partial_output, prepare_step, assistant_message, wait_commit, waiting_event,
    select_agent_rule, settle_success,
};
use wickle::agent::{
    ModelBindingRef, ModelExchangeOutcome, ModelFailure, ModelFinish, ModelPurpose,
    ModelResponse, OpaqueContinuation, RouteRule, StoredModelResponse,
};
use wickle::error::{ContractError, ErrorCode};
use wickle::message::{ContentBlock, Message, MessageOrigin, MessageRole, ToolCall, Visibility};
use wickle::model::{ModelInvocationRecord, ResolvedModelRoute};
use wickle::profile::{AgentProfile, CompletionPolicy, ResolvedProfile, RunLimits};
use wickle::run::{
    ApprovalTarget, BudgetKind, BudgetUsage, CompletionBasis, Failure, InputContent, OutcomeResult,
    RunPhase, RunRequest, RunSnapshotSchemaVersion, RunStatus, RunTrigger, WaitState, WaitTarget,
};
use wickle::snapshot::{RunEventPayload, RunSnapshot};
use wickle::values::{Id, JsonDigest, RecordRef, Scope};

fn id(s: &str) -> Id {
    Id::new(s).unwrap()
}

fn digest(s: &str) -> JsonDigest {
    JsonDigest::of_canonical(s.as_bytes())
}

fn record(s: &str) -> RecordRef {
    RecordRef { record_id: id(s), revision: 1, digest: digest(s) }
}

fn text(s: &str) -> InputContent {
    InputContent::Text { text: s.to_string() }
}

fn response(finish: ModelFinish, tools: usize) -> ModelResponse {
    ModelResponse {
        text: "answer".to_string(),
        finish,
        tool_calls: (0..tools)
            .map(|n| ToolCall {
                call_id: id(&format!("call-{n}")),
                name: id("read"),
                arguments: "{}".into(),
                bound_input_ref: None,
            })
            .collect(),
        continuation: vec![OpaqueContinuation {
            provider: id("provider"),
            route_digest: digest("route"),
            data: "{}".into(),
        }],
    }
}

fn route() -> ResolvedModelRoute {
    ResolvedModelRoute { provider: id("provider"), binding_id: id("primary"), route_digest: digest("route") }
}

fn invocation(attempt: &str, step: &str, response: Option<RecordRef>) -> ModelInvocationRecord {
    ModelInvocationRecord {
        attempt_id: id(attempt),
        run_id: id("run"),
        model_step_id: id(step),
        route: route(),
        response_ref: response,
    }
}

fn snapshot() -> RunSnapshot {
    let scope = Scope { tenant_id: id("tenant"), principal_id: id("user") };
    RunSnapshot {
        schema_version: RunSnapshotSchemaVersion::V1,
        run_id: id("run"),
        request: RunRequest {
            request_id: id("request"),
            session_id: id("session"),
            input: vec![text("input")],
            trigger: RunTrigger::User {},
            output_contract: None,
        },
        request_digest: digest("admission"),
        scope: scope.clone(),
        profile: ResolvedProfile::new(
            AgentProfile {
                agent_id: id("agent"),
                version: id("1"),
                model_binding: id("primary"),
                limits: RunLimits::new(8, 0, 0, 0, 1000).unwrap(),
                completion_policy: CompletionPolicy::TurnEnd {},
            },
            scope,
            digest("profile"),
        ),
        status: RunStatus::Running,
        phase: RunPhase::Model,
        model_step_id: Some(id("step")),
        limits: RunLimits::new(8, 0, 0, 0, 1000).unwrap(),
        usage: BudgetUsage { model_calls: 1, ..BudgetUsage::default() },
        model_ledger: vec![invocation("attempt-1", "step", Some(record("response-1")))],
        tool_ledger: vec![],
        system_inputs: None,
        wait: None,
        outcome: None,
        assembly_ref: None,
        context_batches: vec![],
        source_states: vec![],
        revision: 7,
        last_event_seq: 3,
    }
}

#[test]
fn budget_locations_name_their_budget() {
    assert_eq!(budget_kind_for("budget.model_calls"), BudgetKind::ModelCalls);
    assert_eq!(budget_kind_for("budget.tool_attempts"), BudgetKind::ToolAttempts);
    assert_eq!(budget_kind_for("budget.repair_attempts"), BudgetKind::RepairAttempts);
    assert_eq!(budget_kind_for("budget.recovery_attempts"), BudgetKind::RecoveryAttempts);
    assert_eq!(budget_kind_for("budget.elapsed"), BudgetKind::Elapsed);
    assert_eq!(budget_kind_for("other"), BudgetKind::Elapsed);
}

#[test]
fn failed_outcomes_carry_their_classification() {
    let r = failed("model_refusal");
    assert_eq!(r, OutcomeResult::Failed { failure: Failure { code: id("model_refusal"), diagnostic_ref: None } });
    assert_eq!(cancel_reason(None), "cancelled");
    assert_eq!(cancel_reason(Some("user stop")), "user stop");
}

#[test]
fn cancellation_or_the_deadline_overtakes_a_success() {
    let ok = || OutcomeResult::Succeeded { completion_basis: CompletionBasis::TurnEnded };
    assert_eq!(settle_success(ok(), true, Some("stop"), 0, 10), OutcomeResult::Cancelled { reason: "stop".into() });
    assert_eq!(settle_success(ok(), false, None, 10, 10), OutcomeResult::Exhausted { budget: BudgetKind::Elapsed });
    assert_eq!(settle_success(ok(), false, None, 9, 10), ok());
    let failure = failed("model_timeout");
    assert_eq!(settle_success(failure.clone(), true, None, 99, 10), failure);
    let (r, o) = finish_candidate(ok(), vec![text("answer")], true, None, 0, 10);
    assert_eq!(r, OutcomeResult::Cancelled { reason: "cancelled".into() });
    assert!(o.is_empty());
    let (r, o) = finish_candidate(ok(), vec![text("answer")], false, None, 0, 10);
    assert_eq!((r, o), (ok(), vec![text("answer")]));
}

#[test]
fn unsuccessful_finishes_without_output_read_the_saved_partial_response() {
    assert!(needs_saved_output(&failed("x"), &vec![]));
    assert!(!needs_saved_output(&failed("x"), &vec![text("partial")]));
    let ok = OutcomeResult::Succeeded { completion_basis: CompletionBasis::TurnEnded };
    assert!(!needs_saved_output(&ok, &vec![]));
}

#[test]
fn the_final_transaction_needs_a_live_lease() {
    assert!(check_finish_lease(99, 100).is_ok());
    let e = check_finish_lease(100, 100).unwrap_err();
    assert_eq!((e.code, e.path.as_str()), (ErrorCode::LeaseLost, "agent.finish"));
}

#[test]
fn finishing_commits_the_next_revision_with_a_consistent_outcome() {
    let ok = OutcomeResult::Succeeded { completion_basis: CompletionBasis::TurnEnded };
    let c = finish_commit(snapshot(), ok.clone(), vec![text("answer")], 250).unwrap();
    assert_eq!(c.expected_revision, 7);
    let s = &c.snapshot;
    assert_eq!((s.revision, s.last_event_seq, s.status, s.phase), (8, 4, RunStatus::Succeeded, RunPhase::Finish));
    assert_eq!(s.usage, BudgetUsage { model_calls: 1, elapsed_ms: 250, ..BudgetUsage::default() });
    let o = s.outcome.as_ref().unwrap();
    assert_eq!((o.result.clone(), o.checkpoint_revision, o.usage), (ok, 8, s.usage));
    assert_eq!(o.output, vec![text("answer")]);
    assert!(o.verification.is_none() && o.unresolved_effects.is_empty() && o.artifacts.is_empty());
    let admission = b"admission";
    let mut check = c.snapshot.clone();
    check.request_digest = JsonDigest::of_canonical(admission);
    assert_eq!(check.validate(admission), Ok(()));
}

#[test]
fn a_finished_failure_names_the_last_response_as_diagnostic() {
    let c = finish_commit(snapshot(), failed("model_timeout"), vec![], 5).unwrap();
    let o = c.snapshot.outcome.unwrap();
    assert_eq!(
        o.result,
        OutcomeResult::Failed {
            failure: Failure { code: id("model_timeout"), diagnostic_ref: Some(record("response-1")) }
        }
    );
    assert_eq!(c.snapshot.status, RunStatus::Failed);
}

#[test]
fn finishing_at_the_last_revision_or_event_is_refused() {
    let mut s = snapshot();
    s.revision = u64::MAX;
    let e = finish_commit(s, failed("x"), vec![], 0).unwrap_err();
    assert_eq!((e.code, e.path.as_str()), (ErrorCode::RevisionConflict, "agent.finish"));
    let mut s = snapshot();
    s.last_event_seq = u64::MAX;
    let e = finish_commit(s, failed("x"), vec![], 0).unwrap_err();
    assert_eq!((e.code, e.path.as_str()), (ErrorCode::InvalidSnapshot, "agent.event"));
}

#[test]
fn continuations_of_a_success_must_come_from_the_last_route() {
    let c = response(ModelFinish::Stop, 0).continuation;
    assert!(check_continuations(RunStatus::Succeeded, &c, Some(&route())).is_ok());
    assert!(check_continuations(RunStatus::Failed, &c, None).is_ok());
    assert!(check_continuations(RunStatus::Succeeded, &vec![], None).is_ok());
    let e = check_continuations(RunStatus::Succeeded, &c, None).unwrap_err();
    assert_eq!((e.code, e.path.as_str()), (ErrorCode::InvalidSnapshot, "agent.continuation"));
    let mut other = route();
    other.route_digest = digest("other-route");
    let e = check_continuations(RunStatus::Succeeded, &c, Some(&other)).unwrap_err();
    assert_eq!((e.code, e.path.as_str()), (ErrorCode::ModelContextIncompatible, "agent.continuation"));
}

#[test]
fn only_a_success_with_content_commits_a_transcript_message() {
    let opaque = vec![ContentBlock::ProviderOpaque {
        provider: id("provider"),
        route_digest: digest("route"),
        data_ref: record("continuation"),
    }];
    let content = finish_transcript(RunStatus::Succeeded, &vec![text("answer")], opaque.clone()).unwrap();
    assert_eq!(content, vec![ContentBlock::Content { content: text("answer") }, opaque[0].clone()]);
    assert!(finish_transcript(RunStatus::Succeeded, &vec![], vec![]).is_none());
    assert!(finish_transcript(RunStatus::Failed, &vec![text("partial")], vec![]).is_none());
    assert_eq!(next_message_sequence(4), Ok(5));
    assert_eq!(next_message_sequence(u64::MAX).unwrap_err().path, "message.sequence");
}

#[test]
fn preparing_a_step_advances_the_revision() {
    let c = prepare_step(snapshot(), id("step-2"), 40).unwrap();
    assert_eq!(c.expected_revision, 7);
    assert_eq!((c.snapshot.revision, c.snapshot.phase), (8, RunPhase::Prepare));
    assert_eq!(c.snapshot.model_step_id, Some(id("step-2")));
    assert_eq!(c.snapshot.usage.elapsed_ms, 40);
    let mut s = snapshot();
    s.revision = u64::MAX;
    assert_eq!(prepare_step(s, id("step-2"), 40).unwrap_err().path, "agent.prepare");
}

#[test]
fn routing_uses_the_first_agent_rule_for_the_binding() {
    let rule = |binding: &str, purpose| RouteRule {
        model_binding: id(binding),
        purpose,
        primary: ModelBindingRef { id: id(&format!("{binding}-main")) },
        fallbacks: vec![ModelBindingRef { id: id("backup") }],
        version_policy: id(if purpose == ModelPurpose::Agent { "pinned" } else { "latest" }),
    };
    let rules = vec![
        rule("primary", ModelPurpose::Compaction),
        rule("other", ModelPurpose::Agent),
        rule("primary", ModelPurpose::Agent),
        rule("primary", ModelPurpose::Agent),
    ];
    assert_eq!(select_agent_rule(&rules, &id("primary")), Ok(2));
    let e = select_agent_rule(&rules, &id("missing")).unwrap_err();
    assert_eq!((e.code, e.path.as_str()), (ErrorCode::ModelRouteDenied, "agent.routing"));
    assert_eq!(allowed_bindings(&rules[2]), vec![id("primary-main"), id("backup")]);
    let mut rules = rules;
    rules[2].fallbacks.push(ModelBindingRef { id: id("second-backup") });
    let profile = snapshot().profile.profile().clone();
    let scope = Scope { tenant_id: id("tenant"), principal_id: id("user") };
    let request = agent_route_request(&profile, &rules, &scope, 512).unwrap();
    assert_eq!(request.model_binding, id("primary"));
    assert_eq!(request.purpose, ModelPurpose::Agent);
    assert_eq!(request.required_capabilities, vec![id("text")]);
    assert_eq!((request.input_tokens, request.max_output_tokens), (0, 512));
    assert_eq!(request.scope, scope);
    assert_eq!(request.allowed_bindings, vec![id("primary-main"), id("backup"), id("second-backup")]);
    assert_eq!(request.version_policy, id("pinned"));
    let mut other = profile.clone();
    other.model_binding = id("missing");
    let e = agent_route_request(&other, &rules, &scope, 512).unwrap_err();
    assert_eq!((e.code, e.path.as_str()), (ErrorCode::ModelRouteDenied, "agent.routing"));
}

#[test]
fn heartbeat_timing_and_lease_remaining() {
    assert_eq!(heartbeat_wake_at(100, 50), Ok(150));
    assert_eq!(heartbeat_wake_at(u64::MAX, 1).unwrap_err().code, ErrorCode::ClockUnavailable);
    assert_eq!(lease_remaining_ms(150, 100), Ok(50));
    assert_eq!(lease_remaining_ms(100, 100).unwrap_err().code, ErrorCode::LeaseLost);
    assert_eq!(lease_remaining_ms(90, 100).unwrap_err().path, "agent.heartbeat");
    assert_eq!(lease_remaining_ms(i64::MAX, -1).unwrap_err().code, ErrorCode::LeaseLost);
}

#[test]
fn a_stored_terminal_outcome_is_authoritative() {
    let lost = || Err(ContractError::new(ErrorCode::LeaseLost, "agent.heartbeat"));
    let seg = || Err(ContractError::new(ErrorCode::PersistenceUnavailable, "store"));
    assert_eq!(drive_result(true, seg(), lost()), Ok(()));
    assert_eq!(drive_result(false, seg(), lost()).unwrap_err().path, "store");
    assert_eq!(drive_result(false, Ok(()), lost()).unwrap_err().path, "agent.heartbeat");
    assert_eq!(drive_result(false, Ok(()), Ok(())), Ok(()));
}

#[test]
fn the_latest_response_of_the_current_step_supplies_partial_output() {
    let mut s = snapshot();
    s.model_ledger = vec![
        invocation("a1", "step", Some(record("r1"))),
        invocation("a2", "step", Some(record("r2"))),
        invocation("a3", "step", None),
        invocation("a4", "other-step", Some(record("r4"))),
    ];
    assert_eq!(partial_invocation(&s), Some(1));
    s.model_step_id = None;
    assert_eq!(partial_invocation(&s), None);
    let inv = invocation("a2", "step", Some(record("r2")));
    let stored = |request: &str, outcome| StoredModelResponse {
        request_id: id(request),
        route_digest: digest("route"),
        outcome,
    };
    let failed_exchange = ModelExchangeOutcome::Failed {
        failure: ModelFailure { kind: id("timeout"), partial_text: "partial".into() },
    };
    assert_eq!(partial_output(&inv, &record("r2"), &stored("a2", failed_exchange.clone())), Ok(vec![text("partial")]));
    let e = partial_output(&inv, &record("r1"), &stored("a2", failed_exchange.clone())).unwrap_err();
    assert_eq!((e.code, e.path.as_str()), (ErrorCode::InvalidSnapshot, "agent.partial_response"));
    assert!(partial_output(&inv, &record("r2"), &stored("a1", failed_exchange)).is_err());
    let done = ModelExchangeOutcome::Completed { response: response(ModelFinish::Stop, 0) };
    assert_eq!(partial_output(&inv, &record("r2"), &stored("a2", done)), Ok(vec![text("answer")]));
}

fn message(run: &str, role: MessageRole, visibility: Visibility, content: Vec<ContentBlock>) -> Message {
    Message {
        message_id: id("message"),
        run_id: id(run),
        sequence: 1,
        role,
        content,
        origin: MessageOrigin::User,
        visibility,
    }
}

fn opaque(provider: &str, route: &str, data: &str) -> ContentBlock {
    ContentBlock::ProviderOpaque { provider: id(provider), route_digest: digest(route), data_ref: record(data) }
}

#[test]
fn the_request_message_is_the_first_user_message_of_the_run() {
    let messages = vec![
        message("other-run", MessageRole::User, Visibility::UserAndModel, vec![]),
        message("run", MessageRole::Assistant, Visibility::UserAndModel, vec![]),
        message("run", MessageRole::User, Visibility::UserAndModel, vec![]),
    ];
    assert_eq!(find_request_message(&messages, &id("run")), Ok(2));
    let e = find_request_message(&messages, &id("missing")).unwrap_err();
    assert_eq!((e.code, e.path.as_str()), (ErrorCode::InvalidSnapshot, "agent.request_message"));
}

#[test]
fn opaque_replay_reads_distinct_visible_records_of_the_route() {
    let messages = vec![
        message("run", MessageRole::Assistant, Visibility::UserAndModel, vec![opaque("provider", "route", "c1")]),
        message("run", MessageRole::Assistant, Visibility::User, vec![opaque("other", "other", "hidden")]),
        message(
            "run",
            MessageRole::Assistant,
            Visibility::Model,
            vec![ContentBlock::Content { content: text("x") }, opaque("provider", "route", "c2"), opaque("provider", "route", "c1")],
        ),
    ];
    let plan = opaque_replay_plan(&messages, &id("provider"), &digest("route"));
    assert_eq!(plan.reads, vec![record("c1"), record("c2")]);
    assert!(plan.stop.is_none());
}

#[test]
fn opaque_replay_stops_at_another_route() {
    let messages = vec![
        message("run", MessageRole::Assistant, Visibility::UserAndModel, vec![opaque("provider", "route", "c1")]),
        message("run", MessageRole::Assistant, Visibility::Model, vec![opaque("provider", "other-route", "c2")]),
        message("run", MessageRole::Assistant, Visibility::Model, vec![opaque("provider", "route", "c3")]),
    ];
    let plan = opaque_replay_plan(&messages, &id("provider"), &digest("route"));
    assert_eq!(plan.reads, vec![record("c1")]);
    let e = plan.stop.unwrap();
    assert_eq!((e.code, e.path.as_str()), (ErrorCode::ModelContextIncompatible, "agent.opaque_route"));
    let plan = opaque_replay_plan(&messages, &id("different-provider"), &digest("route"));
    assert!(plan.reads.is_empty() && plan.stop.is_some());
}

#[test]
fn replayed_records_must_match_reference_route_and_digest() {
    let json = b"{\"signature\":\"s\"}";
    let data_ref = RecordRef { record_id: id("c1"), revision: 1, digest: JsonDigest::of_canonical(json) };
    let continuation = OpaqueContinuation { provider: id("provider"), route_digest: digest("route"), data: "{}".into() };
    assert!(check_opaque_record(&data_ref, &data_ref, &continuation, &digest("route"), json).is_ok());
    let e = check_opaque_record(&data_ref, &record("c2"), &continuation, &digest("route"), json).unwrap_err();
    assert_eq!((e.code, e.path.as_str()), (ErrorCode::ModelContextIncompatible, "agent.opaque_record"));
    assert!(check_opaque_record(&data_ref, &data_ref, &continuation, &digest("other"), json).is_err());
    assert!(check_opaque_record(&data_ref, &data_ref, &continuation, &digest("route"), b"{}").is_err());
    let later = RecordRef { revision: 2, ..data_ref.clone() };
    let e = check_opaque_record(&data_ref, &later, &continuation, &digest("route"), json).unwrap_err();
    assert_eq!((e.code, e.path.as_str()), (ErrorCode::ModelContextIncompatible, "agent.opaque_record"));
}

#[test]
fn the_finished_event_carries_the_committed_sequence() {
    let c = finish_commit(snapshot(), failed("x"), vec![], 0).unwrap();
    let scope = Scope { tenant_id: id("tenant"), principal_id: id("user") };
    let e = finished_event(&c.snapshot, &id("run"), id("event"), scope, 123, record("outcome")).unwrap();
    assert_eq!((e.seq, e.timestamp_ms), (4, 123));
    assert_eq!((e.run_id.clone(), e.session_id.clone()), (id("run"), id("session")));
    assert_eq!(e.payload, RunEventPayload::RunFinished { outcome_ref: record("outcome") });
    let mut s = snapshot();
    s.last_event_seq = 0;
    let scope = Scope { tenant_id: id("tenant"), principal_id: id("user") };
    let err = finished_event(&s, &id("run"), id("event"), scope, 0, record("outcome")).unwrap_err();
    assert_eq!((err.code, err.path.as_str()), (ErrorCode::InvalidSnapshot, "agent.event"));
}

#[test]
fn the_event_names_the_given_run() {
    let c = finish_commit(snapshot(), failed("x"), vec![], 0).unwrap();
    let scope = Scope { tenant_id: id("tenant"), principal_id: id("user") };
    let e = finished_event(&c.snapshot, &id("other-run"), id("event"), scope, 5, record("outcome")).unwrap();
    assert_eq!(e.run_id, id("other-run"));
}

fn approval_wait() -> WaitState {
    WaitState {
        wait_id: id("wait"),
        target: WaitTarget::Approval {
            target: ApprovalTarget::Tool { call_id: id("call-0"), binding_digest: digest("binding") },
        },
        expires_at_ms: None,
    }
}

#[test]
fn waiting_commits_the_wait_and_a_matching_outcome() {
    let c = wait_commit(snapshot(), approval_wait(), vec![text("partial")], vec![record("effect")], 40).unwrap();
    assert_eq!(c.expected_revision, 7);
    assert_eq!((c.snapshot.revision, c.snapshot.last_event_seq), (8, 4));
    assert_eq!((c.snapshot.status, c.snapshot.phase), (RunStatus::Waiting, RunPhase::Waiting));
    assert_eq!(c.snapshot.wait, Some(approval_wait()));
    let o = c.snapshot.outcome.clone().unwrap();
    assert_eq!(o.result, OutcomeResult::Waiting { wait: approval_wait() });
    assert_eq!(o.result.status(), RunStatus::Waiting);
    assert_eq!(o.output, vec![text("partial")]);
    assert_eq!(o.unresolved_effects, vec![record("effect")]);
    assert_eq!((o.checkpoint_revision, o.usage.elapsed_ms), (8, 40));
    let scope = Scope { tenant_id: id("tenant"), principal_id: id("user") };
    let e = waiting_event(&c.snapshot, &id("run"), id("event"), scope, 9, record("wait")).unwrap();
    assert_eq!(e.seq, 4);
    assert_eq!(e.payload, RunEventPayload::RunWaiting { wait_ref: record("wait") });
    let mut s = snapshot();
    s.revision = u64::MAX;
    let e = wait_commit(s, approval_wait(), vec![], vec![], 0).unwrap_err();
    assert_eq!((e.code, e.path.as_str()), (ErrorCode::RevisionConflict, "agent.wait"));
    let mut s = snapshot();
    s.last_event_seq = u64::MAX;
    let e = wait_commit(s, approval_wait(), vec![], vec![], 0).unwrap_err();
    assert_eq!((e.code, e.path.as_str()), (ErrorCode::InvalidSnapshot, "agent.event"));
}

#[test]
fn the_assistant_message_is_model_content_for_user_and_model() {
    let content = vec![ContentBlock::Content { content: text("answer") }];
    let m = assistant_message(id("message"), &id("run"), 4, content.clone()).unwrap();
    assert_eq!(m.message_id, id("message"));
    assert_eq!(m.run_id, id("run"));
    assert_eq!(m.sequence, 5);
    assert_eq!(m.role, MessageRole::Assistant);
    assert_eq!(m.origin, MessageOrigin::Model);
    assert_eq!(m.visibility, Visibility::UserAndModel);
    assert_eq!(m.content, content);
    let e = assistant_message(id("message"), &id("run"), u64::MAX, vec![]).unwrap_err();
    assert_eq!((e.code, e.path.as_str()), (ErrorCode::InvalidSnapshot, "message.sequence"));
}

#[test]
fn only_an_unfinished_run_is_finished_and_only_an_uncancelled_one_projected() {
    assert!(finish_owed(RunStatus::Running));
    assert!(finish_owed(RunStatus::Waiting));
    for status in [RunStatus::Succeeded, RunStatus::Failed, RunStatus::Cancelled, RunStatus::Exhausted] {
        assert!(!finish_owed(status));
    }
    assert!(check_projection(false).is_ok());
    let e = check_projection(true).unwrap_err();
    assert_eq!((e.code, e.path.as_str()), (ErrorCode::Cancelled, "agent.projection"));
}
