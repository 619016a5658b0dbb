use wickle::agent::hooks::{
    after_run_observes, after_tool_failure, before_model_items, before_run_items, finished_outcome_ref, observer_failure,
    terminal_event_page_start,
};
use wickle::error::{ContractError, ErrorCode};
use wickle::run::RunEventSchemaVersion;
use wickle::snapshot::{RunEvent, RunEventPayload};
use wickle::values::{Id, JsonDigest, RecordRef, Scope};

fn id(s: &str) -> Id {
    Id::new(s).unwrap()
}

fn record(s: &str) -> RecordRef {
    RecordRef { record_id: id(s), revision: 1, digest: JsonDigest::of_canonical(s.as_bytes()) }
}

fn event(seq: u64, payload: RunEventPayload) -> RunEvent {
    RunEvent {
        schema_version: RunEventSchemaVersion::V1,
        event_id: id("event"),
        scope: Scope { tenant_id: id("tenant"), principal_id: id("user") },
        run_id: id("run"),
        session_id: id("session"),
        seq,
        timestamp_ms: 100,
        payload,
    }
}

#[test]
fn observer_errors_are_remembered_without_their_location() {
    assert!(observer_failure(None).is_none());
    let f = observer_failure(Some(ContractError::new(ErrorCode::AccessDenied, "hook.secret_location"))).unwrap();
    assert_eq!((f.code, f.path.as_str()), (ErrorCode::AccessDenied, "hooks.observer_report"));
}

#[test]
fn the_terminal_event_page_starts_before_the_last_event() {
    assert_eq!(terminal_event_page_start(5), 4);
    assert_eq!(terminal_event_page_start(0), 0);
}

#[test]
fn after_run_requires_a_finished_last_event() {
    let finished = vec![
        event(1, RunEventPayload::ToolPlanned { call_ref: record("call") }),
        event(2, RunEventPayload::RunFinished { outcome_ref: record("outcome") }),
    ];
    assert_eq!(finished_outcome_ref(&finished), Ok(&record("outcome")));
    let e = finished_outcome_ref(&finished[..1].to_vec()).unwrap_err();
    assert_eq!((e.code, e.path.as_str()), (ErrorCode::InvalidSnapshot, "hooks.terminal_event"));
    assert!(finished_outcome_ref(&vec![]).is_err());
    let _ = after_run_observes;
}

#[test]
fn hook_transformations_replace_items_only_when_hooks_run() {
    assert_eq!(before_run_items::<u32>(None), Ok(vec![]));
    assert_eq!(before_run_items(Some(Ok(vec![7u32]))), Ok(vec![7]));
    let e = ContractError::new(ErrorCode::DeadlineExceeded, "hooks.before_run");
    assert_eq!(before_run_items::<u32>(Some(Err(e.clone()))), Err(e.clone()));
    assert_eq!(before_model_items(vec![1u32, 2], None), Ok(vec![1, 2]));
    assert_eq!(before_model_items(vec![1u32, 2], Some(Ok(vec![3]))), Ok(vec![3]));
    assert_eq!(before_model_items(vec![1u32], Some(Err(e.clone()))), Err(e));
}

#[test]
fn a_failing_tool_observer_is_remembered_at_the_report_location() {
    assert_eq!(after_tool_failure(None), None);
    assert_eq!(after_tool_failure(Some(Ok(()))), None);
    let failure = after_tool_failure(Some(Err(ContractError::new(ErrorCode::AccessDenied, "hook.private")))).unwrap();
    assert_eq!((failure.code, failure.path.as_str()), (ErrorCode::AccessDenied, "hooks.observer_report"));
}
