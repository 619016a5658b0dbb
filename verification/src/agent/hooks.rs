use crate::error::{ContractError, ErrorCode};
use crate::snapshot::{RunEvent, RunEventPayload, RunSnapshot};
use crate::values::RecordRef;
use vstd::prelude::*;

verus! {

/// The failure remembered when an observer hook reports an error: its category at the
/// observer-report location, so the observer's own location is not retained.
pub fn observer_failure(error: Option<ContractError>) -> (failure: Option<ContractError>)
    ensures
        failure is Some <==> error is Some,
        failure matches Some(f) ==> f.code == error.unwrap().code && f.path@ == "hooks.observer_report"@,
{
    match error {
        Some(e) => Some(ContractError::new(e.code, "hooks.observer_report")),
        None => None,
    }
}

/// Context items a run starts with. Without hooks (`hooked` is `None`) there are none;
/// otherwise they are what the before-run transformation returned, and its error stops the run.
pub fn before_run_items<T>(hooked: Option<Result<Vec<T>, ContractError>>) -> (items: Result<
    Vec<T>,
    ContractError,
>)
    ensures
        match hooked {
            None => items matches Ok(v) && v@.len() == 0,
            Some(Ok(t)) => items matches Ok(v) && v@ == t@,
            Some(Err(e)) => items == Err::<Vec<T>, ContractError>(e),
        },
{
    match hooked {
        None => Ok(Vec::new()),
        Some(result) => result,
    }
}

/// Context items a model step is projected with. Without hooks (`hooked` is `None`) the
/// items are unchanged; otherwise they are what the before-model transformation returned,
/// and its error stops the step.
pub fn before_model_items<T>(items: Vec<T>, hooked: Option<Result<Vec<T>, ContractError>>) -> (result: Result<
    Vec<T>,
    ContractError,
>)
    ensures
        match hooked {
            None => result matches Ok(v) && v@ == items@,
            Some(Ok(t)) => result matches Ok(v) && v@ == t@,
            Some(Err(e)) => result == Err::<Vec<T>, ContractError>(e),
        },
{
    match hooked {
        None => Ok(items),
        Some(result) => result,
    }
}

/// The failure remembered after a tool observation hook: nothing without hooks (`observed`
/// is `None`) or when the observer succeeded; otherwise the observer's error category at the
/// observer-report location.
pub fn after_tool_failure(observed: Option<Result<(), ContractError>>) -> (failure: Option<ContractError>)
    ensures
        failure is Some <==> (observed matches Some(Err(_))),
        failure matches Some(f) ==> observed matches Some(Err(e)) && f.code == e.code && f.path@
            == "hooks.observer_report"@,
{
    match observed {
        Some(Err(e)) => observer_failure(Some(e)),
        _ => None,
    }
}

/// Whether an after-run hook observes the run: hooks are configured and the saved run has
/// a terminal status and an outcome.
pub fn after_run_observes(has_hooks: bool, saved: &RunSnapshot) -> (observes: bool)
    ensures
        observes == (has_hooks && saved.outcome is Some && saved.status.terminal()),
{
    has_hooks && saved.outcome.is_some() && saved.status.is_terminal()
}

/// First event sequence of the one-event page that holds the terminal event.
pub fn terminal_event_page_start(last_event_seq: u64) -> (start: u64)
    ensures
        start == if last_event_seq == 0 { 0 } else { (last_event_seq - 1) as u64 },
{
    last_event_seq.saturating_sub(1)
}

/// The outcome record that the run's last event finished with.
pub fn finished_outcome_ref(events: &Vec<RunEvent>) -> (outcome: Result<&RecordRef, ContractError>)
    ensures
        outcome is Ok <==> (events@.len() > 0 && events@.last().payload is RunFinished),
        outcome matches Ok(r) ==> events@.last().payload matches RunEventPayload::RunFinished { outcome_ref }
            && *r == outcome_ref,
        outcome matches Err(e) ==> e.code == ErrorCode::InvalidSnapshot && e.path@ == "hooks.terminal_event"@,
{
    if events.len() == 0 {
        return Err(ContractError::new(ErrorCode::InvalidSnapshot, "hooks.terminal_event"));
    }
    match &events[events.len() - 1].payload {
        RunEventPayload::RunFinished { outcome_ref } => Ok(outcome_ref),
        _ => Err(ContractError::new(ErrorCode::InvalidSnapshot, "hooks.terminal_event")),
    }
}

} // verus!
