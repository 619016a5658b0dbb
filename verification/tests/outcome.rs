use wickle::error::ErrorCode;
use wickle::run::{
    BudgetKind, BudgetUsage, CompletionBasis, Failure, OutcomeResult, RunOutcome, RunStatus,
    VerificationSummary, VerificationVerdict, WaitState, WaitTarget,
};
use wickle::profile::RunLimits;
use wickle::values::{Id, JsonDigest, RecordRef, VersionedRef};

fn id(s: &str) -> Id {
    Id::new(s).unwrap()
}

fn outcome(result: OutcomeResult) -> RunOutcome {
    RunOutcome {
        result,
        output: vec![],
        artifacts: vec![],
        usage: BudgetUsage::default(),
        checkpoint_revision: 1,
        verification: None,
        unresolved_effects: vec![],
    }
}

#[test]
fn only_running_and_waiting_are_resumable() {
    assert!(!RunStatus::Running.is_terminal());
    assert!(!RunStatus::Waiting.is_terminal());
    assert!(RunStatus::Succeeded.is_terminal());
    assert!(RunStatus::Failed.is_terminal());
    assert!(RunStatus::Cancelled.is_terminal());
    assert!(RunStatus::Exhausted.is_terminal());
}

#[test]
fn outcome_results_name_their_status() {
    let wait = WaitState {
        wait_id: id("wait"),
        target: WaitTarget::External { call_id: id("call"), effect_key: id("key") },
        expires_at_ms: None,
    };
    assert_eq!(OutcomeResult::Waiting { wait }.status(), RunStatus::Waiting);
    assert_eq!(
        OutcomeResult::Succeeded { completion_basis: CompletionBasis::TurnEnded }.status(),
        RunStatus::Succeeded
    );
    assert_eq!(
        OutcomeResult::Failed { failure: Failure { code: id("x"), diagnostic_ref: None } }.status(),
        RunStatus::Failed
    );
    assert_eq!(OutcomeResult::Cancelled { reason: "stop".into() }.status(), RunStatus::Cancelled);
    assert_eq!(OutcomeResult::Exhausted { budget: BudgetKind::ModelCalls }.status(), RunStatus::Exhausted);
}

#[test]
fn turn_end_success_needs_no_verifier() {
    let o = outcome(OutcomeResult::Succeeded { completion_basis: CompletionBasis::TurnEnded });
    assert_eq!(o.validate(), Ok(()));
}

#[test]
fn success_with_unresolved_effects_is_rejected() {
    let mut o = outcome(OutcomeResult::Succeeded { completion_basis: CompletionBasis::TurnEnded });
    o.unresolved_effects = vec![RecordRef { record_id: id("effect"), revision: 1, digest: JsonDigest::of_canonical(b"{}") }];
    let e = o.validate().unwrap_err();
    assert_eq!(e.code, ErrorCode::InvalidContract);
    assert_eq!(e.path, "outcome.unresolved_effects");
    let mut failed = outcome(OutcomeResult::Cancelled { reason: "cancelled".into() });
    failed.unresolved_effects = o.unresolved_effects.clone();
    assert!(failed.validate().is_ok());
}

#[test]
fn verified_success_requires_a_passing_verifier() {
    let mut o = outcome(OutcomeResult::Succeeded { completion_basis: CompletionBasis::Verified });
    assert_eq!(o.validate().unwrap_err().path, "outcome.verification");
    let summary = |verdict| VerificationSummary {
        verifier_ref: VersionedRef { id: id("verifier"), version: id("1") },
        criteria_ref: VersionedRef { id: id("criteria"), version: id("1") },
        verdict,
        evidence: vec![],
    };
    for verdict in [VerificationVerdict::Revise, VerificationVerdict::Wait, VerificationVerdict::Fail] {
        o.verification = Some(summary(verdict));
        assert_eq!(o.validate().unwrap_err().path, "outcome.verification");
    }
    o.verification = Some(summary(VerificationVerdict::Pass));
    assert!(o.validate().is_ok());
}

#[test]
fn run_limits_require_positive_model_calls_and_elapsed_time() {
    let l = RunLimits::new(8, 0, 0, 0, 30000).unwrap();
    assert_eq!(l.max_model_calls(), 8);
    assert_eq!(RunLimits::new(0, 1, 1, 1, 1).unwrap_err().path, "limits.max_model_calls");
    assert_eq!(RunLimits::new(1, 1, 1, 1, 0).unwrap_err().path, "limits.max_elapsed_ms");
    assert!(l.is_within(&RunLimits::new(8, 0, 0, 0, 30000).unwrap()));
    assert!(!l.is_within(&RunLimits::new(7, 0, 0, 0, 30000).unwrap()));
}
