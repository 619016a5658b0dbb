use crate::error::{ContractError, ErrorCode};
use crate::values::{Id, JsonDigest, Scope, VersionedRef};
use vstd::prelude::*;

verus! {

/// Finite execution limits of an agent profile or a run. Model-call and elapsed-time
/// limits are positive; a zero tool, repair or recovery limit disables that work.
#[derive(Debug, Clone, Copy, PartialEq, Eq, Structural)]
pub struct RunLimits {
    max_model_calls: u64,
    max_tool_attempts: u64,
    max_repair_attempts: u64,
    max_recovery_attempts: u64,
    max_elapsed_ms: u64,
}

/// Mathematical value of [`RunLimits`].
pub struct RunLimitsView {
    pub max_model_calls: u64,
    pub max_tool_attempts: u64,
    pub max_repair_attempts: u64,
    pub max_recovery_attempts: u64,
    pub max_elapsed_ms: u64,
}

impl View for RunLimits {
    type V = RunLimitsView;

    closed spec fn view(&self) -> RunLimitsView {
        RunLimitsView {
            max_model_calls: self.max_model_calls,
            max_tool_attempts: self.max_tool_attempts,
            max_repair_attempts: self.max_repair_attempts,
            max_recovery_attempts: self.max_recovery_attempts,
            max_elapsed_ms: self.max_elapsed_ms,
        }
    }
}

impl RunLimits {
    /// Model-call and elapsed-time limits are positive.
    #[verifier::type_invariant]
    closed spec fn positive(self) -> bool {
        self.max_model_calls > 0 && self.max_elapsed_ms > 0
    }

    /// Every limit is at most the corresponding limit of `bound`.
    pub open spec fn within(self, bound: RunLimits) -> bool {
        &&& self@.max_model_calls <= bound@.max_model_calls
        &&& self@.max_tool_attempts <= bound@.max_tool_attempts
        &&& self@.max_repair_attempts <= bound@.max_repair_attempts
        &&& self@.max_recovery_attempts <= bound@.max_recovery_attempts
        &&& self@.max_elapsed_ms <= bound@.max_elapsed_ms
    }

    /// Accept limits whose model-call and elapsed-time limits are positive.
    pub fn new(
        max_model_calls: u64,
        max_tool_attempts: u64,
        max_repair_attempts: u64,
        max_recovery_attempts: u64,
        max_elapsed_ms: u64,
    ) -> (limits: Result<RunLimits, ContractError>)
        ensures
            limits is Ok <==> max_model_calls > 0 && max_elapsed_ms > 0,
            limits matches Ok(l) ==> l@ == (RunLimitsView {
                max_model_calls,
                max_tool_attempts,
                max_repair_attempts,
                max_recovery_attempts,
                max_elapsed_ms,
            }),
            limits matches Err(e) ==> e.code == ErrorCode::InvalidContract && e.path@ == (if max_model_calls
                == 0 {
                "limits.max_model_calls"@
            } else {
                "limits.max_elapsed_ms"@
            }),
    {
        if max_model_calls == 0 {
            return Err(ContractError::new(ErrorCode::InvalidContract, "limits.max_model_calls"));
        }
        if max_elapsed_ms == 0 {
            return Err(ContractError::new(ErrorCode::InvalidContract, "limits.max_elapsed_ms"));
        }
        Ok(RunLimits {
            max_model_calls,
            max_tool_attempts,
            max_repair_attempts,
            max_recovery_attempts,
            max_elapsed_ms,
        })
    }

    /// Physical model attempts; positive.
    pub fn max_model_calls(&self) -> (n: u64)
        ensures
            n == self@.max_model_calls,
            n > 0,
    {
        proof {
            use_type_invariant(self);
        }
        self.max_model_calls
    }

    /// Physical tool attempts; zero disables tools.
    pub fn max_tool_attempts(&self) -> (n: u64)
        ensures
            n == self@.max_tool_attempts,
    {
        self.max_tool_attempts
    }

    /// Candidate repairs; zero disables repair.
    pub fn max_repair_attempts(&self) -> (n: u64)
        ensures
            n == self@.max_repair_attempts,
    {
        self.max_repair_attempts
    }

    /// Execution recoveries; zero disables recovery.
    pub fn max_recovery_attempts(&self) -> (n: u64)
        ensures
            n == self@.max_recovery_attempts,
    {
        self.max_recovery_attempts
    }

    /// Elapsed milliseconds; positive.
    pub fn max_elapsed_ms(&self) -> (n: u64)
        ensures
            n == self@.max_elapsed_ms,
            n > 0,
    {
        proof {
            use_type_invariant(self);
        }
        self.max_elapsed_ms
    }

    /// Whether every limit is at most the corresponding limit of `bound`.
    pub fn is_within(&self, bound: &RunLimits) -> (within: bool)
        ensures
            within == self.within(*bound),
            within == (self@.max_model_calls <= bound@.max_model_calls && self@.max_tool_attempts
                <= bound@.max_tool_attempts && self@.max_repair_attempts <= bound@.max_repair_attempts
                && self@.max_recovery_attempts <= bound@.max_recovery_attempts && self@.max_elapsed_ms
                <= bound@.max_elapsed_ms),
    {
        self.max_model_calls <= bound.max_model_calls && self.max_tool_attempts
            <= bound.max_tool_attempts && self.max_repair_attempts <= bound.max_repair_attempts
            && self.max_recovery_attempts <= bound.max_recovery_attempts && self.max_elapsed_ms
            <= bound.max_elapsed_ms
    }
}

/// When a run may succeed.
#[derive(Debug, Clone, PartialEq, Eq)]
pub enum CompletionPolicy {
    /// The model ending its turn completes the run.
    TurnEnd {},
    /// A pinned verifier must accept the candidate.
    Verified {
        /// Exact verifier definition.
        verifier_ref: VersionedRef,
    },
}

/// Agent profile data that the driver reads.
#[derive(Debug, Clone, PartialEq, Eq)]
pub struct AgentProfile {
    /// Agent identity.
    pub agent_id: Id,
    /// Profile version.
    pub version: Id,
    /// Registered model binding.
    pub model_binding: Id,
    /// Requested limits.
    pub limits: RunLimits,
    /// Completion policy; `turn_end` unless configured.
    pub completion_policy: CompletionPolicy,
}

/// A profile pinned together with its scope and identity digest.
#[derive(Debug, Clone, PartialEq, Eq)]
pub struct ResolvedProfile {
    profile: AgentProfile,
    scope: Scope,
    profile_digest: JsonDigest,
}

impl ResolvedProfile {
    /// The pinned profile.
    pub closed spec fn pinned_profile(self) -> AgentProfile {
        self.profile
    }

    /// The scope the profile was resolved for.
    pub closed spec fn pinned_scope(self) -> Scope {
        self.scope
    }

    /// The pinned profile identity.
    pub closed spec fn pinned_digest(self) -> JsonDigest {
        self.profile_digest
    }

    /// Pin a resolved profile.
    pub fn new(profile: AgentProfile, scope: Scope, profile_digest: JsonDigest) -> (resolved: ResolvedProfile)
        ensures
            resolved.pinned_profile() == profile,
            resolved.pinned_scope() == scope,
            resolved.pinned_digest() == profile_digest,
    {
        ResolvedProfile { profile, scope, profile_digest }
    }

    /// The pinned profile.
    pub fn profile(&self) -> (profile: &AgentProfile)
        ensures
            *profile == self.pinned_profile(),
    {
        &self.profile
    }

    /// The scope the profile was resolved for.
    pub fn scope(&self) -> (scope: &Scope)
        ensures
            *scope == self.pinned_scope(),
    {
        &self.scope
    }

    /// The pinned profile identity.
    pub fn profile_digest(&self) -> (digest: &JsonDigest)
        ensures
            *digest == self.pinned_digest(),
    {
        &self.profile_digest
    }
}

} // verus!
