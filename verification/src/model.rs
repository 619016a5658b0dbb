use crate::values::{Id, JsonDigest, RecordRef};
use vstd::prelude::*;

verus! {

/// The exact model route selected for an invocation.
#[derive(Debug, Clone, PartialEq, Eq)]
pub struct ResolvedModelRoute {
    /// Provider that serves the route.
    pub provider: Id,
    /// Selected model binding.
    pub binding_id: Id,
    /// Identity digest of the complete route.
    pub route_digest: JsonDigest,
}

impl ResolvedModelRoute {
    /// Identity digest of the route.
    pub fn digest(&self) -> (digest: &JsonDigest)
        ensures
            *digest == self.route_digest,
    {
        &self.route_digest
    }
}

/// Provenance of one physical model attempt.
#[derive(Debug, Clone, PartialEq, Eq)]
pub struct ModelInvocationRecord {
    /// Physical attempt identity.
    pub attempt_id: Id,
    /// Owning run.
    pub run_id: Id,
    /// Logical model step.
    pub model_step_id: Id,
    /// Route used.
    pub route: ResolvedModelRoute,
    /// Protected stored response, once one was received.
    pub response_ref: Option<RecordRef>,
}

} // verus!
