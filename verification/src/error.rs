use vstd::prelude::*;

verus! {

/// Stable categories for contract and profile validation failures.
#[derive(Debug, Clone, Copy, PartialEq, Eq, Structural)]
#[non_exhaustive]
pub enum ErrorCode {
    /// Current policy or exact owner scope denies access.
    AccessDenied,
    /// The trusted policy failed or panicked; no permission was granted.
    PolicyUnavailable,
    /// The call's finite deadline elapsed.
    DeadlineExceeded,
    /// The current operation was cancelled.
    Cancelled,
    /// The Host has not supplied the required asynchronous runtime.
    RuntimeUnavailable,
    /// Input is not unambiguous, finite JSON.
    InvalidJson,
    /// Input does not match a data contract.
    InvalidContract,
    /// The document format is not supported.
    UnsupportedSchemaVersion,
    /// A reference or binding is missing or inconsistent.
    InvalidReference,
    /// A required component or exact version is unavailable.
    ComponentUnavailable,
    /// A component uses an unsupported metadata contract.
    UnsupportedContractVersion,
    /// Selected components do not supply a required capability.
    CapabilityUnsupported,
    /// A configuration does not satisfy its registered schema.
    InvalidConfiguration,
    /// A registered schema is invalid or requires unsupported resolution.
    InvalidSchema,
    /// A profile differs from the profile pinned to an existing execution.
    ProfileMismatch,
    /// Stored data violates checkpoint invariants.
    InvalidSnapshot,
    /// The requested run, session, or protected record is absent in this exact scope.
    StateNotFound,
    /// An existing request identity was reused with different logical input.
    RequestConflict,
    /// The session already has a running or waiting run.
    SessionBusy,
    /// A proposed run identifier already belongs to another request in this scope.
    RunConflict,
    /// The compare-and-swap revision no longer matches saved state.
    RevisionConflict,
    /// Another unexpired execution lease already owns the run.
    LeaseBusy,
    /// The execution lease expired or no longer matches its owner and generation.
    LeaseLost,
    /// A candidate change violates immutable data or state-transition rules.
    InvalidTransition,
    /// An event has a duplicate identity, invalid sequence, or inconsistent references.
    InvalidEvent,
    /// A message has a duplicate identity, invalid sequence, or wrong owning run.
    InvalidMessage,
    /// Immutable record content or a requested reference digest conflicts.
    RecordConflict,
    /// Authoritative storage is unavailable; no successful commit is implied.
    PersistenceUnavailable,
    /// A finite execution budget has no remaining reservation.
    BudgetExceeded,
    /// The Host clock could not supply a reading.
    ClockUnavailable,
    /// The Host clock moved backwards.
    ClockRegression,
    /// No routing rule admits the requested model binding and purpose.
    ModelRouteDenied,
    /// Saved provider context does not belong to the selected model route.
    ModelContextIncompatible,
}

/// The wire (snake case) name of each error category.
pub open spec fn error_code_wire_name(code: ErrorCode) -> Seq<char> {
    match code {
        ErrorCode::AccessDenied => "access_denied"@,
        ErrorCode::PolicyUnavailable => "policy_unavailable"@,
        ErrorCode::DeadlineExceeded => "deadline_exceeded"@,
        ErrorCode::Cancelled => "cancelled"@,
        ErrorCode::RuntimeUnavailable => "runtime_unavailable"@,
        ErrorCode::InvalidJson => "invalid_json"@,
        ErrorCode::InvalidContract => "invalid_contract"@,
        ErrorCode::UnsupportedSchemaVersion => "unsupported_schema_version"@,
        ErrorCode::InvalidReference => "invalid_reference"@,
        ErrorCode::ComponentUnavailable => "component_unavailable"@,
        ErrorCode::UnsupportedContractVersion => "unsupported_contract_version"@,
        ErrorCode::CapabilityUnsupported => "capability_unsupported"@,
        ErrorCode::InvalidConfiguration => "invalid_configuration"@,
        ErrorCode::InvalidSchema => "invalid_schema"@,
        ErrorCode::ProfileMismatch => "profile_mismatch"@,
        ErrorCode::InvalidSnapshot => "invalid_snapshot"@,
        ErrorCode::StateNotFound => "state_not_found"@,
        ErrorCode::RequestConflict => "request_conflict"@,
        ErrorCode::SessionBusy => "session_busy"@,
        ErrorCode::RunConflict => "run_conflict"@,
        ErrorCode::RevisionConflict => "revision_conflict"@,
        ErrorCode::LeaseBusy => "lease_busy"@,
        ErrorCode::LeaseLost => "lease_lost"@,
        ErrorCode::InvalidTransition => "invalid_transition"@,
        ErrorCode::InvalidEvent => "invalid_event"@,
        ErrorCode::InvalidMessage => "invalid_message"@,
        ErrorCode::RecordConflict => "record_conflict"@,
        ErrorCode::PersistenceUnavailable => "persistence_unavailable"@,
        ErrorCode::BudgetExceeded => "budget_exceeded"@,
        ErrorCode::ClockUnavailable => "clock_unavailable"@,
        ErrorCode::ClockRegression => "clock_regression"@,
        ErrorCode::ModelRouteDenied => "model_route_denied"@,
        ErrorCode::ModelContextIncompatible => "model_context_incompatible"@,
    }
}

/// The diagnostic (Rust variant) name of each error category.
pub open spec fn error_code_debug_name(code: ErrorCode) -> Seq<char> {
    match code {
        ErrorCode::AccessDenied => "AccessDenied"@,
        ErrorCode::PolicyUnavailable => "PolicyUnavailable"@,
        ErrorCode::DeadlineExceeded => "DeadlineExceeded"@,
        ErrorCode::Cancelled => "Cancelled"@,
        ErrorCode::RuntimeUnavailable => "RuntimeUnavailable"@,
        ErrorCode::InvalidJson => "InvalidJson"@,
        ErrorCode::InvalidContract => "InvalidContract"@,
        ErrorCode::UnsupportedSchemaVersion => "UnsupportedSchemaVersion"@,
        ErrorCode::InvalidReference => "InvalidReference"@,
        ErrorCode::ComponentUnavailable => "ComponentUnavailable"@,
        ErrorCode::UnsupportedContractVersion => "UnsupportedContractVersion"@,
        ErrorCode::CapabilityUnsupported => "CapabilityUnsupported"@,
        ErrorCode::InvalidConfiguration => "InvalidConfiguration"@,
        ErrorCode::InvalidSchema => "InvalidSchema"@,
        ErrorCode::ProfileMismatch => "ProfileMismatch"@,
        ErrorCode::InvalidSnapshot => "InvalidSnapshot"@,
        ErrorCode::StateNotFound => "StateNotFound"@,
        ErrorCode::RequestConflict => "RequestConflict"@,
        ErrorCode::SessionBusy => "SessionBusy"@,
        ErrorCode::RunConflict => "RunConflict"@,
        ErrorCode::RevisionConflict => "RevisionConflict"@,
        ErrorCode::LeaseBusy => "LeaseBusy"@,
        ErrorCode::LeaseLost => "LeaseLost"@,
        ErrorCode::InvalidTransition => "InvalidTransition"@,
        ErrorCode::InvalidEvent => "InvalidEvent"@,
        ErrorCode::InvalidMessage => "InvalidMessage"@,
        ErrorCode::RecordConflict => "RecordConflict"@,
        ErrorCode::PersistenceUnavailable => "PersistenceUnavailable"@,
        ErrorCode::BudgetExceeded => "BudgetExceeded"@,
        ErrorCode::ClockUnavailable => "ClockUnavailable"@,
        ErrorCode::ClockRegression => "ClockRegression"@,
        ErrorCode::ModelRouteDenied => "ModelRouteDenied"@,
        ErrorCode::ModelContextIncompatible => "ModelContextIncompatible"@,
    }
}

impl ErrorCode {
    /// The snake case name under which this category is stored and reported.
    pub fn wire_name(&self) -> (name: &'static str)
        ensures
            name@ == error_code_wire_name(*self),
    {
        match self {
            ErrorCode::AccessDenied => "access_denied",
            ErrorCode::PolicyUnavailable => "policy_unavailable",
            ErrorCode::DeadlineExceeded => "deadline_exceeded",
            ErrorCode::Cancelled => "cancelled",
            ErrorCode::RuntimeUnavailable => "runtime_unavailable",
            ErrorCode::InvalidJson => "invalid_json",
            ErrorCode::InvalidContract => "invalid_contract",
            ErrorCode::UnsupportedSchemaVersion => "unsupported_schema_version",
            ErrorCode::InvalidReference => "invalid_reference",
            ErrorCode::ComponentUnavailable => "component_unavailable",
            ErrorCode::UnsupportedContractVersion => "unsupported_contract_version",
            ErrorCode::CapabilityUnsupported => "capability_unsupported",
            ErrorCode::InvalidConfiguration => "invalid_configuration",
            ErrorCode::InvalidSchema => "invalid_schema",
            ErrorCode::ProfileMismatch => "profile_mismatch",
            ErrorCode::InvalidSnapshot => "invalid_snapshot",
            ErrorCode::StateNotFound => "state_not_found",
            ErrorCode::RequestConflict => "request_conflict",
            ErrorCode::SessionBusy => "session_busy",
            ErrorCode::RunConflict => "run_conflict",
            ErrorCode::RevisionConflict => "revision_conflict",
            ErrorCode::LeaseBusy => "lease_busy",
            ErrorCode::LeaseLost => "lease_lost",
            ErrorCode::InvalidTransition => "invalid_transition",
            ErrorCode::InvalidEvent => "invalid_event",
            ErrorCode::InvalidMessage => "invalid_message",
            ErrorCode::RecordConflict => "record_conflict",
            ErrorCode::PersistenceUnavailable => "persistence_unavailable",
            ErrorCode::BudgetExceeded => "budget_exceeded",
            ErrorCode::ClockUnavailable => "clock_unavailable",
            ErrorCode::ClockRegression => "clock_regression",
            ErrorCode::ModelRouteDenied => "model_route_denied",
            ErrorCode::ModelContextIncompatible => "model_context_incompatible",
        }
    }

    /// The variant name used in diagnostic messages.
    pub fn debug_name(&self) -> (name: &'static str)
        ensures
            name@ == error_code_debug_name(*self),
    {
        match self {
            ErrorCode::AccessDenied => "AccessDenied",
            ErrorCode::PolicyUnavailable => "PolicyUnavailable",
            ErrorCode::DeadlineExceeded => "DeadlineExceeded",
            ErrorCode::Cancelled => "Cancelled",
            ErrorCode::RuntimeUnavailable => "RuntimeUnavailable",
            ErrorCode::InvalidJson => "InvalidJson",
            ErrorCode::InvalidContract => "InvalidContract",
            ErrorCode::UnsupportedSchemaVersion => "UnsupportedSchemaVersion",
            ErrorCode::InvalidReference => "InvalidReference",
            ErrorCode::ComponentUnavailable => "ComponentUnavailable",
            ErrorCode::UnsupportedContractVersion => "UnsupportedContractVersion",
            ErrorCode::CapabilityUnsupported => "CapabilityUnsupported",
            ErrorCode::InvalidConfiguration => "InvalidConfiguration",
            ErrorCode::InvalidSchema => "InvalidSchema",
            ErrorCode::ProfileMismatch => "ProfileMismatch",
            ErrorCode::InvalidSnapshot => "InvalidSnapshot",
            ErrorCode::StateNotFound => "StateNotFound",
            ErrorCode::RequestConflict => "RequestConflict",
            ErrorCode::SessionBusy => "SessionBusy",
            ErrorCode::RunConflict => "RunConflict",
            ErrorCode::RevisionConflict => "RevisionConflict",
            ErrorCode::LeaseBusy => "LeaseBusy",
            ErrorCode::LeaseLost => "LeaseLost",
            ErrorCode::InvalidTransition => "InvalidTransition",
            ErrorCode::InvalidEvent => "InvalidEvent",
            ErrorCode::InvalidMessage => "InvalidMessage",
            ErrorCode::RecordConflict => "RecordConflict",
            ErrorCode::PersistenceUnavailable => "PersistenceUnavailable",
            ErrorCode::BudgetExceeded => "BudgetExceeded",
            ErrorCode::ClockUnavailable => "ClockUnavailable",
            ErrorCode::ClockRegression => "ClockRegression",
            ErrorCode::ModelRouteDenied => "ModelRouteDenied",
            ErrorCode::ModelContextIncompatible => "ModelContextIncompatible",
        }
    }
}

/// A validation error that does not retain submitted values or credentials.
#[derive(Debug, Clone, PartialEq, Eq)]
pub struct ContractError {
    /// Machine-readable failure category.
    pub code: ErrorCode,
    /// Contract field or reference location, without submitted values.
    pub path: String,
}

impl ContractError {
    /// Construct an error using a safe contract location.
    pub fn new(code: ErrorCode, path: &str) -> (error: ContractError)
        ensures
            error.code == code,
            error.path@ == path@,
    {
        ContractError { code, path: path.to_owned() }
    }

    /// An independent error with the same category and location.
    pub fn duplicate(&self) -> (error: ContractError)
        ensures
            error.code == self.code,
            error.path@ == self.path@,
    {
        ContractError { code: self.code, path: self.path.clone() }
    }

    /// The diagnostic text of this error: the category's variant name, `" at "`, and the path.
    pub fn message(&self) -> (text: String)
        ensures
            text@ == error_code_debug_name(self.code) + " at "@ + self.path@,
    {
        let name = self.code.debug_name().to_owned();
        let with_sep = name.concat(" at ");
        with_sep.concat(self.path.as_str())
    }
}

} // verus!
