//! The ways a request to the orchestrator can fail.

use vstd::prelude::*;

verus! {

/// Why a request was not served.
#[derive(Clone, Copy, Debug, PartialEq, Eq, Structural, Hash)]
pub enum OrchestratorError {
    /// The actor asked for a new unit too soon after its last request.
    RateLimited,
    /// No shared unit accepts new tenants at the moment.
    NoFreeUnit,
    /// The actor is a tenant of a shared unit already.
    AlreadyRegistered,
    /// The calling unit is not one of the known shared units.
    UnknownUnit,
    /// The actor holds no shared assignment.
    UnrecognizedActor,
    /// The provisioning service had no budget to allocate a unit.
    InsufficientBudget,
    /// The platform failed a provisioning call.
    PlatformError,
    /// The image could not be installed into a new unit.
    InstallFailure,
    /// The caller is not allowed to make this request.
    Unauthorized,
}

impl OrchestratorError {
    /// Whether the failure ends the request abruptly instead of being
    /// handed back to the caller as a value: authorization failures,
    /// requests for an unrecognised actor and failed provisioning steps do.
    pub open spec fn spec_aborts_request(self) -> bool {
        match self {
            OrchestratorError::Unauthorized => true,
            OrchestratorError::UnrecognizedActor => true,
            OrchestratorError::InsufficientBudget => true,
            OrchestratorError::PlatformError => true,
            OrchestratorError::InstallFailure => true,
            _ => false,
        }
    }

    /// The text of the failure.
    pub open spec fn spec_message(self) -> Seq<char> {
        match self {
            OrchestratorError::RateLimited => "rate limited"@,
            OrchestratorError::NoFreeUnit => "No shared vault available"@,
            OrchestratorError::AlreadyRegistered => "User already registered for shared vault"@,
            OrchestratorError::UnknownUnit => "Caller is not a known shared vault"@,
            OrchestratorError::UnrecognizedActor => "User not recognised"@,
            OrchestratorError::InsufficientBudget => "Insufficient funds to create a vault"@,
            OrchestratorError::PlatformError => "The platform failed to provision a vault"@,
            OrchestratorError::InstallFailure => "Installing the vault code failed"@,
            OrchestratorError::Unauthorized => "Unauthorized caller"@,
        }
    }

    /// Whether the failure ends the request abruptly.
    #[verifier::when_used_as_spec(spec_aborts_request)]
    pub fn aborts_request(self) -> (r: bool)
        ensures
            r == self.spec_aborts_request(),
    {
        match self {
            OrchestratorError::Unauthorized => true,
            OrchestratorError::UnrecognizedActor => true,
            OrchestratorError::InsufficientBudget => true,
            OrchestratorError::PlatformError => true,
            OrchestratorError::InstallFailure => true,
            _ => false,
        }
    }

    /// The text of the failure.
    pub fn message(self) -> (text: &'static str)
        ensures
            text@ == self.spec_message(),
    {
        match self {
            OrchestratorError::RateLimited => "rate limited",
            OrchestratorError::NoFreeUnit => "No shared vault available",
            OrchestratorError::AlreadyRegistered => "User already registered for shared vault",
            OrchestratorError::UnknownUnit => "Caller is not a known shared vault",
            OrchestratorError::UnrecognizedActor => "User not recognised",
            OrchestratorError::InsufficientBudget => "Insufficient funds to create a vault",
            OrchestratorError::PlatformError => "The platform failed to provision a vault",
            OrchestratorError::InstallFailure => "Installing the vault code failed",
            OrchestratorError::Unauthorized => "Unauthorized caller",
        }
    }
}

} // verus!
