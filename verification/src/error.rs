//! The failures this library reports.

use vstd::prelude::*;
use vstd::std_specs::convert::FromSpecImpl;

verus! {

/// `ic_agent::identity::PemError`: why a key file could not be turned into
/// an identity. Carried through unread.
#[verifier::external_type_specification]
#[verifier::external_body]
pub struct ExPemError(ic_agent::identity::PemError);

/// `ic_agent::AgentError`: why the agent could not be built or a replica call
/// failed. Carried through unread.
#[verifier::external_type_specification]
#[verifier::external_body]
pub struct ExAgentError(ic_agent::AgentError);

/// `ic_agent::export::Principal`: the identifier of a canister. Carried
/// through unread.
#[verifier::external_type_specification]
#[verifier::external_body]
pub struct ExPrincipal(ic_agent::export::Principal);

/// Everything that can go wrong in this library. No failure is retried or
/// swallowed: each one ends the call chain it occurs in.
#[derive(Debug)]
pub enum Error {
    /// No home directory could be found for the current user.
    MissingConfig,
    /// No key file exists at the path, which is the fully resolved one.
    CertNotFound(String),
    /// The key file exists but could not be read as an identity.
    Pem(ic_agent::identity::PemError),
    /// The agent could not be built, or a call to the replica failed.
    Agent(ic_agent::AgentError),
    /// The canister was created, but installing code into it failed. The
    /// canister still exists, empty, under `canister_id`.
    InstallFailed { canister_id: ic_agent::export::Principal, cause: ic_agent::AgentError },
}

impl From<ic_agent::identity::PemError> for Error {
    fn from(cause: ic_agent::identity::PemError) -> (e: Error) {
        Error::Pem(cause)
    }
}

impl FromSpecImpl<ic_agent::identity::PemError> for Error {
    open spec fn obeys_from_spec() -> bool {
        true
    }

    open spec fn from_spec(cause: ic_agent::identity::PemError) -> Error {
        Error::Pem(cause)
    }
}

impl From<ic_agent::AgentError> for Error {
    fn from(cause: ic_agent::AgentError) -> (e: Error) {
        Error::Agent(cause)
    }
}

impl FromSpecImpl<ic_agent::AgentError> for Error {
    open spec fn obeys_from_spec() -> bool {
        true
    }

    open spec fn from_spec(cause: ic_agent::AgentError) -> Error {
        Error::Agent(cause)
    }
}

} // verus!
