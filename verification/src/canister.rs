//! Provisioning a canister: find the wallet of an account, create the
//! canister through it, then install code into the canister.
//!
//! Each step is outside work, which the caller does. This module says which
//! step is next and what each answer leads to. A [`WalletLookup`] is the
//! step to begin with; its answer gives a [`CreateCall`] or ends the
//! workflow; the answer to that gives an [`InstallCall`] or ends the
//! workflow; the answer to that gives the canister or ends the workflow.
//! An `InstallCall` comes from nowhere else, so code is never installed
//! unless a canister was created, and only into that canister.

use crate::error::Error;
use vstd::prelude::*;
use vstd::string::StringExecFns;

verus! {

/// The step to begin with: find the wallet that holds the cycles of
/// `account`. What is to be created and installed waits here.
pub struct WalletLookup {
    pub account: String,
    pub cycles: u64,
    pub bytecode: Vec<u8>,
    pub arg: Vec<u8>,
}

/// The first call of the workflow: ask `wallet` to create a canister, to
/// fund it with `cycles` and to put it under `controller`, or under the
/// wallet itself where that is `None`. The code to install waits here for
/// the canister.
pub struct CreateCall {
    pub wallet: ic_agent::export::Principal,
    pub cycles: u64,
    pub controller: Option<ic_agent::export::Principal>,
    pub bytecode: Vec<u8>,
    pub arg: Vec<u8>,
}

/// The second call of the workflow: ask the management canister, through
/// `wallet`, to install `bytecode` into `canister_id`, with the encoded
/// argument `arg`.
pub struct InstallCall {
    pub wallet: ic_agent::export::Principal,
    pub canister_id: ic_agent::export::Principal,
    pub bytecode: Vec<u8>,
    pub arg: Vec<u8>,
}

impl WalletLookup {
    /// What the lookup leads to: the create call to the wallet that was
    /// found, with no controller named, or the failure to find one.
    pub open spec fn answered(
        self,
        reply: Result<ic_agent::export::Principal, ic_agent::AgentError>,
    ) -> Result<CreateCall, Error> {
        match reply {
            Ok(wallet) => Ok(
                CreateCall {
                    wallet,
                    cycles: self.cycles,
                    controller: None,
                    bytecode: self.bytecode,
                    arg: self.arg,
                },
            ),
            Err(cause) => Err(Error::Agent(cause)),
        }
    }

    /// Takes the outcome of the lookup and gives the call to make first.
    /// Where no wallet was found, that failure is the end of the workflow:
    /// nothing is sent to the replica.
    pub fn wallet_resolved(
        self,
        reply: Result<ic_agent::export::Principal, ic_agent::AgentError>,
    ) -> (next: Result<CreateCall, Error>)
        ensures
            next == self.answered(reply),
    {
        match reply {
            Ok(wallet) => Ok(
                CreateCall {
                    wallet,
                    cycles: self.cycles,
                    controller: None,
                    bytecode: self.bytecode,
                    arg: self.arg,
                },
            ),
            Err(cause) => Err(Error::Agent(cause)),
        }
    }
}

impl CreateCall {
    /// What the wallet's answer leads to: the install call for the canister
    /// it created, with the code that waited, or the wallet's failure.
    pub open spec fn answered(
        self,
        reply: Result<ic_agent::export::Principal, ic_agent::AgentError>,
    ) -> Result<InstallCall, Error> {
        match reply {
            Ok(canister_id) => Ok(
                InstallCall {
                    wallet: self.wallet,
                    canister_id,
                    bytecode: self.bytecode,
                    arg: self.arg,
                },
            ),
            Err(cause) => Err(Error::Agent(cause)),
        }
    }

    /// Takes the wallet's answer to this call and gives the call to make
    /// next. Where the wallet failed, its failure is the end of the workflow:
    /// there is no install call.
    pub fn created(
        self,
        reply: Result<ic_agent::export::Principal, ic_agent::AgentError>,
    ) -> (next: Result<InstallCall, Error>)
        ensures
            next == self.answered(reply),
    {
        match reply {
            Ok(canister_id) => Ok(
                InstallCall {
                    wallet: self.wallet,
                    canister_id,
                    bytecode: self.bytecode,
                    arg: self.arg,
                },
            ),
            Err(cause) => Err(Error::Agent(cause)),
        }
    }
}

impl InstallCall {
    /// What the management canister's answer leads to: the canister, now
    /// holding the code, or a failure that names the canister left empty.
    pub open spec fn answered(self, reply: Result<(), ic_agent::AgentError>) -> Result<
        ic_agent::export::Principal,
        Error,
    > {
        match reply {
            Ok(_) => Ok(self.canister_id),
            Err(cause) => Err(Error::InstallFailed { canister_id: self.canister_id, cause }),
        }
    }

    /// Takes the management canister's answer to this call and ends the
    /// workflow. Nothing is rolled back where the install failed: the
    /// canister stays, empty, and the error carries its identifier.
    pub fn installed(self, reply: Result<(), ic_agent::AgentError>) -> (result: Result<
        ic_agent::export::Principal,
        Error,
    >)
        ensures
            result == self.answered(reply),
    {
        match reply {
            Ok(_) => Ok(self.canister_id),
            Err(cause) => Err(Error::InstallFailed { canister_id: self.canister_id, cause }),
        }
    }
}

/// What the whole workflow comes to for the answers `resolved`, `created`
/// and `installed`, each of which is looked at only where the one before it
/// is no failure.
pub open spec fn provisioned(
    lookup: WalletLookup,
    resolved: Result<ic_agent::export::Principal, ic_agent::AgentError>,
    created: Result<ic_agent::export::Principal, ic_agent::AgentError>,
    installed: Result<(), ic_agent::AgentError>,
) -> Result<ic_agent::export::Principal, Error> {
    match lookup.answered(resolved) {
        Ok(create) => match create.answered(created) {
            Ok(install) => install.answered(installed),
            Err(e) => Err(e),
        },
        Err(e) => Err(e),
    }
}

/// Starts provisioning a canister for `account_name`: `bytecode` is the
/// module to install, `arg` its encoded constructor argument, `cycles` what
/// the wallet funds the canister with. Nothing has been sent yet.
pub fn create_canister(account_name: &str, bytecode: Vec<u8>, arg: Vec<u8>, cycles: u64) -> (lookup:
    WalletLookup)
    ensures
        lookup.account@ == account_name@,
        lookup.cycles == cycles,
        lookup.bytecode == bytecode,
        lookup.arg == arg,
{
    WalletLookup { account: String::from_str(account_name), cycles, bytecode, arg }
}

/// Where no wallet is found, nothing is sent: there is no create call, the
/// workflow ends with that failure, and no answer to a later call could
/// change that.
pub proof fn failed_lookup_ends_workflow(
    lookup: WalletLookup,
    cause: ic_agent::AgentError,
    created: Result<ic_agent::export::Principal, ic_agent::AgentError>,
    installed: Result<(), ic_agent::AgentError>,
)
    ensures
        lookup.answered(Err(cause)) is Err,
        provisioned(lookup, Err(cause), created, installed) == Err::<
            ic_agent::export::Principal,
            Error,
        >(Error::Agent(cause)),
{
}

/// The create call goes to the wallet that was found, asks for the cycles of
/// the request and names no controller.
pub proof fn create_follows_lookup(
    lookup: WalletLookup,
    resolved: Result<ic_agent::export::Principal, ic_agent::AgentError>,
)
    ensures
        lookup.answered(resolved) is Ok <==> resolved is Ok,
        lookup.answered(resolved) matches Ok(create) ==> resolved == Ok::<
            ic_agent::export::Principal,
            ic_agent::AgentError,
        >(create.wallet) && create.cycles == lookup.cycles && create.controller is None
            && create.bytecode == lookup.bytecode && create.arg == lookup.arg,
{
}

/// Where the create step fails, no install is attempted: there is no install
/// call, the workflow ends with the wallet's failure, and no answer to an
/// install could change that.
pub proof fn failed_create_ends_workflow(
    lookup: WalletLookup,
    wallet: ic_agent::export::Principal,
    cause: ic_agent::AgentError,
    installed: Result<(), ic_agent::AgentError>,
)
    ensures
        lookup.answered(Ok(wallet)) matches Ok(create) && create.answered(Err(cause)) is Err,
        provisioned(lookup, Ok(wallet), Err(cause), installed) == Err::<
            ic_agent::export::Principal,
            Error,
        >(Error::Agent(cause)),
{
}

/// An install call exists only for a canister that the wallet created, and it
/// installs the code of the request into exactly that canister, through the
/// wallet that created it.
pub proof fn install_follows_create(
    call: CreateCall,
    created: Result<ic_agent::export::Principal, ic_agent::AgentError>,
)
    ensures
        call.answered(created) is Ok <==> created is Ok,
        call.answered(created) matches Ok(install) ==> created == Ok::<
            ic_agent::export::Principal,
            ic_agent::AgentError,
        >(install.canister_id) && install.wallet == call.wallet && install.bytecode
            == call.bytecode && install.arg == call.arg,
{
}

/// Where every step succeeds, the workflow gives the identifier that the
/// create step produced.
pub proof fn provisioned_canister_is_created_one(
    lookup: WalletLookup,
    wallet: ic_agent::export::Principal,
    canister_id: ic_agent::export::Principal,
)
    ensures
        provisioned(lookup, Ok(wallet), Ok(canister_id), Ok(())) == Ok::<
            ic_agent::export::Principal,
            Error,
        >(canister_id),
{
}

/// Where the canister was created and the install fails, the workflow fails
/// and the error carries the identifier of the canister that was created.
pub proof fn failed_install_keeps_canister(
    lookup: WalletLookup,
    wallet: ic_agent::export::Principal,
    canister_id: ic_agent::export::Principal,
    cause: ic_agent::AgentError,
)
    ensures
        provisioned(lookup, Ok(wallet), Ok(canister_id), Err(cause)) == Err::<
            ic_agent::export::Principal,
            Error,
        >(Error::InstallFailed { canister_id, cause }),
{
}

} // verus!
