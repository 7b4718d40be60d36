//! Identity resolution, agent bootstrap and canister provisioning for a
//! replica of the Internet Computer, as decisions with proved contracts.

pub mod agent;
pub mod canister;
pub mod error;
pub mod identity;
pub mod waiter;

pub use agent::{
    bootstrap_agent, connect, connect_resolved, connect_with, endpoint_or_default, get_agent,
    Bootstrap,
};
pub use canister::{create_canister, CreateCall, InstallCall, WalletLookup};
pub use error::Error;
pub use identity::{accept_load, get_identity, identity_path, resolve_identity, PemLoad};
pub use waiter::{default_retry_policy, get_waiter, RetryPolicy};
