//! Building an agent for an account and binding it to a replica.
//!
//! An agent signs with the account's identity and talks to one endpoint. It
//! is built here, but it is not ready until it holds the replica's root key.
//! Fetching that key is a network call, which the caller makes on the agent
//! of a [`Bootstrap`]; [`Bootstrap::root_key_fetched`] then takes the outcome
//! and gives the agent to use, or the failure. The agent in a `Bootstrap` is
//! open to the caller, who needs it for the fetch: nothing here keeps it from
//! being used before the key is there.

use crate::error::Error;
use crate::identity::{get_identity, resolve_identity, resolves, PemLoad};
use vstd::prelude::*;
use vstd::string::StringExecFns;

verus! {

/// `ic_agent::Agent`: the client that signs and sends requests. Carried
/// through unread.
#[verifier::external_type_specification]
#[verifier::external_body]
pub struct ExAgent(ic_agent::Agent);

/// `ic_agent::agent::http_transport::ReqwestTransport`: the HTTP settings of
/// an agent, with the endpoint it will talk to. Carried through unread.
#[verifier::external_type_specification]
#[verifier::external_body]
pub struct ExReqwestTransport(ic_agent::agent::http_transport::ReqwestTransport);

/// `reqwest::Client`, as `ic_agent` exports it: the HTTP client that a
/// transport sends with. Carried through unread.
#[verifier::external_type_specification]
#[verifier::external_body]
pub struct ExClient(ic_agent::export::reqwest::Client);

/// An agent that was built but does not hold the replica's root key yet.
pub struct Bootstrap {
    /// The endpoint that the agent was bound to, as it was handed over.
    pub endpoint: String,
    /// The agent. Fetch the root key on it, then report with
    /// [`Bootstrap::root_key_fetched`].
    pub agent: ic_agent::Agent,
}

/// The endpoint of a replica run locally for development.
pub open spec fn default_endpoint() -> Seq<char> {
    "http://localhost:8000"@
}

/// The endpoint to bind to: the caller's, where one is given, letter for
/// letter; the local one otherwise.
pub open spec fn chosen_endpoint(url: Option<&str>) -> Seq<char> {
    match url {
        Some(u) => u@,
        None => default_endpoint(),
    }
}

/// The error with which `ic_agent`'s HTTP transport refuses `url` as an
/// endpoint, or `None` where it takes it.
pub uninterp spec fn endpoint_refusal(url: Seq<char>) -> Option<ic_agent::AgentError>;

/// Whether `ic_agent`'s HTTP transport takes `url` as an endpoint.
pub open spec fn endpoint_accepted(url: Seq<char>) -> bool {
    endpoint_refusal(url) is None
}

/// Whether `result` is what binding an agent to `url` gives once there is an
/// HTTP client: a bootstrap for the chosen endpoint where the transport takes
/// it, the transport's refusal where it does not.
pub open spec fn connects(url: Option<&str>, result: Result<Bootstrap, Error>) -> bool {
    match endpoint_refusal(chosen_endpoint(url)) {
        None => result matches Ok(bootstrap) && bootstrap.endpoint@ == chosen_endpoint(url),
        Some(refusal) => result == Err::<Bootstrap, Error>(Error::Agent(refusal)),
    }
}

/// Whether `result` is what binding an agent to `url` gives when setting up
/// the HTTP client came to `client`: the failure to set it up where there is
/// one, whatever `url` is, and else what `connects` says.
pub open spec fn connects_with(
    client: Result<ic_agent::export::reqwest::Client, ic_agent::AgentError>,
    url: Option<&str>,
    result: Result<Bootstrap, Error>,
) -> bool {
    match client {
        Err(cause) => result == Err::<Bootstrap, Error>(Error::Agent(cause)),
        Ok(_) => connects(url, result),
    }
}

/// Whether `result` is what follows the resolving of an identity that came to
/// `identity`: its failure where it failed, with nothing built, and else what
/// binding to `url` gives for the HTTP client that this machine provides or
/// fails to provide.
pub open spec fn binds(
    identity: Result<ic_agent::identity::BasicIdentity, Error>,
    url: Option<&str>,
    result: Result<Bootstrap, Error>,
) -> bool {
    match identity {
        Err(e) => result == Err::<Bootstrap, Error>(e),
        Ok(_) => exists|client: Result<ic_agent::export::reqwest::Client, ic_agent::AgentError>|
            #![trigger connects_with(client, url, result)]
            connects_with(client, url, result),
    }
}

/// Whether `result` is what bootstrapping `account` gives when the home
/// directory is `home` and the key file is read by `load`.
pub open spec fn bootstraps<F: FnOnce(String) -> PemLoad>(
    home: Option<Seq<char>>,
    account: Seq<char>,
    url: Option<&str>,
    load: F,
    result: Result<Bootstrap, Error>,
) -> bool {
    exists|identity: Result<ic_agent::identity::BasicIdentity, Error>|
        #![trigger resolves(home, account, load, identity)]
        resolves(home, account, load, identity) && binds(identity, url, result)
}

/// Picks the endpoint to bind to.
pub fn endpoint_or_default<'a>(url: Option<&'a str>) -> (endpoint: &'a str)
    ensures
        endpoint@ == chosen_endpoint(url),
{
    match url {
        Some(u) => u,
        None => "http://localhost:8000",
    }
}

/// `reqwest::Client::builder`, `tls_backend_rustls`, `timeout` and `build`:
/// an HTTP client that speaks TLS through rustls and gives a request six
/// minutes. Whether one can be had depends on this machine (on its store of
/// certificates, for one), so nothing is claimed of the result. A failure
/// comes back as the agent's transport error, holding the client's own.
#[verifier::external_body]
fn build_client() -> (client: Result<ic_agent::export::reqwest::Client, ic_agent::AgentError>) {
    ic_agent::export::reqwest::Client::builder()
        .tls_backend_rustls()
        .timeout(std::time::Duration::from_secs(360))
        .build()
        .map_err(
            |e|
                ic_agent::AgentError::TransportError(
                    ic_agent::agent_error::TransportError::Reqwest(e),
                ),
        )
}

/// `ReqwestTransport::create_with_client`: HTTP settings that send with
/// `client` to the endpoint `url`. It parses `url` and fails where that
/// fails, with the parser's error; whether it does, and with which error,
/// depends on the text of `url` alone.
#[verifier::external_body]
#[allow(deprecated)]
fn create_transport(url: &str, client: ic_agent::export::reqwest::Client) -> (transport: Result<
    ic_agent::agent::http_transport::ReqwestTransport,
    ic_agent::AgentError,
>)
    ensures
        transport is Ok ==> endpoint_refusal(url@) is None,
        transport matches Err(refusal) ==> endpoint_refusal(url@) == Some(refusal),
{
    ic_agent::agent::http_transport::ReqwestTransport::create_with_client(url, client)
}

/// `Agent::builder`, `with_transport`, `with_identity` and `build`: an agent
/// that sends through `transport` and signs with `identity`. With both set,
/// `build` has no failing path.
#[verifier::external_body]
#[allow(deprecated)]
fn build_agent(
    transport: ic_agent::agent::http_transport::ReqwestTransport,
    identity: ic_agent::identity::BasicIdentity,
) -> (agent: Result<ic_agent::Agent, ic_agent::AgentError>)
    ensures
        agent is Ok,
{
    ic_agent::Agent::builder().with_transport(transport).with_identity(identity).build()
}

/// Builds an agent that sends with `client`, signs with `identity` and is
/// bound to `url`, or to the local endpoint where `url` is `None`.
///
/// `client` is what setting up the HTTP client came to. Where that failed,
/// its failure is the result and `url` is not looked at. Otherwise the
/// endpoint is handed to the transport unchanged; the transport is made
/// first, the agent from it, and the transport's refusal is passed on.
pub fn connect_with(
    client: Result<ic_agent::export::reqwest::Client, ic_agent::AgentError>,
    identity: ic_agent::identity::BasicIdentity,
    url: Option<&str>,
) -> (result: Result<Bootstrap, Error>)
    ensures
        connects_with(client, url, result),
{
    let client = match client {
        Ok(client) => client,
        Err(cause) => {
            return Err(Error::Agent(cause));
        },
    };
    let endpoint = endpoint_or_default(url);
    let transport = match create_transport(endpoint, client) {
        Ok(transport) => transport,
        Err(refusal) => {
            return Err(Error::Agent(refusal));
        },
    };
    match build_agent(transport, identity) {
        Ok(agent) => Ok(Bootstrap { endpoint: String::from_str(endpoint), agent }),
        Err(cause) => Err(Error::Agent(cause)),
    }
}

/// Builds an agent that signs with `identity` and is bound to `url`, or to
/// the local endpoint where `url` is `None`, with an HTTP client set up on
/// this machine.
///
/// Whether this machine provides a client is not known beforehand, so the
/// result is stated for whichever it was: it is what `connect_with` gives
/// for it.
pub fn connect(identity: ic_agent::identity::BasicIdentity, url: Option<&str>) -> (result: Result<
    Bootstrap,
    Error,
>)
    ensures
        binds(Ok(identity), url, result),
{
    let client = build_client();
    let result = connect_with(client, identity, url);
    assert(connects_with(client, url, result));
    result
}

/// Goes on from the resolving of an identity: where it failed, that failure
/// is the result and nothing is built; where it gave an identity, an agent
/// that signs with it is bound to `url`.
pub fn connect_resolved(
    identity: Result<ic_agent::identity::BasicIdentity, Error>,
    url: Option<&str>,
) -> (result: Result<Bootstrap, Error>)
    ensures
        binds(identity, url, result),
{
    match identity {
        Ok(identity) => connect(identity, url),
        Err(e) => Err(e),
    }
}

/// Bootstraps an agent for `account_name`, for a user whose home directory is
/// `home`: resolves the identity, reading the key file with `load`, and binds
/// an agent that signs with it to `url`.
///
/// Where the identity cannot be resolved, that error is the result and no
/// agent is built.
pub fn bootstrap_agent<F: FnOnce(String) -> PemLoad>(
    home: Option<String>,
    account_name: &str,
    url: Option<&str>,
    load: F,
) -> (result: Result<Bootstrap, Error>)
    requires
        forall|path: String| call_requires(load, (path,)),
    ensures
        home is None ==> result == Err::<Bootstrap, Error>(Error::MissingConfig),
        bootstraps(crate::identity::home_text(home), account_name@, url, load, result),
{
    let ghost home_seen = crate::identity::home_text(home);
    let identity = resolve_identity(home, account_name, load);
    assert(resolves(home_seen, account_name@, load, identity));
    connect_resolved(identity, url)
}

/// Bootstraps an agent for `account_name`, for the current user.
///
/// The result is what `bootstrap_agent` gives for the home directory that the
/// environment names, whichever that is. A home directory whose path is not
/// valid Unicode is not used as it is: see `get_identity`.
pub fn get_agent<F: FnOnce(String) -> PemLoad>(
    account_name: &str,
    url: Option<&str>,
    load: F,
) -> (result: Result<Bootstrap, Error>)
    requires
        forall|path: String| call_requires(load, (path,)),
    ensures
        exists|home: Option<Seq<char>>| bootstraps(home, account_name@, url, load, result),
{
    let identity = get_identity(account_name, load);
    let ghost home_seen = choose|home: Option<Seq<char>>|
        resolves(home, account_name@, load, identity);
    let result = connect_resolved(identity, url);
    assert(bootstraps(home_seen, account_name@, url, load, result));
    result
}

impl Bootstrap {
    /// Ends the bootstrap with the outcome of fetching the root key on
    /// `self.agent`: the agent where the key was fetched, the failure where
    /// it was not. Nothing is retried.
    pub fn root_key_fetched(self, fetched: Result<(), ic_agent::AgentError>) -> (result: Result<
        ic_agent::Agent,
        Error,
    >)
        ensures
            result == (match fetched {
                Ok(_) => Ok::<ic_agent::Agent, Error>(self.agent),
                Err(cause) => Err::<ic_agent::Agent, Error>(Error::Agent(cause)),
            }),
    {
        match fetched {
            Ok(_) => Ok(self.agent),
            Err(cause) => Err(Error::Agent(cause)),
        }
    }
}

} // verus!
