use canister_bootstrap::{create_canister, Error};
use ic_agent::export::Principal;
use ic_agent::AgentError;

const WASM_HEADER: [u8; 4] = [0x00, 0x61, 0x73, 0x6d];

struct Replica {
    wallet_reply: Option<Result<Principal, AgentError>>,
    create_reply: Option<Result<Principal, AgentError>>,
    install_reply: Option<Result<(), AgentError>>,
    log: Vec<String>,
}

impl Replica {
    fn new(create: Result<Principal, AgentError>, install: Result<(), AgentError>) -> Replica {
        Replica {
            wallet_reply: Some(Ok(some_wallet())),
            create_reply: Some(create),
            install_reply: Some(install),
            log: Vec::new(),
        }
    }

    fn without_wallet(cause: AgentError) -> Replica {
        Replica {
            wallet_reply: Some(Err(cause)),
            create_reply: Some(Ok(some_canister())),
            install_reply: Some(Ok(())),
            log: Vec::new(),
        }
    }

    fn wallet_of(&mut self, account: &str) -> Result<Principal, AgentError> {
        self.log.push(format!("wallet {}", account));
        self.wallet_reply.take().expect("the wallet is looked up once")
    }

    fn create(
        &mut self,
        wallet: Principal,
        cycles: u64,
        controller: Option<Principal>,
    ) -> Result<Principal, AgentError> {
        self.log.push(format!("create {} {} {:?}", wallet, cycles, controller));
        self.create_reply.take().expect("create is asked once")
    }

    fn install(
        &mut self,
        wallet: Principal,
        id: Principal,
        code: &[u8],
        arg: &[u8],
    ) -> Result<(), AgentError> {
        self.log.push(format!("install {} {} {:?} {:?}", wallet, id, code, arg));
        self.install_reply.take().expect("install is asked once")
    }
}

fn provision(replica: &mut Replica, cycles: u64) -> Result<Principal, Error> {
    let lookup = create_canister("alice", WASM_HEADER.to_vec(), Vec::new(), cycles);
    let reply = replica.wallet_of(&lookup.account);
    let call = lookup.wallet_resolved(reply)?;
    let reply = replica.create(call.wallet, call.cycles, call.controller);
    let install = call.created(reply)?;
    let reply =
        replica.install(install.wallet, install.canister_id, &install.bytecode, &install.arg);
    install.installed(reply)
}

fn some_wallet() -> Principal {
    Principal::from_slice(&[0, 0, 0, 0, 0, 0x10, 0, 1, 1, 1])
}

fn some_canister() -> Principal {
    Principal::from_slice(&[0, 0, 0, 0, 0, 0x10, 0, 7, 1, 1])
}

#[test]
fn lookup_holds_the_request() {
    let lookup = create_canister("alice", WASM_HEADER.to_vec(), vec![1, 2], 1_000_000);
    assert_eq!(lookup.account, "alice");
    assert_eq!(lookup.cycles, 1_000_000);
    assert_eq!(lookup.bytecode, vec![0x00, 0x61, 0x73, 0x6d]);
    assert_eq!(lookup.arg, vec![1, 2]);
}

#[test]
fn create_call_goes_to_the_wallet_that_was_found() {
    let lookup = create_canister("alice", WASM_HEADER.to_vec(), vec![1, 2], 77);
    let call = lookup.wallet_resolved(Ok(some_wallet())).ok().expect("a wallet gives a create call");
    assert_eq!(call.wallet, some_wallet());
    assert_eq!(call.cycles, 77);
    assert_eq!(call.controller, None);
    assert_eq!(call.bytecode, vec![0x00, 0x61, 0x73, 0x6d]);
    assert_eq!(call.arg, vec![1, 2]);
}

#[test]
fn missing_wallet_sends_nothing() {
    let mut replica = Replica::without_wallet(AgentError::WalletError("none".to_string()));
    match provision(&mut replica, 5) {
        Err(Error::Agent(AgentError::WalletError(text))) => assert_eq!(text, "none"),
        _ => panic!("a missing wallet must end the workflow"),
    }
    assert_eq!(replica.log, vec!["wallet alice".to_string()]);
    assert!(replica.create_reply.is_some());
    assert!(replica.install_reply.is_some());
}

#[test]
fn provisions_with_one_create_then_one_install() {
    let id = some_canister();
    let mut replica = Replica::new(Ok(id), Ok(()));
    let result = provision(&mut replica, 1_000_000);
    assert_eq!(result.ok(), Some(id));
    assert_eq!(
        replica.log,
        vec![
            "wallet alice".to_string(),
            format!("create {} 1000000 None", some_wallet()),
            format!("install {} {} [0, 97, 115, 109] []", some_wallet(), id),
        ]
    );
}

#[test]
fn returned_identifier_is_the_created_one() {
    for bytes in [vec![], vec![4u8], vec![1, 2, 3, 4, 5, 6, 7, 8, 9, 10]] {
        let id = Principal::from_slice(&bytes);
        let mut replica = Replica::new(Ok(id), Ok(()));
        assert_eq!(provision(&mut replica, 1).ok(), Some(id));
    }
}

#[test]
fn failed_create_attempts_no_install() {
    let mut replica = Replica::new(Err(AgentError::TimeoutWaitingForResponse()), Ok(()));
    let result = provision(&mut replica, 5);
    assert!(matches!(
        result,
        Err(Error::Agent(AgentError::TimeoutWaitingForResponse()))
    ));
    assert_eq!(
        replica.log,
        vec!["wallet alice".to_string(), format!("create {} 5 None", some_wallet())]
    );
    assert!(replica.install_reply.is_some());
}

#[test]
fn failed_install_reports_the_created_canister() {
    let id = some_canister();
    let mut replica = Replica::new(Ok(id), Err(AgentError::InvalidReplicaUrl("x".to_string())));
    match provision(&mut replica, 5) {
        Err(Error::InstallFailed { canister_id, cause: AgentError::InvalidReplicaUrl(url) }) => {
            assert_eq!(canister_id, id);
            assert_eq!(url, "x");
        }
        _ => panic!("a failed install must fail the workflow"),
    }
    assert_eq!(replica.log.len(), 3);
}

#[test]
fn install_call_carries_code_and_argument() {
    let id = some_canister();
    let lookup = create_canister("bob", vec![9, 8, 7], vec![6, 5], 0);
    let call = lookup.wallet_resolved(Ok(some_wallet())).ok().expect("a wallet gives a create call");
    let install = call.created(Ok(id)).ok().expect("a created canister gives an install call");
    assert_eq!(install.wallet, some_wallet());
    assert_eq!(install.canister_id, id);
    assert_eq!(install.bytecode, vec![9, 8, 7]);
    assert_eq!(install.arg, vec![6, 5]);
    assert_eq!(install.installed(Ok(())).ok(), Some(id));
}

#[test]
fn zero_and_maximal_cycles_pass_through() {
    assert_eq!(create_canister("a", vec![], vec![], 0).cycles, 0);
    assert_eq!(create_canister("a", vec![], vec![], u64::MAX).cycles, u64::MAX);
}
