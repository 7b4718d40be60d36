//! Finding and accepting the signing identity of an account.
//!
//! An account's key is kept by the `dfx` tool as a PEM file under the user's
//! home directory. This module computes where that file is, hands the path to
//! a reader that the caller supplies, and turns what the reader reports into
//! an identity or an error.

use crate::error::Error;
use vstd::prelude::*;
use vstd::string::StringExecFns;

verus! {

/// `ic_agent::identity::BasicIdentity`: an Ed25519 key pair that signs
/// requests. Carried through unread.
#[verifier::external_type_specification]
#[verifier::external_body]
pub struct ExBasicIdentity(ic_agent::identity::BasicIdentity);

/// What reading the key file at a path came to.
pub enum PemLoad {
    /// The file held a usable key.
    Loaded(ic_agent::identity::BasicIdentity),
    /// There is no file at the path.
    NotFound,
    /// The file is there but could not be read or is no valid key.
    Failed(ic_agent::identity::PemError),
}

/// The path of the key file of `account` for a user whose home directory is
/// `home`: `<home>/.config/dfx/identity/<account>/identity.pem`. Both parts
/// are taken as they are; nothing is escaped, trimmed or resolved.
pub open spec fn identity_path_spec(home: Seq<char>, account: Seq<char>) -> Seq<char> {
    home + "/.config/dfx/identity/"@ + account + "/identity.pem"@
}

/// A home directory, where there is one, as the text of its path.
pub open spec fn home_text(home: Option<String>) -> Option<Seq<char>> {
    match home {
        Some(h) => Some(h@),
        None => None,
    }
}

/// What the outcome of reading the key file at `path` means for the caller.
pub open spec fn loaded_identity(path: String, load: PemLoad) -> Result<
    ic_agent::identity::BasicIdentity,
    Error,
> {
    match load {
        PemLoad::Loaded(identity) => Ok(identity),
        PemLoad::NotFound => Err(Error::CertNotFound(path)),
        PemLoad::Failed(cause) => Err(Error::Pem(cause)),
    }
}

/// Whether `result` is what resolving `account` gives when the home directory
/// is `home` and the key file is read by `load`.
pub open spec fn resolves<F: FnOnce(String) -> PemLoad>(
    home: Option<Seq<char>>,
    account: Seq<char>,
    load: F,
    result: Result<ic_agent::identity::BasicIdentity, Error>,
) -> bool {
    match home {
        None => result == Err::<ic_agent::identity::BasicIdentity, Error>(Error::MissingConfig),
        Some(h) => exists|path: String, outcome: PemLoad|
            #![trigger call_ensures(load, (path,), outcome)]
            path@ == identity_path_spec(h, account) && call_ensures(load, (path,), outcome)
                && result == loaded_identity(path, outcome),
    }
}

/// Whether a failure to read a key file says that there is no such file: it
/// is `PemError::Io` and holds an `std::io::Error` of the kind `NotFound`.
pub uninterp spec fn missing_file(cause: ic_agent::identity::PemError) -> bool;

/// Tells the one variant of `ic_agent::identity::PemError` that stands for a
/// missing file from the others: `Io`, holding an `std::io::Error` whose kind
/// is `NotFound`. The answer lies inside the error, which this library does
/// not read; it depends on the error alone, which is all the contract says.
#[verifier::external_body]
fn is_missing_file(cause: &ic_agent::identity::PemError) -> (missing: bool)
    ensures
        missing == missing_file(*cause),
{
    matches!(cause, ic_agent::identity::PemError::Io(e) if e.kind() == std::io::ErrorKind::NotFound)
}

impl PemLoad {
    /// What a read of a key file that returned `read` came to.
    pub open spec fn sorted(
        read: Result<ic_agent::identity::BasicIdentity, ic_agent::identity::PemError>,
    ) -> PemLoad {
        match read {
            Ok(identity) => PemLoad::Loaded(identity),
            Err(cause) => if missing_file(cause) {
                PemLoad::NotFound
            } else {
                PemLoad::Failed(cause)
            },
        }
    }

    /// Sorts what reading a key file returned: a key is `Loaded`; a failure
    /// is `NotFound` where it says that there is no such file, and `Failed`
    /// with the failure itself otherwise.
    pub fn from_read(
        read: Result<ic_agent::identity::BasicIdentity, ic_agent::identity::PemError>,
    ) -> (load: PemLoad)
        ensures
            load == PemLoad::sorted(read),
    {
        match read {
            Ok(identity) => PemLoad::Loaded(identity),
            Err(cause) => {
                if is_missing_file(&cause) {
                    PemLoad::NotFound
                } else {
                    PemLoad::Failed(cause)
                }
            },
        }
    }
}

/// Computes the path of the key file of `account_name` under `home`.
pub fn identity_path(home: &str, account_name: &str) -> (path: String)
    ensures
        path@ == identity_path_spec(home@, account_name@),
{
    let mut path = String::from_str(home);
    path.append("/.config/dfx/identity/");
    path.append(account_name);
    path.append("/identity.pem");
    path
}

/// Turns the outcome of reading the key file at `path` into the identity or
/// the error that the caller gets.
pub fn accept_load(path: String, load: PemLoad) -> (result: Result<
    ic_agent::identity::BasicIdentity,
    Error,
>)
    ensures
        result == loaded_identity(path, load),
{
    match load {
        PemLoad::Loaded(identity) => Ok(identity),
        PemLoad::NotFound => Err(Error::CertNotFound(path)),
        PemLoad::Failed(cause) => Err(Error::Pem(cause)),
    }
}

/// Resolves the identity of `account_name` for a user whose home directory
/// is `home`, reading the key file with `load`.
///
/// Without a home directory the result is `MissingConfig` and nothing is
/// read. Otherwise `load` is called once, with the path of the key file, and
/// its outcome decides: a key gives the identity, a missing file gives
/// `CertNotFound` with that same path, any other failure is passed on.
pub fn resolve_identity<F: FnOnce(String) -> PemLoad>(
    home: Option<String>,
    account_name: &str,
    load: F,
) -> (result: Result<ic_agent::identity::BasicIdentity, Error>)
    requires
        forall|path: String| call_requires(load, (path,)),
    ensures
        home is None ==> result == Err::<ic_agent::identity::BasicIdentity, Error>(
            Error::MissingConfig,
        ),
        home matches Some(h) ==> ((forall|path: String, outcome: PemLoad|
            call_ensures(load, (path,), outcome) ==> outcome is NotFound) ==> (result matches Err(
            Error::CertNotFound(missing),
        ) && missing@ == identity_path_spec(h@, account_name@))),
        home is Some ==> ((forall|path: String, outcome: PemLoad|
            call_ensures(load, (path,), outcome) ==> outcome is Loaded) ==> result is Ok),
        resolves(home_text(home), account_name@, load, result),
{
    match home {
        None => Err(Error::MissingConfig),
        Some(h) => {
            let path = identity_path(h.as_str(), account_name);
            let outcome = load(path.clone());
            accept_load(path, outcome)
        },
    }
}

/// `dirs::home_dir`: the home directory of the current user, as the
/// environment and the user database give it, or `None` where neither names
/// one. Nothing is claimed of the result. A path that is not valid Unicode is
/// rendered with replacement characters.
#[verifier::external_body]
fn home_dir() -> (home: Option<String>) {
    dirs::home_dir().map(|dir| dir.to_string_lossy().into_owned())
}

/// Resolves the identity of `account_name` for the current user, reading the
/// key file with `load`.
///
/// Which home directory the environment names is not known beforehand, so the
/// result is stated for whichever it was: it is what `resolve_identity` gives
/// for that directory.
///
/// The path of the home directory is taken as text. Where it is not valid
/// Unicode, each offending part is replaced by U+FFFD, so the key file is
/// looked for under another path than the real one, and a `CertNotFound`
/// names the path that was tried.
pub fn get_identity<F: FnOnce(String) -> PemLoad>(account_name: &str, load: F) -> (result: Result<
    ic_agent::identity::BasicIdentity,
    Error,
>)
    requires
        forall|path: String| call_requires(load, (path,)),
    ensures
        exists|home: Option<Seq<char>>| resolves(home, account_name@, load, result),
{
    let home = home_dir();
    let ghost seen = home_text(home);
    let result = resolve_identity(home, account_name, load);
    assert(resolves(seen, account_name@, load, result));
    result
}

} // verus!
