//! What the account store takes from outside this crate: the user's
//! configuration directory, file system paths, the operating system's keyring,
//! and the errors of reading and parsing the configuration file.
//!
//! Nothing declared here is proved. Each item says what is taken on trust.

use vstd::prelude::*;

verus! {

/// `std::io::Error`, carried as it comes.
#[verifier::external_type_specification]
#[verifier::external_body]
pub struct ExIoError(std::io::Error);

/// `serde_json::Error`, carried as it comes.
#[verifier::external_type_specification]
#[verifier::external_body]
pub struct ExJsonError(serde_json::Error);

/// `std::path::PathBuf`, carried as it comes.
#[verifier::external_type_specification]
#[verifier::external_body]
pub struct ExPathBuf(std::path::PathBuf);

/// `keyring::Entry`: the handle of one secret in the keyring.
#[verifier::external_type_specification]
#[verifier::external_body]
pub struct ExEntry(keyring::Entry);

/// `keyring::Error`, carried as it comes.
#[verifier::external_type_specification]
#[verifier::external_body]
pub struct ExKeyringError(keyring::Error);

/// `dirs::config_dir`: the user's configuration directory, read from the
/// environment. Nothing is claimed of the answer.
pub assume_specification[ dirs::config_dir ]() -> (dir: Option<std::path::PathBuf>);

/// `keyring::Entry::new`: a handle for the secret of `user` under `service`.
/// Whether the keyring accepts the two names depends on the platform, so
/// nothing is claimed of the answer. The call panics only where another
/// thread panicked while it replaced the keyring's default store, which this
/// crate never does.
pub assume_specification[ keyring::Entry::new ](service: &str, user: &str) -> (entry:
    keyring::Result<keyring::Entry>);

/// `keyring::Entry::get_password`: the secret behind the handle, as the
/// keyring holds it at the time of the call. Nothing is claimed of the answer.
pub assume_specification[ keyring::Entry::get_password ](entry: &keyring::Entry) -> (secret:
    keyring::Result<String>);

/// `keyring::Entry::set_password`: asks the keyring to hold `password` behind
/// the handle. Nothing is claimed of the answer.
pub assume_specification[ keyring::Entry::set_password ](
    entry: &keyring::Entry,
    password: &str,
) -> (done: keyring::Result<()>);

/// `keyring::Entry::delete_credential`: asks the keyring to drop the secret
/// behind the handle. Nothing is claimed of the answer.
pub assume_specification[ keyring::Entry::delete_credential ](entry: &keyring::Entry) -> (done:
    keyring::Result<()>);

/// The path of `name` below `base`, as `Path::join` makes it. It reads
/// neither disk nor environment; how it is written is the platform's affair,
/// and nothing is said of that.
pub uninterp spec fn child_of(base: std::path::PathBuf, name: Seq<char>) -> std::path::PathBuf;

/// `Path::join` on a `PathBuf`: the path of `name` below `base`, which is a
/// function of the two alone.
#[verifier::external_body]
pub(crate) fn child_path(base: &std::path::PathBuf, name: &str) -> (path: std::path::PathBuf)
    ensures
        path == child_of(*base, name@),
{
    base.join(name)
}

} // verus!
