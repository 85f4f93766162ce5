//! The account store: the list of accounts in the configuration file, with
//! each account's secret in the operating system's keyring.
//!
//! The store works on the list in memory. Its caller reads the file into it
//! before an operation and writes the list back after one that changed it.

use vstd::prelude::*;
use vstd::string::*;
use vstd::std_specs::convert::FromSpecImpl;
use std::path::PathBuf;
pub use crate::storage::accounts::Account;
use crate::storage::accounts::{
    account_of, entry_of, find_account, find_by_id, unique_ids, upsert, with_secrets, without_id,
    AccountEntryView, Config,
};
use crate::storage::platform::{child_of, child_path};

verus! {

/// The name of this application's directory below the user's configuration
/// directory, and the service under which its secrets are filed in the
/// keyring.
pub const APP_NAME: &'static str = "r2-explorer";

/// The name of the configuration file in the application's directory.
pub const CONFIG_FILE: &'static str = "config.json";

/// Why the account store failed.
#[derive(Debug)]
pub enum ConfigError {
    /// The configuration file or its directory could not be read or written.
    Io(std::io::Error),
    /// The configuration file does not hold a list of accounts.
    Serialization(serde_json::Error),
    /// The keyring refused; the text is the keyring's.
    Keyring(String),
    /// The user has no configuration directory.
    ConfigDir,
}

impl From<std::io::Error> for ConfigError {
    fn from(error: std::io::Error) -> (r: Self) {
        ConfigError::Io(error)
    }
}

impl FromSpecImpl<std::io::Error> for ConfigError {
    open spec fn obeys_from_spec() -> bool {
        true
    }

    open spec fn from_spec(error: std::io::Error) -> Self {
        ConfigError::Io(error)
    }
}

impl From<serde_json::Error> for ConfigError {
    fn from(error: serde_json::Error) -> (r: Self) {
        ConfigError::Serialization(error)
    }
}

impl FromSpecImpl<serde_json::Error> for ConfigError {
    open spec fn obeys_from_spec() -> bool {
        true
    }

    open spec fn from_spec(error: serde_json::Error) -> Self {
        ConfigError::Serialization(error)
    }
}

impl ConfigError {
    /// Whether `text` is what the user is shown of this error: a label for
    /// the kind, then, for all kinds but the last, the detail. The detail of
    /// an error of reading or parsing is the text that the error displays.
    pub open spec fn shown_as(&self, text: Seq<char>) -> bool {
        match self {
            ConfigError::Io(error) => exists|detail: String|
                to_string_from_display_ensures::<std::io::Error>(error, detail) && text
                    == "IO 错误: "@ + detail@,
            ConfigError::Serialization(error) => exists|detail: String|
                to_string_from_display_ensures::<serde_json::Error>(error, detail) && text
                    == "序列化错误: "@ + detail@,
            ConfigError::Keyring(detail) => text == "密钥存储错误: "@ + detail@,
            ConfigError::ConfigDir => text == "配置目录错误"@,
        }
    }

    /// Whether this is what a refusal of the keyring becomes: a `Keyring`
    /// error whose text is what some error of the keyring displays.
    pub open spec fn is_keyring_refusal(&self) -> bool {
        &&& self is Keyring
        &&& exists|refusal: keyring::Error| #[trigger]
            to_string_from_display_ensures::<keyring::Error>(&refusal, self->Keyring_0)
    }

    /// The text shown to the user.
    pub fn message(&self) -> (text: String)
        ensures
            self.shown_as(text@),
    {
        match self {
            ConfigError::Io(error) => {
                let detail = error.to_string();
                String::from_str("IO 错误: ").concat(detail.as_str())
            },
            ConfigError::Serialization(error) => {
                let detail = error.to_string();
                String::from_str("序列化错误: ").concat(detail.as_str())
            },
            ConfigError::Keyring(detail) => String::from_str("密钥存储错误: ").concat(
                detail.as_str(),
            ),
            ConfigError::ConfigDir => String::from_str("配置目录错误"),
        }
    }
}

/// The error that a refusal of the keyring becomes: `Keyring`, with the text
/// that the refusal displays.
fn keyring_refusal(refusal: keyring::Error) -> (e: ConfigError)
    ensures
        e.is_keyring_refusal(),
{
    let e = ConfigError::Keyring(refusal.to_string());
    assert(to_string_from_display_ensures::<keyring::Error>(&refusal, e->Keyring_0));
    e
}

/// The account store of one user.
pub struct ConfigStore {
    config_dir: PathBuf,
    config_path: PathBuf,
    config: Config,
}

impl View for ConfigStore {
    type V = Seq<AccountEntryView>;

    /// The list of accounts, in the order of the configuration file.
    closed spec fn view(&self) -> Seq<AccountEntryView> {
        self.config@
    }
}

impl ConfigStore {
    /// The directory in which the configuration file lies.
    pub closed spec fn dir(&self) -> PathBuf {
        self.config_dir
    }

    /// The path of the configuration file.
    pub closed spec fn path(&self) -> PathBuf {
        self.config_path
    }

    /// An empty store for the user whose configuration directory is `base`:
    /// its directory is `APP_NAME` below `base`, and its file `CONFIG_FILE`
    /// in that directory. Without a configuration directory there is no
    /// store.
    pub fn with_config_dir(base: Option<PathBuf>) -> (r: Result<ConfigStore, ConfigError>)
        ensures
            match r {
                Ok(store) => {
                    &&& base is Some
                    &&& store@ == Seq::<AccountEntryView>::empty()
                    &&& store.dir() == child_of(base->0, APP_NAME@)
                    &&& store.path() == child_of(store.dir(), CONFIG_FILE@)
                },
                Err(e) => base is None && e is ConfigDir,
            },
    {
        match base {
            None => Err(ConfigError::ConfigDir),
            Some(base) => {
                let config_dir = child_path(&base, APP_NAME);
                let config_path = child_path(&config_dir, CONFIG_FILE);
                Ok(ConfigStore { config_dir, config_path, config: Config::default() })
            },
        }
    }

    /// An empty store for the current user: its directory is `APP_NAME`
    /// below the configuration directory that the environment names, and its
    /// file `CONFIG_FILE` in that directory. It fails with `ConfigDir`, and
    /// in no other way, where the environment names no configuration
    /// directory.
    pub fn new() -> (r: Result<ConfigStore, ConfigError>)
        ensures
            match r {
                Ok(store) => {
                    &&& store@ == Seq::<AccountEntryView>::empty()
                    &&& exists|base: PathBuf| store.dir() == #[trigger] child_of(base, APP_NAME@)
                    &&& store.path() == child_of(store.dir(), CONFIG_FILE@)
                },
                Err(e) => e is ConfigDir,
            },
    {
        ConfigStore::with_config_dir(dirs::config_dir())
    }

    /// The directory in which the configuration file lies. The caller
    /// creates it before the file is first written.
    pub fn config_dir(&self) -> (dir: &PathBuf)
        ensures
            *dir == self.dir(),
    {
        &self.config_dir
    }

    /// The path of the configuration file.
    pub fn config_path(&self) -> (path: &PathBuf)
        ensures
            *path == self.path(),
    {
        &self.config_path
    }

    /// The list of accounts as it stands, to be written to the
    /// configuration file.
    pub fn config(&self) -> (config: &Config)
        ensures
            config@ == self@,
    {
        &self.config
    }

    /// Takes over what the configuration file holds. A missing file
    /// (`None`) is an empty list.
    pub fn load_config(&mut self, stored: Option<Config>)
        ensures
            final(self)@ == match stored {
                Some(config) => config@,
                None => Seq::<AccountEntryView>::empty(),
            },
            final(self).dir() == old(self).dir(),
            final(self).path() == old(self).path(),
    {
        self.config = match stored {
            Some(config) => config,
            None => Config::default(),
        };
    }

    /// Asks the keyring for the secret of the account `id`. Every failure
    /// is a `Keyring` error with the keyring's text.
    fn get_secret(&self, id: &str) -> (r: Result<String, ConfigError>)
        ensures
            r is Err ==> r->Err_0.is_keyring_refusal(),
    {
        match keyring::Entry::new(APP_NAME, id) {
            Err(e) => Err(keyring_refusal(e)),
            Ok(entry) => match entry.get_password() {
                Err(e) => Err(keyring_refusal(e)),
                Ok(secret) => Ok(secret),
            },
        }
    }

    /// Asks the keyring to hold `secret` for the account `id`. Every
    /// failure is a `Keyring` error with the keyring's text.
    fn set_secret(&self, id: &str, secret: &str) -> (r: Result<(), ConfigError>)
        ensures
            r is Err ==> r->Err_0.is_keyring_refusal(),
    {
        match keyring::Entry::new(APP_NAME, id) {
            Err(e) => Err(keyring_refusal(e)),
            Ok(entry) => match entry.set_password(secret) {
                Err(e) => Err(keyring_refusal(e)),
                Ok(()) => Ok(()),
            },
        }
    }

    /// Asks the keyring to drop the secret of the account `id`. That there
    /// was none to drop, or that dropping failed, is no error; only a
    /// keyring that gives no handle for `id` is, as a `Keyring` error.
    fn delete_secret(&self, id: &str) -> (r: Result<(), ConfigError>)
        ensures
            r is Err ==> r->Err_0.is_keyring_refusal(),
    {
        match keyring::Entry::new(APP_NAME, id) {
            Err(e) => Err(keyring_refusal(e)),
            Ok(entry) => {
                let _ = entry.delete_credential();
                Ok(())
            },
        }
    }

    /// Enters `account` in the list once the keyring has answered the
    /// request to hold its secret with `stored`: after a refusal the list
    /// stays as it is and the refusal is returned; else the account takes
    /// the place of the first entry with its id, or goes to the end.
    pub fn record_account(&mut self, account: &Account, stored: Result<(), ConfigError>) -> (r:
        Result<(), ConfigError>)
        ensures
            r == stored,
            final(self)@ == if stored is Ok {
                upsert(old(self)@, account@.entry())
            } else {
                old(self)@
            },
            unique_ids(old(self)@) ==> unique_ids(final(self)@),
            final(self).dir() == old(self).dir(),
            final(self).path() == old(self).path(),
    {
        if stored.is_ok() {
            self.config.upsert(entry_of(account));
        }
        stored
    }

    /// Saves `account`: its secret goes to the keyring, the rest into the
    /// list, in place of the first entry with its id or at the end. Where
    /// the keyring refuses, the list stays as it is and the error is
    /// `Keyring`, with the text that the keyring's refusal displays.
    pub fn save_account(&mut self, account: &Account) -> (r: Result<(), ConfigError>)
        ensures
            match r {
                Ok(()) => final(self)@ == upsert(old(self)@, account@.entry()),
                Err(e) => e.is_keyring_refusal() && final(self)@ == old(self)@,
            },
            unique_ids(old(self)@) ==> unique_ids(final(self)@),
            final(self).dir() == old(self).dir(),
            final(self).path() == old(self).path(),
    {
        let stored = self.set_secret(account.id.as_str(), account.secret_access_key.as_str());
        self.record_account(account, stored)
    }

    /// The accounts of the list, in its order, each with its secret from
    /// the keyring. An account whose secret is missing or cannot be read
    /// comes with an empty secret. It always succeeds: the result is the
    /// list with the keyring's answers, whatever they are.
    pub fn get_accounts(&self) -> (r: Result<Vec<Account>, ConfigError>)
        ensures
            r is Ok,
            exists|secrets: Seq<Option<Seq<char>>>|
                secrets.len() == self@.len() && r->Ok_0.deep_view() == with_secrets(
                    self@,
                    secrets,
                ),
    {
        let mut accounts: Vec<Account> = Vec::new();
        let ghost mut secrets: Seq<Option<Seq<char>>> = Seq::empty();
        let mut i: usize = 0;
        while i < self.config.accounts.len()
            invariant
                i <= self.config.accounts.len(),
                accounts.len() == i,
                secrets.len() == i,
                forall|k: int|
                    0 <= k < i ==> (#[trigger] accounts[k])@ == self@[k].with_secret(secrets[k]),
            decreases self.config.accounts.len() - i,
        {
            let entry = &self.config.accounts[i];
            let secret: Option<String> = match self.get_secret(entry.id.as_str()) {
                Ok(s) => Some(s),
                Err(_) => None,
            };
            proof {
                secrets = secrets.push(secret.deep_view());
            }
            accounts.push(account_of(entry, secret));
            i += 1;
        }
        assert(accounts.deep_view() =~= with_secrets(self@, secrets));
        Ok(accounts)
    }

    /// The first account of the list whose id is `id`, with its secret from
    /// the keyring, or `None` where the list holds no such account. It
    /// always succeeds: the result is what is found under `id` in the list
    /// with the keyring's answers, whatever they are.
    pub fn get_account(&self, id: &str) -> (r: Result<Option<Account>, ConfigError>)
        ensures
            r is Ok,
            exists|secrets: Seq<Option<Seq<char>>>|
                secrets.len() == self@.len() && r->Ok_0.deep_view() == find_by_id(
                    with_secrets(self@, secrets),
                    id@,
                ),
    {
        match self.get_accounts() {
            Err(e) => Err(e),
            Ok(accounts) => Ok(find_account(accounts, id)),
        }
    }

    /// Takes the account `id` out of the list once the keyring has answered
    /// the request for a handle on its secret with `dropped`: after a
    /// refusal the list stays as it is and the refusal is returned; else
    /// every entry with that id leaves the list.
    pub fn forget_account(&mut self, id: &str, dropped: Result<(), ConfigError>) -> (r: Result<
        (),
        ConfigError,
    >)
        ensures
            r == dropped,
            final(self)@ == if dropped is Ok {
                without_id(old(self)@, id@)
            } else {
                old(self)@
            },
            unique_ids(old(self)@) ==> unique_ids(final(self)@),
            final(self).dir() == old(self).dir(),
            final(self).path() == old(self).path(),
    {
        if dropped.is_ok() {
            self.config.remove(id);
        }
        dropped
    }

    /// Deletes the account `id`: its secret leaves the keyring, if there
    /// was one, and every entry with that id leaves the list. Where the
    /// keyring gives no handle for `id`, the list stays as it is and the
    /// error is `Keyring`, with the text that the keyring's refusal displays.
    pub fn delete_account(&mut self, id: &str) -> (r: Result<(), ConfigError>)
        ensures
            match r {
                Ok(()) => final(self)@ == without_id(old(self)@, id@),
                Err(e) => e.is_keyring_refusal() && final(self)@ == old(self)@,
            },
            unique_ids(old(self)@) ==> unique_ids(final(self)@),
            final(self).dir() == old(self).dir(),
            final(self).path() == old(self).path(),
    {
        let dropped = self.delete_secret(id);
        self.forget_account(id, dropped)
    }
}

} // verus!
