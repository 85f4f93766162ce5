use std::path::PathBuf;

use r2_explorer::storage::accounts::{
    account_of, entry_of, find_account, Account, AccountEntry, Config,
};
use r2_explorer::storage::config::{ConfigError, ConfigStore, APP_NAME, CONFIG_FILE};

fn account(id: &str, name: &str, secret: &str) -> Account {
    Account {
        id: id.to_string(),
        name: name.to_string(),
        account_id: format!("tenant-{}", id),
        access_key_id: format!("key-{}", id),
        secret_access_key: secret.to_string(),
    }
}

fn entry(id: &str, name: &str) -> AccountEntry {
    AccountEntry {
        id: id.to_string(),
        name: name.to_string(),
        account_id: format!("tenant-{}", id),
        access_key_id: format!("key-{}", id),
    }
}

fn store() -> ConfigStore {
    ConfigStore::with_config_dir(Some(PathBuf::from("/nowhere/config"))).unwrap()
}

fn keyring_refusal() -> ConfigError {
    ConfigError::Keyring("locked".to_string())
}

#[test]
fn upsert_appends_a_new_id() {
    let mut config = Config::default();
    assert_eq!(config.accounts, vec![]);
    config.upsert(entry("a", "first"));
    config.upsert(entry("b", "second"));
    assert_eq!(config.accounts, vec![entry("a", "first"), entry("b", "second")]);
}

#[test]
fn upsert_replaces_in_place() {
    let mut config =
        Config { accounts: vec![entry("a", "A"), entry("b", "B"), entry("c", "C")] };
    config.upsert(entry("b", "renamed"));
    assert_eq!(config.accounts, vec![entry("a", "A"), entry("b", "renamed"), entry("c", "C")]);
}

#[test]
fn upsert_replaces_only_the_first_of_doubles() {
    let mut config = Config { accounts: vec![entry("a", "one"), entry("a", "two")] };
    config.upsert(entry("a", "new"));
    assert_eq!(config.accounts, vec![entry("a", "new"), entry("a", "two")]);
}

#[test]
fn position_is_the_first_index_or_the_length() {
    let config = Config { accounts: vec![entry("a", "A"), entry("b", "B"), entry("b", "B2")] };
    assert_eq!(config.position("a"), 0);
    assert_eq!(config.position("b"), 1);
    assert_eq!(config.position("z"), 3);
    assert_eq!(Config::default().position("a"), 0);
}

#[test]
fn remove_drops_every_entry_with_the_id() {
    let mut config = Config {
        accounts: vec![entry("a", "A"), entry("b", "B"), entry("a", "A2"), entry("c", "C")],
    };
    config.remove("a");
    assert_eq!(config.accounts, vec![entry("b", "B"), entry("c", "C")]);
    config.remove("missing");
    assert_eq!(config.accounts, vec![entry("b", "B"), entry("c", "C")]);
}

#[test]
fn account_of_takes_the_secret_or_an_empty_one() {
    let e = entry("a", "A");
    assert_eq!(account_of(&e, Some("s3cr3t".to_string())), account("a", "A", "s3cr3t"));
    assert_eq!(account_of(&e, None), account("a", "A", ""));
}

#[test]
fn entry_of_leaves_the_secret_out() {
    assert_eq!(entry_of(&account("a", "A", "s3cr3t")), entry("a", "A"));
}

#[test]
fn find_account_gives_the_first_match() {
    let accounts = vec![account("a", "A", "1"), account("b", "B", "2"), account("b", "B2", "3")];
    assert_eq!(find_account(accounts.clone(), "b"), Some(account("b", "B", "2")));
    assert_eq!(find_account(accounts, "z"), None);
    assert_eq!(find_account(vec![], "a"), None);
}

#[test]
fn store_needs_a_config_dir() {
    let r = ConfigStore::with_config_dir(None);
    assert!(matches!(r, Err(ConfigError::ConfigDir)));
}

#[test]
fn store_lies_below_the_config_dir() {
    let base = PathBuf::from("/home/alice/.config");
    let s = ConfigStore::with_config_dir(Some(base.clone())).unwrap();
    assert_eq!(APP_NAME, "r2-explorer");
    assert_eq!(CONFIG_FILE, "config.json");
    assert_eq!(s.config_dir(), &base.join("r2-explorer"));
    assert_eq!(s.config_path(), &base.join("r2-explorer").join("config.json"));
    assert_eq!(s.config().accounts, vec![]);
}

#[test]
fn new_store_is_empty_or_has_no_config_dir() {
    match ConfigStore::new() {
        Ok(s) => {
            assert_eq!(s.config().accounts, vec![]);
            assert!(s.config_path().ends_with("r2-explorer/config.json"));
        }
        Err(e) => assert!(matches!(e, ConfigError::ConfigDir)),
    }
}

#[test]
fn load_config_takes_the_file_or_nothing() {
    let mut s = store();
    s.load_config(Some(Config { accounts: vec![entry("a", "A")] }));
    assert_eq!(s.config().accounts, vec![entry("a", "A")]);
    s.load_config(None);
    assert_eq!(s.config().accounts, vec![]);
}

#[test]
fn record_account_enters_the_account_after_the_keyring_agreed() {
    let mut s = store();
    assert!(s.record_account(&account("a", "A", "x"), Ok(())).is_ok());
    assert!(s.record_account(&account("b", "B", "y"), Ok(())).is_ok());
    assert_eq!(s.config().accounts, vec![entry("a", "A"), entry("b", "B")]);
}

#[test]
fn record_account_leaves_the_list_after_a_refusal() {
    let mut s = store();
    s.load_config(Some(Config { accounts: vec![entry("a", "A")] }));
    let r = s.record_account(&account("a", "changed", "x"), Err(keyring_refusal()));
    assert!(matches!(r, Err(ConfigError::Keyring(text)) if text == "locked"));
    assert_eq!(s.config().accounts, vec![entry("a", "A")]);
}

#[test]
fn forget_account_drops_the_account_after_the_keyring_agreed() {
    let mut s = store();
    s.load_config(Some(Config { accounts: vec![entry("a", "A"), entry("b", "B")] }));
    assert!(s.forget_account("a", Ok(())).is_ok());
    assert_eq!(s.config().accounts, vec![entry("b", "B")]);
    assert!(s.forget_account("never-there", Ok(())).is_ok());
    assert_eq!(s.config().accounts, vec![entry("b", "B")]);
}

#[test]
fn forget_account_leaves_the_list_after_a_refusal() {
    let mut s = store();
    s.load_config(Some(Config { accounts: vec![entry("a", "A")] }));
    let r = s.forget_account("a", Err(keyring_refusal()));
    assert!(matches!(r, Err(ConfigError::Keyring(_))));
    assert_eq!(s.config().accounts, vec![entry("a", "A")]);
}

#[test]
fn saved_account_is_found_with_what_was_saved() {
    let mut s = store();
    s.load_config(Some(Config { accounts: vec![entry("other", "O")] }));
    let saved = account("test-found", "Mine", "top-secret");
    assert!(s.record_account(&saved, Ok(())).is_ok());
    let found = s.get_account("test-found").unwrap().unwrap();
    assert_eq!(found.id, saved.id);
    assert_eq!(found.name, saved.name);
    assert_eq!(found.account_id, saved.account_id);
    assert_eq!(found.access_key_id, saved.access_key_id);
}

#[test]
fn save_account_goes_through_the_keyring() {
    let mut s = store();
    let saved = account("test-keyring-round-trip", "Mine", "top-secret");
    match s.save_account(&saved) {
        Ok(()) => {
            assert_eq!(s.config().accounts, vec![entry_of(&saved)]);
            let found = s.get_account("test-keyring-round-trip").unwrap().unwrap();
            assert_eq!(entry_of(&found), entry_of(&saved));
            assert!(found.secret_access_key == "top-secret" || found.secret_access_key.is_empty());
            match s.delete_account("test-keyring-round-trip") {
                Ok(()) => assert_eq!(s.config().accounts, vec![]),
                Err(e) => assert!(matches!(e, ConfigError::Keyring(_))),
            }
        }
        Err(e) => {
            assert!(matches!(e, ConfigError::Keyring(_)));
            assert_eq!(s.config().accounts, vec![]);
        }
    }
}

#[test]
fn deleted_account_is_absent() {
    let mut s = store();
    s.load_config(Some(Config { accounts: vec![entry("a", "A"), entry("b", "B")] }));
    assert!(s.forget_account("a", Ok(())).is_ok());
    assert_eq!(s.get_account("a").unwrap(), None);
    assert!(s.forget_account("never-there", Ok(())).is_ok());
    assert_eq!(s.get_account("never-there").unwrap(), None);
}

#[test]
fn second_save_under_one_id_leaves_one_record() {
    let mut s = store();
    s.load_config(Some(Config { accounts: vec![entry("x", "X")] }));
    assert!(s.record_account(&account("a", "first name", "1"), Ok(())).is_ok());
    assert!(s.record_account(&account("a", "second name", "2"), Ok(())).is_ok());
    assert_eq!(s.config().accounts, vec![entry("x", "X"), entry("a", "second name")]);
    let with_id = s.config().accounts.iter().filter(|e| e.id == "a").count();
    assert_eq!(with_id, 1);
}

#[test]
fn get_accounts_keeps_order_and_never_fails() {
    let mut s = store();
    let entries = vec![entry("test-list-1", "One"), entry("test-list-2", "Two")];
    s.load_config(Some(Config { accounts: entries.clone() }));
    let accounts = s.get_accounts().unwrap();
    let listed: Vec<AccountEntry> = accounts.iter().map(entry_of).collect();
    assert_eq!(listed, entries);
    let empty = ConfigStore::with_config_dir(Some(PathBuf::new())).unwrap();
    assert_eq!(empty.get_accounts().unwrap(), vec![]);
}

#[test]
fn account_without_secret_in_the_keyring_has_an_empty_secret() {
    let mut s = store();
    s.load_config(Some(Config { accounts: vec![entry("test-no-secret-was-ever-stored", "N")] }));
    let accounts = s.get_accounts().unwrap();
    assert_eq!(accounts, vec![account("test-no-secret-was-ever-stored", "N", "")]);
}

#[test]
fn config_error_messages_carry_label_and_detail() {
    assert_eq!(ConfigError::Keyring("locked".to_string()).message(), "密钥存储错误: locked");
    assert_eq!(ConfigError::ConfigDir.message(), "配置目录错误");
    let io = std::io::Error::new(std::io::ErrorKind::NotFound, "gone");
    let detail = io.to_string();
    assert_eq!(ConfigError::Io(io).message(), format!("IO 错误: {}", detail));
    let json = serde_json::from_str::<serde_json::Value>("{").unwrap_err();
    let detail = json.to_string();
    assert_eq!(ConfigError::Serialization(json).message(), format!("序列化错误: {}", detail));
}

#[test]
fn config_error_comes_from_io_and_json_errors() {
    let io = std::io::Error::new(std::io::ErrorKind::PermissionDenied, "no");
    assert!(matches!(ConfigError::from(io), ConfigError::Io(_)));
    let json = serde_json::from_str::<serde_json::Value>("[").unwrap_err();
    assert!(matches!(ConfigError::from(json), ConfigError::Serialization(_)));
}
