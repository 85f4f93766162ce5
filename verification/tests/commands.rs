use r2_explorer::commands::account::{get_accounts, new_account, validate_credentials, AccountInfo};
use r2_explorer::commands::file::create_folder;
use r2_explorer::commands::session::{client_for, require_account};
use r2_explorer::r2::client::R2Client;
use r2_explorer::r2::types::{BucketInfo, R2Error};
use r2_explorer::r2::wire::Request;
use r2_explorer::storage::accounts::Account;
use r2_explorer::storage::config::ConfigError;

fn account() -> Account {
    Account {
        id: "local-1".to_string(),
        name: "Work".to_string(),
        account_id: "0123abcd".to_string(),
        access_key_id: "AKID".to_string(),
        secret_access_key: "hidden".to_string(),
    }
}

#[test]
fn new_account_keeps_every_field() {
    let made = new_account(
        "local-1".to_string(),
        "Work".to_string(),
        "0123abcd".to_string(),
        "AKID".to_string(),
        "hidden".to_string(),
    );
    assert_eq!(made, account());
}

#[test]
fn require_account_gives_the_account_found() {
    assert_eq!(require_account(Ok(Some(account()))), Ok(account()));
}

#[test]
fn require_account_reports_a_missing_account() {
    assert_eq!(require_account(Ok(None)), Err("账户不存在".to_string()));
}

#[test]
fn require_account_reports_a_failed_store() {
    assert_eq!(require_account(Err(ConfigError::ConfigDir)), Err("配置目录错误".to_string()));
    assert_eq!(
        require_account(Err(ConfigError::Keyring("locked".to_string()))),
        Err("密钥存储错误: locked".to_string())
    );
}

#[test]
fn client_for_uses_the_tenant_and_the_credentials() {
    let c = client_for(&account()).unwrap();
    assert_eq!(c.account_id(), "0123abcd");
    assert_eq!(c.endpoint(), "https://0123abcd.r2.cloudflarestorage.com");
    assert_eq!(c.access_key_id(), "AKID");
    assert_eq!(c.secret_access_key(), "hidden");
}

#[test]
fn get_accounts_shows_no_credentials() {
    let mut second = account();
    second.id = "local-2".to_string();
    second.name = "Home".to_string();
    let shown = get_accounts(Ok(vec![account(), second])).unwrap();
    assert_eq!(
        shown,
        vec![
            AccountInfo {
                id: "local-1".to_string(),
                name: "Work".to_string(),
                account_id: "0123abcd".to_string(),
            },
            AccountInfo {
                id: "local-2".to_string(),
                name: "Home".to_string(),
                account_id: "0123abcd".to_string(),
            },
        ]
    );
    assert_eq!(get_accounts(Ok(vec![])), Ok(vec![]));
}

#[test]
fn get_accounts_reports_a_failed_store() {
    assert_eq!(get_accounts(Err(ConfigError::ConfigDir)), Err("配置目录错误".to_string()));
}

#[test]
fn validate_credentials_accepts_a_listing_that_went_through() {
    assert_eq!(validate_credentials(Ok(vec![])), Ok(true));
    let bucket = BucketInfo { name: "b".to_string(), creation_date: None };
    assert_eq!(validate_credentials(Ok(vec![bucket])), Ok(true));
}

#[test]
fn validate_credentials_reports_why_the_listing_failed() {
    assert_eq!(
        validate_credentials(Err(R2Error::SdkError("InvalidAccessKeyId".to_string()))),
        Err("凭证验证失败: AWS SDK 错误: InvalidAccessKeyId".to_string())
    );
}

#[test]
fn create_folder_stores_an_empty_object_under_the_closed_path() {
    let c = R2Client::new("t", "k", "s").unwrap();
    let expected =
        Request::PutObject { bucket: "b".to_string(), key: "docs/".to_string(), body: vec![] };
    assert_eq!(create_folder(&c, "b", "docs"), expected);
    assert_eq!(create_folder(&c, "b", "docs/"), expected);
}

#[test]
fn create_folder_closes_nested_and_empty_paths() {
    let c = R2Client::new("t", "k", "s").unwrap();
    assert_eq!(
        create_folder(&c, "b", "a/b"),
        Request::PutObject { bucket: "b".to_string(), key: "a/b/".to_string(), body: vec![] }
    );
    assert_eq!(
        create_folder(&c, "b", ""),
        Request::PutObject { bucket: "b".to_string(), key: "/".to_string(), body: vec![] }
    );
}
