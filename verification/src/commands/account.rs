//! The commands on accounts.

use vstd::prelude::*;
use vstd::string::*;
use crate::r2::types::{BucketInfo, R2Error};
use crate::storage::accounts::{Account, AccountView};
use crate::storage::config::ConfigError;

verus! {

/// What the user interface is shown of an account: never its credentials.
#[derive(Debug, PartialEq, Eq)]
pub struct AccountInfo {
    pub id: String,
    pub name: String,
    pub account_id: String,
}

/// An `AccountInfo` as mathematical values.
pub struct AccountInfoView {
    pub id: Seq<char>,
    pub name: Seq<char>,
    pub account_id: Seq<char>,
}

impl View for AccountInfo {
    type V = AccountInfoView;

    open spec fn view(&self) -> AccountInfoView {
        AccountInfoView { id: self.id@, name: self.name@, account_id: self.account_id@ }
    }
}

impl DeepView for AccountInfo {
    type V = AccountInfoView;

    open spec fn deep_view(&self) -> AccountInfoView {
        self@
    }
}

/// What is shown of `accounts`, in their order.
pub open spec fn account_infos(accounts: Seq<AccountView>) -> Seq<AccountInfoView> {
    accounts.map_values(
        |a: AccountView| AccountInfoView { id: a.id, name: a.name, account_id: a.account_id },
    )
}

/// What the probe of new credentials failed with, as the user is told.
pub open spec fn credentials_rejected(error: Seq<char>) -> Seq<char> {
    "凭证验证失败: "@ + error
}

/// The account that the user entered, to be saved.
pub fn new_account(
    id: String,
    name: String,
    account_id: String,
    access_key_id: String,
    secret_access_key: String,
) -> (account: Account)
    ensures
        account@ == (AccountView {
            id: id@,
            name: name@,
            account_id: account_id@,
            access_key_id: access_key_id@,
            secret_access_key: secret_access_key@,
        }),
{
    Account { id, name, account_id, access_key_id, secret_access_key }
}

/// The accounts of the store as the user interface shows them: in the
/// store's order, without credentials. A failure of the store is reported
/// with the store's text.
pub fn get_accounts(stored: Result<Vec<Account>, ConfigError>) -> (r: Result<
    Vec<AccountInfo>,
    String,
>)
    ensures
        match r {
            Ok(infos) => stored is Ok && infos.deep_view() == account_infos(
                stored->Ok_0.deep_view(),
            ),
            Err(text) => stored is Err && stored->Err_0.shown_as(text@),
        },
{
    match stored {
        Err(e) => Err(e.message()),
        Ok(accounts) => {
            let mut infos: Vec<AccountInfo> = Vec::new();
            let mut i: usize = 0;
            while i < accounts.len()
                invariant
                    i <= accounts.len(),
                    infos.len() == i,
                    forall|k: int|
                        0 <= k < i ==> (#[trigger] infos[k])@ == account_infos(
                            accounts.deep_view(),
                        )[k],
                decreases accounts.len() - i,
            {
                let account = &accounts[i];
                infos.push(
                    AccountInfo {
                        id: account.id.clone(),
                        name: account.name.clone(),
                        account_id: account.account_id.clone(),
                    },
                );
                i += 1;
            }
            Ok(infos)
        },
    }
}

/// Whether credentials are good, judged by what a listing of the buckets
/// with them gave: `true` where it went through; where it failed, the
/// failure's text behind a label.
pub fn validate_credentials(probe: Result<Vec<BucketInfo>, R2Error>) -> (r: Result<bool, String>)
    ensures
        match r {
            Ok(valid) => probe is Ok && valid,
            Err(text) => probe is Err && text@ == credentials_rejected(probe->Err_0@.message()),
        },
{
    match probe {
        Ok(_) => Ok(true),
        Err(e) => Err(String::from_str("凭证验证失败: ").concat(e.message().as_str())),
    }
}

} // verus!
