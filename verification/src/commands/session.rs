//! How a command gets its client: the account it names is looked up in the
//! store, and the client is made for that account.

use vstd::prelude::*;
use vstd::string::*;
use crate::r2::client::{endpoint_url, R2Client, R2ClientView};
use crate::storage::accounts::Account;
use crate::storage::config::ConfigError;

verus! {

/// What the user is told where the account that a command names is not in
/// the store.
pub open spec fn account_missing() -> Seq<char> {
    "账户不存在"@
}

/// The account that a lookup in the store gave. A failed lookup is
/// reported with the store's text, a missing account with the text of
/// `account_missing`.
pub fn require_account(looked_up: Result<Option<Account>, ConfigError>) -> (r: Result<
    Account,
    String,
>)
    ensures
        match r {
            Ok(account) => looked_up == Ok::<Option<Account>, ConfigError>(Some(account)),
            Err(text) => match looked_up {
                Ok(found) => found is None && text@ == account_missing(),
                Err(e) => e.shown_as(text@),
            },
        },
{
    match looked_up {
        Err(e) => Err(e.message()),
        Ok(None) => Err(String::from_str("账户不存在")),
        Ok(Some(account)) => Ok(account),
    }
}

/// The client for `account`'s tenant, with the account's credentials.
pub fn client_for(account: &Account) -> (r: Result<R2Client, String>)
    ensures
        r is Ok,
        r->Ok_0@ == (R2ClientView {
            account_id: account@.account_id,
            endpoint: endpoint_url(account@.account_id),
            access_key_id: account@.access_key_id,
            secret_access_key: account@.secret_access_key,
        }),
{
    match R2Client::new(
        account.account_id.as_str(),
        account.access_key_id.as_str(),
        account.secret_access_key.as_str(),
    ) {
        Ok(client) => Ok(client),
        Err(e) => Err(e.message()),
    }
}

} // verus!
