//! Accounts and the list of them that the configuration file holds.
//!
//! The file keeps, for each account, everything but the secret. The list is
//! ordered; an account is found by its `id`, and the first entry with that
//! `id` is the one that counts.

use vstd::prelude::*;
use vstd::string::*;

verus! {

/// One tenant of the store, with the credentials to reach it.
#[derive(Debug, PartialEq, Eq)]
pub struct Account {
    /// The local identifier, chosen by the caller.
    pub id: String,
    /// The label shown to the user.
    pub name: String,
    /// The tenant's identifier at the store.
    pub account_id: String,
    /// The public half of the credentials.
    pub access_key_id: String,
    /// The private half of the credentials. It is never written to the
    /// configuration file.
    pub secret_access_key: String,
}

/// An `Account` as mathematical values.
pub struct AccountView {
    pub id: Seq<char>,
    pub name: Seq<char>,
    pub account_id: Seq<char>,
    pub access_key_id: Seq<char>,
    pub secret_access_key: Seq<char>,
}

impl AccountView {
    /// The account without its secret: what the configuration file holds.
    pub open spec fn entry(self) -> AccountEntryView {
        AccountEntryView {
            id: self.id,
            name: self.name,
            account_id: self.account_id,
            access_key_id: self.access_key_id,
        }
    }
}

impl View for Account {
    type V = AccountView;

    open spec fn view(&self) -> AccountView {
        AccountView {
            id: self.id@,
            name: self.name@,
            account_id: self.account_id@,
            access_key_id: self.access_key_id@,
            secret_access_key: self.secret_access_key@,
        }
    }
}

impl DeepView for Account {
    type V = AccountView;

    open spec fn deep_view(&self) -> AccountView {
        self@
    }
}

impl Clone for Account {
    fn clone(&self) -> (copy: Self)
        ensures
            copy == *self,
    {
        Account {
            id: self.id.clone(),
            name: self.name.clone(),
            account_id: self.account_id.clone(),
            access_key_id: self.access_key_id.clone(),
            secret_access_key: self.secret_access_key.clone(),
        }
    }
}

/// What the configuration file holds of one account.
#[derive(Debug, PartialEq, Eq)]
pub struct AccountEntry {
    pub id: String,
    pub name: String,
    pub account_id: String,
    pub access_key_id: String,
}

/// An `AccountEntry` as mathematical values.
pub struct AccountEntryView {
    pub id: Seq<char>,
    pub name: Seq<char>,
    pub account_id: Seq<char>,
    pub access_key_id: Seq<char>,
}

impl AccountEntryView {
    /// The account of this entry with the secret that the keyring gave, or
    /// with an empty secret where it gave none.
    pub open spec fn with_secret(self, secret: Option<Seq<char>>) -> AccountView {
        AccountView {
            id: self.id,
            name: self.name,
            account_id: self.account_id,
            access_key_id: self.access_key_id,
            secret_access_key: match secret {
                Some(s) => s,
                None => Seq::empty(),
            },
        }
    }
}

impl View for AccountEntry {
    type V = AccountEntryView;

    open spec fn view(&self) -> AccountEntryView {
        AccountEntryView {
            id: self.id@,
            name: self.name@,
            account_id: self.account_id@,
            access_key_id: self.access_key_id@,
        }
    }
}

impl DeepView for AccountEntry {
    type V = AccountEntryView;

    open spec fn deep_view(&self) -> AccountEntryView {
        self@
    }
}

impl Clone for AccountEntry {
    fn clone(&self) -> (copy: Self)
        ensures
            copy == *self,
    {
        AccountEntry {
            id: self.id.clone(),
            name: self.name.clone(),
            account_id: self.account_id.clone(),
            access_key_id: self.access_key_id.clone(),
        }
    }
}

/// The index of the first of `ids` that equals `id`, or the length of `ids`
/// where none does.
pub open spec fn first_index(ids: Seq<Seq<char>>, id: Seq<char>) -> int
    decreases ids.len(),
{
    if ids.len() == 0 {
        0
    } else if ids[0] == id {
        0
    } else {
        1 + first_index(ids.drop_first(), id)
    }
}

/// The ids of `entries`, in order.
pub open spec fn entry_ids(entries: Seq<AccountEntryView>) -> Seq<Seq<char>> {
    entries.map_values(|e: AccountEntryView| e.id)
}

/// The ids of `accounts`, in order.
pub open spec fn account_ids(accounts: Seq<AccountView>) -> Seq<Seq<char>> {
    accounts.map_values(|a: AccountView| a.id)
}

/// Whether no two of `entries` share an id.
pub open spec fn unique_ids(entries: Seq<AccountEntryView>) -> bool {
    forall|i: int, j: int|
        0 <= i < j < entries.len() ==> (#[trigger] entries[i]).id != (#[trigger] entries[j]).id
}

/// `entries` after `entry` is saved: it takes the place of the first entry
/// with its id, or goes to the end where there is none.
pub open spec fn upsert(entries: Seq<AccountEntryView>, entry: AccountEntryView) -> Seq<
    AccountEntryView,
> {
    let i = first_index(entry_ids(entries), entry.id);
    if i < entries.len() {
        entries.update(i, entry)
    } else {
        entries.push(entry)
    }
}

/// `entries` without those whose id is `id`.
pub open spec fn without_id(entries: Seq<AccountEntryView>, id: Seq<char>) -> Seq<
    AccountEntryView,
> {
    entries.filter(|e: AccountEntryView| e.id != id)
}

/// The first of `accounts` whose id is `id`.
pub open spec fn find_by_id(accounts: Seq<AccountView>, id: Seq<char>) -> Option<AccountView> {
    let i = first_index(account_ids(accounts), id);
    if i < accounts.len() {
        Some(accounts[i])
    } else {
        None
    }
}

/// The accounts of `entries`, each with the secret that the keyring gave for
/// it: `secrets[i]` is the answer for `entries[i]`, `None` where the keyring
/// had no secret or could not be read.
pub open spec fn with_secrets(
    entries: Seq<AccountEntryView>,
    secrets: Seq<Option<Seq<char>>>,
) -> Seq<AccountView>
    recommends
        secrets.len() == entries.len(),
{
    Seq::new(entries.len(), |i: int| entries[i].with_secret(secrets[i]))
}

/// `first_index` is the least index that holds `id`.
pub proof fn lemma_first_index(ids: Seq<Seq<char>>, id: Seq<char>)
    ensures
        0 <= first_index(ids, id) <= ids.len(),
        first_index(ids, id) < ids.len() ==> ids[first_index(ids, id)] == id,
        forall|j: int| 0 <= j < first_index(ids, id) ==> ids[j] != id,
    decreases ids.len(),
{
    if ids.len() > 0 && ids[0] != id {
        let rest = ids.drop_first();
        lemma_first_index(rest, id);
        assert forall|j: int| 0 <= j < first_index(ids, id) implies ids[j] != id by {
            if j > 0 {
                assert(rest[j - 1] == ids[j]);
            }
        }
    }
}

/// An index with `id` at it and not before it is the first index of `id`; so
/// is the length where `id` is nowhere.
pub proof fn lemma_first_index_is(ids: Seq<Seq<char>>, id: Seq<char>, i: int)
    requires
        0 <= i <= ids.len(),
        forall|j: int| 0 <= j < i ==> ids[j] != id,
        i < ids.len() ==> ids[i] == id,
    ensures
        first_index(ids, id) == i,
{
    lemma_first_index(ids, id);
}

/// Saving changes one place of the list at most. The saved entry stands at
/// the first index of its id, which is where an entry with that id stood
/// before, or the end; every other entry stays where it was.
pub proof fn lemma_upsert(entries: Seq<AccountEntryView>, entry: AccountEntryView)
    ensures
        ({
            let saved = upsert(entries, entry);
            let i = first_index(entry_ids(entries), entry.id);
            &&& 0 <= i <= entries.len()
            &&& saved.len() == if i < entries.len() {
                entries.len()
            } else {
                entries.len() + 1
            }
            &&& first_index(entry_ids(saved), entry.id) == i
            &&& saved[i] == entry
            &&& forall|j: int| 0 <= j < entries.len() && j != i ==> saved[j] == entries[j]
        }),
{
    let ids = entry_ids(entries);
    let saved = upsert(entries, entry);
    let i = first_index(ids, entry.id);
    lemma_first_index(ids, entry.id);
    if i < entries.len() {
        assert(entry_ids(saved) =~= ids);
    } else {
        assert(entry_ids(saved) =~= ids.push(entry.id));
        lemma_first_index_is(entry_ids(saved), entry.id, i);
    }
}

/// Saving keeps a list free of double ids.
pub proof fn lemma_upsert_keeps_unique(entries: Seq<AccountEntryView>, entry: AccountEntryView)
    requires
        unique_ids(entries),
    ensures
        unique_ids(upsert(entries, entry)),
{
    let saved = upsert(entries, entry);
    let i = first_index(entry_ids(entries), entry.id);
    lemma_upsert(entries, entry);
    lemma_first_index(entry_ids(entries), entry.id);
    assert forall|a: int, b: int| 0 <= a < b < saved.len() implies (#[trigger] saved[a]).id != (
    #[trigger] saved[b]).id by {
        if i == entries.len() && b == i {
            assert(entry_ids(entries)[a] == entries[a].id);
        }
    }
}

/// Deleting leaves no entry with the deleted id and keeps every other
/// entry.
pub proof fn lemma_without_id(entries: Seq<AccountEntryView>, id: Seq<char>)
    ensures
        first_index(entry_ids(without_id(entries, id)), id) == without_id(entries, id).len(),
        forall|e: AccountEntryView|
            without_id(entries, id).contains(e) <==> entries.contains(e) && e.id != id,
{
    let keep = |e: AccountEntryView| e.id != id;
    let left = entries.filter(keep);
    assert forall|j: int| 0 <= j < left.len() implies entry_ids(left)[j] != id by {
        entries.lemma_filter_pred(keep, j);
    }
    lemma_first_index_is(entry_ids(left), id, left.len() as int);
    assert forall|e: AccountEntryView| left.contains(e) <==> entries.contains(e) && e.id
        != id by {
        if left.contains(e) {
            let k = choose|k: int| 0 <= k < left.len() && left[k] == e;
            entries.lemma_filter_pred(keep, k);
            entries.lemma_filter_contains_rev(keep, e);
        }
        if entries.contains(e) && e.id != id {
            let m = choose|m: int| 0 <= m < entries.len() && entries[m] == e;
            entries.lemma_filter_contains(keep, m);
        }
    }
}

/// Deleting keeps a list free of double ids.
pub proof fn lemma_without_id_keeps_unique(entries: Seq<AccountEntryView>, id: Seq<char>)
    requires
        unique_ids(entries),
    ensures
        unique_ids(without_id(entries, id)),
    decreases entries.len(),
{
    let keep = |e: AccountEntryView| e.id != id;
    let left = entries.filter(keep);
    reveal(Seq::filter);
    if entries.len() > 0 {
        let rest = entries.drop_last();
        let left_rest = rest.filter(keep);
        assert(unique_ids(rest));
        lemma_without_id_keeps_unique(rest, id);
        assert forall|a: int, b: int| 0 <= a < b < left.len() implies (#[trigger] left[a]).id != (
        #[trigger] left[b]).id by {
            if b == left_rest.len() {
                rest.lemma_filter_contains_rev(keep, left[a]);
            }
        }
    }
}

/// An account that was saved is found under its id, with all that was saved
/// of it but the secret, which is the one that the keyring gives for its
/// place in the list. Where the keyring gives back the secret that was saved,
/// the account found is the account saved.
pub proof fn lemma_saved_account_is_found(
    entries: Seq<AccountEntryView>,
    account: AccountView,
    secrets: Seq<Option<Seq<char>>>,
)
    ensures
        ({
            let saved = upsert(entries, account.entry());
            let i = first_index(entry_ids(saved), account.id);
            let found = find_by_id(with_secrets(saved, secrets), account.id);
            &&& found == Some(account.entry().with_secret(secrets[i]))
            &&& found->0.entry() == account.entry()
            &&& secrets[i] == Some(account.secret_access_key) ==> found == Some(account)
        }),
{
    let saved = upsert(entries, account.entry());
    lemma_upsert(entries, account.entry());
    assert(account_ids(with_secrets(saved, secrets)) =~= entry_ids(saved));
}

/// An account that was deleted is not found, whatever the list held before
/// and whatever the keyring gives.
pub proof fn lemma_deleted_account_is_absent(
    entries: Seq<AccountEntryView>,
    id: Seq<char>,
    secrets: Seq<Option<Seq<char>>>,
)
    ensures
        find_by_id(with_secrets(without_id(entries, id), secrets), id) is None,
{
    let left = without_id(entries, id);
    lemma_without_id(entries, id);
    assert(account_ids(with_secrets(left, secrets)) =~= entry_ids(left));
}

/// Two saves under one id leave what the second alone would have left. In a
/// list free of double ids, exactly one entry then has that id, and it is
/// the second.
pub proof fn lemma_second_save_wins(
    entries: Seq<AccountEntryView>,
    first: AccountEntryView,
    second: AccountEntryView,
)
    requires
        first.id == second.id,
    ensures
        upsert(upsert(entries, first), second) == upsert(entries, second),
        unique_ids(entries) ==> ({
            let saved = upsert(upsert(entries, first), second);
            let i = first_index(entry_ids(saved), second.id);
            &&& unique_ids(saved)
            &&& 0 <= i < saved.len()
            &&& saved[i] == second
            &&& forall|j: int| 0 <= j < saved.len() && j != i ==> saved[j].id != second.id
        }),
{
    let once = upsert(entries, first);
    let twice = upsert(once, second);
    lemma_upsert(entries, first);
    lemma_upsert(once, second);
    lemma_upsert(entries, second);
    if unique_ids(entries) {
        lemma_upsert_keeps_unique(entries, second);
    }
}

/// The list of accounts that the configuration file holds.
#[derive(Debug, PartialEq, Eq)]
pub struct Config {
    pub accounts: Vec<AccountEntry>,
}

impl View for Config {
    type V = Seq<AccountEntryView>;

    open spec fn view(&self) -> Seq<AccountEntryView> {
        self.accounts.deep_view()
    }
}

impl Default for Config {
    /// The empty list.
    fn default() -> (config: Self)
        ensures
            config@ == Seq::<AccountEntryView>::empty(),
    {
        let config = Config { accounts: Vec::new() };
        config
    }
}

impl Config {
    /// The index of the first entry whose id is `id`, or the number of
    /// entries where there is none.
    pub fn position(&self, id: &str) -> (i: usize)
        ensures
            i == first_index(entry_ids(self@), id@),
            i <= self.accounts.len(),
    {
        let wanted = String::from_str(id);
        let ghost ids = entry_ids(self@);
        let mut i: usize = 0;
        while i < self.accounts.len()
            invariant
                i <= self.accounts.len(),
                ids == entry_ids(self@),
                wanted@ == id@,
                forall|j: int| 0 <= j < i ==> ids[j] != id@,
            decreases self.accounts.len() - i,
        {
            if self.accounts[i].id == wanted {
                proof {
                    lemma_first_index_is(ids, id@, i as int);
                }
                return i;
            }
            i += 1;
        }
        proof {
            lemma_first_index_is(ids, id@, i as int);
        }
        i
    }

    /// Saves `entry`: it replaces the first entry with its id, or is added
    /// at the end.
    pub fn upsert(&mut self, entry: AccountEntry)
        ensures
            final(self)@ == upsert(old(self)@, entry@),
            unique_ids(old(self)@) ==> unique_ids(final(self)@),
    {
        proof {
            if unique_ids(self@) {
                lemma_upsert_keeps_unique(self@, entry@);
            }
        }
        let i: usize = self.position(entry.id.as_str());
        if i < self.accounts.len() {
            self.accounts.set(i, entry);
        } else {
            self.accounts.push(entry);
        }
        assert(self@ =~= upsert(old(self)@, entry@));
    }

    /// Drops every entry whose id is `id`; the others keep their order.
    pub fn remove(&mut self, id: &str)
        ensures
            final(self)@ == without_id(old(self)@, id@),
            unique_ids(old(self)@) ==> unique_ids(final(self)@),
    {
        proof {
            if unique_ids(self@) {
                lemma_without_id_keeps_unique(self@, id@);
            }
        }
        let wanted = String::from_str(id);
        let ghost before = self@;
        let ghost keep = |e: AccountEntryView| e.id != id@;
        let mut kept: Vec<AccountEntry> = Vec::new();
        let mut i: usize = 0;
        proof {
            reveal(Seq::filter);
        }
        while i < self.accounts.len()
            invariant
                i <= self.accounts.len(),
                before == self@,
                wanted@ == id@,
                keep == |e: AccountEntryView| e.id != id@,
                kept.deep_view() == before.take(i as int).filter(keep),
            decreases self.accounts.len() - i,
        {
            proof {
                assert(before.take(i + 1) =~= before.take(i as int).push(before[i as int]));
                before.take(i as int).lemma_filter_push(before[i as int], keep);
            }
            if self.accounts[i].id != wanted {
                kept.push(self.accounts[i].clone());
            }
            i += 1;
        }
        assert(before.take(i as int) =~= before);
        self.accounts = kept;
    }
}

/// The account of `entry` with the secret that the keyring gave for it; an
/// empty secret where the keyring gave none.
pub fn account_of(entry: &AccountEntry, secret: Option<String>) -> (account: Account)
    ensures
        account@ == entry@.with_secret(secret.deep_view()),
{
    Account {
        id: entry.id.clone(),
        name: entry.name.clone(),
        account_id: entry.account_id.clone(),
        access_key_id: entry.access_key_id.clone(),
        secret_access_key: match secret {
            Some(s) => s,
            None => String::new(),
        },
    }
}

/// What the configuration file holds of `account`: all but the secret.
pub fn entry_of(account: &Account) -> (entry: AccountEntry)
    ensures
        entry@ == account@.entry(),
{
    AccountEntry {
        id: account.id.clone(),
        name: account.name.clone(),
        account_id: account.account_id.clone(),
        access_key_id: account.access_key_id.clone(),
    }
}

/// The first of `accounts` whose id is `id`, if there is one.
pub fn find_account(accounts: Vec<Account>, id: &str) -> (found: Option<Account>)
    ensures
        found.deep_view() == find_by_id(accounts.deep_view(), id@),
{
    let wanted = String::from_str(id);
    let ghost ids = account_ids(accounts.deep_view());
    let mut i: usize = 0;
    while i < accounts.len()
        invariant
            i <= accounts.len(),
            ids == account_ids(accounts.deep_view()),
            wanted@ == id@,
            forall|j: int| 0 <= j < i ==> ids[j] != id@,
        decreases accounts.len() - i,
    {
        if accounts[i].id == wanted {
            proof {
                lemma_first_index_is(ids, id@, i as int);
            }
            return Some(accounts[i].clone());
        }
        i += 1;
    }
    proof {
        lemma_first_index_is(ids, id@, i as int);
    }
    None
}

} // verus!
