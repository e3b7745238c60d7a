//! The account service: groups, accounts, and credentials that are sealed
//! under their owner's key before they are stored and opened when their
//! owner asks for them.

use vstd::prelude::*;
use vstd::string::*;
use vstd::utf8::*;

use crate::accounts::accounts_error::{AccountError, AccountResult};
use crate::auth::auth_error::AuthError;
use crate::auth::laws::lemma_last_id_is_found;
use crate::auth::outcome::register_outcome;
use crate::clock::unix_now;
use crate::cryptography::{
    key_of_material, max_text_bytes, open_payload, seal_payload, AesGcmCipher, Cipher,
    CipherError, NONCE_LENGTH,
};
use crate::model::auth::UserRegister;
use crate::model::accounts::{
    AccountGroupRegister, AccountGroupView, AccountRegister, AccountView, AccountWithPasswordView,
};
use crate::model::{list_total, total_of, List};
use crate::random::random_bytes;
use crate::repository::models::account::{
    account_id_used, accounts_of_group, accounts_of_user, find_account, find_group,
    group_id_used, groups_of_user, latest_credential, latest_index,
    lemma_credentials_of_account_are_rows, lemma_latest_is_most_recent, password_id_used,
    password_views, passwords_of_account, Account, AccountGroup, AccountPasswordView, NewAccount,
    NewAccountGroup, NewAccountPassword,
};
use crate::repository::models::user::{find_user_by_id, User};
use crate::repository::repositories::accounts_repository::AccountsRepository;
use crate::repository::repositories::users_repository::UsersRepository;
use crate::text::opt_view;

verus! {

/// The view of a group.
pub open spec fn group_view_of(view: AccountGroupView, group: AccountGroup) -> bool {
    view.id == group.id && view.name == group.name
}

/// The view of an account.
pub open spec fn account_view_of(view: AccountView, account: Account) -> bool {
    view.id == account.id && view.name == account.name && view.group_id
        == account.account_groups_id
}

/// Whether `list` shows exactly `groups`, in order.
pub open spec fn lists_groups(list: List<AccountGroupView>, groups: Seq<AccountGroup>) -> bool {
    &&& list.items@.len() == groups.len()
    &&& forall|i: int| 0 <= i < groups.len() ==> group_view_of(#[trigger] list.items@[i], groups[i])
    &&& list.total == list_total(list.items.len())
}

/// Whether `list` shows exactly `accounts`, in order.
pub open spec fn lists_accounts(list: List<AccountView>, accounts: Seq<Account>) -> bool {
    &&& list.items@.len() == accounts.len()
    &&& forall|i: int|
        0 <= i < accounts.len() ==> account_view_of(#[trigger] list.items@[i], accounts[i])
    &&& list.total == list_total(list.items.len())
}

/// The key of a user: the key that their key material writes, where they
/// have a row with key material that writes one.
pub open spec fn key_of(users: Seq<User>, user_id: i32) -> Result<Seq<u8>, AccountError> {
    match find_user_by_id(users, user_id) {
        Some(user) => match user.master_key {
            Some(material) => match key_of_material(material@) {
                Some(key) => Ok(key),
                None => Err(AccountError::Cipher(CipherError::InvalidKeyLength)),
            },
            None => Err(AccountError::MissingMasterKey),
        },
        None => Err(AccountError::MissingMasterKey),
    }
}

/// Whether `row` is the account that a request files for a user.
pub open spec fn is_account_row(row: Account, account: AccountRegister, user_id: i32) -> bool {
    &&& row.user_id == user_id
    &&& row.name == account.name
    &&& row.level == account.level
    &&& row.account_groups_id == account.group_id
}

/// Whether `row` is the first credential of an account: the user name as
/// given, and the password sealed under the owner's key with `nonce`, so
/// that the key opens it again.
pub open spec fn is_credential_row(
    row: AccountPasswordView,
    account_id: i32,
    account: AccountRegister,
    key: Seq<u8>,
    nonce: Seq<u8>,
    now: i64,
) -> bool {
    &&& row.account_id == account_id
    &&& row.username == account.username@
    &&& row.password == seal_payload(key, nonce, account.password@)
    &&& open_payload(key, row.password) == Ok::<Seq<char>, CipherError>(account.password@)
    &&& row.created_date == now
}

/// What filing an account at the instant `now` under the given nonce comes
/// to, and what it leaves behind. A refused write of the credential leaves
/// the account without one.
pub open spec fn register_account_outcome(
    groups: Seq<AccountGroup>,
    users: Seq<User>,
    accounts: Seq<Account>,
    passwords: Seq<AccountPasswordView>,
    account: AccountRegister,
    user_id: i32,
    nonce: Seq<u8>,
    now: i64,
    r: AccountResult<AccountView>,
    new_accounts: Seq<Account>,
    new_passwords: Seq<AccountPasswordView>,
) -> bool {
    if find_group(groups, account.group_id, user_id) is None {
        &&& r matches Err(e) && e == AccountError::InvalidAccountGroup
        &&& new_accounts == accounts
        &&& new_passwords == passwords
    } else {
        match key_of(users, user_id) {
            Err(error) => {
                &&& r matches Err(e) && e == error
                &&& new_accounts == accounts
                &&& new_passwords == passwords
            },
            Ok(key) => if encode_utf8(account.password@).len() > max_text_bytes() {
                &&& r matches Err(e) && e == AccountError::Cipher(CipherError::TextTooLong)
                &&& new_accounts == accounts
                &&& new_passwords == passwords
            } else {
                match r {
                    Ok(view) => {
                        &&& new_accounts.len() == accounts.len() + 1
                        &&& new_accounts.drop_last() == accounts
                        &&& is_account_row(new_accounts.last(), account, user_id)
                        &&& !account_id_used(accounts, new_accounts.last().id)
                        &&& account_view_of(view, new_accounts.last())
                        &&& new_passwords.len() == passwords.len() + 1
                        &&& new_passwords.drop_last() == passwords
                        &&& is_credential_row(
                            new_passwords.last(),
                            view.id,
                            account,
                            key,
                            nonce,
                            now,
                        )
                        &&& !password_id_used(passwords, new_passwords.last().id)
                    },
                    Err(e) => {
                        &&& e == AccountError::Storage
                        &&& new_passwords == passwords
                        &&& new_accounts == accounts || (new_accounts.len() == accounts.len() + 1
                            && new_accounts.drop_last() == accounts && is_account_row(
                            new_accounts.last(),
                            account,
                            user_id,
                        ))
                    },
                }
            },
        }
    }
}

/// The credential that an account shows: the one created last, opened
/// under the owner's key; or none where it has none.
pub open spec fn shown_credential(passwords: Seq<AccountPasswordView>, key: Seq<u8>) -> Result<
    (Option<Seq<char>>, Option<Seq<char>>),
    AccountError,
> {
    match latest_credential(passwords) {
        None => Ok((None, None)),
        Some(current) => match open_payload(key, current.password) {
            Ok(text) => Ok((Some(current.username), Some(text))),
            Err(e) => Err(AccountError::Cipher(e)),
        },
    }
}

/// What asking for an account comes to.
pub open spec fn get_account_outcome(
    users: Seq<User>,
    accounts: Seq<Account>,
    passwords: Seq<AccountPasswordView>,
    user_id: i32,
    account_id: i32,
    r: AccountResult<AccountWithPasswordView>,
) -> bool {
    match find_account(accounts, account_id, user_id) {
        None => r matches Err(e) && e == AccountError::NotFound,
        Some(account) => match key_of(users, user_id) {
            Err(error) => r matches Err(e) && e == error,
            Ok(key) => match shown_credential(passwords_of_account(passwords, account_id), key) {
                Err(error) => r matches Err(e) && e == error,
                Ok((username, password)) => {
                    &&& r matches Ok(view)
                    &&& r.unwrap().id == account.id
                    &&& r.unwrap().name == account.name
                    &&& opt_view(r.unwrap().username) == username
                    &&& opt_view(r.unwrap().password) == password
                },
            },
        },
    }
}

/// A user who was registered with key material that writes a key has that
/// key: their credentials can be sealed and opened.
pub proof fn lemma_registered_user_has_a_key(
    users: Seq<User>,
    user: UserRegister,
    salt: Seq<u8>,
    master_key: String,
    registered: Result<(), AuthError>,
    new_users: Seq<User>,
)
    requires
        register_outcome(users, user, salt, master_key, registered, new_users),
        registered is Ok,
        key_of_material(master_key@) is Some,
    ensures
        key_of(new_users, new_users.last().id) == Ok::<Seq<u8>, AccountError>(
            key_of_material(master_key@).unwrap(),
        ),
{
    let row = new_users.last();
    assert(new_users =~= users.push(row));
    lemma_last_id_is_found(users, row);
}

/// An account that was added under an unused id is found under that id by
/// its owner.
pub proof fn lemma_added_account_is_found(accounts: Seq<Account>, row: Account)
    requires
        !account_id_used(accounts, row.id),
    ensures
        find_account(accounts.push(row), row.id, row.user_id) == Some(row),
    decreases accounts.len(),
{
    let all = accounts.push(row);
    if accounts.len() == 0 {
        assert(all.first() == row);
    } else {
        assert(all.first() == accounts[0]);
        assert(accounts[0].id != row.id);
        let rest = accounts.drop_first();
        assert(all.drop_first() =~= rest.push(row));
        assert(!account_id_used(rest, row.id)) by {
            if account_id_used(rest, row.id) {
                let k = choose|k: int| 0 <= k < rest.len() && (#[trigger] rest[k]).id == row.id;
                assert(accounts[k + 1].id == row.id);
            }
        }
        lemma_added_account_is_found(rest, row);
    }
}

/// An account is filed in a group of its owner's only.
pub proof fn lemma_filed_account_is_in_own_group(
    groups: Seq<AccountGroup>,
    users: Seq<User>,
    accounts: Seq<Account>,
    passwords: Seq<AccountPasswordView>,
    account: AccountRegister,
    user_id: i32,
    nonce: Seq<u8>,
    now: i64,
    r: AccountResult<AccountView>,
    new_accounts: Seq<Account>,
    new_passwords: Seq<AccountPasswordView>,
)
    requires
        register_account_outcome(
            groups,
            users,
            accounts,
            passwords,
            account,
            user_id,
            nonce,
            now,
            r,
            new_accounts,
            new_passwords,
        ),
        new_accounts != accounts,
    ensures
        new_accounts.drop_last() == accounts,
        find_group(groups, new_accounts.last().account_groups_id, new_accounts.last().user_id)
            is Some,
{
}

/// An account that was filed shows its owner the credential it was filed
/// with: the user name as given, and the password in the clear again. This
/// is so where no credential in the table is dated after the filing.
pub proof fn lemma_filed_credential_is_shown(
    groups: Seq<AccountGroup>,
    users: Seq<User>,
    accounts: Seq<Account>,
    passwords: Seq<AccountPasswordView>,
    account: AccountRegister,
    user_id: i32,
    nonce: Seq<u8>,
    now: i64,
    filed: AccountResult<AccountView>,
    new_accounts: Seq<Account>,
    new_passwords: Seq<AccountPasswordView>,
    shown: AccountResult<AccountWithPasswordView>,
)
    requires
        register_account_outcome(
            groups,
            users,
            accounts,
            passwords,
            account,
            user_id,
            nonce,
            now,
            filed,
            new_accounts,
            new_passwords,
        ),
        filed is Ok,
        forall|i: int| 0 <= i < passwords.len() ==> (#[trigger] passwords[i]).created_date <= now,
        get_account_outcome(users, new_accounts, new_passwords, user_id, filed.unwrap().id, shown),
    ensures
        shown is Ok,
        shown.unwrap().id == filed.unwrap().id,
        shown.unwrap().name == account.name,
        opt_view(shown.unwrap().username) == Some(account.username@),
        opt_view(shown.unwrap().password) == Some(account.password@),
{
    let row = new_accounts.last();
    assert(new_accounts =~= accounts.push(row));
    lemma_added_account_is_found(accounts, row);
    let credential = new_passwords.last();
    assert(new_passwords.drop_last() == passwords);
    let before = passwords_of_account(passwords, row.id);
    let rows = passwords_of_account(new_passwords, row.id);
    assert(rows == before.push(credential));
    assert(rows.last() == credential);
    assert(rows.drop_last() =~= before);
    lemma_latest_is_most_recent(before);
    lemma_credentials_of_account_are_rows(passwords, row.id);
    if before.len() > 0 {
        let best = latest_credential(before).unwrap();
        let j = choose|j: int| 0 <= j < before.len() && before[j] == best;
        assert(passwords.contains(before[j]));
        let k = choose|k: int| 0 <= k < passwords.len() && passwords[k] == best;
        assert(passwords[k].created_date <= now);
    }
    assert(latest_credential(rows) == Some(credential));
}

/// The account service over a repository.
pub struct AccountService<T> where T: AccountsRepository + UsersRepository {
    pub repository: T,
}

impl<T> AccountService<T> where T: AccountsRepository + UsersRepository {
    pub fn new(repository: T) -> (r: AccountService<T>)
        ensures
            r.repository == repository,
    {
        AccountService { repository }
    }

    /// Creates a group for the user with id `id`.
    pub fn register_group(&mut self, account_group: AccountGroupRegister, id: i32) -> (r:
        AccountResult<AccountGroupView>)
        ensures
            match r {
                Ok(view) => {
                    let groups = final(self).repository.groups();
                    &&& groups.len() == old(self).repository.groups().len() + 1
                    &&& groups.drop_last() == old(self).repository.groups()
                    &&& groups.last().user_id == id
                    &&& groups.last().name == account_group.name
                    &&& !group_id_used(old(self).repository.groups(), groups.last().id)
                    &&& group_view_of(view, groups.last())
                },
                Err(e) => {
                    &&& e == AccountError::Storage
                    &&& final(self).repository.groups() == old(self).repository.groups()
                },
            },
            final(self).repository.accounts() == old(self).repository.accounts(),
            final(self).repository.passwords() == old(self).repository.passwords(),
            final(self).repository.users() == old(self).repository.users(),
            final(self).repository.recoveries() == old(self).repository.recoveries(),
            final(self).repository.devices() == old(self).repository.devices(),
    {
        let AccountGroupRegister { name } = account_group;
        let account_group = NewAccountGroup { name, user_id: id };
        let ghost before = self.repository.groups();
        match self.repository.accounts_groups_insert(account_group) {
            Ok(row) => {
                assert(self.repository.groups().drop_last() =~= before);
                Ok(AccountGroupView { id: row.id, name: row.name })
            },
            Err(_) => Err(AccountError::Storage),
        }
    }

    /// The groups of a user.
    pub fn list_groups(&self, user_id: i32) -> (r: AccountResult<List<AccountGroupView>>)
        ensures
            r matches Ok(list) && lists_groups(
                list,
                groups_of_user(self.repository.groups(), user_id),
            ),
    {
        let result = self.repository.accounts_groups_list(user_id);
        let mut items: Vec<AccountGroupView> = Vec::new();
        let mut i: usize = 0;
        while i < result.len()
            invariant
                0 <= i <= result@.len(),
                items@.len() == i,
                forall|j: int| 0 <= j < i ==> group_view_of(#[trigger] items@[j], result@[j]),
            decreases result@.len() - i,
        {
            items.push(AccountGroupView { id: result[i].id, name: result[i].name.clone() });
            i = i + 1;
        }
        let total = total_of(result.len());
        Ok(List { items, total })
    }

    /// Files an account at the instant `now`, its password sealed under the
    /// caller's key with the given nonce. The group must be the caller's
    /// own.
    pub fn register_account_with(
        &mut self,
        account: AccountRegister,
        user_id: i32,
        nonce: &[u8],
        now: i64,
    ) -> (r: AccountResult<AccountView>)
        requires
            nonce@.len() == NONCE_LENGTH,
        ensures
            register_account_outcome(
                old(self).repository.groups(),
                old(self).repository.users(),
                old(self).repository.accounts(),
                old(self).repository.passwords(),
                account,
                user_id,
                nonce@,
                now,
                r,
                final(self).repository.accounts(),
                final(self).repository.passwords(),
            ),
            final(self).repository.groups() == old(self).repository.groups(),
            final(self).repository.users() == old(self).repository.users(),
            final(self).repository.recoveries() == old(self).repository.recoveries(),
            final(self).repository.devices() == old(self).repository.devices(),
    {
        if self.repository.accounts_groups_find_by_id(account.group_id, user_id).is_none() {
            return Err(AccountError::InvalidAccountGroup);
        }
        let cipher = match self.cipher_of(user_id) {
            Ok(cipher) => cipher,
            Err(e) => {
                return Err(e);
            },
        };
        let password = match cipher.encrypt_with_nonce(account.password.as_str(), nonce) {
            Ok(password) => password,
            Err(e) => {
                return Err(AccountError::Cipher(e));
            },
        };
        let new_account = NewAccount {
            name: account.name,
            level: account.level,
            account_groups_id: account.group_id,
            user_id,
        };
        let ghost accounts = self.repository.accounts();
        let ghost passwords = self.repository.passwords();
        let db_account = match self.repository.accounts_insert(new_account) {
            Ok(row) => row,
            Err(_) => {
                return Err(AccountError::Storage);
            },
        };
        assert(self.repository.accounts().drop_last() =~= accounts);
        let account_password = NewAccountPassword {
            account_id: db_account.id,
            username: account.username,
            password,
            created_date: now,
        };
        match self.repository.account_passwords_insert(account_password) {
            Ok(_) => {
                assert(self.repository.passwords().drop_last() =~= passwords);
            },
            Err(_) => {
                return Err(AccountError::Storage);
            },
        }
        Ok(
            AccountView {
                id: db_account.id,
                name: db_account.name,
                group_id: db_account.account_groups_id,
            },
        )
    }

    /// Files an account now, its password sealed under a fresh random nonce.
    pub fn register_account(&mut self, account: AccountRegister, user_id: i32) -> (r:
        AccountResult<AccountView>)
        ensures
            exists|nonce: Seq<u8>, now: i64|
                nonce.len() == NONCE_LENGTH && #[trigger] register_account_outcome(
                    old(self).repository.groups(),
                    old(self).repository.users(),
                    old(self).repository.accounts(),
                    old(self).repository.passwords(),
                    account,
                    user_id,
                    nonce,
                    now,
                    r,
                    final(self).repository.accounts(),
                    final(self).repository.passwords(),
                ),
            find_group(old(self).repository.groups(), account.group_id, user_id) is None ==> (r
                matches Err(e) && e == AccountError::InvalidAccountGroup),
            final(self).repository.groups() == old(self).repository.groups(),
            final(self).repository.users() == old(self).repository.users(),
            final(self).repository.recoveries() == old(self).repository.recoveries(),
            final(self).repository.devices() == old(self).repository.devices(),
    {
        let nonce = random_bytes(NONCE_LENGTH);
        let now = unix_now();
        self.register_account_with(account, user_id, nonce.as_slice(), now)
    }

    /// The accounts of a user, or those in one of their groups.
    pub fn list_accounts(&self, user_id: i32, group_id: Option<i32>) -> (r: AccountResult<
        List<AccountView>,
    >)
        ensures
            r matches Ok(list) && lists_accounts(
                list,
                match group_id {
                    Some(g) => accounts_of_group(self.repository.accounts(), user_id, g),
                    None => accounts_of_user(self.repository.accounts(), user_id),
                },
            ),
    {
        let result = if let Some(group_id) = group_id {
            self.repository.accounts_list_by_group_id(user_id, group_id)
        } else {
            self.repository.accounts_list(user_id)
        };
        let mut items: Vec<AccountView> = Vec::new();
        let mut i: usize = 0;
        while i < result.len()
            invariant
                0 <= i <= result@.len(),
                items@.len() == i,
                forall|j: int| 0 <= j < i ==> account_view_of(#[trigger] items@[j], result@[j]),
            decreases result@.len() - i,
        {
            items.push(
                AccountView {
                    id: result[i].id,
                    name: result[i].name.clone(),
                    group_id: result[i].account_groups_id,
                },
            );
            i = i + 1;
        }
        let total = total_of(result.len());
        Ok(List { items, total })
    }

    /// The cipher under a user's key.
    pub fn cipher_of(&self, user_id: i32) -> (r: AccountResult<AesGcmCipher>)
        ensures
            match r {
                Ok(cipher) => key_of(self.repository.users(), user_id) == Ok::<
                    Seq<u8>,
                    AccountError,
                >(cipher.key()),
                Err(e) => key_of(self.repository.users(), user_id) == Err::<Seq<u8>, AccountError>(
                    e,
                ),
            },
    {
        let user = match self.repository.users_find_by_id(user_id) {
            Some(user) => user,
            None => {
                return Err(AccountError::MissingMasterKey);
            },
        };
        let master_key = match user.master_key {
            Some(key) => key,
            None => {
                return Err(AccountError::MissingMasterKey);
            },
        };
        match AesGcmCipher::from_material(master_key.as_str()) {
            Ok(cipher) => Ok(cipher),
            Err(e) => Err(AccountError::Cipher(e)),
        }
    }

    /// An account of the caller's with its current credential in the clear.
    /// An account of another user is not found.
    pub fn get_account(&self, user_id: i32, account_id: i32) -> (r: AccountResult<
        AccountWithPasswordView,
    >)
        ensures
            get_account_outcome(
                self.repository.users(),
                self.repository.accounts(),
                self.repository.passwords(),
                user_id,
                account_id,
                r,
            ),
    {
        let (account, account_passwords) =
            match self.repository.accounts_get_with_passwords_by_account_id(account_id, user_id) {
            Some(found) => found,
            None => {
                return Err(AccountError::NotFound);
            },
        };
        let cipher = match self.cipher_of(user_id) {
            Ok(cipher) => cipher,
            Err(e) => {
                return Err(e);
            },
        };
        let (username, password) = match latest_index(&account_passwords) {
            Some(i) => {
                let account_password = &account_passwords[i];
                match cipher.decrypt(account_password.password.as_slice()) {
                    Ok(text) => (Some(account_password.username.clone()), Some(text)),
                    Err(e) => {
                        return Err(AccountError::Cipher(e));
                    },
                }
            },
            None => {
                proof {
                    lemma_latest_is_most_recent(password_views(account_passwords@));
                }
                (None, None)
            },
        };
        Ok(AccountWithPasswordView { id: account.id, name: account.name, username, password })
    }
}

} // verus!
