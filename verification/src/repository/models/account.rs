//! Account groups, accounts and their credentials.

use vstd::prelude::*;

verus! {

/// A group of accounts, owned by one user.
#[derive(Debug)]
pub struct AccountGroup {
    pub id: i32,
    pub user_id: i32,
    pub name: String,
}

/// An account group that has no row yet.
#[derive(Debug)]
pub struct NewAccountGroup {
    pub user_id: i32,
    pub name: String,
}

/// A stored account, owned by one user and filed in one of their groups.
#[derive(Debug)]
pub struct Account {
    pub id: i32,
    pub user_id: i32,
    pub name: String,
    pub level: Option<i16>,
    pub account_groups_id: i32,
}

/// An account that has no row yet.
#[derive(Debug)]
pub struct NewAccount {
    pub user_id: i32,
    pub name: String,
    pub level: Option<i16>,
    pub account_groups_id: i32,
}

/// One credential of an account: the user name, and the password as the
/// cipher's payload, never in the clear. An account keeps every credential
/// it ever had; the one created last is the current one.
#[derive(Debug)]
pub struct AccountPassword {
    pub id: i32,
    pub account_id: i32,
    pub username: String,
    pub password: Vec<u8>,
    pub created_date: i64,
}

/// A credential that has no row yet.
#[derive(Debug)]
pub struct NewAccountPassword {
    pub account_id: i32,
    pub username: String,
    pub password: Vec<u8>,
    pub created_date: i64,
}

impl Clone for AccountGroup {
    fn clone(&self) -> (r: Self)
        ensures
            r == *self,
    {
        AccountGroup { id: self.id, user_id: self.user_id, name: self.name.clone() }
    }
}

impl Clone for Account {
    fn clone(&self) -> (r: Self)
        ensures
            r == *self,
    {
        Account {
            id: self.id,
            user_id: self.user_id,
            name: self.name.clone(),
            level: self.level,
            account_groups_id: self.account_groups_id,
        }
    }
}

/// A credential, as contracts see it.
pub struct AccountPasswordView {
    pub id: i32,
    pub account_id: i32,
    pub username: Seq<char>,
    pub password: Seq<u8>,
    pub created_date: i64,
}

impl View for AccountPassword {
    type V = AccountPasswordView;

    open spec fn view(&self) -> AccountPasswordView {
        AccountPasswordView {
            id: self.id,
            account_id: self.account_id,
            username: self.username@,
            password: self.password@,
            created_date: self.created_date,
        }
    }
}

/// The views of a list of credentials.
pub open spec fn password_views(passwords: Seq<AccountPassword>) -> Seq<AccountPasswordView> {
    Seq::new(passwords.len(), |i: int| passwords[i]@)
}

impl Clone for AccountPassword {
    fn clone(&self) -> (r: Self)
        ensures
            r@ == self@,
    {
        AccountPassword {
            id: self.id,
            account_id: self.account_id,
            username: self.username.clone(),
            password: self.password.clone(),
            created_date: self.created_date,
        }
    }
}

/// The row that a new group gets under `id`.
pub open spec fn group_row(id: i32, group: NewAccountGroup) -> AccountGroup {
    AccountGroup { id, user_id: group.user_id, name: group.name }
}

/// The row that a new account gets under `id`.
pub open spec fn account_row(id: i32, account: NewAccount) -> Account {
    Account {
        id,
        user_id: account.user_id,
        name: account.name,
        level: account.level,
        account_groups_id: account.account_groups_id,
    }
}

/// The row that a new credential gets under `id`.
pub open spec fn password_row(id: i32, password: NewAccountPassword) -> AccountPasswordView {
    AccountPasswordView {
        id,
        account_id: password.account_id,
        username: password.username@,
        password: password.password@,
        created_date: password.created_date,
    }
}

/// The groups of one user, in the order of their rows.
pub open spec fn groups_of_user(groups: Seq<AccountGroup>, user_id: i32) -> Seq<AccountGroup>
    decreases groups.len(),
{
    if groups.len() == 0 {
        Seq::empty()
    } else if groups.last().user_id == user_id {
        groups_of_user(groups.drop_last(), user_id).push(groups.last())
    } else {
        groups_of_user(groups.drop_last(), user_id)
    }
}

/// The first group with the given id that the user owns.
pub open spec fn find_group(groups: Seq<AccountGroup>, id: i32, user_id: i32) -> Option<
    AccountGroup,
>
    decreases groups.len(),
{
    if groups.len() == 0 {
        None
    } else if groups.first().id == id && groups.first().user_id == user_id {
        Some(groups.first())
    } else {
        find_group(groups.drop_first(), id, user_id)
    }
}

/// Whether any group has the given id.
pub open spec fn group_id_used(groups: Seq<AccountGroup>, id: i32) -> bool {
    exists|i: int| 0 <= i < groups.len() && (#[trigger] groups[i]).id == id
}

/// The accounts of one user, in the order of their rows.
pub open spec fn accounts_of_user(accounts: Seq<Account>, user_id: i32) -> Seq<Account>
    decreases accounts.len(),
{
    if accounts.len() == 0 {
        Seq::empty()
    } else if accounts.last().user_id == user_id {
        accounts_of_user(accounts.drop_last(), user_id).push(accounts.last())
    } else {
        accounts_of_user(accounts.drop_last(), user_id)
    }
}

/// The accounts of one user in one group, in the order of their rows.
pub open spec fn accounts_of_group(accounts: Seq<Account>, user_id: i32, group_id: i32) -> Seq<
    Account,
>
    decreases accounts.len(),
{
    if accounts.len() == 0 {
        Seq::empty()
    } else if accounts.last().user_id == user_id && accounts.last().account_groups_id == group_id {
        accounts_of_group(accounts.drop_last(), user_id, group_id).push(accounts.last())
    } else {
        accounts_of_group(accounts.drop_last(), user_id, group_id)
    }
}

/// The first account with the given id that the user owns.
pub open spec fn find_account(accounts: Seq<Account>, id: i32, user_id: i32) -> Option<Account>
    decreases accounts.len(),
{
    if accounts.len() == 0 {
        None
    } else if accounts.first().id == id && accounts.first().user_id == user_id {
        Some(accounts.first())
    } else {
        find_account(accounts.drop_first(), id, user_id)
    }
}

/// Whether any account has the given id.
pub open spec fn account_id_used(accounts: Seq<Account>, id: i32) -> bool {
    exists|i: int| 0 <= i < accounts.len() && (#[trigger] accounts[i]).id == id
}

/// The credentials of one account, in the order of their rows.
pub open spec fn passwords_of_account(
    passwords: Seq<AccountPasswordView>,
    account_id: i32,
) -> Seq<AccountPasswordView>
    decreases passwords.len(),
{
    if passwords.len() == 0 {
        Seq::empty()
    } else if passwords.last().account_id == account_id {
        passwords_of_account(passwords.drop_last(), account_id).push(passwords.last())
    } else {
        passwords_of_account(passwords.drop_last(), account_id)
    }
}

/// An account is not found for a user where every account of that id is
/// another user's.
pub proof fn lemma_foreign_account_is_not_found(accounts: Seq<Account>, id: i32, user_id: i32)
    requires
        forall|i: int|
            0 <= i < accounts.len() && (#[trigger] accounts[i]).id == id ==> accounts[i].user_id
                != user_id,
    ensures
        find_account(accounts, id, user_id) is None,
    decreases accounts.len(),
{
    if accounts.len() > 0 {
        let rest = accounts.drop_first();
        assert(accounts.first() == accounts[0]);
        assert forall|i: int|
            0 <= i < rest.len() && (#[trigger] rest[i]).id == id implies rest[i].user_id
                != user_id by {
            assert(rest[i] == accounts[i + 1]);
        }
        lemma_foreign_account_is_not_found(rest, id, user_id);
    }
}

/// A group is not found for a user where every group of that id is another
/// user's.
pub proof fn lemma_foreign_group_is_not_found(groups: Seq<AccountGroup>, id: i32, user_id: i32)
    requires
        forall|i: int|
            0 <= i < groups.len() && (#[trigger] groups[i]).id == id ==> groups[i].user_id
                != user_id,
    ensures
        find_group(groups, id, user_id) is None,
    decreases groups.len(),
{
    if groups.len() > 0 {
        let rest = groups.drop_first();
        assert(groups.first() == groups[0]);
        assert forall|i: int|
            0 <= i < rest.len() && (#[trigger] rest[i]).id == id implies rest[i].user_id
                != user_id by {
            assert(rest[i] == groups[i + 1]);
        }
        lemma_foreign_group_is_not_found(rest, id, user_id);
    }
}

/// A found account has the id asked for and belongs to the user who asked.
pub proof fn lemma_found_account_is_owned(accounts: Seq<Account>, id: i32, user_id: i32)
    ensures
        find_account(accounts, id, user_id) matches Some(account) ==> account.id == id
            && account.user_id == user_id && accounts.contains(account),
    decreases accounts.len(),
{
    if accounts.len() > 0 {
        assert(accounts.first() == accounts[0]);
        if !(accounts.first().id == id && accounts.first().user_id == user_id) {
            let rest = accounts.drop_first();
            lemma_found_account_is_owned(rest, id, user_id);
            if find_account(rest, id, user_id) is Some {
                let found = find_account(rest, id, user_id).unwrap();
                let k = choose|k: int| 0 <= k < rest.len() && rest[k] == found;
                assert(accounts[k + 1] == found);
            }
        }
    }
}

/// The current credential among those of one account: the one created
/// last, and among those created at one instant the last in the order of
/// the rows. There is none where there are no credentials.
pub open spec fn latest_credential(credentials: Seq<AccountPasswordView>) -> Option<
    AccountPasswordView,
>
    decreases credentials.len(),
{
    if credentials.len() == 0 {
        None
    } else {
        match latest_credential(credentials.drop_last()) {
            Some(best) => if credentials.last().created_date >= best.created_date {
                Some(credentials.last())
            } else {
                Some(best)
            },
            None => Some(credentials.last()),
        }
    }
}

/// The current credential is one of the credentials, and none of them was
/// created after it.
pub proof fn lemma_latest_is_most_recent(credentials: Seq<AccountPasswordView>)
    ensures
        latest_credential(credentials) is None <==> credentials.len() == 0,
        latest_credential(credentials) matches Some(best) ==> credentials.contains(best)
            && forall|i: int|
            0 <= i < credentials.len() ==> (#[trigger] credentials[i]).created_date
                <= best.created_date,
    decreases credentials.len(),
{
    if credentials.len() > 0 {
        let rest = credentials.drop_last();
        let last = credentials.last();
        lemma_latest_is_most_recent(rest);
        let best = latest_credential(credentials).unwrap();
        assert(credentials[credentials.len() - 1] == last);
        if rest.len() > 0 {
            let before = latest_credential(rest).unwrap();
            let k = choose|k: int| 0 <= k < rest.len() && rest[k] == before;
            assert(credentials[k] == before);
        }
        assert forall|i: int| 0 <= i < credentials.len() implies (
        #[trigger] credentials[i]).created_date <= best.created_date by {
            if i < rest.len() {
                assert(credentials[i] == rest[i]);
            }
        }
    }
}

/// The credentials of one account are credentials of the table, and of that
/// account.
pub proof fn lemma_credentials_of_account_are_rows(
    passwords: Seq<AccountPasswordView>,
    account_id: i32,
)
    ensures
        forall|j: int|
            0 <= j < passwords_of_account(passwords, account_id).len() ==> passwords.contains(
                #[trigger] passwords_of_account(passwords, account_id)[j],
            ) && passwords_of_account(passwords, account_id)[j].account_id == account_id,
    decreases passwords.len(),
{
    if passwords.len() > 0 {
        let rest = passwords.drop_last();
        let found = passwords_of_account(passwords, account_id);
        let before = passwords_of_account(rest, account_id);
        lemma_credentials_of_account_are_rows(rest, account_id);
        assert forall|j: int| 0 <= j < found.len() implies passwords.contains(#[trigger] found[j])
            && found[j].account_id == account_id by {
            if j < before.len() {
                assert(found[j] == before[j]);
                let k = choose|k: int| 0 <= k < rest.len() && rest[k] == before[j];
                assert(passwords[k] == before[j]);
            } else {
                assert(found[j] == passwords.last());
                assert(passwords[passwords.len() - 1] == passwords.last());
            }
        }
    }
}

/// The place of the current credential in a list of credentials.
pub fn latest_index(credentials: &Vec<AccountPassword>) -> (r: Option<usize>)
    ensures
        match r {
            Some(i) => i < credentials@.len() && latest_credential(password_views(credentials@))
                == Some(credentials@[i as int]@),
            None => credentials@.len() == 0,
        },
{
    if credentials.len() == 0 {
        return None;
    }
    let ghost views = password_views(credentials@);
    let mut best: usize = 0;
    let mut i: usize = 1;
    proof {
        let first = views.take(1);
        assert(first.drop_last() =~= Seq::<AccountPasswordView>::empty());
        assert(latest_credential(first.drop_last()) is None);
        assert(first.last() == views[0]);
    }
    while i < credentials.len()
        invariant
            1 <= i <= credentials@.len(),
            best < i,
            views == password_views(credentials@),
            latest_credential(views.take(i as int)) == Some(views[best as int]),
        decreases credentials@.len() - i,
    {
        proof {
            let next = views.take(i + 1);
            assert(next.last() == views[i as int]);
            assert(next.drop_last() =~= views.take(i as int));
        }
        if credentials[i].created_date >= credentials[best].created_date {
            best = i;
        }
        i = i + 1;
    }
    assert(views.take(i as int) =~= views);
    Some(best)
}

/// Whether any credential has the given id.
pub open spec fn password_id_used(passwords: Seq<AccountPasswordView>, id: i32) -> bool {
    exists|i: int| 0 <= i < passwords.len() && (#[trigger] passwords[i]).id == id
}

} // verus!
