//! The repository of account groups, accounts and credentials.

use vstd::prelude::*;

use crate::repository::models::account::{
    account_id_used, account_row, accounts_of_group, accounts_of_user, find_account, find_group,
    group_id_used, group_row, groups_of_user, password_id_used, password_row, password_views,
    passwords_of_account, Account, AccountGroup, AccountPassword, AccountPasswordView, NewAccount,
    NewAccountGroup, NewAccountPassword,
};

use crate::repository::repositories::users_repository::UsersRepository;

verus! {

/// Account groups, accounts and credentials, in a repository that also
/// holds their owners. Lookups answer with the first row that matches,
/// listings keep the order of the rows; a write changes the rows named in
/// its contract and no others, nor any user, recovery or device.
///
/// The contracts speak of the rows, which a verified implementation
/// defines. One that is written outside verified code keeps the defaults, of
/// which nothing is known, and answers for the contracts itself.
pub trait AccountsRepository: UsersRepository {
    /// The account groups, in the order of their rows.
    open spec fn groups(&self) -> Seq<AccountGroup> {
        arbitrary()
    }

    /// The accounts, in the order of their rows.
    open spec fn accounts(&self) -> Seq<Account> {
        arbitrary()
    }

    /// The credentials, in the order of their rows.
    open spec fn passwords(&self) -> Seq<AccountPasswordView> {
        arbitrary()
    }

    fn accounts_groups_list(&self, user_id: i32) -> (r: Vec<AccountGroup>)
        ensures
            r@ == groups_of_user(self.groups(), user_id),
    ;

    fn accounts_groups_find_by_id(&self, id: i32, user_id: i32) -> (r: Option<AccountGroup>)
        ensures
            r == find_group(self.groups(), id, user_id),
    ;

    /// Adds a group under an id that no group has yet, and returns its row;
    /// or refuses and changes nothing.
    fn accounts_groups_insert(&mut self, account_group: NewAccountGroup) -> (r: Result<
        AccountGroup,
        (),
    >)
        ensures
            match r {
                Ok(row) => {
                    &&& row == group_row(row.id, account_group)
                    &&& !group_id_used(old(self).groups(), row.id)
                    &&& final(self).groups() == old(self).groups().push(row)
                },
                Err(_) => final(self).groups() == old(self).groups(),
            },
            final(self).accounts() == old(self).accounts(),
            final(self).passwords() == old(self).passwords(),
            final(self).users() == old(self).users(),
            final(self).recoveries() == old(self).recoveries(),
            final(self).devices() == old(self).devices(),
    ;

    /// Adds an account under an id that no account has yet, and returns its
    /// row; or refuses and changes nothing.
    fn accounts_insert(&mut self, account: NewAccount) -> (r: Result<Account, ()>)
        ensures
            match r {
                Ok(row) => {
                    &&& row == account_row(row.id, account)
                    &&& !account_id_used(old(self).accounts(), row.id)
                    &&& final(self).accounts() == old(self).accounts().push(row)
                },
                Err(_) => final(self).accounts() == old(self).accounts(),
            },
            final(self).groups() == old(self).groups(),
            final(self).passwords() == old(self).passwords(),
            final(self).users() == old(self).users(),
            final(self).recoveries() == old(self).recoveries(),
            final(self).devices() == old(self).devices(),
    ;

    fn accounts_list(&self, user_id: i32) -> (r: Vec<Account>)
        ensures
            r@ == accounts_of_user(self.accounts(), user_id),
    ;

    fn accounts_list_by_group_id(&self, user_id: i32, group_id: i32) -> (r: Vec<Account>)
        ensures
            r@ == accounts_of_group(self.accounts(), user_id, group_id),
    ;

    /// The user's account of that id with its credentials, in the order of
    /// their rows.
    fn accounts_get_with_passwords_by_account_id(&self, account_id: i32, user_id: i32) -> (r:
        Option<(Account, Vec<AccountPassword>)>)
        ensures
            match r {
                Some((account, passwords)) => {
                    &&& find_account(self.accounts(), account_id, user_id) == Some(account)
                    &&& password_views(passwords@) == passwords_of_account(
                        self.passwords(),
                        account_id,
                    )
                },
                None => find_account(self.accounts(), account_id, user_id) is None,
            },
    ;

    /// Adds a credential under an id that no credential has yet, and returns
    /// that id; or refuses and changes nothing.
    fn account_passwords_insert(&mut self, account_password: NewAccountPassword) -> (r: Result<
        i32,
        (),
    >)
        ensures
            match r {
                Ok(id) => {
                    &&& !password_id_used(old(self).passwords(), id)
                    &&& final(self).passwords() == old(self).passwords().push(
                        password_row(id, account_password),
                    )
                },
                Err(_) => final(self).passwords() == old(self).passwords(),
            },
            final(self).groups() == old(self).groups(),
            final(self).accounts() == old(self).accounts(),
            final(self).users() == old(self).users(),
            final(self).recoveries() == old(self).recoveries(),
            final(self).devices() == old(self).devices(),
    ;

    fn accounts_passwords_list_account_id(&self, account_id: i32) -> (r: Vec<AccountPassword>)
        ensures
            password_views(r@) == passwords_of_account(self.passwords(), account_id),
    ;
}

} // verus!
