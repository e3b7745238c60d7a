//! A repository in memory: every table is a list of rows in the order in
//! which they were added, and a new row gets an id above every id in its
//! table.

use vstd::prelude::*;
use vstd::string::*;

use crate::repository::models::account::{
    accounts_of_group, accounts_of_user, find_account, find_group, groups_of_user, password_row,
    password_views, passwords_of_account, Account, AccountGroup, AccountPassword,
    AccountPasswordView, NewAccount, NewAccountGroup, NewAccountPassword,
};
use crate::repository::models::device::{device_row, Device, NewDevice};
use crate::repository::models::user::{
    find_user_by_email, find_user_by_id, with_fail_attempts, with_last_login, with_password,
    NewUser, User,
};
use crate::repository::models::user_password_recovery::{
    find_recovery_by_token, invalidated, NewUserPasswordRecovery, UserPasswordRecovery,
};
use crate::repository::repositories::accounts_repository::AccountsRepository;
use crate::repository::repositories::devices_repository::DevicesRepository;
use crate::repository::repositories::users_repository::UsersRepository;
use crate::text::str_eq;

verus! {

/// A row that is known by an id.
pub trait Row {
    /// The id of the row.
    spec fn row_id(&self) -> i32;

    /// The id of the row.
    fn id(&self) -> (r: i32)
        ensures
            r == self.row_id(),
    ;
}

impl Row for User {
    open spec fn row_id(&self) -> i32 {
        self.id
    }

    fn id(&self) -> (r: i32) {
        self.id
    }
}

impl Row for Device {
    open spec fn row_id(&self) -> i32 {
        self.id
    }

    fn id(&self) -> (r: i32) {
        self.id
    }
}

impl Row for AccountGroup {
    open spec fn row_id(&self) -> i32 {
        self.id
    }

    fn id(&self) -> (r: i32) {
        self.id
    }
}

impl Row for Account {
    open spec fn row_id(&self) -> i32 {
        self.id
    }

    fn id(&self) -> (r: i32) {
        self.id
    }
}

impl Row for AccountPassword {
    open spec fn row_id(&self) -> i32 {
        self.id
    }

    fn id(&self) -> (r: i32) {
        self.id
    }
}

/// The largest id in the table, or zero where no id is above zero.
pub open spec fn top_id<R: Row>(rows: Seq<R>) -> int
    decreases rows.len(),
{
    if rows.len() == 0 {
        0
    } else {
        let rest = top_id(rows.drop_last());
        if rows.last().row_id() > rest {
            rows.last().row_id() as int
        } else {
            rest
        }
    }
}

/// The id that the next row of the table gets: one above the largest id in
/// it, and 1 in a table without ids above zero. There is none where the
/// largest id is the last there is.
pub open spec fn next_id<R: Row>(rows: Seq<R>) -> Option<i32> {
    if top_id(rows) < i32::MAX {
        Some((top_id(rows) + 1) as i32)
    } else {
        None
    }
}

/// The largest id is no id's inferior, and no larger than an id can be.
pub proof fn lemma_top_id_is_largest<R: Row>(rows: Seq<R>)
    ensures
        0 <= top_id(rows) <= i32::MAX,
        forall|i: int| 0 <= i < rows.len() ==> (#[trigger] rows[i]).row_id() <= top_id(rows),
    decreases rows.len(),
{
    if rows.len() > 0 {
        let rest = rows.drop_last();
        lemma_top_id_is_largest(rest);
        assert forall|i: int| 0 <= i < rows.len() implies (#[trigger] rows[i]).row_id() <= top_id(
            rows,
        ) by {
            if i < rest.len() {
                assert(rows[i] == rest[i]);
            }
        }
    }
}

/// The id for the next row of the table: one above the largest id in it.
pub fn fresh_id<R: Row>(rows: &Vec<R>) -> (r: Option<i32>)
    ensures
        r == next_id(rows@),
        match r {
            Some(id) => id > 0 && forall|i: int|
                0 <= i < rows@.len() ==> (#[trigger] rows@[i]).row_id() < id,
            None => exists|i: int|
                0 <= i < rows@.len() && (#[trigger] rows@[i]).row_id() == i32::MAX,
        },
{
    let mut top: i32 = 0;
    let mut i: usize = 0;
    assert(rows@.take(0) =~= Seq::<R>::empty());
    while i < rows.len()
        invariant
            0 <= i <= rows@.len(),
            0 <= top < i32::MAX,
            top == top_id(rows@.take(i as int)),
            forall|j: int| 0 <= j < i ==> (#[trigger] rows@[j]).row_id() <= top,
        decreases rows@.len() - i,
    {
        let id = rows[i].id();
        if id == i32::MAX {
            proof {
                lemma_top_id_is_largest(rows@);
                assert(rows@[i as int].row_id() <= top_id(rows@));
            }
            return None;
        }
        proof {
            let next = rows@.take(i + 1);
            assert(next.last() == rows@[i as int]);
            assert(next.drop_last() =~= rows@.take(i as int));
        }
        if id > top {
            top = id;
        }
        i = i + 1;
    }
    assert(rows@.take(i as int) =~= rows@);
    Some(top + 1)
}

/// No user has an id that differs from every user's.
pub proof fn lemma_unused_user_id(users: Seq<User>, id: i32)
    requires
        forall|i: int| 0 <= i < users.len() ==> (#[trigger] users[i]).id != id,
    ensures
        find_user_by_id(users, id) is None,
    decreases users.len(),
{
    if users.len() > 0 {
        let rest = users.drop_first();
        assert forall|i: int| 0 <= i < rest.len() implies (#[trigger] rest[i]).id != id by {
            assert(rest[i] == users[i + 1]);
        }
        lemma_unused_user_id(rest, id);
    }
}

/// A repository in memory.
pub struct MemoryRepository {
    pub users: Vec<User>,
    pub recoveries: Vec<UserPasswordRecovery>,
    pub devices: Vec<Device>,
    pub groups: Vec<AccountGroup>,
    pub accounts: Vec<Account>,
    pub passwords: Vec<AccountPassword>,
}

impl MemoryRepository {
    /// A repository without rows.
    pub fn new() -> (r: MemoryRepository)
        ensures
            r.users@.len() == 0,
            r.recoveries@.len() == 0,
            r.devices@.len() == 0,
            r.groups@.len() == 0,
            r.accounts@.len() == 0,
            r.passwords@.len() == 0,
    {
        MemoryRepository {
            users: Vec::new(),
            recoveries: Vec::new(),
            devices: Vec::new(),
            groups: Vec::new(),
            accounts: Vec::new(),
            passwords: Vec::new(),
        }
    }

    /// Adds a device under the next id of the table, and returns that id. It
    /// refuses, and changes nothing, only where the table has no next id.
    pub fn devices_insert(&mut self, device: NewDevice) -> (r: Result<i32, ()>)
        ensures
            match r {
                Ok(id) => {
                    &&& next_id(old(self).devices@) == Some(id)
                    &&& final(self).devices@ == old(self).devices@.push(device_row(id, device))
                },
                Err(_) => {
                    &&& next_id(old(self).devices@) is None
                    &&& final(self).devices@ == old(self).devices@
                },
            },
            final(self).users == old(self).users,
            final(self).recoveries == old(self).recoveries,
            final(self).groups == old(self).groups,
            final(self).accounts == old(self).accounts,
            final(self).passwords == old(self).passwords,
    {
        match fresh_id(&self.devices) {
            Some(id) => {
                self.devices.push(
                    Device {
                        id,
                        user_id: device.user_id,
                        name: device.name,
                        last_access: device.last_access,
                        active: device.active,
                        public_key: device.public_key,
                    },
                );
                Ok(id)
            },
            None => Err(()),
        }
    }
}

impl UsersRepository for MemoryRepository {
    open spec fn users(&self) -> Seq<User> {
        self.users@
    }

    open spec fn recoveries(&self) -> Seq<UserPasswordRecovery> {
        self.recoveries@
    }

    fn users_find_by_email(&self, email: &str) -> (r: Option<User>) {
        let mut i: usize = 0;
        assert(self.users@.skip(0) =~= self.users@);
        while i < self.users.len()
            invariant
                0 <= i <= self.users@.len(),
                find_user_by_email(self.users@, email@) == find_user_by_email(
                    self.users@.skip(i as int),
                    email@,
                ),
            decreases self.users@.len() - i,
        {
            let ghost rest = self.users@.skip(i as int);
            assert(rest.first() == self.users@[i as int]);
            assert(rest.drop_first() =~= self.users@.skip(i + 1));
            if str_eq(self.users[i].email.as_str(), email) {
                return Some(self.users[i].clone());
            }
            i = i + 1;
        }
        None
    }

    fn users_find_by_id(&self, id: i32) -> (r: Option<User>) {
        let mut i: usize = 0;
        assert(self.users@.skip(0) =~= self.users@);
        while i < self.users.len()
            invariant
                0 <= i <= self.users@.len(),
                find_user_by_id(self.users@, id) == find_user_by_id(self.users@.skip(i as int), id),
            decreases self.users@.len() - i,
        {
            let ghost rest = self.users@.skip(i as int);
            assert(rest.first() == self.users@[i as int]);
            assert(rest.drop_first() =~= self.users@.skip(i + 1));
            if self.users[i].id == id {
                return Some(self.users[i].clone());
            }
            i = i + 1;
        }
        None
    }

    fn users_update_last_login(&mut self, user_id: i32, now: i64) {
        let ghost before = self.users@;
        let mut i: usize = 0;
        while i < self.users.len()
            invariant
                0 <= i <= self.users@.len(),
                self.users@.len() == before.len(),
                forall|j: int|
                    0 <= j < i ==> self.users@[j] == with_last_login(before, user_id, now)[j],
                forall|j: int| i <= j < before.len() ==> self.users@[j] == before[j],
                self.recoveries == old(self).recoveries,
                self.devices == old(self).devices,
            decreases self.users@.len() - i,
        {
            if self.users[i].id == user_id {
                let mut row = self.users[i].clone();
                row.last_login = Some(now);
                self.users.set(i, row);
            }
            i = i + 1;
        }
        assert(self.users@ =~= with_last_login(before, user_id, now));
    }

    fn users_update_fail_attempts(&mut self, user_id: i32, fail_attempts: i16, now: i64) {
        let ghost before = self.users@;
        let mut i: usize = 0;
        while i < self.users.len()
            invariant
                0 <= i <= self.users@.len(),
                self.users@.len() == before.len(),
                forall|j: int|
                    0 <= j < i ==> self.users@[j] == with_fail_attempts(
                        before,
                        user_id,
                        fail_attempts,
                        now,
                    )[j],
                forall|j: int| i <= j < before.len() ==> self.users@[j] == before[j],
                self.recoveries == old(self).recoveries,
                self.devices == old(self).devices,
            decreases self.users@.len() - i,
        {
            if self.users[i].id == user_id {
                let mut row = self.users[i].clone();
                row.fail_attempts = fail_attempts;
                row.last_attempt = Some(now);
                self.users.set(i, row);
            }
            i = i + 1;
        }
        assert(self.users@ =~= with_fail_attempts(before, user_id, fail_attempts, now));
    }

    fn users_update_password(&mut self, user_id: i32, password: String) {
        let ghost before = self.users@;
        let mut i: usize = 0;
        while i < self.users.len()
            invariant
                0 <= i <= self.users@.len(),
                self.users@.len() == before.len(),
                forall|j: int|
                    0 <= j < i ==> self.users@[j] == with_password(before, user_id, password)[j],
                forall|j: int| i <= j < before.len() ==> self.users@[j] == before[j],
                self.recoveries == old(self).recoveries,
                self.devices == old(self).devices,
            decreases self.users@.len() - i,
        {
            if self.users[i].id == user_id {
                let mut row = self.users[i].clone();
                row.password = password.clone();
                self.users.set(i, row);
            }
            i = i + 1;
        }
        assert(self.users@ =~= with_password(before, user_id, password));
    }

    /// Adds the user under the next id of the table. It refuses only where
    /// the table has no next id. No other table changes.
    fn users_insert(&mut self, user: NewUser) -> (r: Result<i32, ()>)
        ensures
            match r {
                Ok(id) => next_id(old(self).users@) == Some(id),
                Err(_) => next_id(old(self).users@) is None,
            },
            final(self).groups == old(self).groups,
            final(self).accounts == old(self).accounts,
            final(self).passwords == old(self).passwords,
    {
        match fresh_id(&self.users) {
            Some(id) => {
                proof {
                    lemma_unused_user_id(self.users@, id);
                }
                self.users.push(
                    User {
                        id,
                        name: user.name,
                        email: user.email,
                        password: user.password,
                        master_key: user.master_key,
                        last_login: None,
                        fail_attempts: 0,
                        last_attempt: None,
                    },
                );
                Ok(id)
            },
            None => Err(()),
        }
    }

    /// Adds the recovery. It never refuses. No other table changes.
    fn users_password_recovery_insert(&mut self, password_recovery: NewUserPasswordRecovery) -> (r:
        Result<(), ()>)
        ensures
            r is Ok,
            final(self).groups == old(self).groups,
            final(self).accounts == old(self).accounts,
            final(self).passwords == old(self).passwords,
    {
        self.recoveries.push(
            UserPasswordRecovery {
                user_id: password_recovery.user_id,
                token: password_recovery.token,
                issued_at: password_recovery.issued_at,
                valid: password_recovery.valid,
            },
        );
        Ok(())
    }

    fn users_password_recovery_find_by_token(&self, token: &str) -> (r: Option<
        UserPasswordRecovery,
    >) {
        let mut i: usize = 0;
        assert(self.recoveries@.skip(0) =~= self.recoveries@);
        while i < self.recoveries.len()
            invariant
                0 <= i <= self.recoveries@.len(),
                find_recovery_by_token(self.recoveries@, token@) == find_recovery_by_token(
                    self.recoveries@.skip(i as int),
                    token@,
                ),
            decreases self.recoveries@.len() - i,
        {
            let ghost rest = self.recoveries@.skip(i as int);
            assert(rest.first() == self.recoveries@[i as int]);
            assert(rest.drop_first() =~= self.recoveries@.skip(i + 1));
            if str_eq(self.recoveries[i].token.as_str(), token) {
                return Some(self.recoveries[i].clone());
            }
            i = i + 1;
        }
        None
    }

    fn users_password_recovery_invalide(&mut self, token: String) {
        let ghost before = self.recoveries@;
        let mut i: usize = 0;
        while i < self.recoveries.len()
            invariant
                0 <= i <= self.recoveries@.len(),
                self.recoveries@.len() == before.len(),
                forall|j: int| 0 <= j < i ==> self.recoveries@[j] == invalidated(before, token@)[j],
                forall|j: int| i <= j < before.len() ==> self.recoveries@[j] == before[j],
                self.users == old(self).users,
                self.devices == old(self).devices,
            decreases self.recoveries@.len() - i,
        {
            if str_eq(self.recoveries[i].token.as_str(), token.as_str()) {
                let mut row = self.recoveries[i].clone();
                row.valid = false;
                self.recoveries.set(i, row);
            }
            i = i + 1;
        }
        assert(self.recoveries@ =~= invalidated(before, token@));
    }
}

impl DevicesRepository for MemoryRepository {
    open spec fn devices(&self) -> Seq<Device> {
        self.devices@
    }

    fn devices_find_device_name(&self, user_id: i32, device_name: &str) -> (r: Option<String>) {
        let mut i: usize = 0;
        while i < self.devices.len()
            invariant
                0 <= i <= self.devices@.len(),
                forall|j: int|
                    0 <= j < i ==> !((#[trigger] self.devices@[j]).user_id == user_id
                        && self.devices@[j].name@ == device_name@),
            decreases self.devices@.len() - i,
        {
            if self.devices[i].user_id == user_id && str_eq(
                self.devices[i].name.as_str(),
                device_name,
            ) {
                return Some(self.devices[i].name.clone());
            }
            i = i + 1;
        }
        None
    }
}

impl AccountsRepository for MemoryRepository {
    open spec fn groups(&self) -> Seq<AccountGroup> {
        self.groups@
    }

    open spec fn accounts(&self) -> Seq<Account> {
        self.accounts@
    }

    open spec fn passwords(&self) -> Seq<AccountPasswordView> {
        password_views(self.passwords@)
    }

    fn accounts_groups_list(&self, user_id: i32) -> (r: Vec<AccountGroup>) {
        let mut found: Vec<AccountGroup> = Vec::new();
        let mut i: usize = 0;
        while i < self.groups.len()
            invariant
                0 <= i <= self.groups@.len(),
                found@ == groups_of_user(self.groups@.take(i as int), user_id),
            decreases self.groups@.len() - i,
        {
            let ghost next = self.groups@.take(i + 1);
            assert(next.last() == self.groups@[i as int]);
            assert(next.drop_last() =~= self.groups@.take(i as int));
            if self.groups[i].user_id == user_id {
                found.push(self.groups[i].clone());
            }
            i = i + 1;
        }
        assert(self.groups@.take(i as int) =~= self.groups@);
        found
    }

    fn accounts_groups_find_by_id(&self, id: i32, user_id: i32) -> (r: Option<AccountGroup>) {
        let mut i: usize = 0;
        assert(self.groups@.skip(0) =~= self.groups@);
        while i < self.groups.len()
            invariant
                0 <= i <= self.groups@.len(),
                find_group(self.groups@, id, user_id) == find_group(
                    self.groups@.skip(i as int),
                    id,
                    user_id,
                ),
            decreases self.groups@.len() - i,
        {
            let ghost rest = self.groups@.skip(i as int);
            assert(rest.first() == self.groups@[i as int]);
            assert(rest.drop_first() =~= self.groups@.skip(i + 1));
            if self.groups[i].id == id && self.groups[i].user_id == user_id {
                return Some(self.groups[i].clone());
            }
            i = i + 1;
        }
        None
    }

    /// Adds the group under the next id of the table. It refuses only where
    /// the table has no next id.
    fn accounts_groups_insert(&mut self, account_group: NewAccountGroup) -> (r: Result<
        AccountGroup,
        (),
    >)
        ensures
            match r {
                Ok(row) => next_id(old(self).groups@) == Some(row.id),
                Err(_) => next_id(old(self).groups@) is None,
            },
    {
        match fresh_id(&self.groups) {
            Some(id) => {
                let row = AccountGroup {
                    id,
                    user_id: account_group.user_id,
                    name: account_group.name,
                };
                self.groups.push(row.clone());
                Ok(row)
            },
            None => Err(()),
        }
    }

    /// Adds the account under the next id of the table. It refuses only
    /// where the table has no next id.
    fn accounts_insert(&mut self, account: NewAccount) -> (r: Result<Account, ()>)
        ensures
            match r {
                Ok(row) => next_id(old(self).accounts@) == Some(row.id),
                Err(_) => next_id(old(self).accounts@) is None,
            },
    {
        match fresh_id(&self.accounts) {
            Some(id) => {
                let row = Account {
                    id,
                    user_id: account.user_id,
                    name: account.name,
                    level: account.level,
                    account_groups_id: account.account_groups_id,
                };
                self.accounts.push(row.clone());
                Ok(row)
            },
            None => Err(()),
        }
    }

    fn accounts_list(&self, user_id: i32) -> (r: Vec<Account>) {
        let mut found: Vec<Account> = Vec::new();
        let mut i: usize = 0;
        while i < self.accounts.len()
            invariant
                0 <= i <= self.accounts@.len(),
                found@ == accounts_of_user(self.accounts@.take(i as int), user_id),
            decreases self.accounts@.len() - i,
        {
            let ghost next = self.accounts@.take(i + 1);
            assert(next.last() == self.accounts@[i as int]);
            assert(next.drop_last() =~= self.accounts@.take(i as int));
            if self.accounts[i].user_id == user_id {
                found.push(self.accounts[i].clone());
            }
            i = i + 1;
        }
        assert(self.accounts@.take(i as int) =~= self.accounts@);
        found
    }

    fn accounts_list_by_group_id(&self, user_id: i32, group_id: i32) -> (r: Vec<Account>) {
        let mut found: Vec<Account> = Vec::new();
        let mut i: usize = 0;
        while i < self.accounts.len()
            invariant
                0 <= i <= self.accounts@.len(),
                found@ == accounts_of_group(self.accounts@.take(i as int), user_id, group_id),
            decreases self.accounts@.len() - i,
        {
            let ghost next = self.accounts@.take(i + 1);
            assert(next.last() == self.accounts@[i as int]);
            assert(next.drop_last() =~= self.accounts@.take(i as int));
            if self.accounts[i].user_id == user_id && self.accounts[i].account_groups_id
                == group_id {
                found.push(self.accounts[i].clone());
            }
            i = i + 1;
        }
        assert(self.accounts@.take(i as int) =~= self.accounts@);
        found
    }

    fn accounts_get_with_passwords_by_account_id(&self, account_id: i32, user_id: i32) -> (r:
        Option<(Account, Vec<AccountPassword>)>) {
        let mut i: usize = 0;
        assert(self.accounts@.skip(0) =~= self.accounts@);
        while i < self.accounts.len()
            invariant
                0 <= i <= self.accounts@.len(),
                find_account(self.accounts@, account_id, user_id) == find_account(
                    self.accounts@.skip(i as int),
                    account_id,
                    user_id,
                ),
            decreases self.accounts@.len() - i,
        {
            let ghost rest = self.accounts@.skip(i as int);
            assert(rest.first() == self.accounts@[i as int]);
            assert(rest.drop_first() =~= self.accounts@.skip(i + 1));
            if self.accounts[i].id == account_id && self.accounts[i].user_id == user_id {
                let passwords = self.accounts_passwords_list_account_id(account_id);
                return Some((self.accounts[i].clone(), passwords));
            }
            i = i + 1;
        }
        None
    }

    /// Adds the credential under the next id of the table. It refuses only
    /// where the table has no next id.
    fn account_passwords_insert(&mut self, account_password: NewAccountPassword) -> (r: Result<
        i32,
        (),
    >)
        ensures
            match r {
                Ok(id) => next_id(old(self).passwords@) == Some(id),
                Err(_) => next_id(old(self).passwords@) is None,
            },
    {
        match fresh_id(&self.passwords) {
            Some(id) => {
                let ghost before = self.passwords@;
                assert forall|i: int| 0 <= i < before.len() implies (#[trigger] password_views(
                    before,
                )[i]).id != id by {
                    assert(before[i].row_id() < id);
                }
                self.passwords.push(
                    AccountPassword {
                        id,
                        account_id: account_password.account_id,
                        username: account_password.username,
                        password: account_password.password,
                        created_date: account_password.created_date,
                    },
                );
                assert(password_views(self.passwords@) =~= password_views(before).push(
                    password_row(id, account_password),
                ));
                Ok(id)
            },
            None => Err(()),
        }
    }

    fn accounts_passwords_list_account_id(&self, account_id: i32) -> (r: Vec<AccountPassword>) {
        let mut found: Vec<AccountPassword> = Vec::new();
        let mut i: usize = 0;
        let ghost views = password_views(self.passwords@);
        while i < self.passwords.len()
            invariant
                0 <= i <= self.passwords@.len(),
                views == password_views(self.passwords@),
                password_views(found@) == passwords_of_account(views.take(i as int), account_id),
            decreases self.passwords@.len() - i,
        {
            let ghost next = views.take(i + 1);
            assert(next.last() == self.passwords@[i as int]@);
            assert(next.drop_last() =~= views.take(i as int));
            if self.passwords[i].account_id == account_id {
                let ghost before = found@;
                found.push(self.passwords[i].clone());
                assert(password_views(found@) =~= password_views(before).push(
                    self.passwords@[i as int]@,
                ));
            }
            i = i + 1;
        }
        assert(views.take(i as int) =~= views);
        found
    }
}

} // verus!
