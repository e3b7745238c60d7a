//! The account commands.

use vstd::prelude::*;
use vstd::string::*;
use vstd::utf8::*;

use crate::model::accounts::{AccountGroupView, AccountRegister, AccountView};
use crate::text::{occurs_in, str_contains, str_eq};

verus! {

/// The level of a new account unless another is asked for.
pub const DEFAULT_LEVEL: i16 = 1;

/// The length of a generated password unless another is asked for.
pub const DEFAULT_PASSWORD_SIZE: usize = 16;

/// An account to create: its name, the group to file it in, and whether
/// its password is to be generated, and how long.
#[derive(Debug)]
pub struct Account {
    pub name: String,
    pub group: Option<String>,
    pub level: i16,
    pub username: String,
    pub generated: bool,
    pub size: usize,
}

/// What to do with accounts.
#[derive(Debug)]
pub enum AccountsCommands {
    Get { name: String },
    List { id: Option<i32> },
    Create(Account),
}

/// The account commands.
#[derive(Debug)]
pub struct Accounts {
    pub command: AccountsCommands,
}

/// Why no group could be chosen for a new account.
#[derive(Clone, Copy, Debug, PartialEq, Eq, Structural)]
pub enum GroupChoiceError {
    /// No group has the name asked for, or a name that holds it.
    GroupNotFound,
    /// No group was asked for, and there is none to fall back on.
    NoDefaultGroup,
}

/// The id of the first account of that name.
pub open spec fn first_account_named(accounts: Seq<AccountView>, name: Seq<char>) -> Option<i32>
    decreases accounts.len(),
{
    if accounts.len() == 0 {
        None
    } else if accounts.first().name@ == name {
        Some(accounts.first().id)
    } else {
        first_account_named(accounts.drop_first(), name)
    }
}

/// The id of the first group of that name.
pub open spec fn first_group_named(groups: Seq<AccountGroupView>, name: Seq<char>) -> Option<i32>
    decreases groups.len(),
{
    if groups.len() == 0 {
        None
    } else if groups.first().name@ == name {
        Some(groups.first().id)
    } else {
        first_group_named(groups.drop_first(), name)
    }
}

/// The id of the first group whose name holds `part`.
pub open spec fn first_group_holding(groups: Seq<AccountGroupView>, part: Seq<char>) -> Option<
    i32,
>
    decreases groups.len(),
{
    if groups.len() == 0 {
        None
    } else if occurs_in(encode_utf8(groups.first().name@), encode_utf8(part)) {
        Some(groups.first().id)
    } else {
        first_group_holding(groups.drop_first(), part)
    }
}

/// The group for a new account: the first of the name asked for; failing
/// that, the first whose name holds what was asked for; and where nothing
/// was asked for, the first group there is.
pub open spec fn chosen_group(groups: Seq<AccountGroupView>, wanted: Option<Seq<char>>) -> Result<
    i32,
    GroupChoiceError,
> {
    match wanted {
        Some(name) => match first_group_named(groups, name) {
            Some(id) => Ok(id),
            None => match first_group_holding(groups, name) {
                Some(id) => Ok(id),
                None => Err(GroupChoiceError::GroupNotFound),
            },
        },
        None => if groups.len() > 0 {
            Ok(groups[0].id)
        } else {
            Err(GroupChoiceError::NoDefaultGroup)
        },
    }
}

impl Accounts {
    /// The id of the account of that name, if the listing shows one.
    pub fn find_account(accounts: &Vec<AccountView>, name: &str) -> (r: Option<i32>)
        ensures
            r == first_account_named(accounts@, name@),
    {
        let mut i: usize = 0;
        assert(accounts@.skip(0) =~= accounts@);
        while i < accounts.len()
            invariant
                0 <= i <= accounts@.len(),
                first_account_named(accounts@, name@) == first_account_named(
                    accounts@.skip(i as int),
                    name@,
                ),
            decreases accounts@.len() - i,
        {
            let ghost rest = accounts@.skip(i as int);
            assert(rest.first() == accounts@[i as int]);
            assert(rest.drop_first() =~= accounts@.skip(i + 1));
            if str_eq(accounts[i].name.as_str(), name) {
                return Some(accounts[i].id);
            }
            i = i + 1;
        }
        None
    }

    /// The id of the first group of that name.
    fn group_named(groups: &Vec<AccountGroupView>, name: &str) -> (r: Option<i32>)
        ensures
            r == first_group_named(groups@, name@),
    {
        let mut i: usize = 0;
        assert(groups@.skip(0) =~= groups@);
        while i < groups.len()
            invariant
                0 <= i <= groups@.len(),
                first_group_named(groups@, name@) == first_group_named(
                    groups@.skip(i as int),
                    name@,
                ),
            decreases groups@.len() - i,
        {
            let ghost rest = groups@.skip(i as int);
            assert(rest.first() == groups@[i as int]);
            assert(rest.drop_first() =~= groups@.skip(i + 1));
            if str_eq(groups[i].name.as_str(), name) {
                return Some(groups[i].id);
            }
            i = i + 1;
        }
        None
    }

    /// The id of the first group whose name holds `part`.
    fn group_holding(groups: &Vec<AccountGroupView>, part: &str) -> (r: Option<i32>)
        ensures
            r == first_group_holding(groups@, part@),
    {
        let mut i: usize = 0;
        assert(groups@.skip(0) =~= groups@);
        while i < groups.len()
            invariant
                0 <= i <= groups@.len(),
                first_group_holding(groups@, part@) == first_group_holding(
                    groups@.skip(i as int),
                    part@,
                ),
            decreases groups@.len() - i,
        {
            let ghost rest = groups@.skip(i as int);
            assert(rest.first() == groups@[i as int]);
            assert(rest.drop_first() =~= groups@.skip(i + 1));
            if str_contains(groups[i].name.as_str(), part) {
                return Some(groups[i].id);
            }
            i = i + 1;
        }
        None
    }

    /// The group to file a new account in.
    pub fn choose_group(groups: &Vec<AccountGroupView>, wanted: Option<&str>) -> (r: Result<
        i32,
        GroupChoiceError,
    >)
        ensures
            r == chosen_group(
                groups@,
                match wanted {
                    Some(name) => Some(name@),
                    None => None,
                },
            ),
    {
        match wanted {
            Some(name) => match Accounts::group_named(groups, name) {
                Some(id) => Ok(id),
                None => match Accounts::group_holding(groups, name) {
                    Some(id) => Ok(id),
                    None => Err(GroupChoiceError::GroupNotFound),
                },
            },
            None => if groups.len() > 0 {
                Ok(groups[0].id)
            } else {
                Err(GroupChoiceError::NoDefaultGroup)
            },
        }
    }

    /// The request that creates `account` in a group with a password.
    pub fn request(account: &Account, group_id: i32, password: String) -> (r: AccountRegister)
        ensures
            r.name == account.name,
            r.group_id == group_id,
            r.level == Some(account.level),
            r.username == account.username,
            r.password == password,
    {
        AccountRegister {
            name: account.name.clone(),
            group_id,
            level: Some(account.level),
            username: account.username.clone(),
            password,
        }
    }
}

} // verus!
