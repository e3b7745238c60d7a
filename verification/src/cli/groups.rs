//! The group commands.

use vstd::prelude::*;
use vstd::string::*;

use crate::model::accounts::AccountGroupRegister;

verus! {

/// What to do with groups.
#[derive(Debug)]
pub enum GroupsCommands {
    List,
    Create { name: String },
}

/// The group commands.
#[derive(Debug)]
pub struct Groups {
    pub command: GroupsCommands,
}

impl Groups {
    /// The request that creates a group of that name.
    pub fn request(name: &str) -> (r: AccountGroupRegister)
        ensures
            r.name@ == name@,
    {
        AccountGroupRegister { name: name.to_owned() }
    }
}

} // verus!
