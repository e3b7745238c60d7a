//! Password recoveries in progress.

use vstd::prelude::*;

verus! {

/// One started password recovery: the digest of the secret that was mailed
/// (never the secret itself), whose password it may change, when it was
/// issued (seconds since the Unix epoch), and whether it is still unused.
#[derive(Debug)]
pub struct UserPasswordRecovery {
    pub user_id: i32,
    pub token: String,
    pub issued_at: i64,
    pub valid: bool,
}

/// A password recovery that has no row yet.
#[derive(Debug)]
pub struct NewUserPasswordRecovery {
    pub user_id: i32,
    pub token: String,
    pub issued_at: i64,
    pub valid: bool,
}

impl Clone for UserPasswordRecovery {
    fn clone(&self) -> (r: Self)
        ensures
            r == *self,
    {
        UserPasswordRecovery {
            user_id: self.user_id,
            token: self.token.clone(),
            issued_at: self.issued_at,
            valid: self.valid,
        }
    }
}

/// The row of a new password recovery.
pub open spec fn recovery_row(recovery: NewUserPasswordRecovery) -> UserPasswordRecovery {
    UserPasswordRecovery {
        user_id: recovery.user_id,
        token: recovery.token,
        issued_at: recovery.issued_at,
        valid: recovery.valid,
    }
}

/// The first recovery with the given token digest.
pub open spec fn find_recovery_by_token(
    recoveries: Seq<UserPasswordRecovery>,
    token: Seq<char>,
) -> Option<UserPasswordRecovery>
    decreases recoveries.len(),
{
    if recoveries.len() == 0 {
        None
    } else if recoveries.first().token@ == token {
        Some(recoveries.first())
    } else {
        find_recovery_by_token(recoveries.drop_first(), token)
    }
}

/// A recovery that can no longer be used.
pub open spec fn used_up(recovery: UserPasswordRecovery) -> UserPasswordRecovery {
    UserPasswordRecovery { valid: false, ..recovery }
}

/// The recoveries after those with the given token digest were used up.
pub open spec fn invalidated(recoveries: Seq<UserPasswordRecovery>, token: Seq<char>) -> Seq<
    UserPasswordRecovery,
> {
    Seq::new(
        recoveries.len(),
        |i: int|
            if recoveries[i].token@ == token {
                used_up(recoveries[i])
            } else {
                recoveries[i]
            },
    )
}

} // verus!
