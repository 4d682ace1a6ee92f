//! An account as its owner sees and changes it.

use vstd::prelude::*;
use crate::crypt::hash;
use crate::handlers::admin::{blanked, is_blanked};
use crate::handlers::{settle, settled};
use crate::models::{ChangingUser, User};
use crate::reserr::ResErr;

verus! {

/// The error of a password that could not be hashed.
pub const CANT_HASH: &'static str = "cant hash";

/// The error of a change that the store did not take.
pub const CANT_UPDATE: &'static str = "cant update";

/// The answer to a change that was made.
pub const UPDATED: &'static str = "updated";

/// The account of the request as it is shown to its owner: without its
/// password.
pub fn get_me(user: User) -> (shown: User)
    ensures
        is_blanked(user, shown),
{
    blanked(user)
}

/// What becomes of a change whose fields keep their rules and whose
/// password was to be hashed: the change with the hash in place of the
/// password, or the error where there is no hash.
pub open spec fn changed(user: ChangingUser, hash: Option<String>) -> Result<
    ChangingUser,
    ResErr,
> {
    match hash {
        Some(hash) => Ok(ChangingUser { pass: hash, ..user }),
        None => Err(ResErr::InternalError(CANT_HASH)),
    }
}

/// Puts the hash of its password into a change, or fails where the
/// password could not be hashed.
pub fn with_hash(user: ChangingUser, hash: Option<String>) -> (r: Result<ChangingUser, ResErr>)
    ensures
        r == changed(user, hash),
{
    match hash {
        Some(hash) => {
            let ChangingUser { name, email, pass: _, } = user;
            Ok(ChangingUser { name, email, pass: hash })
        },
        None => Err(ResErr::InternalError(CANT_HASH)),
    }
}

/// Prepares the change that an account makes to itself. `broken` is
/// `None` where the fields of the change keep their rules, else the words
/// for a rule that is broken.
///
/// A change that breaks a rule is refused with those words. Any other is
/// handed back with the hash of its password in place of the password,
/// unless the hashing fails.
pub fn update_me(user: ChangingUser, broken: Option<String>) -> (r: Result<ChangingUser, ResErr>)
    ensures
        broken matches Some(words) ==> r == Err::<ChangingUser, ResErr>(
            ResErr::BadClientDataOwned(words),
        ),
        broken is None ==> exists|hash: Option<String>| r == changed(user, hash),
{
    if let Some(words) = broken {
        return Err(ResErr::BadClientDataOwned(words));
    }
    let hash = match hash(user.pass.as_str()) {
        Ok(hash) => Some(hash),
        Err(_) => None,
    };
    with_hash(user, hash)
}

/// Answers the change of an account by itself; `updated` says whether
/// the store made it.
pub fn me_updated(updated: bool) -> (r: Result<&'static str, ResErr>)
    ensures
        r == settled(updated, UPDATED, CANT_UPDATE),
{
    settle(updated, UPDATED, CANT_UPDATE)
}

} // verus!
