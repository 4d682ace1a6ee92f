//! The accounts as an administrator or an operator sees and changes them.

use vstd::prelude::*;
use crate::crypt::hash;
use crate::handlers::{settle, settled};
use crate::models::User;
use crate::reserr::ResErr;

verus! {

/// The error of a request for accounts that the store does not give.
pub const CANT_GET_USERS: &'static str = "cant get users";

/// The error of a request for an account that the store does not give.
pub const CANT_GET_USER: &'static str = "cant get user";

/// The refusal to make an administrator.
pub const CANT_CREATE_ADMIN: &'static str = "cant create admin";

/// The refusal of an account that breaks a rule for its fields.
pub const NO_VALID_INPUT: &'static str = "no valid input";

/// The error of a password that could not be hashed.
pub const BAD_HASH: &'static str = "bad hash";

/// The error of an account that the store did not take.
pub const CANT_ADD_USER: &'static str = "cant add user";

/// The answer to an account that was added.
pub const USER_ADDED: &'static str = "user added";

/// The refusal to delete an administrator.
pub const CANT_DELETE_ADMIN: &'static str = "cant delete admin";

/// The error of an account that the store did not delete.
pub const CANT_DELETE_USER: &'static str = "cant delete user";

/// The answer to an account that was deleted.
pub const USER_DELETED: &'static str = "user deleted";

/// The refusal to turn an account into an administrator.
pub const CANT_ADD_ADMIN: &'static str = "cant add admin";

/// The refusal to change an administrator.
pub const CANT_UPDATE_ADMIN: &'static str = "cant update admin";

/// The error of an account that the store did not change.
pub const CANT_UPDATE_USER: &'static str = "cant update user";

/// The answer to an account that was changed.
pub const USER_UPDATED: &'static str = "user updated";

/// `user` with another password and nothing else changed.
pub open spec fn with_pass(user: User, pass: String) -> User {
    User { pass, ..user }
}

/// Whether `shown` is `user` with an empty password.
pub open spec fn is_blanked(user: User, shown: User) -> bool {
    &&& shown.pass@ == Seq::<char>::empty()
    &&& shown == with_pass(user, shown.pass)
}

/// `user` without its password, as it is shown.
pub fn blanked(user: User) -> (shown: User)
    ensures
        is_blanked(user, shown),
{
    let User { id, name, email, pass: _, size, path, status } = user;
    User { id, name, email, pass: String::new(), size, path, status }
}

/// The accounts as the list of them is shown: each without its password,
/// but for the first, which keeps it.
pub fn get_users(users: Vec<User>) -> (shown: Vec<User>)
    requires
        users.len() > 0,
    ensures
        shown.len() == users.len(),
        shown[0] == users[0],
        forall|i: int| 1 <= i < users.len() ==> is_blanked(users[i], #[trigger] shown[i]),
{
    let mut rest = users;
    let mut tail: Vec<User> = Vec::new();
    while rest.len() > 1
        invariant
            1 <= rest.len() <= users.len(),
            rest@ == users@.take(rest.len() as int),
            tail.len() == users.len() - rest.len(),
            forall|j: int|
                0 <= j < tail.len() ==> is_blanked(
                    users[users.len() - 1 - j],
                    #[trigger] tail[j],
                ),
        decreases rest.len(),
    {
        let last = rest.pop().unwrap();
        tail.push(blanked(last));
    }
    let mut shown = rest;
    while tail.len() > 0
        invariant
            shown.len() + tail.len() == users.len(),
            shown.len() >= 1,
            shown[0] == users[0],
            forall|i: int| 1 <= i < shown.len() ==> is_blanked(users[i], #[trigger] shown[i]),
            forall|j: int|
                0 <= j < tail.len() ==> is_blanked(
                    users[users.len() - 1 - j],
                    #[trigger] tail[j],
                ),
        decreases tail.len(),
    {
        let next = tail.pop().unwrap();
        shown.push(next);
    }
    shown
}

/// An account as it is shown: without its password.
pub fn get_user_by_id(user: User) -> (shown: User)
    ensures
        is_blanked(user, shown),
{
    blanked(user)
}

/// What becomes of an account whose password was to be hashed: the
/// account with the hash in place of the password, or the error with the
/// words `failure` where there is no hash.
pub open spec fn hashed(user: User, hash: Option<String>, failure: &'static str) -> Result<
    User,
    ResErr,
> {
    match hash {
        Some(hash) => Ok(with_pass(user, hash)),
        None => Err(ResErr::InternalError(failure)),
    }
}

/// Puts the hash of its password into an account, or fails with the words
/// `failure` where the password could not be hashed.
pub fn with_hash(user: User, hash: Option<String>, failure: &'static str) -> (r: Result<
    User,
    ResErr,
>)
    ensures
        r == hashed(user, hash, failure),
{
    match hash {
        Some(hash) => {
            let User { id, name, email, pass: _, size, path, status } = user;
            Ok(User { id, name, email, pass: hash, size, path, status })
        },
        None => Err(ResErr::InternalError(failure)),
    }
}

/// Whether an account may be added, before its password is looked at: no
/// administrator is made, and the fields must keep their rules.
pub open spec fn may_add(user: User, valid: bool) -> Result<(), ResErr> {
    if user.status == 1 {
        Err(ResErr::BadClientData(CANT_CREATE_ADMIN))
    } else if !valid {
        Err(ResErr::BadClientData(NO_VALID_INPUT))
    } else {
        Ok(())
    }
}

/// Prepares an account for the store. `valid` says whether its fields
/// keep their rules.
///
/// An account with the status of an administrator is refused, then one
/// that is not valid. Any other is handed back with the hash of its
/// password in place of the password, unless the hashing fails.
pub fn add_user(user: User, valid: bool) -> (r: Result<User, ResErr>)
    ensures
        may_add(user, valid) matches Err(refusal) ==> r == Err::<User, ResErr>(refusal),
        may_add(user, valid) is Ok ==> exists|hash: Option<String>|
            r == hashed(user, hash, BAD_HASH),
{
    if user.status == 1 {
        return Err(ResErr::BadClientData(CANT_CREATE_ADMIN));
    }
    if !valid {
        return Err(ResErr::BadClientData(NO_VALID_INPUT));
    }
    let hash = match hash(user.pass.as_str()) {
        Ok(hash) => Some(hash),
        Err(_) => None,
    };
    with_hash(user, hash, BAD_HASH)
}

/// Answers the adding of an account; `added` says whether the store took
/// it.
pub fn user_added(added: bool) -> (r: Result<&'static str, ResErr>)
    ensures
        r == settled(added, USER_ADDED, CANT_ADD_USER),
{
    settle(added, USER_ADDED, CANT_ADD_USER)
}

/// Whether the account that the store holds under an id may be deleted:
/// a missing account cannot, and an administrator may not.
pub fn delete_user(stored: Option<User>) -> (r: Result<(), ResErr>)
    ensures
        r == match stored {
            None => Err::<(), ResErr>(ResErr::BadClientData(CANT_GET_USER)),
            Some(user) => if user.status == 1 {
                Err(ResErr::BadClientData(CANT_DELETE_ADMIN))
            } else {
                Ok(())
            },
        },
{
    match stored {
        None => Err(ResErr::BadClientData(CANT_GET_USER)),
        Some(user) => {
            if user.status == 1 {
                Err(ResErr::BadClientData(CANT_DELETE_ADMIN))
            } else {
                Ok(())
            }
        },
    }
}

/// Answers the deleting of an account; `deleted` says whether the store
/// deleted it.
pub fn user_deleted(deleted: bool) -> (r: Result<&'static str, ResErr>)
    ensures
        r == settled(deleted, USER_DELETED, CANT_DELETE_USER),
{
    settle(deleted, USER_DELETED, CANT_DELETE_USER)
}

/// Whether an account may take the place of the one that the store holds
/// under an id, before the store is asked: the fields must keep their
/// rules, and no account is turned into an administrator.
pub fn may_update_user(user: &User, valid: bool) -> (r: Result<(), ResErr>)
    ensures
        r == if !valid {
            Err::<(), ResErr>(ResErr::BadClientData(NO_VALID_INPUT))
        } else if user.status == 1 {
            Err(ResErr::BadClientData(CANT_ADD_ADMIN))
        } else {
            Ok(())
        },
{
    if !valid {
        return Err(ResErr::BadClientData(NO_VALID_INPUT));
    }
    if user.status == 1 {
        return Err(ResErr::BadClientData(CANT_ADD_ADMIN));
    }
    Ok(())
}

/// Whether the account `stored` may be replaced: a missing account
/// cannot, and an administrator may not.
pub open spec fn may_replace(stored: Option<User>) -> Result<(), ResErr> {
    match stored {
        None => Err(ResErr::BadClientData(CANT_GET_USER)),
        Some(old) => if old.status == 1 {
            Err(ResErr::BadClientData(CANT_UPDATE_ADMIN))
        } else {
            Ok(())
        },
    }
}

/// Prepares the account that takes the place of `stored`, which is what
/// the store holds under the id of the request.
///
/// Where there is no such account, or it is an administrator, the request
/// is refused. Else `user` is handed back with the hash of its password
/// in place of the password, unless the hashing fails.
pub fn update_user(user: User, stored: Option<User>) -> (r: Result<User, ResErr>)
    ensures
        may_replace(stored) matches Err(refusal) ==> r == Err::<User, ResErr>(refusal),
        may_replace(stored) is Ok ==> exists|hash: Option<String>|
            r == hashed(user, hash, BAD_HASH),
{
    match stored {
        None => {
            return Err(ResErr::BadClientData(CANT_GET_USER));
        },
        Some(old) => {
            if old.status == 1 {
                return Err(ResErr::BadClientData(CANT_UPDATE_ADMIN));
            }
        },
    }
    let hash = match hash(user.pass.as_str()) {
        Ok(hash) => Some(hash),
        Err(_) => None,
    };
    with_hash(user, hash, BAD_HASH)
}

/// Answers the changing of an account; `updated` says whether the store
/// changed it.
pub fn user_updated(updated: bool) -> (r: Result<&'static str, ResErr>)
    ensures
        r == settled(updated, USER_UPDATED, CANT_UPDATE_USER),
{
    settle(updated, USER_UPDATED, CANT_UPDATE_USER)
}

} // verus!
