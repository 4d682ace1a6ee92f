//! Logging in, and checking a login.

use vstd::prelude::*;
use crate::crypt::{bcrypt_verify, verify};
use crate::jwt::{authorize, authorized, Bearer};
use crate::models::{Claims, User};
use crate::reserr::ResErr;

verus! {

/// The one answer to every login that fails.
pub const BAD_LOGIN: &'static str = "bad email or password";

/// What a login is answered with, where the account it names has the id
/// `id` and `checked` says what checking the password against the stored
/// hash gave: the id for which a token is issued, where the password is
/// the right one.
pub open spec fn admitted(id: u32, checked: Option<bool>) -> Result<u32, ResErr> {
    if checked == Some(true) {
        Ok(id)
    } else {
        Err(ResErr::BadClientData(BAD_LOGIN))
    }
}

/// What a login is answered with: as `admitted` for an account that the
/// store holds, and the same refusal where it holds none.
pub open spec fn login_of(found: Option<User>, password: Seq<char>) -> Result<u32, ResErr> {
    match found {
        None => Err(ResErr::BadClientData(BAD_LOGIN)),
        Some(user) => admitted(user.id, bcrypt_verify(password, user.pass@)),
    }
}

/// Admits the login to the account with the id `id` where the password
/// was checked and found right.
pub fn let_in(id: u32, checked: Option<bool>) -> (r: Result<u32, ResErr>)
    ensures
        r == admitted(id, checked),
        r is Ok <==> checked == Some(true),
{
    match checked {
        Some(true) => Ok(id),
        _ => Err(ResErr::BadClientData(BAD_LOGIN)),
    }
}

/// Decides a login. `found` is what the store holds under the email of
/// the login, `password` the password that was given. The answer is the
/// id for which a token is to be issued; every failure is answered alike.
pub fn login(found: Option<User>, password: &str) -> (r: Result<u32, ResErr>)
    ensures
        r == login_of(found, password@),
{
    match found {
        None => Err(ResErr::BadClientData(BAD_LOGIN)),
        Some(user) => {
            let checked = match verify(password, user.pass.as_str()) {
                Ok(same) => Some(same),
                Err(_) => None,
            };
            let_in(user.id, checked)
        },
    }
}

/// The claims of a request that asks whether it is logged in, or the
/// refusal.
pub fn check_login(bearer: Bearer) -> (r: Result<Claims, ResErr>)
    ensures
        r == match authorized(bearer) {
            Ok(claims) => Ok::<Claims, ResErr>(claims),
            Err(words) => Err(ResErr::BadClientData(words)),
        },
{
    match authorize(bearer) {
        Ok(claims) => Ok(claims),
        Err(words) => Err(ResErr::BadClientData(words)),
    }
}

} // verus!
