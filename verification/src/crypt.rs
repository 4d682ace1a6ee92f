//! Password hashes, as the crate `bcrypt` makes and checks them.

use vstd::prelude::*;

verus! {

/// The error of the crate `bcrypt`; nothing is known of what is in it.
#[verifier::external_type_specification]
#[verifier::external_body]
pub struct ExBcryptError(bcrypt::BcryptError);

/// What `bcrypt::verify` makes of a password and a stored hash: whether
/// the hash is one of the password, or `None` where the hash cannot be
/// read as a bcrypt hash.
pub uninterp spec fn bcrypt_verify(password: Seq<char>, hash: Seq<char>) -> Option<bool>;

/// `bcrypt::verify` splits `hash` into version, cost and salt, hashes
/// `password` again with that cost and salt, and compares. The outcome
/// depends on the two texts alone and is given the name `bcrypt_verify`;
/// an error of the crate is the `None` of that name.
#[verifier::external_body]
pub(crate) fn verify(password: &str, hash: &str) -> (r: Result<bool, bcrypt::BcryptError>)
    ensures
        match r {
            Ok(same) => bcrypt_verify(password@, hash@) == Some(same),
            Err(_) => bcrypt_verify(password@, hash@) is None,
        },
{
    bcrypt::verify(password, hash)
}

/// `bcrypt::hash` with the crate's default cost. The salt is drawn at
/// random, so nothing is said of the hash that comes back, nor of when
/// the call fails.
#[verifier::external_body]
pub(crate) fn hash(password: &str) -> (r: Result<String, bcrypt::BcryptError>) {
    bcrypt::hash(password, bcrypt::DEFAULT_COST)
}

} // verus!
