//! The check of a password against its hash.

use vstd::prelude::*;

verus! {

/// `bcrypt::BcryptError`, which tells that a text is not a hash.
#[verifier::external_type_specification]
#[verifier::external_body]
pub struct ExBcryptError(bcrypt::BcryptError);

/// What `bcrypt::verify` says of a password and a hash: whether the one belongs to the other, or
/// nothing where the hash cannot be read.
pub uninterp spec fn bcrypt_verdict(password: Seq<char>, hash: Seq<char>) -> Option<bool>;

/// `bcrypt::verify`: whether the password is the one that the hash was made from, or the error
/// on a hash that cannot be read. The verdict depends on the two texts alone.
#[verifier::external_body]
fn verify(password: &str, hash: &str) -> (res: Result<bool, bcrypt::BcryptError>)
    ensures
        match res {
            Ok(valid) => bcrypt_verdict(password@, hash@) == Some(valid),
            Err(_) => bcrypt_verdict(password@, hash@) is None,
        },
{
    bcrypt::verify(password, hash)
}

/// The password belongs to the hash. It belongs to none that cannot be read.
pub open spec fn password_matches(password: Seq<char>, hash: Seq<char>) -> bool {
    bcrypt_verdict(password, hash) == Some(true)
}

/// Whether the password belongs to the hash.
pub fn is_password(password: &str, hash: &str) -> (res: bool)
    ensures
        res == password_matches(password@, hash@),
{
    match verify(password, hash) {
        Ok(valid) => valid,
        Err(_) => false,
    }
}

} // verus!
