//! Passwords against their stored hashes.
use vstd::prelude::*;

verus! {

/// Why a password could not be held against a hash.
#[verifier::external_type_specification]
#[verifier::external_body]
pub struct ExBcryptError(bcrypt::BcryptError);

/// What `bcrypt::verify` finds of a password and a hash: whether they belong together, or
/// nothing where the hash is malformed.
pub uninterp spec fn bcrypt_verdict(password: Seq<char>, hash: Seq<char>) -> Option<bool>;

/// `bcrypt::verify`: its finding depends on the password and the hash alone.
#[verifier::external_body]
pub(crate) fn bcrypt_verify(password: &str, hash: &str) -> (found: Result<
    bool,
    bcrypt::BcryptError,
>)
    ensures
        found is Ok <==> bcrypt_verdict(password@, hash@) is Some,
        found matches Ok(b) ==> bcrypt_verdict(password@, hash@) == Some(b),
{
    bcrypt::verify(password, hash)
}

/// Holds `password` against `hash`: `None` where the hash is malformed.
pub fn password_verdict(password: &str, hash: &str) -> (verdict: Option<bool>)
    ensures
        verdict == bcrypt_verdict(password@, hash@),
{
    match bcrypt_verify(password, hash) {
        Ok(found) => Some(found),
        Err(_) => None,
    }
}

} // verus!
