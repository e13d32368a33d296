use vstd::prelude::*;

verus! {

/// `bcrypt::BcryptError`, the reason why hashing or checking a secret
/// failed: carried to the caller as it is.
#[verifier::external_type_specification]
#[verifier::external_body]
pub struct ExBcryptError(bcrypt::BcryptError);

/// What `bcrypt::verify` says of a password and a stored hash: `Some(true)`
/// where the password is the hashed one, `Some(false)` where it is not, and
/// `None` where the hash cannot be read.
pub uninterp spec fn bcrypt_verify(password: Seq<char>, hash: Seq<char>) -> Option<bool>;

/// A letter of the English alphabet, in either case, or a decimal digit.
pub open spec fn is_alphanumeric(c: char) -> bool {
    ('a' <= c <= 'z') || ('A' <= c <= 'Z') || ('0' <= c <= '9')
}

/// `bcrypt::verify`: recomputes the hash of `password` with the salt and
/// cost that `hash` names and compares in constant time; an error where
/// `hash` is not a bcrypt hash.
#[verifier::external_body]
pub(crate) fn verify_password(password: &str, hash: &str) -> (r: Result<bool, bcrypt::BcryptError>)
    ensures
        match r {
            Ok(valid) => bcrypt_verify(password@, hash@) == Some(valid),
            Err(_) => bcrypt_verify(password@, hash@) is None,
        },
{
    bcrypt::verify(password, hash)
}

/// `bcrypt::hash` at `bcrypt::DEFAULT_COST`: a hash of `password` under a
/// salt drawn at random, so two calls differ; every hash it returns is one
/// that `bcrypt::verify` accepts for the same password.
#[verifier::external_body]
pub(crate) fn hash_password(password: &str) -> (r: Result<String, bcrypt::BcryptError>)
    ensures
        r matches Ok(hash) ==> bcrypt_verify(password@, hash@) == Some(true),
{
    bcrypt::hash(password, bcrypt::DEFAULT_COST)
}

/// `Alphanumeric.sample_string` on the thread's generator: `len` characters
/// drawn at random from the letters and digits.
#[verifier::external_body]
pub(crate) fn random_string(len: usize) -> (s: String)
    ensures
        s@.len() == len,
        forall|i: int| 0 <= i < s@.len() ==> is_alphanumeric(#[trigger] s@[i]),
{
    rand::distributions::DistString::sample_string(
        &rand::distributions::Alphanumeric,
        &mut rand::thread_rng(),
        len,
    )
}

} // verus!
