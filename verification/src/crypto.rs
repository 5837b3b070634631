//! Password hashing with bcrypt and salt drawing with an HC-128 generator.

use vstd::prelude::*;
use rand::{Rng, SeedableRng};
use crate::records::Fault;
use crate::text::{int_text, int_to_text, trimmed};

verus! {

#[verifier::external_type_specification]
#[verifier::external_body]
pub struct ExBcryptError(bcrypt::BcryptError);

/// What `bcrypt::verify` answers for a password and a stored hash: `Some(b)`
/// where it returns `Ok(b)`, `None` where it returns an error.
pub uninterp spec fn bcrypt_verify_outcome(password: Seq<char>, hash: Seq<char>) -> Option<bool>;

/// The characters of a bcrypt hash string: `$` and the bcrypt base64 alphabet.
pub open spec fn is_hash_char(c: char) -> bool {
    ||| 'a' <= c <= 'z'
    ||| 'A' <= c <= 'Z'
    ||| '0' <= c <= '9'
    ||| c == '.'
    ||| c == '/'
    ||| c == '$'
}

/// What a successful `bcrypt::hash` of `password` gives: a 60-character
/// string of hash characters that `bcrypt::verify` accepts for `password`.
pub open spec fn is_hash_of(password: Seq<char>, hash: Seq<char>) -> bool {
    &&& bcrypt_verify_outcome(password, hash) == Some(true)
    &&& hash.len() == 60
    &&& forall|i: int| 0 <= i < hash.len() ==> is_hash_char(#[trigger] hash[i])
}

/// Calls `bcrypt::verify(password, hash)`. Its answer depends on the two
/// arguments alone and is named `bcrypt_verify_outcome`.
#[verifier::external_body]
fn bcrypt_verify(password: &str, hash: &str) -> (r: Result<bool, bcrypt::BcryptError>)
    ensures
        match r {
            Ok(b) => bcrypt_verify_outcome(password@, hash@) == Some(b),
            Err(_) => bcrypt_verify_outcome(password@, hash@) is None,
        },
{
    bcrypt::verify(password, hash)
}

/// Calls `bcrypt::hash(password, bcrypt::DEFAULT_COST)`. The salt inside the
/// hash is drawn from the operating system, so two calls differ; what is
/// claimed holds of every outcome: on success the result is a 60-character
/// `$2b$` string over `$` and the bcrypt base64 alphabet, and
/// `bcrypt::verify` accepts `password` against it. It fails only where the
/// operating system gives no randomness; that is not stated.
#[verifier::external_body]
fn bcrypt_hash(password: &str) -> (r: Result<String, bcrypt::BcryptError>)
    ensures
        r matches Ok(h) ==> is_hash_of(password@, h@),
{
    bcrypt::hash(password, bcrypt::DEFAULT_COST)
}

/// Seeds an HC-128 generator from the operating system's entropy
/// (`Hc128Rng::from_rng(EntropyRng::new())`) and draws a `u32` from it
/// (`gen::<u32>()`); `None` where seeding fails because the operating system
/// gives no randomness. Nothing is claimed of the number.
#[verifier::external_body]
pub(crate) fn draw_salt() -> (salt: Option<u32>) {
    match rand_hc::Hc128Rng::from_rng(rand::rngs::EntropyRng::new()) {
        Ok(mut generator) => Some(generator.gen::<u32>()),
        Err(_) => None,
    }
}

/// Whether `password` matches the bcrypt hash `hash`; an error where `hash`
/// is not a hash that bcrypt can check.
pub fn check_password(password: &str, hash: &str) -> (r: Result<bool, Fault>)
    ensures
        match bcrypt_verify_outcome(password@, hash@) {
            Some(b) => r == Ok::<bool, Fault>(b),
            None => r == Err::<bool, Fault>(Fault::MalformedStoredHash),
        },
{
    match bcrypt_verify(password, hash) {
        Ok(b) => Ok(b),
        Err(_) => Err(Fault::MalformedStoredHash),
    }
}

/// A bcrypt hash of `password` at the default cost.
pub fn hash_password(password: &str) -> (r: Result<String, Fault>)
    ensures
        match r {
            Ok(h) => is_hash_of(password@, h@),
            Err(f) => f == Fault::HashingFailed,
        },
{
    match bcrypt_hash(password) {
        Ok(h) => Ok(h),
        Err(_) => Err(Fault::HashingFailed),
    }
}

/// A bcrypt hash has no whitespace, so trimming leaves it as it is.
pub proof fn lemma_hash_is_trimmed(hash: Seq<char>)
    requires
        forall|i: int| 0 <= i < hash.len() ==> is_hash_char(#[trigger] hash[i]),
    ensures
        trimmed(hash) == hash,
{
    if hash.len() > 0 {
        assert(is_hash_char(hash[0]));
        assert(is_hash_char(hash.last()));
    }
}

/// The text that is hashed for a password: the salt in decimal, then the password.
pub open spec fn salted(salt: int, password: Seq<char>) -> Seq<char> {
    int_text(salt) + password
}

/// The salted text of `password`, as `format!("{}{}", salt, password)` builds it.
pub fn salted_password(salt: i64, password: &str) -> (t: String)
    ensures
        t@ == salted(salt as int, password@),
{
    let mut t = int_to_text(salt);
    t.append(password);
    t
}

} // verus!
