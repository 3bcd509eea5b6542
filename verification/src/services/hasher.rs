//! Stored passwords: a salted, slow one-way hash and its verification.
//!
//! The hashing itself is bcrypt's. This module decides what counts as a match
//! and turns every failure of the primitive into a plain answer.

use vstd::prelude::*;
use vstd::utf8::is_ascii_chars;

verus! {

/// The error type of the `bcrypt` crate, carried through unopened.
#[verifier::external_type_specification]
#[verifier::external_body]
pub struct ExBcryptError(bcrypt::BcryptError);

/// What `bcrypt::verify` answers for a password and a stored hash: `Some` of
/// its verdict, or `None` where it reports an error.
pub uninterp spec fn bcrypt_verdict(plaintext: Seq<char>, hash: Seq<char>) -> Option<bool>;

/// The smallest work factor that bcrypt accepts.
pub const MIN_COST: u32 = 4;

/// The largest work factor that bcrypt accepts.
pub const MAX_COST: u32 = 31;

/// The work factor used where none is configured.
pub const DEFAULT_COST: u32 = 12;

/// The length of a bcrypt hash, in characters: the version between dollar
/// signs, two digits of work factor, a dollar sign, 22 characters of salt and
/// 31 of hash.
pub const HASH_LENGTH: usize = 60;

/// The work factor that a bcrypt hash records: the number that its fifth and
/// sixth characters spell, behind the version and in front of the salt.
pub open spec fn cost_in_hash(hash: Seq<char>) -> int {
    (hash[4] as u32 - 0x30) * 10 + (hash[5] as u32 - 0x30)
}

/// Calls `bcrypt::hash`, which salts the password with fresh random bytes.
///
/// Claimed of it: a hash that it returns is 60 ASCII characters long, records
/// the work factor it was made with in two digits behind the version, and
/// `bcrypt::verify` accepts the same password against it; it reports an error
/// for a work factor outside 4..=31 and for a password that holds a NUL
/// character. Nothing is claimed about which hash comes back.
#[verifier::external_body]
fn bcrypt_hash(plaintext: &str, cost: u32) -> (res: Result<String, bcrypt::BcryptError>)
    ensures
        res matches Ok(h) ==> {
            &&& h@.len() == HASH_LENGTH
            &&& is_ascii_chars(h@)
            &&& cost_in_hash(h@) == cost
            &&& bcrypt_verdict(plaintext@, h@) == Some(true)
        },
        cost < MIN_COST || cost > MAX_COST ==> res is Err,
        plaintext@.contains('\0') ==> res is Err,
{
    bcrypt::hash(plaintext, cost)
}

/// Calls `bcrypt::verify`.
///
/// Claimed of it: its answer depends on the password and the hash alone. The
/// hash has to be ASCII, because `bcrypt::verify` cuts it at a fixed byte
/// offset and would panic inside a longer character.
#[verifier::external_body]
fn bcrypt_verify(plaintext: &str, hash: &str) -> (res: Result<bool, bcrypt::BcryptError>)
    requires
        is_ascii_chars(hash@),
    ensures
        match res {
            Ok(verdict) => bcrypt_verdict(plaintext@, hash@) == Some(verdict),
            Err(_) => bcrypt_verdict(plaintext@, hash@).is_none(),
        },
{
    bcrypt::verify(plaintext, hash)
}

/// Hashing failed. Fatal for the registration that asked for it.
#[derive(Clone, Copy, Debug, PartialEq, Eq, Structural)]
pub struct HashingError;

/// Whether `plaintext` is the password that `hash` was made from.
///
/// A hash that is not ASCII, or that bcrypt cannot read, matches nothing.
pub open spec fn password_matches(plaintext: Seq<char>, hash: Seq<char>) -> bool {
    is_ascii_chars(hash) && bcrypt_verdict(plaintext, hash) == Some(true)
}

/// What a verdict of the primitive counts for: only a clean "yes" is a match,
/// an error is a "no".
pub fn accepted(outcome: Result<bool, bcrypt::BcryptError>) -> (ok: bool)
    ensures
        ok == (outcome matches Ok(verdict) && verdict),
{
    match outcome {
        Ok(verdict) => verdict,
        Err(_) => false,
    }
}

/// What an outcome of the primitive counts for: the hash it made, as it is,
/// or `HashingError` for whatever error it reported.
pub fn hash_outcome(outcome: Result<String, bcrypt::BcryptError>) -> (res: Result<
    String,
    HashingError,
>)
    ensures
        res == match outcome {
            Ok(h) => Ok::<String, HashingError>(h),
            Err(_) => Err::<String, HashingError>(HashingError),
        },
{
    match outcome {
        Ok(h) => Ok(h),
        Err(_) => Err(HashingError),
    }
}

/// Hashes `plaintext` with the work factor `cost`.
///
/// The hash that comes back is 60 characters long, matches `plaintext` and
/// was made with the work factor `cost`, which it records. A work factor outside
/// `MIN_COST..=MAX_COST` and a password with a NUL character in it are
/// refused. Whether any other hashing succeeds is up to the random source that
/// the salt is drawn from: `hash_outcome` says what is made of either outcome.
pub fn hash(plaintext: &str, cost: u32) -> (res: Result<String, HashingError>)
    ensures
        res matches Ok(h) ==> {
            &&& h@.len() == HASH_LENGTH
            &&& password_matches(plaintext@, h@)
            &&& cost_in_hash(h@) == cost
        },
        cost < MIN_COST || cost > MAX_COST ==> res == Err::<String, HashingError>(HashingError),
        plaintext@.contains('\0') ==> res == Err::<String, HashingError>(HashingError),
{
    hash_outcome(bcrypt_hash(plaintext, cost))
}

/// Whether `plaintext` matches the stored `hash`. Never fails: a hash that
/// cannot be read is a mismatch.
pub fn verify(plaintext: &str, hash: &str) -> (ok: bool)
    ensures
        ok == password_matches(plaintext@, hash@),
{
    if !hash.is_ascii() {
        return false;
    }
    accepted(bcrypt_verify(plaintext, hash))
}

} // verus!
