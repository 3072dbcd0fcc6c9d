//! Passwords as the account store keeps them: hashed, never in the clear.

use vstd::prelude::*;
use vstd::string::*;

verus! {

/// What `bcrypt::verify` makes of a password and a stored hash: whether
/// the two match, or `None` where the hash is not one of bcrypt's.
pub uninterp spec fn hash_verdict(password: Seq<char>, hash: Seq<char>) -> Option<bool>;

/// Checks a password against a stored hash with `bcrypt::verify`, which
/// reads cost and salt out of the hash and computes the password's hash
/// anew. The result is fixed by the two texts.
#[verifier::external_body]
pub(crate) fn verify_hash(password: &str, hash: &str) -> (verdict: Option<bool>)
    ensures
        verdict == hash_verdict(password@, hash@),
{
    bcrypt::verify(password, hash).ok()
}

/// Hashes a password with `bcrypt::hash` at `bcrypt::DEFAULT_COST`; `None`
/// where no randomness could be had. The salt is drawn at random, so the
/// hash itself is open. What is claimed is what the crate is for: the
/// hash holds cost and salt, and `bcrypt::verify`, computing anew from
/// them, accepts the password that was hashed.
#[verifier::external_body]
pub(crate) fn fresh_hash(password: &str) -> (hash: Option<String>)
    ensures
        hash matches Some(h) ==> hash_verdict(password@, h@) == Some(true),
{
    bcrypt::hash(password, bcrypt::DEFAULT_COST).ok()
}

/// Whether a password is accepted, given what the store holds for the
/// account: never for an account that the store does not know, nor
/// against a hash that is none, else as the hash decides.
pub open spec fn accepted(stored: Option<Seq<char>>, verdict: Option<bool>) -> bool {
    stored is Some && verdict == Some(true)
}

/// Decides on a password, given the stored hash and what the check of the
/// password against it came to.
pub fn decide(stored: Option<&str>, verdict: Option<bool>) -> (ok: bool)
    ensures
        ok == accepted(
            match stored {
                Some(hash) => Some(hash@),
                None => None,
            },
            verdict,
        ),
{
    match (stored, verdict) {
        (Some(_), Some(true)) => true,
        _ => false,
    }
}

/// Whether `password` is the password of an account, given the hash
/// that the store holds for it, if any.
pub open spec fn matches(stored: Option<Seq<char>>, password: Seq<char>) -> bool {
    match stored {
        Some(hash) => hash_verdict(password, hash) == Some(true),
        None => false,
    }
}

/// Whether `password` is the password of the account whose stored hash
/// is `stored`; `None` stands for an account that the store does not
/// know.
pub fn password_matches(stored: Option<&str>, password: &str) -> (ok: bool)
    ensures
        ok == matches(
            match stored {
                Some(hash) => Some(hash@),
                None => None,
            },
            password@,
        ),
{
    match stored {
        Some(hash) => decide(stored, verify_hash(password, hash)),
        None => false,
    }
}

/// The hash under which a new password is to be stored; `None` where it
/// could not be made. The password matches the hash that was made of it.
pub fn hashed(password: &str) -> (hash: Option<String>)
    ensures
        hash matches Some(h) ==> matches(Some(h@), password@),
{
    fresh_hash(password)
}

} // verus!
