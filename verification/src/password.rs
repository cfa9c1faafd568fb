//! Password hashing with bcrypt.

use vstd::prelude::*;

verus! {

/// What `bcrypt::verify` returns for a password and a stored hash: `Some(true)`
/// where the password matches the hash, `Some(false)` where it does not, and
/// `None` where bcrypt reports an error (a malformed hash).
pub uninterp spec fn password_verdict(password: Seq<char>, hash: Seq<char>) -> Option<bool>;

/// Calls `bcrypt::verify`, which depends on the password and the hash alone;
/// its error becomes `None`.
#[verifier::external_body]
pub(crate) fn verify_password(password: &str, hash: &str) -> (verdict: Option<bool>)
    ensures
        verdict == password_verdict(password@, hash@),
{
    bcrypt::verify(password, hash).ok()
}

/// The prefix of every hash made with `bcrypt::DEFAULT_COST`: version `2b`, cost 12.
pub open spec fn default_cost_prefix() -> Seq<char> {
    "$2b$12$"@
}

/// Calls `bcrypt::hash` with `bcrypt::DEFAULT_COST`. The salt is drawn from the
/// operating system, so nothing is said of which salt comes back; what is said
/// is that the hash is 60 characters written as `$2b$12$` followed by salt and
/// hash (the crate writes `HashParts` for version `2b` with the cost in two
/// digits), and that `bcrypt::verify` accepts the same password against it (the
/// crate's source hashes and verifies with the same salt and cost). `None` where
/// bcrypt fails, which it does only when the operating system gives no random bytes.
#[verifier::external_body]
pub(crate) fn hash_password(password: &str) -> (hash: Option<String>)
    ensures
        hash matches Some(h) ==> password_verdict(password@, h@) == Some(true),
        hash matches Some(h) ==> h@.len() == 60 && h@.take(7) == default_cost_prefix(),
{
    bcrypt::hash(password, bcrypt::DEFAULT_COST).ok()
}

} // verus!
