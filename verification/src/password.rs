use vstd::prelude::*;
use argon2::password_hash::{PasswordHasher, PasswordVerifier};

verus! {

/// Whether the Argon2 algorithm, run with the parameters and salt encoded in
/// the stored hash string `hash`, maps the plaintext `password` to the digest
/// that string carries. The outcome is a function of the two strings alone;
/// it is left without a definition because writing the algorithm out here
/// would state nothing that could be checked against the crate computing it.
pub uninterp spec fn verifies(password: Seq<char>, hash: Seq<char>) -> bool;

/// Deriving a password hash failed. Account creation or update is aborted
/// rather than persisting an empty or weak hash in its place.
pub struct HashingFailure;

/// Relies on argon2's `PasswordHasher::hash_password`, which draws a fresh
/// random salt and encodes algorithm, parameters, salt and digest into one
/// self-describing PHC string. Which string comes back varies with the salt,
/// so nothing names the result; every outcome verifies the plaintext that
/// produced it, and every PHC string begins with '$'.
#[verifier::external_body]
pub fn hash_password(password: &String) -> (r: Result<String, HashingFailure>)
    ensures
        r matches Ok(h) ==> verifies(password@, h@),
        r matches Ok(h) ==> h@.len() > 0 && h@[0] == '$',
{
    match argon2::Argon2::default().hash_password(password.as_bytes()) {
        Ok(h) => Ok(h.to_string()),
        Err(_) => Err(HashingFailure),
    }
}

/// Relies on argon2's `PasswordVerifier::verify_password` for `str`: the
/// stored string is parsed as a PHC hash, the plaintext is hashed with the
/// parameters and salt it encodes, and the digests are compared in constant
/// time. The outcome depends on the two strings alone. A string that does not
/// begin with '$' is not a PHC hash; parsing rejects it and the answer is
/// false, never an error.
#[verifier::external_body]
pub fn verify_password(password: &String, password_hash: &String) -> (r: bool)
    ensures
        r == verifies(password@, password_hash@),
        password_hash@.len() == 0 || password_hash@[0] != '$' ==> r == false,
{
    argon2::Argon2::default().verify_password(password.as_bytes(), password_hash.as_str()).is_ok()
}

} // verus!
