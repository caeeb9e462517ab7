use vstd::prelude::*;

verus! {

/// bcrypt's error type, opaque to the verifier.
#[verifier::external_type_specification]
#[verifier::external_body]
pub struct ExBcryptError(bcrypt::BcryptError);

/// Name for bcrypt's verification outcome: whether verifying `password`
/// against the hash string `hash` succeeds. bcrypt recomputes the hash from
/// the salt embedded in `hash`, so the outcome is a function of the two
/// strings alone; a string bcrypt does not even accept as a hash matches no
/// password.
pub uninterp spec fn hash_matches(password: Seq<char>, hash: Seq<char>) -> bool;

/// Name for bcrypt's acceptance of a string as a well-formed hash: the
/// prefix, cost, salt and digest fields all parse. bcrypt checks this from
/// the string alone, before any password is involved.
pub uninterp spec fn bcrypt_hash_format(hash: Seq<char>) -> bool;

/// Relies on bcrypt::hash with DEFAULT_COST: on success the returned string
/// is a well-formed bcrypt hash that verifies against the hashed password.
#[verifier::external_body]
pub fn hash_password(password: &str) -> (r: Result<String, bcrypt::BcryptError>)
    ensures
        r matches Ok(h) ==> hash_matches(password@, h@),
        r matches Ok(h) ==> bcrypt_hash_format(h@),
{
    bcrypt::hash(password, bcrypt::DEFAULT_COST)
}

/// Relies on bcrypt::verify: deterministic in the password and the hash
/// string. It fails exactly when the hash string is not in bcrypt's format —
/// a check on the hash alone — and such a string matches no password.
#[verifier::external_body]
pub fn verify_password(password: &str, hash: &str) -> (r: Result<bool, bcrypt::BcryptError>)
    ensures
        r matches Ok(b) ==> b == hash_matches(password@, hash@),
        r is Err <==> !bcrypt_hash_format(hash@),
        r is Err ==> !hash_matches(password@, hash@),
{
    bcrypt::verify(password, hash)
}

} // verus!
