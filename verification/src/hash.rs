//! Password digests: memory-hard, salted, self-describing.

use vstd::prelude::*;

verus! {

/// `argon2::password_hash::Error`, the error of the hasher. Nothing is read
/// of it: it is mapped to an error of this library.
#[verifier::external_type_specification]
#[verifier::external_body]
pub struct ExPasswordHashError(argon2::password_hash::Error);

/// `rand_core::Error`, the error of the source of randomness. Nothing is
/// read of it: it is mapped to an error of this library.
#[verifier::external_type_specification]
#[verifier::external_body]
pub struct ExRandomError(argon2::password_hash::rand_core::Error);

/// The number of random bytes in a salt: the length that the hasher
/// recommends.
pub const SALT_BYTES: usize = 16;

/// Why a digest could not be made or read.
#[derive(Debug, Clone, Copy, PartialEq, Eq, Structural)]
pub enum HashError {
    /// The hasher failed: its source of randomness or its encoding.
    Hashing,
    /// The stored digest is not a digest in the expected text format.
    InvalidDigest,
}

impl HashError {
    /// A short description for the server's log.
    pub fn message(&self) -> (text: String)
        ensures
            text@ == match *self {
                HashError::Hashing => "Hashing error"@,
                HashError::InvalidDigest => "Invalid hash format"@,
            },
    {
        match self {
            HashError::Hashing => "Hashing error".to_string(),
            HashError::InvalidDigest => "Invalid hash format".to_string(),
        }
    }
}

/// Whether `digest` parses as a digest in the PHC text format.
pub uninterp spec fn digest_well_formed(digest: Seq<char>) -> bool;

/// Whether hashing `password` under the algorithm, parameters and salt that
/// the well-formed `digest` carries gives the output that it carries.
pub uninterp spec fn digest_matches(password: Seq<char>, digest: Seq<char>) -> bool;

/// `OsRng::try_fill_bytes` on a buffer of `len` zero bytes: on success the
/// buffer, filled from the operating system's source of randomness; an error
/// where that source fails. Nothing is promised of the bytes but their
/// number.
#[verifier::external_body]
fn random_bytes(len: usize) -> (r: Result<Vec<u8>, argon2::password_hash::rand_core::Error>)
    ensures
        r matches Ok(bytes) ==> bytes@.len() == len,
{
    let mut bytes = vec![0u8; len];
    argon2::password_hash::rand_core::RngCore::try_fill_bytes(
        &mut argon2::password_hash::rand_core::OsRng,
        bytes.as_mut_slice(),
    )?;
    Ok(bytes)
}

/// `SaltString::encode_b64` on the salt and then `Argon2::hash_password`
/// with the default parameters, written out with `to_string`. Whatever the
/// salt, a digest that comes back is well formed and carries the parameters,
/// the salt and the output of this very computation, so that the password
/// matches it. The salt has the recommended length: the hasher panics on an
/// encoded salt of under four characters.
#[verifier::external_body]
fn salted_digest(password: &str, salt: &[u8]) -> (r: Result<String, argon2::password_hash::Error>)
    requires
        salt@.len() == SALT_BYTES,
    ensures
        r matches Ok(digest) ==> digest_well_formed(digest@) && digest_matches(
            password@,
            digest@,
        ),
{
    let salt = argon2::password_hash::SaltString::encode_b64(salt)?;
    let hasher = argon2::Argon2::default();
    let hash = argon2::PasswordHasher::hash_password(&hasher, password.as_bytes(), &salt)?;
    Ok(hash.to_string())
}

/// `PasswordHash::new` on the digest and then `Argon2::verify_password` on
/// the password and what was parsed. The result is an error exactly when the
/// digest does not parse; otherwise it says whether the verification
/// succeeded. Both depend on the two texts alone, which this library names.
#[verifier::external_body]
fn check_digest(password: &str, digest: &str) -> (r: Result<bool, argon2::password_hash::Error>)
    ensures
        r is Ok <==> digest_well_formed(digest@),
        r matches Ok(matches) ==> matches == digest_matches(password@, digest@),
{
    let parsed = argon2::PasswordHash::new(digest)?;
    let hasher = argon2::Argon2::default();
    Ok(argon2::PasswordVerifier::verify_password(&hasher, password.as_bytes(), &parsed).is_ok())
}

/// What verifying `password` against `digest` returns.
pub open spec fn verification(password: Seq<char>, digest: Seq<char>) -> Result<bool, HashError> {
    if digest_well_formed(digest) {
        Ok(digest_matches(password, digest))
    } else {
        Err(HashError::InvalidDigest)
    }
}

/// Hashes `password` with a fresh random salt. Whatever the salt, the
/// password verifies against the digest. Where the source of randomness or
/// the hasher fails, the failure is returned.
pub fn hash_password(password: &str) -> (r: Result<String, HashError>)
    ensures
        match r {
            Ok(digest) => verification(password@, digest@) == Ok::<bool, HashError>(true),
            Err(e) => e == HashError::Hashing,
        },
{
    match random_bytes(SALT_BYTES) {
        Ok(salt) => match salted_digest(password, salt.as_slice()) {
            Ok(digest) => Ok(digest),
            Err(_) => Err(HashError::Hashing),
        },
        Err(_) => Err(HashError::Hashing),
    }
}

/// Whether `password` is the one that `digest` was made from.
pub fn verify_password(password: &str, digest: &str) -> (r: Result<bool, HashError>)
    ensures
        r == verification(password@, digest@),
{
    match check_digest(password, digest) {
        Ok(matches) => Ok(matches),
        Err(_) => Err(HashError::InvalidDigest),
    }
}

} // verus!
