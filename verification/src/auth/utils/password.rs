//! The credential verifier: Argon2 hashing of passwords under a fresh salt,
//! and checking a password against a stored hash.
use crate::auth::utils::errors::HashPasswordError;
use crate::utils::random::{all_alphanumeric, lemma_alphanumeric_is_ascii, random_string};
use vstd::prelude::*;

verus! {

/// Number of random characters in a salt.
pub const SALT_LENGTH: usize = 16;

/// Shortest salt, in bytes, that Argon2 accepts.
pub const MIN_SALT_BYTES: usize = 8;

/// The encoded hash that `argon2::hash_encoded` gives for a password and a
/// salt under `argon2::Config::default()`, where it gives one.
pub uninterp spec fn argon2_encoding(password: Seq<char>, salt: Seq<char>) -> Seq<char>;

/// Whether `argon2::verify_encoded` answers `Ok(true)` for an encoded hash
/// and a password.
pub uninterp spec fn argon2_verifies(encoded: Seq<char>, password: Seq<char>) -> bool;

#[verifier::external_type_specification]
#[verifier::external_body]
pub struct ExArgon2Error(argon2::Error);

/// Length in bytes of a text in UTF-8, as `str::len` measures it.
pub open spec fn byte_len(text: Seq<char>) -> usize {
    vstd::utf8::encode_utf8(text).len() as usize
}

/// Whether Argon2 takes a password and a salt of these byte lengths.
pub open spec fn hashable(password: Seq<char>, salt: Seq<char>) -> bool {
    &&& byte_len(password) <= u32::MAX
    &&& MIN_SALT_BYTES <= byte_len(salt) <= u32::MAX
}

/// Calls `argon2::hash_encoded` with the default configuration.
///
/// Claimed of it: with that configuration the call fails only on a password
/// of more than `u32::MAX` bytes or a salt of fewer than 8 or more than
/// `u32::MAX` bytes; the encoded hash depends on password and salt alone;
/// and `argon2::verify_encoded` accepts a candidate against this hash exactly
/// when hashing the candidate under the same salt gives the same encoded
/// hash (it decodes salt and parameters from the hash, hashes the candidate
/// again and compares). The encoded hash spells out its salt in base64
/// between two `$`, so no hash under another salt equals it.
#[verifier::external_body]
fn argon2_hash(password: &str, salt: &str) -> (r: Result<String, argon2::Error>)
    ensures
        r is Ok <==> hashable(password@, salt@),
        r matches Ok(h) ==> h@ == argon2_encoding(password@, salt@),
        r matches Ok(h) ==> forall|other: Seq<char>|
            byte_len(other) <= u32::MAX ==> (#[trigger] argon2_verifies(h@, other) <==> argon2_encoding(
                other,
                salt@,
            ) == h@),
        r matches Ok(h) ==> forall|other: Seq<char>, other_salt: Seq<char>|
            other_salt != salt@ && hashable(other, other_salt) ==> #[trigger] argon2_encoding(
                other,
                other_salt,
            ) != h@,
{
    argon2::hash_encoded(password.as_bytes(), salt.as_bytes(), &argon2::Config::default())
}

/// Calls `argon2::verify_encoded`.
///
/// Claimed of it: whether the answer is `Ok(true)` depends on the encoded
/// hash and the password alone.
#[verifier::external_body]
fn argon2_verify(encoded: &str, password: &str) -> (r: Result<bool, argon2::Error>)
    ensures
        (r matches Ok(b) && b) <==> argon2_verifies(encoded@, password@),
{
    argon2::verify_encoded(encoded, password.as_bytes())
}

/// The stored form of `password` hashed under `salt`.
pub open spec fn password_hash(password: Seq<char>, salt: Seq<char>) -> Seq<char> {
    argon2_encoding(password, salt)
}

/// Whether `password` is accepted against the stored hash `stored`.
pub open spec fn password_matches(password: Seq<char>, stored: Seq<char>) -> bool {
    argon2_verifies(stored, password)
}

/// What a stored hash owes its password: the password matches it, and any
/// other candidate of admissible length matches it only if it hashes to
/// the same stored form under the same salt.
pub open spec fn matches_only_its_password(
    stored: Seq<char>,
    password: Seq<char>,
    salt: Seq<char>,
) -> bool {
    &&& password_matches(password, stored)
    &&& forall|other: Seq<char>|
        byte_len(other) <= u32::MAX ==> (#[trigger] password_matches(other, stored) <==> password_hash(
            other,
            salt,
        ) == stored)
}

/// Hash uniqueness: a hash under one salt differs from every hash, of
/// whatever password, under any other salt.
pub open spec fn unlike_hashes_of_other_salts(stored: Seq<char>, salt: Seq<char>) -> bool {
    forall|other: Seq<char>, other_salt: Seq<char>|
        other_salt != salt && hashable(other, other_salt) ==> #[trigger] password_hash(
            other,
            other_salt,
        ) != stored
}

/// Hashes `password` under the given salt.
///
/// Fails exactly when Argon2 cannot take the lengths. On success the hash is
/// [`password_hash`] of password and salt, and
/// [`matches_only_its_password`] and [`unlike_hashes_of_other_salts`] hold
/// of it: two calls on one password under two salts give two hashes, and
/// the password matches both.
pub fn hash_password_with_salt(password: &str, salt: &str) -> (r: Result<
    String,
    HashPasswordError,
>)
    ensures
        r is Ok <==> hashable(password@, salt@),
        r matches Ok(h) ==> h@ == password_hash(password@, salt@) && matches_only_its_password(
            h@,
            password@,
            salt@,
        ) && unlike_hashes_of_other_salts(h@, salt@),
{
    match argon2_hash(password, salt) {
        Ok(h) => {
            assert(argon2_verifies(h@, password@));
            Ok(h)
        },
        Err(_) => Err(HashPasswordError),
    }
}

/// A salt as [`hash_password`] draws it: [`SALT_LENGTH`] letters and
/// digits.
pub open spec fn is_salt(salt: Seq<char>) -> bool {
    salt.len() == SALT_LENGTH && all_alphanumeric(salt)
}

/// Draws a salt.
pub fn fresh_salt() -> (salt: String)
    ensures
        is_salt(salt@),
        byte_len(salt@) == SALT_LENGTH,
{
    let salt = random_string(SALT_LENGTH);
    proof {
        lemma_alphanumeric_is_ascii(salt@);
    }
    salt
}

/// Hashes `password` under a fresh random salt.
///
/// Fails exactly when the password is longer than `u32::MAX` bytes. On
/// success the result is the hash under some salt, and
/// [`matches_only_its_password`] and [`unlike_hashes_of_other_salts`] hold
/// of it.
pub fn hash_password(password: &str) -> (r: Result<String, HashPasswordError>)
    ensures
        r is Ok <==> byte_len(password@) <= u32::MAX,
        r matches Ok(h) ==> exists|salt: Seq<char>|
            is_salt(salt) && h@ == #[trigger] password_hash(password@, salt)
                && matches_only_its_password(h@, password@, salt) && unlike_hashes_of_other_salts(
                h@,
                salt,
            ),
{
    let salt = fresh_salt();
    hash_password_with_salt(password, salt.as_str())
}

/// Checks `password` against a stored hash. A hash that cannot be read, or
/// any other failure inside Argon2, counts as no match.
pub fn verify_password(password: &str, stored_password: &str) -> (valid: bool)
    ensures
        valid == password_matches(password@, stored_password@),
{
    match argon2_verify(stored_password, password) {
        Ok(valid) => valid,
        Err(_) => false,
    }
}

} // verus!
