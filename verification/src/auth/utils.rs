//! Credentials: password hashing, credential checks and bearer tokens.
use vstd::prelude::*;
use vstd::string::*;
use vstd::utf8::encode_utf8;
use crate::auth::login::Claims;
use crate::boards::utils::DbError;
use crate::text::owned;

verus! {

/// A user's credentials, as sent to the login and signup endpoints.
///
/// `username` identifies the account; `password` is the plaintext password
/// that is compared against the stored hash.
#[derive(Debug, PartialEq)]
pub struct LoginRequest {
    pub username: String,
    pub password: String,
}

/// Why a bearer token was not accepted.
#[derive(Clone, Copy, Debug, PartialEq, Eq, Structural)]
pub enum AuthError {
    /// The token could not be decoded or its signature did not verify.
    InvalidToken,
    /// The token's expiration time lies before the current time.
    ExpiredToken,
}

/// The user a decoded bearer token stands for at time `now`, or why the
/// token is refused.
pub open spec fn bearer_user(claims: Option<Claims>, now: i64) -> Result<i64, AuthError> {
    match claims {
        None => Err(AuthError::InvalidToken),
        Some(c) => if c.exp < (now as usize) {
            Err(AuthError::ExpiredToken)
        } else {
            Ok(c.sub)
        },
    }
}

/// The user a bearer token stands for: `claims` is the decoded token, or
/// `None` when it could not be decoded; `now` is the current Unix time.
pub fn extract_bearer(claims: Option<Claims>, now: i64) -> (r: Result<i64, AuthError>)
    ensures
        r == bearer_user(claims, now),
{
    match claims {
        None => Err(AuthError::InvalidToken),
        Some(c) => {
            let now_u: usize = now as usize;
            if c.exp < now_u {
                Err(AuthError::ExpiredToken)
            } else {
                Ok(c.sub)
            }
        },
    }
}

#[verifier::external_type_specification]
#[verifier::external_body]
pub struct ExArgon2Error(argon2::Error);

/// The encoded hash that `argon2::hash_encoded` produces for a password and
/// a salt under the crate's default configuration.
pub uninterp spec fn argon2_encoded_hash(pwd: Seq<u8>, salt: Seq<u8>) -> Seq<char>;

/// What `argon2::verify_encoded` tells of an encoded hash and a password:
/// `Some(matches)`, or `None` when it fails.
pub uninterp spec fn argon2_verification(encoded: Seq<char>, pwd: Seq<u8>) -> Option<bool>;

/// How an encoding made under the default configuration begins: the
/// variant, the version and the cost parameters (memory, time, lanes), each
/// part closed by `$`.
pub open spec fn default_encoding_head() -> Seq<char> {
    "$argon2id$v=19$m=19456,t=2,p=1$"@
}

/// Calls `argon2::hash_encoded` with `argon2::Config::default()`.
/// Claimed: with that configuration the call fails exactly when the password
/// is longer than `u32::MAX` bytes or the salt is shorter than 8 or longer
/// than `u32::MAX` bytes (the checks of the crate's `Context::new`); a
/// success is `argon2_encoded_hash` of the two, begins with
/// `default_encoding_head` (the crate's `encode_string` writes the variant
/// `argon2id`, version 19 and the cost parameters of `Config::owasp2`, which
/// `Config::default` returns), and is an encoding that `verify_encoded`
/// accepts for the same password (the check the crate's README shows).
#[verifier::external_body]
fn argon2_hash_encoded(pwd: &[u8], salt: &[u8]) -> (r: Result<String, argon2::Error>)
    ensures
        r is Ok <==> (pwd@.len() <= u32::MAX && 8 <= salt@.len() <= u32::MAX),
        r matches Ok(s) ==> s@ == argon2_encoded_hash(pwd@, salt@),
        r matches Ok(s) ==> default_encoding_head().is_prefix_of(s@),
        r matches Ok(s) ==> argon2_verification(s@, pwd@) == Some(true),
{
    argon2::hash_encoded(pwd, salt, &argon2::Config::default())
}

/// Calls `argon2::verify_encoded`.  Claimed: the result is
/// `argon2_verification` of the two arguments, and, as the crate's README
/// shows, a password checked against the encoding that `hash_encoded` made
/// of it matches.
#[verifier::external_body]
fn argon2_verify_encoded(encoded: &str, pwd: &[u8]) -> (r: Result<bool, argon2::Error>)
    ensures
        r is Ok <==> argon2_verification(encoded@, pwd@) is Some,
        r matches Ok(b) ==> argon2_verification(encoded@, pwd@) == Some(b),
        (exists|salt: Seq<u8>|
            pwd@.len() <= u32::MAX && 8 <= salt.len() <= u32::MAX
            && encoded@ == #[trigger] argon2_encoded_hash(pwd@, salt)) ==> r matches Ok(true),
{
    argon2::verify_encoded(encoded, pwd)
}

/// Calls `rand::random::<[u8; 16]>()`.  Nothing is claimed of the bytes.
#[verifier::external_body]
pub(crate) fn random_salt() -> (salt: [u8; 16]) {
    rand::random::<[u8; 16]>()
}

/// What hashing `password` with `salt` gives: the encoded hash, or the
/// message that the hashing failed.
pub open spec fn hashed_password(password: Seq<char>, salt: Seq<u8>) -> Result<Seq<char>, Seq<char>> {
    let pwd = encode_utf8(password);
    if pwd.len() <= u32::MAX && 8 <= salt.len() <= u32::MAX {
        Ok(argon2_encoded_hash(pwd, salt))
    } else {
        Err("Failed to hash password"@)
    }
}

/// Whether the string result `r` is the value `v` of a hashing.
pub open spec fn is_result_of(r: Result<String, String>, v: Result<Seq<char>, Seq<char>>) -> bool {
    match (r, v) {
        (Ok(a), Ok(b)) => a@ == b,
        (Err(a), Err(b)) => a@ == b,
        _ => false,
    }
}

/// Hashes `password` with the given salt, using Argon2 with the default
/// configuration.
pub fn hash_password_with_salt(password: &str, salt: &[u8]) -> (r: Result<String, String>)
    ensures
        is_result_of(r, hashed_password(password@, salt@)),
        r matches Ok(h) ==> default_encoding_head().is_prefix_of(h@),
        r matches Ok(h) ==> password_accepted(password@, h@),
{
    match argon2_hash_encoded(password.as_bytes(), salt) {
        Ok(h) => Ok(h),
        Err(_) => Err(owned("Failed to hash password")),
    }
}

/// Hashes a plaintext password with Argon2 under a fresh random 16-byte salt.
///
/// The salt is random, so what is promised holds for some salt of 16 bytes.
/// A hash begins with `$argon2` (in full: `default_encoding_head`), and the
/// credential check accepts the password against it; a failure is the
/// message `Failed to hash password`.
pub fn hash_password(password: &str) -> (r: Result<String, String>)
    ensures
        exists|salt: Seq<u8>| salt.len() == 16 && #[trigger] is_result_of(r, hashed_password(password@, salt)),
        r matches Ok(h) ==> "$argon2"@.is_prefix_of(h@) && default_encoding_head().is_prefix_of(h@),
        r matches Ok(h) ==> password_accepted(password@, h@),
        r matches Err(e) ==> e@ == "Failed to hash password"@,
{
    let salt = random_salt();
    let r = hash_password_with_salt(password, salt.as_slice());
    assert(salt@.len() == 16);
    proof {
        if r is Ok {
            lemma_head_names_argon2(r->Ok_0@);
        }
    }
    r
}

/// An encoding that begins with `default_encoding_head` begins with `$argon2`.
proof fn lemma_head_names_argon2(s: Seq<char>)
    requires
        default_encoding_head().is_prefix_of(s),
    ensures
        "$argon2"@.is_prefix_of(s),
{
    reveal_strlit("$argon2id$v=19$m=19456,t=2,p=1$");
    reveal_strlit("$argon2");
    assert forall|i: int| 0 <= i < 7 implies "$argon2"@[i] == s[i] by {
        assert(s[i] == default_encoding_head()[i]);
    }
    assert("$argon2"@ =~= s.subrange(0, 7));
}

/// The answer of a credential check, given what the lookup of the stored
/// password hash returned.
pub open spec fn validation(password: Seq<char>, stored: Result<Option<String>, DbError>) -> Result<bool, Seq<char>> {
    match stored {
        Err(_) => Err("Failed to validate user"@),
        Ok(None) => Err("User not found"@),
        Ok(Some(hash)) => match argon2_verification(hash@, encode_utf8(password)) {
            Some(b) => Ok(b),
            None => Err("Failed to verify password"@),
        },
    }
}

/// Whether the credential check accepts `password` against the stored hash
/// `hash`.
pub open spec fn password_accepted(password: Seq<char>, hash: Seq<char>) -> bool {
    argon2_verification(hash, encode_utf8(password)) == Some(true)
}

/// Whether `r` is the credential-check answer `v`.
pub open spec fn is_validation(r: Result<bool, String>, v: Result<bool, Seq<char>>) -> bool {
    match (r, v) {
        (Ok(a), Ok(b)) => a == b,
        (Err(a), Err(b)) => a@ == b,
        _ => false,
    }
}

/// Checks `password` against the stored hash of `username`; `stored` is
/// what looking the hash up gave (`Ok(None)`: no such user).
///
/// Answers `Ok(true)` when the password matches the hash, `Ok(false)` when
/// it does not, and an error when the lookup failed, the user does not
/// exist, or the hash could not be checked.  Username and password must not
/// be empty.
pub fn validate(username: &str, password: &str, stored: Result<Option<String>, DbError>) -> (r: Result<bool, String>)
    requires
        username@.len() > 0,
        password@.len() > 0,
    ensures
        is_validation(r, validation(password@, stored)),
        // a password is accepted against a hash that was made of it
        (stored matches Ok(Some(h)) && exists|salt: Seq<u8>|
            #[trigger] hashed_password(password@, salt) == Ok::<Seq<char>, Seq<char>>(h@))
            ==> r == Ok::<bool, String>(true),
{
    match stored {
        Err(_) => Err(owned("Failed to validate user")),
        Ok(None) => Err(owned("User not found")),
        Ok(Some(hash)) => match argon2_verify_encoded(hash.as_str(), password.as_bytes()) {
            Ok(b) => Ok(b),
            Err(_) => Err(owned("Failed to verify password")),
        },
    }
}

/// Whether a username is taken, given how many accounts carry it (or the
/// failure of counting them).
pub open spec fn username_taken(count: Result<i64, DbError>) -> Result<bool, Seq<char>> {
    match count {
        Ok(n) => Ok(n > 0),
        Err(_) => Err("Failed to check existing username"@),
    }
}

/// Whether a username already exists, given the number of accounts that
/// carry it, or the failure of counting them.
pub fn username_exists(count: Result<i64, DbError>) -> (r: Result<bool, String>)
    ensures
        is_validation(r, username_taken(count)),
{
    match count {
        Ok(n) => Ok(n > 0),
        Err(_) => Err(owned("Failed to check existing username")),
    }
}

} // verus!
