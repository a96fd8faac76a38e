//! Passwords and tokens: hashing a password with a fresh salt, checking a
//! password against a stored hash, and the claims that a token carries.
use vstd::prelude::*;
use crate::errors::WarpRejections;
use argon2::password_hash::{PasswordHash, PasswordHasher, PasswordVerifier, SaltString};
use argon2::Argon2;

verus! {

/// What `Argon2::default().hash_password` makes of a password and a salt
/// text, printed in the PHC string format; `None` where it fails (a salt
/// text that is not a valid salt).
pub uninterp spec fn argon2_hash_of(password: Seq<char>, salt: Seq<char>) -> Option<Seq<char>>;

/// Whether a password is short enough for Argon2: at most `u32::MAX` bytes.
pub open spec fn password_fits(password: Seq<char>) -> bool {
    vstd::utf8::encode_utf8(password).len() <= 0xFFFF_FFFF
}

/// Whether every password short enough for Argon2 can be hashed under the
/// salt text.
pub open spec fn salt_works(salt: Seq<char>) -> bool {
    forall|q: Seq<char>| password_fits(q) ==> (#[trigger] argon2_hash_of(q, salt)) is Some
}

/// Whether a character is in the B64 alphabet (standard Base64): `A` to `Z`,
/// `a` to `z`, `0` to `9`, `+` and `/`.
pub open spec fn is_b64_char(c: char) -> bool {
    ('A' <= c && c <= 'Z') || ('a' <= c && c <= 'z') || ('0' <= c && c <= '9') || c == '+' || c
        == '/'
}

/// Whether a text has the form of a salt that `SaltString::generate` writes:
/// 16 bytes in unpadded B64, which is 22 characters of the B64 alphabet.
pub open spec fn is_generated_salt(salt: Seq<char>) -> bool {
    salt.len() == 22 && forall|i: int| 0 <= i < salt.len() ==> is_b64_char(#[trigger] salt[i])
}

/// Whether `PasswordHash::new` accepts the text as a PHC string.
pub uninterp spec fn phc_parses(phc: Seq<char>) -> bool;

/// Whether `Argon2::default().verify_password` accepts the password against
/// the parsed PHC string.
pub uninterp spec fn argon2_verifies(password: Seq<char>, phc: Seq<char>) -> bool;

/// Hashes the password's UTF-8 bytes with `Argon2::default().hash_password`
/// under the salt text and prints the result; `None` where the call fails.
/// The contract names the result, and states three facts that the sources
/// of `argon2` and `password-hash` show: the printed hash parses back;
/// `verify_password` recomputes the same hash from the password and the
/// parameters and salt that the string holds, so it accepts the password;
/// and the only failure that depends on the password is one longer than
/// `u32::MAX` bytes, so a salt that works for one password works for every
/// password short enough.
#[verifier::external_body]
fn hash_with_salt(password: &str, salt: &str) -> (res: Option<String>)
    ensures
        match res {
            Some(h) => argon2_hash_of(password@, salt@) == Some(h@),
            None => argon2_hash_of(password@, salt@) is None,
        },
        res matches Some(h) ==> phc_parses(h@) && argon2_verifies(password@, h@),
        res is Some ==> salt_works(salt@),
{
    match Argon2::default().hash_password(password.as_bytes(), salt) {
        Ok(h) => Some(h.to_string()),
        Err(_) => None,
    }
}

/// Whether `PasswordHash::new` parses the text.
#[verifier::external_body]
fn parse_phc(phc: &str) -> (ok: bool)
    ensures
        ok == phc_parses(phc@),
{
    PasswordHash::new(phc).is_ok()
}

/// Whether `Argon2::default().verify_password` accepts the password against
/// the PHC string, which must parse.
#[verifier::external_body]
fn verify_phc(password: &str, phc: &str) -> (ok: bool)
    requires
        phc_parses(phc@),
    ensures
        ok == argon2_verifies(password@, phc@),
{
    let parsed = PasswordHash::new(phc).unwrap();
    Argon2::default().verify_password(password.as_bytes(), &parsed).is_ok()
}

/// A fresh random salt, through `SaltString::generate` with the operating
/// system's random source, as text. Which salt comes back is not stated;
/// what holds of every one is: it is 16 random bytes in unpadded B64, so 22
/// characters of that alphabet, which the salt and Argon2's length rules
/// accept, so every password short enough can be hashed under it.
#[verifier::external_body]
fn generate_salt() -> (res: String)
    ensures
        salt_works(res@),
        is_generated_salt(res@),
{
    SaltString::generate(&mut rand_core::OsRng).as_str().to_owned()
}

/// Hashes `password` with a fresh salt; returns the PHC hash and the salt,
/// 22 characters of B64. The hash is checked to verify against the password before it is handed
/// out. Fails only for a password longer than `u32::MAX` bytes.
pub fn hasher(password: &str) -> (res: Result<(String, String), WarpRejections>)
    ensures
        res matches Ok(p) ==> argon2_hash_of(password@, p.1@) == Some(p.0@) && argon2_verifies(
            password@,
            p.0@,
        ) && salt_works(p.1@) && is_generated_salt(p.1@),
        password_fits(password@) ==> res is Ok,
        res matches Err(e) ==> e is AuthError,
{
    let salt = generate_salt();
    proof {
        assert(password_fits(password@) ==> argon2_hash_of(password@, salt@) is Some);
    }
    match hash_with_salt(password, salt.as_str()) {
        Some(password_hash) => {
            if !parse_phc(password_hash.as_str()) {
                return Err(WarpRejections::AuthError("file name is: src/auth.rs | line number is: 150".to_owned()));
            }
            let ok = verify_phc(password, password_hash.as_str());
            proof {
                assert(ok);
            }
            Ok((password_hash, salt))
        },
        None => Err(WarpRejections::AuthError("file name is: src/auth.rs | line number is: 147".to_owned())),
    }
}

/// Whether `password`, hashed under `salt`, gives `hashed`; `None` where the
/// password cannot be hashed under the salt.
pub open spec fn password_verdict(password: Seq<char>, salt: Seq<char>, hashed: Seq<char>) -> Option<
    bool,
> {
    match argon2_hash_of(password, salt) {
        Some(h) => Some(h == hashed),
        None => None,
    }
}

/// Hashes `password` under the stored `salt` and compares the result with
/// the stored hash.
pub fn verify_pass(password: String, salt: String, hashed_pw: String) -> (res: Result<bool, WarpRejections>)
    ensures
        match password_verdict(password@, salt@, hashed_pw@) {
            Some(b) => res == Ok::<bool, WarpRejections>(b),
            None => res matches Err(WarpRejections::AuthError(m)) && m@ == "file name is: src/auth.rs | line number is: 166"@,
        },
{
    match hash_with_salt(password.as_str(), salt.as_str()) {
        Some(h) => Ok(h == hashed_pw),
        None => Err(WarpRejections::AuthError("file name is: src/auth.rs | line number is: 166".to_owned())),
    }
}

/// A password hashed by `hasher` verifies against the hash and salt that it
/// handed out, and another password verifies only if it hashes the same.
pub proof fn law_hashed_password_verifies(password: Seq<char>, other: Seq<char>, salt: Seq<char>, hashed: Seq<char>)
    requires
        argon2_hash_of(password, salt) == Some(hashed),
    ensures
        password_verdict(password, salt, hashed) == Some(true),
        password_verdict(other, salt, hashed) == Some(true) ==> argon2_hash_of(other, salt)
            == argon2_hash_of(password, salt),
{
}

/// Under a salt that `hasher` handed out, every other password short enough
/// is answered with a verdict, never refused: checking it gives `Ok(true)` or
/// `Ok(false)`.
pub proof fn law_other_password_answered(other: Seq<char>, salt: Seq<char>, hashed: Seq<char>)
    requires
        salt_works(salt),
        password_fits(other),
    ensures
        password_verdict(other, salt, hashed) is Some,
{
    assert(argon2_hash_of(other, salt) is Some);
}

/// The kind of a token.
#[derive(Debug, Clone, Copy, PartialEq, Eq, Structural)]
pub enum Token {
    Access,
    Refresh,
}

/// What a token says: whose it is, when it expires and its kind.
#[derive(Debug)]
pub struct Claims {
    pub username: String,
    pub exp: i64,
    pub token: Token,
}

/// A token that lets its holder in.
#[derive(Debug)]
pub struct SingleTokenResponse {
    pub access_token: String,
}

/// A pair of tokens: one to get in, one to renew the first.
#[derive(Debug)]
pub struct DoubleTokenResponse {
    pub access_token: String,
    pub refresh_token: String,
}

/// The claims of a token of kind `token` for `username`, issued at `now` and
/// valid for `lifetime` seconds.
pub fn make_claims(username: String, now: i64, lifetime: i64, token: Token) -> (res: Claims)
    requires
        i64::MIN <= now + lifetime <= i64::MAX,
    ensures
        res.username == username,
        res.exp == now + lifetime,
        res.token == token,
{
    Claims { username, exp: now + lifetime, token }
}

/// The claims of the access and refresh tokens issued together at `now`.
pub fn make_double_claims(username: String, now: i64, access_lifetime: i64, refresh_lifetime: i64) -> (res: (Claims, Claims))
    requires
        i64::MIN <= now + access_lifetime <= i64::MAX,
        i64::MIN <= now + refresh_lifetime <= i64::MAX,
    ensures
        res.0.username@ == username@ && res.1.username@ == username@,
        res.0.exp == now + access_lifetime && res.0.token == Token::Access,
        res.1.exp == now + refresh_lifetime && res.1.token == Token::Refresh,
{
    let access = make_claims(username.clone(), now, access_lifetime, Token::Access);
    let refresh = make_claims(username, now, refresh_lifetime, Token::Refresh);
    (access, refresh)
}

} // verus!
