use vstd::prelude::*;

verus! {

#[verifier::external_type_specification]
#[verifier::external_body]
pub struct ExBcryptError(bcrypt::BcryptError);

#[verifier::external_type_specification]
#[verifier::external_body]
pub struct ExJwtError(jsonwebtoken::errors::Error);

/// Whether bcrypt's verification accepts `password` against the stored
/// `hash`, i.e. `bcrypt::verify(password, hash)` returns `Ok(true)`.
pub uninterp spec fn bcrypt_accepts(password: Seq<char>, hash: Seq<char>) -> bool;

/// The HS256-signed JSON Web Token that `jsonwebtoken::encode` produces with
/// the default header for the claims `{"sub": sub, "exp": exp}` under the
/// HMAC key `secret`.
pub uninterp spec fn hs256_token(sub: Seq<char>, exp: i64, secret: Seq<char>) -> Seq<char>;

/// Relies on `bcrypt::hash` at `bcrypt::DEFAULT_COST`: on success it returns a
/// salted hash that `bcrypt::verify` accepts for the same password, in the
/// 60-character form `$2b$12$` + 22 salt characters + 31 hash characters
/// (the salt is random, so nothing more is known of the hash).
#[verifier::external_body]
pub(crate) fn bcrypt_hash(password: &String) -> (r: Result<String, bcrypt::BcryptError>)
    ensures
        r matches Ok(h) ==> bcrypt_accepts(password@, h@) && h@.len() == 60,
{
    bcrypt::hash(password.as_str(), bcrypt::DEFAULT_COST)
}

/// Relies on `bcrypt::verify`: `Ok(b)` tells whether `password` matches the
/// stored hash; an error (a malformed hash) means it does not.
#[verifier::external_body]
pub(crate) fn bcrypt_verify(password: &String, hash: &String) -> (r: Result<bool, bcrypt::BcryptError>)
    ensures
        match r {
            Ok(b) => b == bcrypt_accepts(password@, hash@),
            Err(_) => !bcrypt_accepts(password@, hash@),
        },
{
    bcrypt::verify(password.as_str(), hash.as_str())
}

/// Relies on `jsonwebtoken::encode` with `Header::default()` (HS256) and
/// `EncodingKey::from_secret`: the key's family matches the HMAC header,
/// serializing a JSON map of a string and an integer cannot fail, and HMAC
/// signing always succeeds, so the call returns the signed
/// `header.claims.signature` string, which is never empty.
#[verifier::external_body]
pub(crate) fn jwt_sign(sub: &String, exp: i64, secret: &String) -> (r: Result<String, jsonwebtoken::errors::Error>)
    ensures
        r is Ok,
        r matches Ok(t) ==> t@ == hs256_token(sub@, exp, secret@) && t@.len() > 0,
{
    let mut claims = serde_json::Map::new();
    claims.insert("sub".to_string(), serde_json::Value::from(sub.as_str()));
    claims.insert("exp".to_string(), serde_json::Value::from(exp));
    let key = jsonwebtoken::EncodingKey::from_secret(secret.as_bytes());
    jsonwebtoken::encode(&jsonwebtoken::Header::default(), &claims, &key)
}

/// Relies on chrono's `From<SystemTime> for DateTime<Utc>` and
/// `DateTime::timestamp`: the current time in whole seconds since the Unix
/// epoch, negative for a clock set before 1970. A `DateTime` lies within
/// years -262143..=262142, so the value is far enough from `i64::MAX` that
/// adding a token lifetime cannot overflow; nothing else is promised of it.
#[verifier::external_body]
pub(crate) fn unix_now() -> (r: i64)
    ensures
        r <= i64::MAX - 3600,
{
    chrono::DateTime::<chrono::Utc>::from(std::time::SystemTime::now()).timestamp()
}

} // verus!
