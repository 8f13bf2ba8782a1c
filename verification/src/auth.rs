//! The credential codec and the identity gate: password hashing and
//! verification, issuing and verifying bearer tokens, and extracting an
//! authenticated identity from a request header.

use vstd::prelude::*;

use crate::errors::{AuthError, CodecError, TokenError};

verus! {

/// The decoded payload of an identity token: subject id, email, expiry
/// in unix seconds.
#[derive(Debug)]
pub struct Claims {
    pub sub: i32,
    pub email: String,
    pub exp: u64,
}

/// A token lives this many seconds past its issuance.
pub const TOKEN_LIFETIME_SECONDS: u64 = 86400;

/// What the password hash verifier answers for a password and a stored
/// hash: `Some(b)` when the hash parses and the password matches (`b`
/// true) or not (`b` false), `None` when the hash is malformed. The
/// answer depends on the two strings alone.
pub uninterp spec fn bcrypt_check(password: Seq<char>, hash: Seq<char>) -> Option<bool>;

/// The signed token encoding the given claims under the given secret.
/// Signing is a pure function of claims and secret.
pub uninterp spec fn encoded_jwt(sub: int, email: Seq<char>, exp: u64, secret: Seq<char>) -> Seq<
    char,
>;

/// The claims a token carries under a secret: `Some` exactly when the
/// decoder accepts the token — the signature matches the secret, the
/// payload parses, and no claim the decoder checks stands in the way.
/// Independent of any clock.
pub uninterp spec fn jwt_payload(token: Seq<char>, secret: Seq<char>) -> Option<
    (i32, Seq<char>, u64),
>;

/// Hashes a password with a salted, computationally expensive
/// transform. Every hash it returns verifies against the password it
/// was made from.
///
/// Relies on bcrypt::hash with bcrypt::DEFAULT_COST: bcrypt::verify
/// recomputes the hash from the salt stored in it, so a fresh hash
/// always verifies against its own password.
#[verifier::external_body]
pub fn hash_password(password: &str) -> (r: Result<String, CodecError>)
    ensures
        r matches Ok(h) ==> bcrypt_check(password@, h@) == Some(true),
{
    bcrypt::hash(password, bcrypt::DEFAULT_COST).map_err(|_| CodecError)
}

/// The verifier's verdict on a password and a stored hash: the match
/// answer when the hash parses, a codec failure when it does not.
pub open spec fn password_verdict(password: Seq<char>, hash: Seq<char>) -> Result<
    bool,
    CodecError,
> {
    match bcrypt_check(password, hash) {
        Some(b) => Ok(b),
        None => Err(CodecError),
    }
}

/// Checks a password against a stored hash: false on mismatch, an
/// error only on a malformed hash.
///
/// Relies on bcrypt::verify: it parses the hash, recomputes with the
/// salt and cost found there, and compares — a deterministic function
/// of the two strings; it fails exactly when the hash does not parse.
#[verifier::external_body]
pub fn verify_password(password: &str, hash: &str) -> (r: Result<bool, CodecError>)
    ensures
        r == password_verdict(password@, hash@),
{
    bcrypt::verify(password, hash).map_err(|_| CodecError)
}

/// Signs the claims `(sub, email, exp)` into a token.
///
/// Relies on jsonwebtoken::encode with the default header (HS256):
/// serialization and the HMAC signature are deterministic in the
/// claims and the secret and cannot fail for an HMAC secret, and
/// jsonwebtoken::decode under the same secret recovers exactly the
/// claims that were encoded.
#[verifier::external_body]
fn jwt_encode(sub: i32, email: &str, exp: u64, secret: &str) -> (r: Result<String, CodecError>)
    ensures
        r is Ok,
        r matches Ok(t) ==> t@ == encoded_jwt(sub as int, email@, exp, secret@) && jwt_payload(
            t@,
            secret@,
        ) == Some((sub, email@, exp)),
{
    let mut claims = serde_json::Map::new();
    claims.insert("sub".to_string(), serde_json::Value::from(sub));
    claims.insert("email".to_string(), serde_json::Value::from(email));
    claims.insert("exp".to_string(), serde_json::Value::from(exp));
    let key = jsonwebtoken::EncodingKey::from_secret(secret.as_bytes());
    jsonwebtoken::encode(&jsonwebtoken::Header::default(), &serde_json::Value::Object(claims), &key)
        .map_err(|_| CodecError)
}

/// Checks a token's signature against the secret and hands back the
/// claims it carries. Expiry is the caller's check: this call answers
/// the same whatever the clock says.
///
/// Relies on jsonwebtoken::decode with default validation minus the
/// expiry check: it verifies the HMAC signature and deserializes the
/// payload, a deterministic function of token and secret, failing
/// exactly when the signature or the payload is bad.
#[verifier::external_body]
fn jwt_decode(token: &str, secret: &str) -> (r: Result<(i32, String, u64), TokenError>)
    ensures
        r matches Ok(c) ==> jwt_payload(token@, secret@) == Some((c.0, c.1@, c.2)),
        r matches Err(e) ==> e == TokenError::Invalid && jwt_payload(token@, secret@) is None,
{
    let mut validation = jsonwebtoken::Validation::default();
    validation.validate_exp = false;
    validation.required_spec_claims = std::collections::HashSet::new();
    let key = jsonwebtoken::DecodingKey::from_secret(secret.as_bytes());
    let data = jsonwebtoken::decode::<serde_json::Value>(token, &key, &validation)
        .map_err(|_| TokenError::Invalid)?;
    let sub = data.claims.get("sub").and_then(serde_json::Value::as_i64)
        .ok_or(TokenError::Invalid)?;
    let email = data.claims.get("email").and_then(serde_json::Value::as_str)
        .ok_or(TokenError::Invalid)?;
    let exp = data.claims.get("exp").and_then(serde_json::Value::as_u64)
        .ok_or(TokenError::Invalid)?;
    Ok((sub as i32, email.to_string(), exp))
}

/// The clock, as unix seconds.
///
/// Relies on chrono::Utc::now: it answers only on a clock at or past
/// 1970, and its timestamps stay far below chrono's largest
/// representable date.
#[verifier::external_body]
pub fn now_unix_seconds() -> (r: u64)
    ensures
        r < 20_000_000_000_000u64,
{
    u64::try_from(chrono::Utc::now().timestamp()).unwrap_or(0)
}

/// The verdict on a token under a secret at a given instant: the
/// claims when the signature matches and the expiry lies ahead,
/// `Expired` when only the expiry has passed, `Invalid` otherwise.
pub open spec fn token_verdict(token: Seq<char>, secret: Seq<char>, now: u64) -> Result<
    (i32, Seq<char>, u64),
    TokenError,
> {
    match jwt_payload(token, secret) {
        Some(payload) => if now < payload.2 {
            Ok(payload)
        } else {
            Err(TokenError::Expired)
        },
        None => Err(TokenError::Invalid),
    }
}

/// Issues a token for `user_id` and `email`, expiring a fixed lifetime
/// past `now`.
pub fn create_jwt_at(user_id: i32, email: &str, secret: &str, now: u64) -> (r: Result<
    String,
    CodecError,
>)
    requires
        now + TOKEN_LIFETIME_SECONDS <= u64::MAX,
    ensures
        r is Ok,
        r matches Ok(t) ==> t@ == encoded_jwt(
            user_id as int,
            email@,
            (now + TOKEN_LIFETIME_SECONDS) as u64,
            secret@,
        ) && jwt_payload(t@, secret@) == Some(
            (user_id, email@, (now + TOKEN_LIFETIME_SECONDS) as u64),
        ),
{
    let exp = now + TOKEN_LIFETIME_SECONDS;
    jwt_encode(user_id, email, exp, secret)
}

/// Issues a token for `user_id` and `email`, expiring a fixed lifetime
/// past the present instant.
pub fn create_jwt(user_id: i32, email: &str, secret: &str) -> (r: Result<String, CodecError>)
    ensures
        r is Ok,
        r matches Ok(t) ==> jwt_payload(t@, secret@) matches Some(payload) && payload.0 == user_id
            && payload.1 == email@,
{
    let now = now_unix_seconds();
    create_jwt_at(user_id, email, secret, now)
}

/// Verifies a token against the secret at instant `now`: the claims
/// exactly when the signature matches and `now` lies strictly before
/// the expiry; otherwise the error the verdict owes.
pub fn verify_jwt_at(token: &str, secret: &str, now: u64) -> (r: Result<Claims, TokenError>)
    ensures
        r matches Ok(c) ==> token_verdict(token@, secret@, now) == Ok::<_, TokenError>(
            (c.sub, c.email@, c.exp),
        ),
        r matches Err(e) ==> token_verdict(token@, secret@, now) == Err::<(i32, Seq<char>, u64), _>(
            e,
        ),
{
    match jwt_decode(token, secret) {
        Ok((sub, email, exp)) => {
            if now < exp {
                Ok(Claims { sub, email, exp })
            } else {
                Err(TokenError::Expired)
            }
        },
        Err(e) => Err(e),
    }
}

/// Verifies a token against the secret at the present instant.
pub fn verify_jwt(token: &str, secret: &str) -> (r: Result<Claims, TokenError>)
    ensures
        r matches Ok(c) ==> jwt_payload(token@, secret@) == Some((c.sub, c.email@, c.exp)),
        r matches Err(TokenError::Invalid) ==> jwt_payload(token@, secret@) is None,
        r matches Err(TokenError::Expired) ==> jwt_payload(token@, secret@) is Some,
{
    let now = now_unix_seconds();
    verify_jwt_at(token, secret, now)
}

/// What the identity gate makes of a raw authorization header: the
/// token past the `"Bearer "` prefix, or nothing when the prefix is
/// absent.
pub open spec fn bearer_token(header: Seq<char>) -> Option<Seq<char>> {
    if header.len() >= 7 && header.subrange(0, 7) == "Bearer "@ {
        Some(header.skip(7))
    } else {
        None
    }
}

/// The identity gate: requires the `"Bearer "` prefix, strips it, and
/// delegates to token verification at instant `now`. A missing header,
/// a wrong prefix and a failed verification all produce the same
/// rejection, so a caller cannot learn which check failed.
pub fn authenticate(header: Option<&String>, secret: &str, now: u64) -> (r: Result<
    Claims,
    AuthError,
>)
    ensures
        r matches Ok(c) ==> header matches Some(h) && bearer_token(h@) matches Some(t)
            && token_verdict(t, secret@, now) == Ok::<_, TokenError>((c.sub, c.email@, c.exp)),
        r is Err <==> match header {
            Some(h) => match bearer_token(h@) {
                Some(t) => token_verdict(t, secret@, now) is Err,
                None => true,
            },
            None => true,
        },
{
    let h = match header {
        Some(h) => h,
        None => {
            return Err(AuthError);
        },
    };
    let n = h.as_str().unicode_len();
    if n < 7 {
        return Err(AuthError);
    }
    let prefix = String::from_str(h.as_str().substring_char(0, 7));
    if !(prefix == String::from_str("Bearer ")) {
        return Err(AuthError);
    }
    let token = h.as_str().substring_char(7, n);
    assert(token@ == h@.skip(7));
    match verify_jwt_at(token, secret, now) {
        Ok(c) => Ok(c),
        Err(_) => Err(AuthError),
    }
}

/// A token issued for claims `(sub, email, exp)` under a secret
/// verifies under the same secret at every instant strictly before
/// `exp`, and is rejected as expired at every instant from `exp` on:
/// round-trip validity is time-bounded, not indefinite.
pub proof fn lemma_token_round_trip(
    token: Seq<char>,
    secret: Seq<char>,
    sub: i32,
    email: Seq<char>,
    exp: u64,
    now: u64,
)
    ensures
        jwt_payload(token, secret) == Some((sub, email, exp)) && now < exp ==> token_verdict(
            token,
            secret,
            now,
        ) == Ok::<_, TokenError>((sub, email, exp)),
        jwt_payload(token, secret) == Some((sub, email, exp)) && now >= exp ==> token_verdict(
            token,
            secret,
            now,
        ) == Err::<(i32, Seq<char>, u64), _>(TokenError::Expired),
{
}

/// A password verifies against every hash made from it: on a pair the
/// hasher produced, the verifier's verdict is success — never a
/// mismatch and never a malformed-hash failure.
pub proof fn lemma_password_round_trip(password: Seq<char>, hash: Seq<char>)
    ensures
        bcrypt_check(password, hash) == Some(true) ==> password_verdict(password, hash)
            == Ok::<bool, CodecError>(true),
{
}

} // verus!
