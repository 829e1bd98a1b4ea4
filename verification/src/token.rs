//! The token codec: signed, time-limited identity tokens.
//!
//! A token carries three claims: `name` (the subject, a serialized store
//! identifier), `iat` (issue time) and `exp` (expiry, issue time plus a
//! fixed 21-hour lifetime), and is signed with HMAC-SHA-384 under a
//! symmetric key supplied at store initialization.  Signing and signature
//! checking are outside computations; the library names their results and
//! performs the expiry check itself, with an explicit 60-second leeway
//! (the same tolerance the token backend applies by default).
use vstd::prelude::*;

verus! {

/// The claim set carried by an identity token.
#[derive(Debug)]
pub struct Claims {
    pub name: String,
    pub exp: u64,
    pub iat: u64,
}

/// Token lifetime: 21 hours, in seconds.
pub const TOKEN_LIFETIME_SECS: u64 = 21 * 3600;

/// Clock-skew tolerance applied to the expiry check, in seconds.
pub const LEEWAY_SECS: u64 = 60;

/// The compact signed token for a claim set, under a given key.
pub uninterp spec fn signed_token(key: Seq<u8>, name: Seq<char>, iat: u64, exp: u64) -> Seq<char>;

/// The claim set `(name, iat, exp)` recovered from a token under a given
/// key, or `None` when the token is malformed, signed under another key or
/// algorithm, or carries claims of the wrong shape.
pub uninterp spec fn token_claims(key: Seq<u8>, token: Seq<char>) -> Option<(Seq<char>, u64, u64)>;

/// Whether `signature` is the valid HMAC-SHA-384 signature of `message`
/// under a given key, in the token codec's base64 rendering.
pub uninterp spec fn sig_ok(key: Seq<u8>, message: Seq<char>, signature: Seq<char>) -> bool;

/// A token's expiry check at time `now`: not yet expired, with leeway.
pub open spec fn token_live_at(exp: u64, now: u64) -> bool {
    exp + LEEWAY_SECS >= now
}

/// Relies on `jsonwebtoken::encode`: with an HMAC secret key and an HS384
/// header the encoding cannot fail and is determined by key and claims
/// alone; the output is base64url segments joined by `'.'`, so it holds no
/// space character; and `jsonwebtoken::decode` under the same key recovers
/// exactly the claims that were signed.
#[verifier::external_body]
pub(crate) fn sign_token(key: &[u8], name: &str, iat: u64, exp: u64) -> (t: String)
    ensures
        t@ == signed_token(key@, name@, iat, exp),
        token_claims(key@, t@) == Some((name@, iat, exp)),
        forall|i: int| 0 <= i < t@.len() ==> t@[i] != ' ',
{
    let mut claims = serde_json::Map::new();
    claims.insert("name".to_string(), serde_json::Value::String(name.to_string()));
    claims.insert("exp".to_string(), serde_json::Value::from(exp));
    claims.insert("iat".to_string(), serde_json::Value::from(iat));
    let header = jsonwebtoken::Header::new(jsonwebtoken::Algorithm::HS384);
    let enc_key = jsonwebtoken::EncodingKey::from_secret(key);
    jsonwebtoken::encode(&header, &serde_json::Value::Object(claims), &enc_key).unwrap_or_default()
}

/// Relies on `jsonwebtoken::decode`: with expiry validation switched off
/// and no required claims, the outcome is a function of key and token
/// alone — structural parse, HS384 signature check under the key, then the
/// claim object; `name` must be a string and `exp`/`iat` unsigned numbers.
#[verifier::external_body]
pub(crate) fn decode_token(key: &[u8], token: &str) -> (r: Option<Claims>)
    ensures
        (r is Some) == (token_claims(key@, token@) is Some),
        r matches Some(c) ==> token_claims(key@, token@) == Some((c.name@, c.iat, c.exp)),
{
    let mut validation = jsonwebtoken::Validation::new(jsonwebtoken::Algorithm::HS384);
    validation.validate_exp = false;
    validation.required_spec_claims.clear();
    let dec_key = jsonwebtoken::DecodingKey::from_secret(key);
    match jsonwebtoken::decode::<serde_json::Value>(token, &dec_key, &validation) {
        Ok(data) => match (
            data.claims.get("name").and_then(|v| v.as_str()),
            data.claims.get("exp").and_then(|v| v.as_u64()),
            data.claims.get("iat").and_then(|v| v.as_u64()),
        ) {
            (Some(n), Some(e), Some(i)) => Some(Claims { name: n.to_string(), exp: e, iat: i }),
            _ => None,
        },
        Err(_) => None,
    }
}

/// Relies on `jsonwebtoken::crypto::verify`: for HMAC the check recomputes
/// the signature from key and message and compares, a function of its
/// arguments alone; an undecodable signature simply fails the check.
#[verifier::external_body]
pub(crate) fn verify_signature(key: &[u8], message: &str, signature: &str) -> (r: bool)
    ensures
        r == sig_ok(key@, message@, signature@),
{
    let dec_key = jsonwebtoken::DecodingKey::from_secret(key);
    jsonwebtoken::crypto::verify(
        signature,
        message.as_bytes(),
        &dec_key,
        jsonwebtoken::Algorithm::HS384,
    ).unwrap_or(false)
}

} // verus!
