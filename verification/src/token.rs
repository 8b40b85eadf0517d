//! Session tokens: issue at login, validate on every request.
//!
//! A token carries `{sub, exp}` and a symmetric signature.  Signing and
//! signature checking are the trusted calls; `signed_claims` names, for a
//! given token text and secret, the claims the signature check accepts.
//! Expiry is checked here, in verified code, against an explicit clock
//! value, so validation is a pure function of `(token, secret, now)`.
//! There is no server-side state: a token cannot be revoked before its
//! expiry, which is the accepted cost of stateless validation.

use vstd::prelude::*;

verus! {

/// The claims carried by a valid token: the subject identifier in text
/// form and the expiry as whole seconds since the epoch.
#[derive(Debug, Clone, PartialEq, Eq)]
pub struct Claims {
    pub sub: String,
    pub exp: u64,
}

/// The claims that signature checking with `secret` accepts in `token`:
/// `Some((sub, exp))` when the token is well formed and its signature is
/// the secret's signature over exactly those claims, `None` otherwise.
/// A function of the token text and the secret alone.
pub uninterp spec fn signed_claims(token: Seq<char>, secret: Seq<char>) -> Option<(Seq<char>, u64)>;

/// The mathematical image of a decoded claims pair.
pub open spec fn decoded_view(r: Option<(String, u64)>) -> Option<(Seq<char>, u64)> {
    match r {
        Some(p) => Some((p.0@, p.1)),
        None => None,
    }
}

/// Relies on `jsonwebtoken::encode` with the default HS256 header: the
/// result is a token whose signature check under the same secret yields
/// exactly the claims given, as the library's encode/decode pair
/// documents.  On this path encoding cannot fail: the secret's key family
/// matches the header's algorithm, the HMAC-SHA-256 signer accepts keys of
/// any length and signing is infallible, and serializing a string and an
/// integer claim cannot error — so success is owed.
#[verifier::external_body]
fn jwt_encode(sub: &str, exp: u64, secret: &str) -> (r: Result<String, String>)
    ensures
        r is Ok,
        r matches Ok(t) ==> signed_claims(t@, secret@) == Some((sub@, exp)),
{
    let mut claims = serde_json::Map::new();
    claims.insert("sub".to_string(), serde_json::Value::String(sub.to_string()));
    claims.insert("exp".to_string(), serde_json::Value::from(exp));
    let key = jsonwebtoken::EncodingKey::from_secret(secret.as_bytes());
    match jsonwebtoken::encode(&jsonwebtoken::Header::default(), &serde_json::Value::Object(claims), &key) {
        Ok(t) => Ok(t),
        Err(e) => Err(e.to_string()),
    }
}

/// Relies on `jsonwebtoken::decode` with expiry checking turned off: what
/// remains — structure, HS256 signature over the token's own bytes, and
/// claim extraction — is deterministic in the token and the secret, and is
/// exactly what `signed_claims` names.
#[verifier::external_body]
fn jwt_decode_signed(token: &str, secret: &str) -> (r: Option<(String, u64)>)
    ensures
        decoded_view(r) == signed_claims(token@, secret@),
{
    let key = jsonwebtoken::DecodingKey::from_secret(secret.as_bytes());
    let mut validation = jsonwebtoken::Validation::default();
    validation.validate_exp = false;
    validation.required_spec_claims = std::collections::HashSet::new();
    match jsonwebtoken::decode::<serde_json::Value>(token, &key, &validation) {
        Ok(data) => match (data.claims.get("sub").and_then(|v| v.as_str()), data.claims.get("exp").and_then(|v| v.as_u64())) {
            (Some(s), Some(e)) => Some((s.to_string(), e)),
            _ => None,
        },
        Err(_) => None,
    }
}

/// How token validation can fail.  The first two causes of the taxonomy —
/// undecodable text and a signature mismatch — are deliberately one
/// variant: callers must not be able to tell them apart.
#[derive(Debug, Clone, Copy, PartialEq, Eq, Structural)]
pub enum TokenError {
    Invalid,
    Expired,
}

/// What `validate` returns, at the specification level: the signed claims
/// if the signature check accepts them and the expiry is still ahead of
/// the clock, the precise error otherwise.
pub open spec fn spec_validate(token: Seq<char>, secret: Seq<char>, now: u64) -> Result<
    (Seq<char>, u64),
    TokenError,
> {
    match signed_claims(token, secret) {
        Option::None => Err(TokenError::Invalid),
        Option::Some((sub, exp)) => if exp > now {
            Ok((sub, exp))
        } else {
            Err(TokenError::Expired)
        },
    }
}

/// The mathematical image of a validation result.
pub open spec fn validate_view(r: Result<Claims, TokenError>) -> Result<
    (Seq<char>, u64),
    TokenError,
> {
    match r {
        Ok(c) => Ok((c.sub@, c.exp)),
        Err(e) => Err(e),
    }
}

/// Issue a token for `subject` that expires `ttl_seconds` from `now`,
/// signed with `secret`.  Issuance always succeeds: symmetric signing has
/// no failing path.
pub fn issue(subject: &str, ttl_seconds: u64, secret: &str, now: u64) -> (r: String)
    requires
        ttl_seconds > 0,
        now + ttl_seconds <= u64::MAX,
    ensures
        signed_claims(r@, secret@) == Some((subject@, (now + ttl_seconds) as u64)),
{
    let exp = now + ttl_seconds;
    match jwt_encode(subject, exp, secret) {
        Ok(t) => t,
        Err(_) => unreached(),
    }
}

/// Validate a token against `secret` at time `now`: the signature is
/// checked first, before any claim is interpreted, then the expiry must be
/// strictly ahead of the clock.
pub fn validate(token: &str, secret: &str, now: u64) -> (r: Result<Claims, TokenError>)
    ensures
        validate_view(r) == spec_validate(token@, secret@, now),
{
    match jwt_decode_signed(token, secret) {
        None => Err(TokenError::Invalid),
        Some((sub, exp)) => {
            if exp > now {
                Ok(Claims { sub, exp })
            } else {
                Err(TokenError::Expired)
            }
        },
    }
}

/// A freshly issued token validates, and stops validating once the clock
/// passes its expiry: for claims signed for `(subject, now + ttl)`,
/// validation at `now` succeeds with exactly those claims, and validation
/// at any instant after the expiry reports expiry.
pub proof fn lemma_issued_token_lifecycle(
    token: Seq<char>,
    subject: Seq<char>,
    ttl_seconds: u64,
    secret: Seq<char>,
    now: u64,
    later: u64,
)
    requires
        ttl_seconds > 0,
        now + ttl_seconds <= u64::MAX,
        signed_claims(token, secret) == Some((subject, (now + ttl_seconds) as u64)),
    ensures
        spec_validate(token, secret, now) == Ok::<(Seq<char>, u64), TokenError>(
            (subject, (now + ttl_seconds) as u64),
        ),
        later >= now + ttl_seconds ==> spec_validate(token, secret, later) == Err::<
            (Seq<char>, u64),
            TokenError,
        >(TokenError::Expired),
{
}

} // verus!
