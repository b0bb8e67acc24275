//! Token codec: issues and decodes the signed session tokens.
//!
//! A token carries a subject (account id as a string), an issued-at and an
//! expiry timestamp (absolute epoch seconds), and a kind discriminator, either
//! `access` or `refresh`. Access tokens live for one hour, refresh tokens for
//! seven days. Signing and signature checking go through an outside JWT
//! implementation; the token produced for given claims and secret is a
//! deterministic value, named here by [`token_of`]. Every issued token also
//! carries a fresh unique id claim, which decoding ignores: timestamps have
//! second granularity, and without the id two tokens issued within one second
//! would be the same string, breaking the single-use rotation of the
//! digest-keyed ledger.

use vstd::prelude::*;

verus! {

use crate::error::AuthError;
use crate::strutil::str_eq;

/// Lifetime of an access token, in seconds (one hour).
pub const ACCESS_TOKEN_LIFETIME_SECS: u64 = 3600;

/// Lifetime of a refresh token, in days.
pub const REFRESH_TOKEN_DURATION_DAYS: u64 = 7;

/// Lifetime of a refresh token, in seconds.
pub const REFRESH_TOKEN_LIFETIME_SECS: u64 = 7 * 86400;

/// The kind discriminator carried inside every token, preventing a refresh
/// token from being replayed as an access credential and vice versa.
#[derive(Debug, Clone, Copy, PartialEq, Eq, Structural)]
pub enum TokenType {
    Access,
    Refresh,
}

impl TokenType {
    pub open spec fn spec_str(self) -> Seq<char> {
        match self {
            TokenType::Access => "access"@,
            TokenType::Refresh => "refresh"@,
        }
    }

    pub fn as_str(&self) -> (r: &str)
        ensures
            r@ == self.spec_str(),
    {
        match self {
            TokenType::Access => "access",
            TokenType::Refresh => "refresh",
        }
    }
}

/// The claims carried by a session token.
#[derive(Debug)]
pub struct Claims {
    pub sub: String,
    pub iat: u64,
    pub exp: u64,
    pub token_type: String,
}

/// Mathematical model of [`Claims`].
pub ghost struct ClaimsView {
    pub sub: Seq<char>,
    pub iat: int,
    pub exp: int,
    pub token_type: Seq<char>,
}

impl View for Claims {
    type V = ClaimsView;

    open spec fn view(&self) -> ClaimsView {
        ClaimsView {
            sub: self.sub@,
            iat: self.iat as int,
            exp: self.exp as int,
            token_type: self.token_type@,
        }
    }
}

impl Clone for Claims {
    fn clone(&self) -> (r: Self)
        ensures
            r@ == self@,
    {
        Claims {
            sub: self.sub.clone(),
            iat: self.iat,
            exp: self.exp,
            token_type: self.token_type.clone(),
        }
    }
}

/// Why decoding a token failed. All variants are surfaced externally as one
/// generic invalid-token failure.
#[derive(Debug, Clone, Copy, PartialEq, Eq, Structural)]
pub enum TokenError {
    Expired,
    BadSignature,
    Malformed,
    InvalidTokenType,
}

// Name for the token that the outside JWT encoder produces for the given
// claims, unique token id and secret; it is a deterministic function of these
// arguments alone. The unique id is drawn fresh at every issuance, so that no
// two issued tokens are ever the same string, even within one clock second.
pub uninterp spec fn token_of(
    sub: Seq<char>,
    iat: int,
    exp: int,
    kind: Seq<char>,
    jti: Seq<char>,
    secret: Seq<char>,
) -> Seq<char>;

/// Relies on uuid::Uuid::new_v4: a freshly drawn random identifier, rendered
/// in hyphenated form; nothing is assumed about the value.
#[verifier::external_body]
pub(crate) fn new_uuid() -> (r: String) {
    uuid::Uuid::new_v4().to_string()
}

/// Relies on jsonwebtoken::encode with the default header (HS256): the token
/// is a deterministic function of the claims and the signing secret.
#[verifier::external_body]
fn encode_claims(claims: &Claims, jti: &str, secret: &str) -> (r: Result<String, AuthError>)
    ensures
        r matches Ok(t) ==> t@ == token_of(
            claims.sub@,
            claims.iat as int,
            claims.exp as int,
            claims.token_type@,
            jti@,
            secret@,
        ),
        r matches Err(e) ==> e is TokenCreationError,
{
    let mut payload = serde_json::Map::new();
    payload.insert("sub".to_owned(), serde_json::Value::from(claims.sub.as_str()));
    payload.insert("iat".to_owned(), serde_json::Value::from(claims.iat));
    payload.insert("exp".to_owned(), serde_json::Value::from(claims.exp));
    payload.insert("token_type".to_owned(), serde_json::Value::from(claims.token_type.as_str()));
    payload.insert("jti".to_owned(), serde_json::Value::from(jti));
    jsonwebtoken::encode(
        &jsonwebtoken::Header::default(),
        &serde_json::Value::Object(payload),
        &jsonwebtoken::EncodingKey::from_secret(secret.as_bytes()),
    ).map_err(|e| AuthError::TokenCreationError(e.to_string()))
}

/// What this module states about a decode outcome: a token that the encoder
/// produced under the same secret yields exactly the claims that were encoded,
/// and the only way it can fail is by having expired.
pub open spec fn decode_outcome_consistent(
    token: Seq<char>,
    secret: Seq<char>,
    r: Result<ClaimsView, TokenError>,
) -> bool {
    forall|sub: Seq<char>, iat: int, exp: int, kind: Seq<char>, jti: Seq<char>|
        token == #[trigger] token_of(sub, iat, exp, kind, jti, secret) ==> {
            &&& (r matches Ok(c) ==> c == (ClaimsView { sub, iat, exp, token_type: kind }))
            &&& (r matches Err(e) ==> e == TokenError::Expired)
        }
}

pub open spec fn spec_decode_result(r: Result<Claims, TokenError>) -> Result<ClaimsView, TokenError> {
    match r {
        Ok(c) => Ok(c@),
        Err(e) => Err(e),
    }
}

/// Relies on jsonwebtoken::decode with the default validation (HS256): the
/// signature is checked against the secret and the expiry against the clock;
/// a token produced by the encoder under the same secret decodes to exactly
/// the claims that were encoded, and can fail only with `Expired`.
#[verifier::external_body]
pub fn decode_jwt(token: &str, secret: &str) -> (r: Result<Claims, TokenError>)
    ensures
        decode_outcome_consistent(token@, secret@, spec_decode_result(r)),
{
    let key = jsonwebtoken::DecodingKey::from_secret(secret.as_bytes());
    let data = match jsonwebtoken::decode::<serde_json::Value>(token, &key, &Default::default()) {
        Ok(d) => d.claims,
        Err(e) => return Err(match e.kind() {
            jsonwebtoken::errors::ErrorKind::ExpiredSignature => TokenError::Expired,
            jsonwebtoken::errors::ErrorKind::InvalidSignature => TokenError::BadSignature,
            _ => TokenError::Malformed,
        }),
    };
    match (data["sub"].as_str(), data["iat"].as_u64(), data["exp"].as_u64(), data["token_type"].as_str()) {
        (Some(s), Some(i), Some(x), Some(t)) => Ok(Claims { sub: s.to_owned(), iat: i, exp: x, token_type: t.to_owned() }),
        _ => Err(TokenError::Malformed),
    }
}

/// Relies on chrono::Utc::now: seconds since the Unix epoch at the moment of
/// the call; nothing can be promised of the value.
#[verifier::external_body]
pub(crate) fn now_ts() -> i64 {
    chrono::Utc::now().timestamp()
}

/// Whether `t` is an access token for subject `sub` under `secret`, issued at
/// some nonnegative time and expiring one hour later.
pub open spec fn access_token_for(t: Seq<char>, sub: Seq<char>, secret: Seq<char>) -> bool {
    exists|iat: int, jti: Seq<char>|
        0 <= iat && t == #[trigger] token_of(
            sub,
            iat,
            iat + ACCESS_TOKEN_LIFETIME_SECS,
            TokenType::Access.spec_str(),
            jti,
            secret,
        )
}

/// Whether `t` is a refresh token for subject `sub` under `secret`, issued at
/// some nonnegative time and expiring seven days later.
pub open spec fn refresh_token_for(t: Seq<char>, sub: Seq<char>, secret: Seq<char>) -> bool {
    exists|iat: int, jti: Seq<char>|
        0 <= iat && t == #[trigger] token_of(
            sub,
            iat,
            iat + REFRESH_TOKEN_LIFETIME_SECS,
            TokenType::Refresh.spec_str(),
            jti,
            secret,
        )
}

/// Issues a signed access token for the subject, valid for one hour from now.
pub fn create_jwt(user_id: &str, secret: &str) -> (r: Result<String, AuthError>)
    ensures
        r matches Ok(t) ==> access_token_for(t@, user_id@, secret@),
        r matches Err(e) ==> e is TokenCreationError,
{
    let now = now_ts();
    if now < 0 || now > i64::MAX - ACCESS_TOKEN_LIFETIME_SECS as i64 {
        return Err(
            AuthError::TokenCreationError(String::from_str("Invalid timestamp calculation")),
        );
    }
    let iat = now as u64;
    let exp = iat + ACCESS_TOKEN_LIFETIME_SECS;
    let claims = Claims {
        sub: user_id.to_owned(),
        iat,
        exp,
        token_type: TokenType::Access.as_str().to_owned(),
    };
    let jti = new_uuid();
    let t = encode_claims(&claims, jti.as_str(), secret)?;
    proof {
        assert(t@ == token_of(
            user_id@,
            iat as int,
            iat as int + ACCESS_TOKEN_LIFETIME_SECS,
            TokenType::Access.spec_str(),
            jti@,
            secret@,
        ));
    }
    Ok(t)
}

/// Issues a signed refresh token for the subject, valid for seven days from
/// now.
pub fn create_refresh_token(user_id: &str, secret: &str) -> (r: Result<String, AuthError>)
    ensures
        r matches Ok(t) ==> refresh_token_for(t@, user_id@, secret@),
        r matches Err(e) ==> e is TokenCreationError,
{
    let now = now_ts();
    if now < 0 || now > i64::MAX - REFRESH_TOKEN_LIFETIME_SECS as i64 {
        return Err(
            AuthError::TokenCreationError(String::from_str("Invalid timestamp calculation")),
        );
    }
    let iat = now as u64;
    let exp = iat + REFRESH_TOKEN_LIFETIME_SECS;
    let claims = Claims {
        sub: user_id.to_owned(),
        iat,
        exp,
        token_type: TokenType::Refresh.as_str().to_owned(),
    };
    let jti = new_uuid();
    let t = encode_claims(&claims, jti.as_str(), secret)?;
    proof {
        assert(t@ == token_of(
            user_id@,
            iat as int,
            iat as int + REFRESH_TOKEN_LIFETIME_SECS,
            TokenType::Refresh.spec_str(),
            jti@,
            secret@,
        ));
    }
    Ok(t)
}

/// What this module states about the outcome of a kind-checked decode: on a
/// token that the encoder produced under the same secret, success returns
/// exactly the encoded claims and only with the expected kind; a token of
/// another kind is always rejected, with `InvalidTokenType` unless it had
/// already failed as expired.
pub open spec fn decode_with_type_consistent(
    token: Seq<char>,
    secret: Seq<char>,
    expected: TokenType,
    r: Result<ClaimsView, TokenError>,
) -> bool {
    forall|sub: Seq<char>, iat: int, exp: int, kind: Seq<char>, jti: Seq<char>|
        token == #[trigger] token_of(sub, iat, exp, kind, jti, secret) ==> {
            &&& (r matches Ok(c) ==> c == (ClaimsView { sub, iat, exp, token_type: kind })
                && kind == expected.spec_str())
            &&& (r matches Err(e) ==> (e == TokenError::Expired || e
                == TokenError::InvalidTokenType))
            &&& (kind == expected.spec_str() ==> (r matches Err(e) ==> e == TokenError::Expired))
            &&& (kind != expected.spec_str() ==> r is Err)
        }
}

/// Decodes a token and additionally enforces the kind discriminator: a token
/// decoded with kind `refresh` is never accepted where kind `access` is
/// required, and vice versa.
pub fn decode_jwt_with_type(token: &str, secret: &str, expected_type: TokenType) -> (r: Result<
    Claims,
    TokenError,
>)
    ensures
        decode_with_type_consistent(token@, secret@, expected_type, spec_decode_result(r)),
        r matches Ok(c) ==> c.token_type@ == expected_type.spec_str(),
{
    let claims = match decode_jwt(token, secret) {
        Ok(c) => c,
        Err(e) => {
            proof {
                assert forall|sub: Seq<char>, iat: int, exp: int, kind: Seq<char>, jti: Seq<char>|
                    token@ == #[trigger] token_of(sub, iat, exp, kind, jti, secret@) implies e
                    == TokenError::Expired by {}
            }
            return Err(e);
        },
    };
    if !str_eq(claims.token_type.as_str(), expected_type.as_str()) {
        return Err(TokenError::InvalidTokenType);
    }
    Ok(claims)
}

} // verus!
