use vstd::prelude::*;

use crate::clock::{clock_can_show, unix_now, CLOCK_LIMIT};
use crate::config::Jwt;

verus! {

/// The error type of the `jsonwebtoken` crate. Nothing is read from it:
/// every failure of the crate is mapped to one of this module's own errors.
#[verifier::external_type_specification]
#[verifier::external_body]
pub struct ExJwtError(jsonwebtoken::errors::Error);

/// Why a token could not be issued or was not accepted.
#[derive(Debug, Clone, Copy, PartialEq, Eq, Structural)]
pub enum TokenError {
    /// The subject to issue for, or the token to verify, is empty.
    InvalidSubject,
    /// The signature does not match, or the token does not carry
    /// well-formed claims.
    InvalidToken,
    /// The token is sound, and its time is over.
    ExpiredToken,
    /// The claims cannot be written as times since the epoch.
    InternalError,
}

/// The claims of a session: who it is for, when it was issued and when it
/// ends. Times are whole seconds since the Unix epoch.
#[derive(Debug, Clone)]
pub struct Claims {
    pub exp: u64,
    pub iat: u64,
    pub id: String,
}

pub struct ClaimsView {
    pub exp: u64,
    pub iat: u64,
    pub id: Seq<char>,
}

impl View for Claims {
    type V = ClaimsView;

    open spec fn view(&self) -> ClaimsView {
        ClaimsView { exp: self.exp, iat: self.iat, id: self.id@ }
    }
}

impl ClaimsView {
    /// A session ends after it was issued.
    pub open spec fn wf(self) -> bool {
        self.iat < self.exp
    }
}

/// What a token with a sound signature holds under the three names of the
/// claims. A name that is missing, or holds a value of another kind, is
/// `None`.
#[derive(Debug, Clone)]
pub struct Payload {
    pub exp: Option<u64>,
    pub iat: Option<u64>,
    pub id: Option<String>,
}

pub struct PayloadView {
    pub exp: Option<u64>,
    pub iat: Option<u64>,
    pub id: Option<Seq<char>>,
}

impl View for Payload {
    type V = PayloadView;

    open spec fn view(&self) -> PayloadView {
        PayloadView {
            exp: self.exp,
            iat: self.iat,
            id: match self.id {
                Some(id) => Some(id@),
                None => None,
            },
        }
    }
}

/// The payload that holds exactly these claims.
pub open spec fn payload_of(claims: ClaimsView) -> PayloadView {
    PayloadView { exp: Some(claims.exp), iat: Some(claims.iat), id: Some(claims.id) }
}

/// The compact token that `jsonwebtoken::encode` makes of the three claims
/// with the default header (HS256) and `secret` as the key.
pub uninterp spec fn hs256_token(secret: Seq<char>, exp: u64, iat: u64, id: Seq<char>) -> Seq<char>;

/// What `jsonwebtoken::decode` finds in `token` with `secret` as the HS256
/// key, the expiry check switched off: the payload where signature and
/// structure are sound, `None` where the crate reports an error.
pub uninterp spec fn hs256_payload(secret: Seq<char>, token: Seq<char>) -> Option<PayloadView>;

/// Signs the claims `{exp, iat, id}` by `jsonwebtoken::encode`, with the
/// default header and `secret` as the HMAC key. Trusted: the call gives a
/// token (`encode` fails only where the key is of another family than the
/// header's algorithm, or where header or claims cannot be written as
/// JSON, and neither can happen with an HMAC key, the default header and
/// a map of two numbers and a string); the token is the crate's token for
/// these values; it is never empty (it joins three parts by dots); and the
/// crate's `decode` finds in it, under the same secret, the claims that
/// went in.
#[verifier::external_body]
fn sign_hs256(secret: &str, exp: u64, iat: u64, id: &str) -> (signed: Result<
    String,
    jsonwebtoken::errors::Error,
>)
    ensures
        signed is Ok,
        signed matches Ok(token) ==> token@ == hs256_token(secret@, exp, iat, id@) && token@.len()
            > 0 && hs256_payload(secret@, token@) == Some(
            (PayloadView { exp: Some(exp), iat: Some(iat), id: Some(id@) }),
        ),
{
    let mut claims = serde_json::Map::new();
    claims.insert("exp".to_string(), serde_json::Value::from(exp));
    claims.insert("iat".to_string(), serde_json::Value::from(iat));
    claims.insert("id".to_string(), serde_json::Value::from(id));
    let key = jsonwebtoken::EncodingKey::from_secret(secret.as_bytes());
    jsonwebtoken::encode(&jsonwebtoken::Header::default(), &claims, &key)
}

/// Checks `token` by `jsonwebtoken::decode` with `secret` as the HS256 key.
/// The crate checks signature and structure, and that `exp` is there; its
/// own comparison of `exp` with the system clock is switched off, so that
/// the outcome depends on `secret` and `token` alone. Trusted: the result
/// is what the crate finds.
#[verifier::external_body]
fn check_hs256(secret: &str, token: &str) -> (checked: Result<Payload, jsonwebtoken::errors::Error>)
    ensures
        match checked {
            Ok(payload) => hs256_payload(secret@, token@) == Some(payload@),
            Err(_) => hs256_payload(secret@, token@) is None,
        },
{
    let mut validation = jsonwebtoken::Validation::new(jsonwebtoken::Algorithm::HS256);
    validation.validate_exp = false;
    let key = jsonwebtoken::DecodingKey::from_secret(secret.as_bytes());
    match jsonwebtoken::decode::<serde_json::Value>(token, &key, &validation) {
        Ok(data) => Ok(
            Payload {
                exp: data.claims.get("exp").and_then(serde_json::Value::as_u64),
                iat: data.claims.get("iat").and_then(serde_json::Value::as_u64),
                id: data.claims.get("id").and_then(serde_json::Value::as_str).map(str::to_string),
            },
        ),
        Err(error) => Err(error),
    }
}

/// The claims of a session for `id` that starts at `now` and lasts
/// `expire` seconds.
pub open spec fn claims_outcome(id: Seq<char>, expire: int, now: int) -> Result<
    ClaimsView,
    TokenError,
> {
    if id.len() == 0 {
        Err(TokenError::InvalidSubject)
    } else if now < 0 || now + expire < 0 || now + expire > i64::MAX {
        Err(TokenError::InternalError)
    } else {
        Ok(ClaimsView { exp: (now + expire) as u64, iat: now as u64, id })
    }
}

/// What issuing a token gives: the error of the claims, or the token that
/// signs them.
pub open spec fn issue_outcome(secret: Seq<char>, id: Seq<char>, expire: int, now: int) -> Result<
    Seq<char>,
    TokenError,
> {
    match claims_outcome(id, expire, now) {
        Err(e) => Err(e),
        Ok(claims) => Ok(hs256_token(secret, claims.exp, claims.iat, claims.id)),
    }
}

/// Whether `token` is what issuing for `id` at `now`, for `expire`
/// seconds, gave under `secret`: it is the outcome of issuing, it is not
/// empty, and it carries the claims that were signed.
pub open spec fn issued(
    secret: Seq<char>,
    id: Seq<char>,
    expire: int,
    now: int,
    token: Seq<char>,
) -> bool {
    &&& issue_outcome(secret, id, expire, now) == Ok::<Seq<char>, TokenError>(token)
    &&& token.len() > 0
    &&& claims_outcome(id, expire, now) matches Ok(claims) && hs256_payload(secret, token) == Some(
        payload_of(claims),
    )
}

/// What the payload of a sound token amounts to at `now`: the claims, if
/// all three are there, the session has not ended, and it ends after it
/// was issued.
pub open spec fn payload_outcome(payload: PayloadView, now: int) -> Result<ClaimsView, TokenError> {
    match (payload.exp, payload.iat, payload.id) {
        (Some(exp), Some(iat), Some(id)) => {
            if exp <= now {
                Err(TokenError::ExpiredToken)
            } else if exp <= iat {
                Err(TokenError::InvalidToken)
            } else {
                Ok(ClaimsView { exp, iat, id })
            }
        },
        _ => Err(TokenError::InvalidToken),
    }
}

/// What verifying `token` at `now` gives.
pub open spec fn verify_outcome(secret: Seq<char>, token: Seq<char>, now: int) -> Result<
    ClaimsView,
    TokenError,
> {
    if token.len() == 0 {
        Err(TokenError::InvalidSubject)
    } else {
        match hs256_payload(secret, token) {
            None => Err(TokenError::InvalidToken),
            Some(payload) => payload_outcome(payload, now),
        }
    }
}

/// The view of what issuing returned.
pub open spec fn issued_view(issued: Result<String, TokenError>) -> Result<Seq<char>, TokenError> {
    match issued {
        Ok(token) => Ok(token@),
        Err(e) => Err(e),
    }
}

/// The view of what verifying returned.
pub open spec fn verified_view(verified: Result<Claims, TokenError>) -> Result<
    ClaimsView,
    TokenError,
> {
    match verified {
        Ok(claims) => Ok(claims@),
        Err(e) => Err(e),
    }
}

impl Claims {
    /// The claims of a session for `id` that starts at `now` and lasts
    /// `expire` seconds. An empty `id` is refused; so are times that
    /// cannot be written as seconds since the epoch.
    pub fn starting_at(id: String, expire: i64, now: i64) -> (made: Result<Claims, TokenError>)
        ensures
            verified_view(made) == claims_outcome(id@, expire as int, now as int),
    {
        if id.as_str().is_empty() {
            return Err(TokenError::InvalidSubject);
        }
        if now < 0 {
            return Err(TokenError::InternalError);
        }
        match now.checked_add(expire) {
            Some(end) => {
                if end < 0 {
                    Err(TokenError::InternalError)
                } else {
                    Ok(Claims { exp: end as u64, iat: now as u64, id })
                }
            },
            None => Err(TokenError::InternalError),
        }
    }

    /// The claims that a payload amounts to at `now`.
    pub fn of_payload(payload: Payload, now: i64) -> (found: Result<Claims, TokenError>)
        ensures
            verified_view(found) == payload_outcome(payload@, now as int),
    {
        match (payload.exp, payload.iat, payload.id) {
            (Some(exp), Some(iat), Some(id)) => {
                if now >= 0 && exp <= now as u64 {
                    Err(TokenError::ExpiredToken)
                } else if exp <= iat {
                    Err(TokenError::InvalidToken)
                } else {
                    Ok(Claims { exp, iat, id })
                }
            },
            _ => Err(TokenError::InvalidToken),
        }
    }
}

/// Issues a token for `id` at the instant `now`, to last `expire` seconds.
/// A subject that is not empty gets a token whenever both instants can be
/// written as seconds since the epoch.
pub fn encode_jwt_at(jwt: &Jwt, id: String, expire: i64, now: i64) -> (token: Result<
    String,
    TokenError,
>)
    ensures
        issued_view(token) == issue_outcome(jwt.secret@, id@, expire as int, now as int),
        token is Ok <==> id@.len() > 0 && 0 <= now && 0 <= now + expire <= i64::MAX,
        token matches Ok(t) ==> issued(jwt.secret@, id@, expire as int, now as int, t@),
{
    match Claims::starting_at(id, expire, now) {
        Err(e) => Err(e),
        Ok(claims) => match sign_hs256(
            jwt.secret.as_str(),
            claims.exp,
            claims.iat,
            claims.id.as_str(),
        ) {
            Ok(token) => Ok(token),
            // the signer gives a token for all such claims
            Err(_) => Err(TokenError::InternalError),
        },
    }
}

/// Verifies `token` at the instant `now`.
pub fn decode_jwt_at(jwt: &Jwt, token: String, now: i64) -> (claims: Result<Claims, TokenError>)
    ensures
        verified_view(claims) == verify_outcome(jwt.secret@, token@, now as int),
        claims matches Ok(c) ==> c@.wf() && now < c.exp,
{
    if token.as_str().is_empty() {
        return Err(TokenError::InvalidSubject);
    }
    match check_hs256(jwt.secret.as_str(), token.as_str()) {
        Ok(payload) => Claims::of_payload(payload, now),
        Err(_) => Err(TokenError::InvalidToken),
    }
}

/// Issues a token for `id` that lasts `expire` seconds from now. The
/// instant comes from the system clock: the result is what
/// [`encode_jwt_at`] gives for some instant that the clock can show. So an
/// empty subject is refused, and a subject that is not empty gets a token
/// for every lifetime from nothing up to what still fits behind the
/// latest instant of the clock; a negative lifetime is refused only where
/// it reaches back before the epoch.
pub fn encode_jwt(jwt: &Jwt, id: String, expire: i64) -> (token: Result<String, TokenError>)
    ensures
        exists|now: int|
            clock_can_show(now) && issued_view(token) == #[trigger] issue_outcome(
                jwt.secret@,
                id@,
                expire as int,
                now,
            ) && (token matches Ok(t) ==> issued(jwt.secret@, id@, expire as int, now, t@)),
        id@.len() == 0 <==> token == Err::<String, TokenError>(TokenError::InvalidSubject),
        id@.len() > 0 && 0 <= expire <= i64::MAX - CLOCK_LIMIT ==> token is Ok,
        token matches Err(e) ==> e == TokenError::InvalidSubject || (e == TokenError::InternalError
            && (expire < 0 || expire > i64::MAX - CLOCK_LIMIT)),
{
    let now = unix_now();
    encode_jwt_at(jwt, id, expire, now)
}

/// Verifies `token` against the system clock: the result is what
/// [`decode_jwt_at`] gives for some instant that the clock can show. What
/// does not hang on the instant is settled whatever the clock shows: an
/// empty token is an invalid subject, and a token whose signature or
/// structure is unsound is an invalid token.
pub fn decode_jwt(jwt: &Jwt, token: String) -> (claims: Result<Claims, TokenError>)
    ensures
        exists|now: int|
            clock_can_show(now) && verified_view(claims) == #[trigger] verify_outcome(
                jwt.secret@,
                token@,
                now,
            ) && (claims matches Ok(c) ==> now < c.exp),
        claims matches Ok(c) ==> c@.wf(),
{
    let now = unix_now();
    decode_jwt_at(jwt, token, now)
}

/// A token that was issued for a subject is accepted until its time is
/// over, and the claims it yields name that subject: for a token issued for
/// `id` at `issued_at`, for `expire` seconds, verifying at any instant from
/// `issued_at` up to, not including, `issued_at + expire` gives claims whose
/// `id` is `id`.
pub proof fn lemma_verify_names_issued_subject(
    secret: Seq<char>,
    id: Seq<char>,
    expire: int,
    issued_at: int,
    checked_at: int,
    token: Seq<char>,
)
    requires
        id.len() > 0,
        expire > 0,
        issued(secret, id, expire, issued_at, token),
        issued_at <= checked_at < issued_at + expire,
    ensures
        verify_outcome(secret, token, checked_at) == Ok::<ClaimsView, TokenError>(
            ClaimsView { exp: (issued_at + expire) as u64, iat: issued_at as u64, id },
        ),
{
}

/// A token whose time is over is refused as expired: if `token` was issued
/// at `issued_at` for `expire` seconds, then verifying it at an instant not
/// before `issued_at + expire` gives `ExpiredToken`. A token issued for no
/// time or less is expired from the moment it was issued.
pub proof fn lemma_verify_refuses_elapsed(
    secret: Seq<char>,
    id: Seq<char>,
    expire: int,
    issued_at: int,
    checked_at: int,
    token: Seq<char>,
)
    requires
        issued(secret, id, expire, issued_at, token),
        issued_at + expire <= checked_at,
    ensures
        verify_outcome(secret, token, checked_at) == Err::<ClaimsView, TokenError>(
            TokenError::ExpiredToken,
        ),
{
}

/// An empty subject is never issued for, and an empty token is never
/// accepted, whatever the secret and the instant.
pub proof fn lemma_empty_is_invalid_subject(secret: Seq<char>, expire: int, now: int)
    ensures
        issue_outcome(secret, Seq::<char>::empty(), expire, now) == Err::<Seq<char>, TokenError>(
            TokenError::InvalidSubject,
        ),
        verify_outcome(secret, Seq::<char>::empty(), now) == Err::<ClaimsView, TokenError>(
            TokenError::InvalidSubject,
        ),
{
}

} // verus!
