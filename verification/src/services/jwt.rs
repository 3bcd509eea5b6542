//! Signed, time-limited identity tokens.
//!
//! A token is a compact JWT signed with HMAC-SHA256. Its claims are `sub` (the
//! user's id), `email`, `iat` (issued at) and `exp` (expires at), the last two
//! in seconds since the Unix epoch. A token is valid from the moment it is
//! issued until `exp`, that second included, and invalid afterwards. Nothing is
//! kept on the server: there is no revocation.
//!
//! Signing and parsing are the `jsonwebtoken` crate's. The validity window is
//! decided here, against a time that the caller names or that the clock gives.

use crate::models::user::{User, UserView};
use vstd::prelude::*;

verus! {

/// The error type of the `jsonwebtoken` crate, carried through unopened.
#[verifier::external_type_specification]
#[verifier::external_body]
pub struct ExTokenCrateError(jsonwebtoken::errors::Error);

/// The claims of a token as contracts see them.
pub struct ClaimsView {
    pub sub: Seq<char>,
    pub email: Seq<char>,
    pub exp: int,
    pub iat: int,
}

/// The claims that a token asserts.
#[derive(Clone, Debug, PartialEq, Eq)]
pub struct Claims {
    /// The id of the user the token speaks for.
    pub sub: String,
    /// That user's email.
    pub email: String,
    /// The last second at which the token is valid.
    pub exp: i64,
    /// The second at which the token was issued.
    pub iat: i64,
}

impl View for Claims {
    type V = ClaimsView;

    open spec fn view(&self) -> ClaimsView {
        ClaimsView { sub: self.sub@, email: self.email@, exp: self.exp as int, iat: self.iat as int }
    }
}

impl Claims {
    /// A set of claims is well formed when it expires after it was issued.
    pub open spec fn well_formed(&self) -> bool {
        self.exp > self.iat
    }
}

/// What was found under the four claim names of a signed token, as contracts
/// see it. A claim is `None` where the token does not hold it or holds it with
/// another type.
pub struct PayloadView {
    pub sub: Option<Seq<char>>,
    pub email: Option<Seq<char>>,
    pub exp: Option<int>,
    pub iat: Option<int>,
}

/// What was found under the four claim names of a token whose signature has
/// been checked. Nothing here says yet that the claims are complete.
#[derive(Clone, Debug, PartialEq, Eq)]
pub struct Payload {
    pub sub: Option<String>,
    pub email: Option<String>,
    pub exp: Option<i64>,
    pub iat: Option<i64>,
}

impl View for Payload {
    type V = PayloadView;

    open spec fn view(&self) -> PayloadView {
        PayloadView {
            sub: match self.sub {
                Some(s) => Some(s@),
                None => None,
            },
            email: match self.email {
                Some(s) => Some(s@),
                None => None,
            },
            exp: match self.exp {
                Some(n) => Some(n as int),
                None => None,
            },
            iat: match self.iat {
                Some(n) => Some(n as int),
                None => None,
            },
        }
    }
}

/// The payload that holds exactly `claims`.
pub open spec fn payload_of(claims: ClaimsView) -> PayloadView {
    PayloadView {
        sub: Some(claims.sub),
        email: Some(claims.email),
        exp: Some(claims.exp),
        iat: Some(claims.iat),
    }
}

/// Whether `c` can stand in a part of a compact token: a letter or a digit
/// of ASCII, a hyphen or an underscore. That is the base64url alphabet.
pub open spec fn is_part_char(c: char) -> bool {
    let n = c as u32;
    ||| 0x41 <= n <= 0x5A
    ||| 0x61 <= n <= 0x7A
    ||| 0x30 <= n <= 0x39
    ||| n == 0x2D
    ||| n == 0x5F
}

/// Whether `c` can stand in a compact token: in one of its parts, or as the
/// dot between two of them.
pub open spec fn is_token_char(c: char) -> bool {
    is_part_char(c) || c == '.'
}

/// Whether `token` is made of token characters only.
pub open spec fn only_token_chars(token: Seq<char>) -> bool {
    forall|i: int| 0 <= i < token.len() ==> is_token_char(#[trigger] token[i])
}

/// Whether `token` has dots at `first` and `second` and nowhere else, with a
/// part that is not empty in front of, between and behind them.
pub open spec fn parts_at(token: Seq<char>, first: int, second: int) -> bool {
    &&& 0 < first
    &&& first + 1 < second
    &&& second + 1 < token.len()
    &&& token[first] == '.'
    &&& token[second] == '.'
    &&& forall|k: int|
        0 <= k < token.len() && k != first && k != second ==> is_part_char(#[trigger] token[k])
}

/// Whether `token` has the compact form: three parts in the base64url
/// alphabet, none of them empty, with one dot between each two. The parts are
/// the header, the claims and the signature.
pub open spec fn has_three_parts(token: Seq<char>) -> bool {
    exists|first: int, second: int| parts_at(token, first, second)
}

/// A token in the compact form is not empty and holds token characters only.
pub proof fn lemma_three_parts_are_token_chars(token: Seq<char>)
    requires
        has_three_parts(token),
    ensures
        token.len() >= 5,
        only_token_chars(token),
{
    let (first, second) = choose|first: int, second: int| parts_at(token, first, second);
    assert forall|i: int| 0 <= i < token.len() implies is_token_char(#[trigger] token[i]) by {
        if i != first && i != second {
            assert(is_part_char(token[i]));
        }
    }
}

/// The token that `jsonwebtoken::encode` makes of `claims` under an HS256
/// header and the key `secret`, or `None` where it reports an error.
pub uninterp spec fn signed_token(claims: ClaimsView, secret: Seq<char>) -> Option<Seq<char>>;

/// What `jsonwebtoken::decode` reads from `token` with the key `secret`, for
/// HS256 and with its own expiry check switched off: the payload, or `None`
/// where it reports an error (a token that is not three base64url parts, a
/// header for another algorithm, a signature that does not fit, claims that are
/// no JSON object).
pub uninterp spec fn signed_payload(token: Seq<char>, secret: Seq<char>) -> Option<PayloadView>;

/// Calls `jsonwebtoken::encode` with the default header (HS256) on the four
/// claims, written as a JSON object in the order `sub`, `email`, `exp`, `iat`.
///
/// Claimed of it: it succeeds (with an HMAC key and an HS256 header nothing
/// in it can fail: header and claims are strings and integers that always
/// serialise, and the HMAC has no error); the token depends on the claims and
/// the secret alone; it has the compact form, three base64url parts that are
/// not empty with a dot between each two; and `jsonwebtoken::decode` under
/// the same secret reads the same four claims back from it.
#[verifier::external_body]
fn encode_claims(claims: &Claims, secret: &str) -> (res: Result<
    String,
    jsonwebtoken::errors::Error,
>)
    ensures
        res is Ok,
        res matches Ok(token) ==> {
            &&& signed_token(claims@, secret@) == Some(token@)
            &&& has_three_parts(token@)
            &&& signed_payload(token@, secret@) == Some(payload_of(claims@))
        },
{
    let mut body = serde_json::Map::new();
    body.insert("sub".to_string(), serde_json::Value::from(claims.sub.as_str()));
    body.insert("email".to_string(), serde_json::Value::from(claims.email.as_str()));
    body.insert("exp".to_string(), serde_json::Value::from(claims.exp));
    body.insert("iat".to_string(), serde_json::Value::from(claims.iat));
    let key = jsonwebtoken::EncodingKey::from_secret(secret.as_bytes());
    jsonwebtoken::encode(&jsonwebtoken::Header::default(), &body, &key)
}

/// Calls `jsonwebtoken::decode` for HS256 with its expiry check switched off,
/// and picks the four claims out of the JSON object that it returns.
///
/// Claimed of it: the outcome depends on the token and the secret alone.
#[verifier::external_body]
fn decode_payload(token: &str, secret: &str) -> (res: Result<Payload, jsonwebtoken::errors::Error>)
    ensures
        match res {
            Ok(payload) => signed_payload(token@, secret@) == Some(payload@),
            Err(_) => signed_payload(token@, secret@).is_none(),
        },
{
    let mut rules = jsonwebtoken::Validation::new(jsonwebtoken::Algorithm::HS256);
    rules.validate_exp = false;
    let key = jsonwebtoken::DecodingKey::from_secret(secret.as_bytes());
    let body = jsonwebtoken::decode::<serde_json::Value>(token, &key, &rules)?.claims;
    Ok(Payload {
        sub: body.get("sub").and_then(serde_json::Value::as_str).map(String::from),
        email: body.get("email").and_then(serde_json::Value::as_str).map(String::from),
        exp: body.get("exp").and_then(serde_json::Value::as_i64),
        iat: body.get("iat").and_then(serde_json::Value::as_i64),
    })
}

/// Calls `chrono::Utc::now` and takes its Unix timestamp, in seconds.
///
/// Claimed of it: only that the time is not before the epoch. `Utc::now`
/// measures the system clock from the epoch on.
#[verifier::external_body]
pub(crate) fn unix_now() -> (now: i64)
    ensures
        0 <= now,
{
    chrono::Utc::now().timestamp()
}

/// Why a token was turned down. A bad signature, a malformed token, missing
/// claims and an expiry in the past are deliberately not told apart.
#[derive(Clone, Copy, Debug, PartialEq, Eq, Structural)]
pub enum TokenError {
    Invalid,
}

/// The lifetime of a token where none is configured, in seconds.
pub const DEFAULT_LIFETIME: i64 = 300;

/// The claims of a token issued to `user` at `now` for `lifetime` seconds.
pub open spec fn claims_at(user: UserView, lifetime: int, now: int) -> ClaimsView {
    ClaimsView { sub: user.id, email: user.email, exp: now + lifetime, iat: now }
}

/// The text handed out for a token issued to `user` at `now`: the signed
/// token, or the empty text where the expiry does not fit in 64 bits or the
/// signing failed.
pub open spec fn issued_token(user: UserView, secret: Seq<char>, lifetime: int, now: int) -> Seq<
    char,
> {
    if i64::MIN <= now + lifetime <= i64::MAX {
        match signed_token(claims_at(user, lifetime, now), secret) {
            Some(token) => token,
            None => Seq::empty(),
        }
    } else {
        Seq::empty()
    }
}

/// The identity that a token stands for: id and email from the claims, and no
/// password.
pub open spec fn identity_of_claims(claims: ClaimsView) -> UserView {
    UserView { id: claims.sub, email: claims.email, password: Seq::empty() }
}

/// The claims in `payload`, where all four are there.
pub open spec fn complete_claims(payload: PayloadView) -> Option<ClaimsView> {
    match (payload.sub, payload.email, payload.exp, payload.iat) {
        (Some(sub), Some(email), Some(exp), Some(iat)) => Some(ClaimsView { sub, email, exp, iat }),
        _ => None,
    }
}

/// What verifying a token at `now` gives, from what its decoding gave: the
/// identity where the claims are complete and `now` is not past `exp`.
pub open spec fn verified_identity(payload: Option<PayloadView>, now: int) -> Result<
    UserView,
    TokenError,
> {
    match payload {
        Some(p) => match complete_claims(p) {
            Some(claims) => if now <= claims.exp {
                Ok(identity_of_claims(claims))
            } else {
                Err(TokenError::Invalid)
            },
            None => Err(TokenError::Invalid),
        },
        None => Err(TokenError::Invalid),
    }
}

/// Whether an expiry `lifetime` seconds after `now` fits in 64 bits.
pub open spec fn expiry_fits(lifetime: int, now: int) -> bool {
    i64::MIN <= now + lifetime <= i64::MAX
}

/// Whether `token` is what issuing to `user` at `now` hands out.
///
/// Where the expiry fits in 64 bits, that is the signed token: it has the
/// compact form of three parts, so it is not empty and holds token characters
/// only, and decoding it under `secret` gives back exactly the claims that
/// were issued. Where the expiry does not fit, it is the empty text.
pub open spec fn issued_as(
    token: Seq<char>,
    user: UserView,
    secret: Seq<char>,
    lifetime: int,
    now: int,
) -> bool {
    &&& token == issued_token(user, secret, lifetime, now)
    &&& if expiry_fits(lifetime, now) {
        &&& has_three_parts(token)
        &&& token.len() > 0
        &&& only_token_chars(token)
        &&& signed_payload(token, secret) == Some(payload_of(claims_at(user, lifetime, now)))
    } else {
        token.len() == 0
    }
}

/// Whether `token`, verified under `secret`, gives the id and the email of
/// `user` with an empty password, at every time up to `last`.
pub open spec fn verifies_until(token: Seq<char>, secret: Seq<char>, user: UserView, last: int) -> bool {
    forall|at: int|
        at <= last ==> #[trigger] verified_identity(signed_payload(token, secret), at) == Ok::<
            UserView,
            TokenError,
        >(UserView { id: user.id, email: user.email, password: Seq::empty() })
}

/// The view of an outcome of verification.
pub open spec fn outcome_view(res: Result<User, TokenError>) -> Result<UserView, TokenError> {
    match res {
        Ok(user) => Ok(user@),
        Err(e) => Err(e),
    }
}

/// The claims for a token issued to `user` at `now` for `lifetime` seconds, or
/// `None` where the expiry does not fit in 64 bits.
pub fn claims_for(user: &User, lifetime: i64, now: i64) -> (res: Option<Claims>)
    ensures
        match res {
            Some(claims) => {
                &&& i64::MIN <= now + lifetime <= i64::MAX
                &&& claims@ == claims_at(user@, lifetime as int, now as int)
                &&& lifetime > 0 ==> claims.well_formed()
            },
            None => !(i64::MIN <= now + lifetime <= i64::MAX),
        },
{
    match now.checked_add(lifetime) {
        Some(exp) => Some(
            Claims { sub: user.id.clone(), email: user.email.clone(), exp, iat: now },
        ),
        None => None,
    }
}

/// The text handed out for the outcome of a signing: the token, or the empty
/// text where the signing failed.
pub fn token_text(outcome: Result<String, jsonwebtoken::errors::Error>) -> (token: String)
    ensures
        token@ == match outcome {
            Ok(t) => t@,
            Err(_) => Seq::<char>::empty(),
        },
{
    match outcome {
        Ok(t) => t,
        Err(_) => String::new(),
    }
}

/// Issues a token for `user` at the time `now`, valid for `lifetime` seconds
/// and signed with `secret`. An empty secret is accepted.
///
/// The token is the signed token for the claims `claims_at(user, lifetime,
/// now)`, and decoding it under the same secret gives those claims back. Only
/// where the expiry does not fit in 64 bits there is no token, and the empty
/// text is handed out.
pub fn generate_at(user: &User, secret: &str, lifetime: i64, now: i64) -> (token: String)
    ensures
        issued_as(token@, user@, secret@, lifetime as int, now as int),
{
    match claims_for(user, lifetime, now) {
        Some(claims) => {
            let token = token_text(encode_claims(&claims, secret));
            proof {
                lemma_three_parts_are_token_chars(token@);
            }
            token
        },
        None => String::new(),
    }
}

/// Issues a token for `user` at the present time, valid for `lifetime`
/// seconds and signed with `secret`.
///
/// The token is the one that `generate_at` issues at some time of the clock.
pub fn generate(user: &User, secret: &str, lifetime: i64) -> (token: String)
    ensures
        exists|now: int|
            0 <= now <= i64::MAX && #[trigger] issued_as(
                token@,
                user@,
                secret@,
                lifetime as int,
                now,
            ),
{
    let now = unix_now();
    let token = generate_at(user, secret, lifetime, now);
    assert(issued_as(token@, user@, secret@, lifetime as int, now as int));
    token
}

/// The claims in `payload`, where all four are there.
pub fn claims_from_payload(payload: Payload) -> (res: Option<Claims>)
    ensures
        match res {
            Some(claims) => complete_claims(payload@) == Some(claims@),
            None => complete_claims(payload@).is_none(),
        },
{
    match (payload.sub, payload.email, payload.exp, payload.iat) {
        (Some(sub), Some(email), Some(exp), Some(iat)) => Some(Claims { sub, email, exp, iat }),
        _ => None,
    }
}

/// Decides on a decoded token at the time `now`: the identity where the
/// decoding succeeded, the claims are complete and the token has not expired,
/// and `TokenError::Invalid` in every other case.
pub fn identity_from(outcome: Result<Payload, jsonwebtoken::errors::Error>, now: i64) -> (res:
    Result<User, TokenError>)
    ensures
        outcome_view(res) == verified_identity(
            match outcome {
                Ok(payload) => Some(payload@),
                Err(_) => None,
            },
            now as int,
        ),
{
    match outcome {
        Ok(payload) => match claims_from_payload(payload) {
            Some(claims) => if now <= claims.exp {
                Ok(User::from_jwt(&claims))
            } else {
                Err(TokenError::Invalid)
            },
            None => Err(TokenError::Invalid),
        },
        Err(_) => Err(TokenError::Invalid),
    }
}

/// Verifies `token` under `secret` at the time `now`.
pub fn verify_at(token: &str, secret: &str, now: i64) -> (res: Result<User, TokenError>)
    ensures
        outcome_view(res) == verified_identity(signed_payload(token@, secret@), now as int),
{
    identity_from(decode_payload(token, secret), now)
}

/// Verifies `token` under `secret` at the present time and gives the identity
/// that it stands for.
pub fn verify(token: String, secret: &str) -> (res: Result<User, TokenError>)
    ensures
        exists|now: int|
            0 <= now <= i64::MAX && outcome_view(res) == #[trigger] verified_identity(
                signed_payload(token@, secret@),
                now,
            ),
{
    let now = unix_now();
    let res = verify_at(token.as_str(), secret, now);
    assert(outcome_view(res) == verified_identity(signed_payload(token@, secret@), now as int));
    res
}

/// A token that was issued verifies, under the secret it was signed with and
/// at every time up to its expiry, to the id and the email of the user it was
/// issued to, with an empty password.
pub proof fn lemma_issued_token_verifies(
    token: Seq<char>,
    user: UserView,
    secret: Seq<char>,
    lifetime: int,
    issued: int,
)
    requires
        issued_as(token, user, secret, lifetime, issued),
        expiry_fits(lifetime, issued),
    ensures
        verifies_until(token, secret, user, issued + lifetime),
{
    assert(complete_claims(payload_of(claims_at(user, lifetime, issued))) == Some(
        claims_at(user, lifetime, issued),
    ));
}

/// A token that was issued is invalid at every time after its expiry.
pub proof fn lemma_issued_token_expires(
    token: Seq<char>,
    user: UserView,
    secret: Seq<char>,
    lifetime: int,
    issued: int,
    at: int,
)
    requires
        issued_as(token, user, secret, lifetime, issued),
        expiry_fits(lifetime, issued),
        at > issued + lifetime,
    ensures
        verified_identity(signed_payload(token, secret), at) == Err::<UserView, TokenError>(
            TokenError::Invalid,
        ),
{
    assert(complete_claims(payload_of(claims_at(user, lifetime, issued))) == Some(
        claims_at(user, lifetime, issued),
    ));
}

/// A token is invalid at every time after its expiry, whatever else it holds.
pub proof fn lemma_expired_token_is_invalid(payload: Option<PayloadView>, now: int)
    requires
        payload matches Some(p) ==> (p.exp matches Some(exp) ==> exp < now),
    ensures
        verified_identity(payload, now) == Err::<UserView, TokenError>(TokenError::Invalid),
{
}

/// A token that is valid at some time was valid at every earlier time: a
/// token only ever goes from valid to expired.
pub proof fn lemma_validity_is_a_prefix_of_time(
    payload: Option<PayloadView>,
    earlier: int,
    later: int,
)
    requires
        earlier <= later,
        verified_identity(payload, later) is Ok,
    ensures
        verified_identity(payload, earlier) == verified_identity(payload, later),
{
}

/// An identity read from a token never carries a password.
pub proof fn lemma_verified_identity_has_no_password(payload: Option<PayloadView>, now: int)
    ensures
        verified_identity(payload, now) matches Ok(user) ==> user.password.len() == 0,
{
}

} // verus!
