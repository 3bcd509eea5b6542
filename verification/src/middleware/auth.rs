//! The guard in front of every protected route.
//!
//! The guard reads the `Authorization` header of a request, from its bytes or
//! from its text, and decides once what it holds: a bearer token, a pair of
//! basic credentials, or nothing it can use. A token is verified on the spot. For basic credentials the guard
//! asks for the users that the store holds for the email, and decides when
//! they are handed in. It keeps nothing between requests.
//!
//! A request is either admitted, with the identity it was resolved to, or
//! turned down with status 401 and an empty body. The protected service can
//! only be reached through an admission.

use crate::models::auth::{
    identified, is_only_match, lemma_only_match_is_looked_up, AuthenticableUser,
    AuthenticationError,
};
use crate::models::user::{User, UserView};
use crate::routes::UNAUTHORIZED;
use crate::services::hasher::password_matches;
use crate::services::jwt::{
    expiry_fits, is_token_char, issued_as, lemma_issued_token_verifies, only_token_chars,
    signed_payload, unix_now, verified_identity, verify_at, TokenError,
};
use crate::state::app::AppState;
use crate::text::{
    after_colon, after_first_word, before_colon, chars_of, first_word, is_space,
    lemma_run_len_is, run_end, same_text, CharClass,
};
use vstd::prelude::*;
use vstd::string::StringSliceAdditionalSpecFns;
use vstd::utf8::{
    decode_utf8, is_leading_byte_width_1, partial_valid_utf8,
    partial_valid_utf8_extend_ascii_block, valid_utf8,
};

verus! {

/// The error type of `base64::decode`, carried through unopened.
#[verifier::external_type_specification]
#[verifier::external_body]
pub struct ExDecodeError(base64::DecodeError);

/// The error type of `core::str::from_utf8`, carried through unopened.
#[verifier::external_type_specification]
#[verifier::external_body]
pub struct ExUtf8Error(core::str::Utf8Error);

/// The bytes that `base64::decode` reads from `input`, in the standard
/// alphabet, or `None` where it reports an error.
pub uninterp spec fn base64_decoded(input: Seq<char>) -> Option<Seq<u8>>;

/// Calls `base64::decode`.
///
/// Claimed of it: the outcome depends on the input alone.
#[verifier::external_body]
fn base64_decode(input: &str) -> (res: Result<Vec<u8>, base64::DecodeError>)
    ensures
        match res {
            Ok(bytes) => base64_decoded(input@) == Some(bytes@),
            Err(_) => base64_decoded(input@).is_none(),
        },
{
    base64::decode(input)
}

/// `core::str::from_utf8`: it succeeds exactly on valid UTF-8, and the string
/// it gives is made of the same bytes.
pub assume_specification[ core::str::from_utf8 ](v: &[u8]) -> (res: Result<
    &str,
    core::str::Utf8Error,
>)
    ensures
        match res {
            Ok(s) => valid_utf8(v@) && s.spec_bytes() == v@,
            Err(_) => !valid_utf8(v@),
        },
;

/// What an `Authorization` header holds, as contracts see it.
pub enum CredentialView {
    Bearer(Seq<char>),
    Basic { email: Seq<char>, password: Seq<char> },
    Unsupported(Unauthorized),
}

/// What an `Authorization` header holds.
#[derive(Clone, Debug, PartialEq, Eq)]
pub enum Credential {
    /// A token to verify.
    Bearer(String),
    /// An email and a password to authenticate with.
    Basic { email: String, password: String },
    /// Nothing that the guard can use, with the reason: another scheme, or
    /// basic credentials that cannot be decoded or read.
    Unsupported(Unauthorized),
}

impl View for Credential {
    type V = CredentialView;

    open spec fn view(&self) -> CredentialView {
        match self {
            Credential::Bearer(token) => CredentialView::Bearer(token@),
            Credential::Basic { email, password } => CredentialView::Basic {
                email: email@,
                password: password@,
            },
            Credential::Unsupported(why) => CredentialView::Unsupported(*why),
        }
    }
}

/// Why a request was turned down. The client only ever sees status 401.
#[derive(Clone, Copy, Debug, PartialEq, Eq, Structural)]
pub enum Unauthorized {
    /// The request has no `Authorization` header.
    MissingHeader,
    /// The header is no text: it holds a byte that is neither visible ASCII
    /// nor a tab.
    UnreadableHeader,
    /// The header names no scheme that the guard knows.
    UnsupportedScheme,
    /// The value of a basic header is no base64.
    UndecodableCredentials,
    /// The bytes in the value of a basic header are no UTF-8 text.
    UnreadableCredentials,
    /// The bearer token is malformed, wrongly signed or expired.
    InvalidToken,
    /// The basic credentials are not those of a user.
    InvalidCredentials,
}

impl Unauthorized {
    /// A line for the log. It is never sent to the client.
    pub fn message(&self) -> (text: &'static str)
        ensures
            text@ == match self {
                Unauthorized::MissingHeader => "Couldn't retrieve header"@,
                Unauthorized::UnreadableHeader => "Couldn't parse the header"@,
                Unauthorized::UnsupportedScheme => "Not valid authentication method"@,
                Unauthorized::UndecodableCredentials => "Could not decode base64 header"@,
                Unauthorized::UnreadableCredentials => "Could not parse the authentication header"@,
                Unauthorized::InvalidToken => "Something wrong with the signature"@,
                Unauthorized::InvalidCredentials => "Invalid credentials for basic auth"@,
            },
    {
        match self {
            Unauthorized::MissingHeader => "Couldn't retrieve header",
            Unauthorized::UnreadableHeader => "Couldn't parse the header",
            Unauthorized::UnsupportedScheme => "Not valid authentication method",
            Unauthorized::UndecodableCredentials => "Could not decode base64 header",
            Unauthorized::UnreadableCredentials => "Could not parse the authentication header",
            Unauthorized::InvalidToken => "Something wrong with the signature",
            Unauthorized::InvalidCredentials => "Invalid credentials for basic auth",
        }
    }
}

/// Whether `b` can stand in the text of a header: visible ASCII or a tab.
pub open spec fn is_visible(b: u8) -> bool {
    32 <= b < 127 || b == 9
}

/// Whether all of `raw` can stand in the text of a header.
pub open spec fn all_visible(raw: Seq<u8>) -> bool {
    forall|i: int| 0 <= i < raw.len() ==> is_visible(#[trigger] raw[i])
}

/// The text of a header from its bytes: the same bytes, where all of them are
/// visible ASCII or tabs, and `UnreadableHeader` where one is not.
pub fn read_header(raw: &[u8]) -> (res: Result<&str, Unauthorized>)
    ensures
        match res {
            Ok(text) => all_visible(raw@) && text.spec_bytes() == raw@ && text@ == decode_utf8(
                raw@,
            ),
            Err(why) => !all_visible(raw@) && why == Unauthorized::UnreadableHeader,
        },
{
    let mut n: usize = 0;
    while n < raw.len()
        invariant
            n <= raw.len(),
            forall|i: int| 0 <= i < n ==> is_visible(#[trigger] raw@[i]),
        decreases raw.len() - n,
    {
        let b = raw[n];
        if !((b >= 32 && b < 127) || b == 9) {
            assert(!is_visible(raw@[n as int]));
            return Err(Unauthorized::UnreadableHeader);
        }
        n = n + 1;
    }
    proof {
        let bytes = raw@;
        assert(bytes.subrange(0, 0) =~= Seq::<u8>::empty());
        assert(partial_valid_utf8(bytes, 0));
        assert forall|i: int| 0 <= i < bytes.len() implies #[trigger] is_leading_byte_width_1(
            bytes[i],
        ) by {
            assert(is_visible(bytes[i]));
        }
        partial_valid_utf8_extend_ascii_block(bytes, 0, bytes.len() as int);
        assert(bytes.subrange(0, bytes.len() as int) =~= bytes);
    }
    match core::str::from_utf8(raw) {
        Ok(text) => {
            proof {
                vstd::utf8::encode_utf8_decode_utf8(text@);
            }
            Ok(text)
        },
        Err(_) => Err(Unauthorized::UnreadableHeader),
    }
}

/// The scheme of a header: its first word.
pub open spec fn scheme_of(header: Seq<char>) -> Seq<char> {
    first_word(header)
}

/// The value of a header: its second word, empty where it has none. What
/// follows the second word is ignored.
pub open spec fn value_of(header: Seq<char>) -> Seq<char> {
    first_word(after_first_word(header))
}

/// The basic credentials in what the base64 decoding of a header's value
/// gave: the text before the first colon is the email, the text behind it the
/// password, and a part that is missing is empty. A value that is no base64,
/// and bytes that are no UTF-8 text, hold no credentials.
pub open spec fn basic_credential_of(decoded: Option<Seq<u8>>) -> CredentialView {
    match decoded {
        Some(bytes) => if valid_utf8(bytes) {
            CredentialView::Basic {
                email: before_colon(decode_utf8(bytes)),
                password: after_colon(decode_utf8(bytes)),
            }
        } else {
            CredentialView::Unsupported(Unauthorized::UnreadableCredentials)
        },
        None => CredentialView::Unsupported(Unauthorized::UndecodableCredentials),
    }
}

/// What a header holds. The scheme is compared letter for letter.
pub open spec fn credential_of(header: Seq<char>) -> CredentialView {
    if scheme_of(header) == "Bearer"@ {
        CredentialView::Bearer(value_of(header))
    } else if scheme_of(header) == "Basic"@ {
        basic_credential_of(base64_decoded(value_of(header)))
    } else {
        CredentialView::Unsupported(Unauthorized::UnsupportedScheme)
    }
}

/// Splits a header into its scheme and its value.
pub fn split_header(header: &str) -> (parts: (&str, &str))
    ensures
        parts.0@ == scheme_of(header@),
        parts.1@ == value_of(header@),
{
    let chars = chars_of(header);
    let a = run_end(&chars, 0, CharClass::Space);
    let b = run_end(&chars, a, CharClass::Word);
    let c = run_end(&chars, b, CharClass::Space);
    let d = run_end(&chars, c, CharClass::Word);
    proof {
        let h = header@;
        assert(h.skip(0) =~= h);
        let body = h.skip(a as int);
        assert(body.take(b - a) =~= h.subrange(a as int, b as int));
        let rest = body.skip(b - a);
        assert(rest =~= h.skip(b as int));
        let tail = rest.skip(c - b);
        assert(tail =~= h.skip(c as int));
        assert(tail.take(d - c) =~= h.subrange(c as int, d as int));
    }
    (header.substring_char(a, b), header.substring_char(c, d))
}

/// Splits the text of basic credentials at its first colon.
pub fn split_credentials(text: &str) -> (parts: (&str, &str))
    ensures
        parts.0@ == before_colon(text@),
        parts.1@ == after_colon(text@),
{
    let chars = chars_of(text);
    let k = run_end(&chars, 0, CharClass::BeforeColon);
    proof {
        assert(text@.skip(0) =~= text@);
        assert(text@.take(k as int) =~= text@.subrange(0, k as int));
    }
    let email = text.substring_char(0, k);
    if k < chars.len() {
        proof {
            assert(text@.skip(k as int + 1) =~= text@.subrange(k as int + 1, text@.len() as int));
        }
        (email, text.substring_char(k + 1, chars.len()))
    } else {
        proof {
            assert(text@.subrange(k as int, k as int) =~= Seq::<char>::empty());
        }
        (email, text.substring_char(k, k))
    }
}

/// The basic credentials in the outcome of a base64 decoding.
pub fn basic_credential(decoded: Result<Vec<u8>, base64::DecodeError>) -> (credential: Credential)
    ensures
        credential@ == basic_credential_of(
            match decoded {
                Ok(bytes) => Some(bytes@),
                Err(_) => None,
            },
        ),
{
    match decoded {
        Ok(bytes) => match core::str::from_utf8(bytes.as_slice()) {
            Ok(text) => {
                proof {
                    vstd::utf8::encode_utf8_decode_utf8(text@);
                }
                let (email, password) = split_credentials(text);
                Credential::Basic { email: email.to_owned(), password: password.to_owned() }
            },
            Err(_) => Credential::Unsupported(Unauthorized::UnreadableCredentials),
        },
        Err(_) => Credential::Unsupported(Unauthorized::UndecodableCredentials),
    }
}

/// Decides what a header holds.
pub fn parse_credential(header: &str) -> (credential: Credential)
    ensures
        credential@ == credential_of(header@),
{
    let (scheme, value) = split_header(header);
    if same_text(scheme, "Bearer") {
        Credential::Bearer(value.to_owned())
    } else if same_text(scheme, "Basic") {
        basic_credential(base64_decode(value))
    } else {
        Credential::Unsupported(Unauthorized::UnsupportedScheme)
    }
}

/// What the guard does next with a request, as contracts see it.
pub enum GuardStepView {
    Admit(UserView),
    Reject(Unauthorized),
    Lookup { email: Seq<char>, password: Seq<char> },
}

/// What the guard does next with a request.
#[derive(Clone, Debug, PartialEq, Eq)]
pub enum GuardStep {
    /// The request is let through as this user.
    Admit(User),
    /// The request is turned down.
    Reject(Unauthorized),
    /// The store has to be asked for the users with the email of these
    /// credentials, and `settle` decides on what it answers.
    Lookup(AuthenticableUser),
}

impl View for GuardStep {
    type V = GuardStepView;

    open spec fn view(&self) -> GuardStepView {
        match self {
            GuardStep::Admit(user) => GuardStepView::Admit(user@),
            GuardStep::Reject(why) => GuardStepView::Reject(*why),
            GuardStep::Lookup(credentials) => GuardStepView::Lookup {
                email: credentials.email@,
                password: credentials.password@,
            },
        }
    }
}

/// What a bearer token is worth at `now`: the identity it verifies to, or
/// `InvalidToken`.
pub open spec fn bearer_outcome(token: Seq<char>, secret: Seq<char>, now: int) -> Result<
    UserView,
    Unauthorized,
> {
    match verified_identity(signed_payload(token, secret), now) {
        Ok(user) => Ok(user),
        Err(_) => Err(Unauthorized::InvalidToken),
    }
}

/// What basic credentials are worth among the rows `found`: the user they
/// identify, or `InvalidCredentials`.
pub open spec fn basic_outcome(found: Seq<User>, email: Seq<char>, password: Seq<char>) -> Result<
    UserView,
    Unauthorized,
> {
    match identified(found, email, password) {
        Ok(user) => Ok(user),
        Err(_) => Err(Unauthorized::InvalidCredentials),
    }
}

/// The text of a header, where the request has one.
pub open spec fn header_text(header: Option<&str>) -> Option<Seq<char>> {
    match header {
        Some(text) => Some(text@),
        None => None,
    }
}

/// The first step of the guard on a request at `now`.
pub open spec fn first_step(header: Option<Seq<char>>, secret: Seq<char>, now: int) -> GuardStepView {
    match header {
        None => GuardStepView::Reject(Unauthorized::MissingHeader),
        Some(text) => match credential_of(text) {
            CredentialView::Bearer(token) => match bearer_outcome(token, secret, now) {
                Ok(user) => GuardStepView::Admit(user),
                Err(why) => GuardStepView::Reject(why),
            },
            CredentialView::Basic { email, password } => GuardStepView::Lookup { email, password },
            CredentialView::Unsupported(why) => GuardStepView::Reject(why),
        },
    }
}

/// The bytes of a header, where the request has one.
pub open spec fn header_bytes(raw: Option<&[u8]>) -> Option<Seq<u8>> {
    match raw {
        Some(bytes) => Some(bytes@),
        None => None,
    }
}

/// The first step of the guard on a request at `now`, from the bytes of its
/// header: a header that is no text is turned down, and a header that is text
/// is read as text.
pub open spec fn first_step_raw(raw: Option<Seq<u8>>, secret: Seq<char>, now: int) -> GuardStepView {
    match raw {
        None => first_step(None, secret, now),
        Some(bytes) => if all_visible(bytes) {
            first_step(Some(decode_utf8(bytes)), secret, now)
        } else {
            GuardStepView::Reject(Unauthorized::UnreadableHeader)
        },
    }
}

/// The step that settles a request: an admission or a rejection.
pub open spec fn settled(outcome: Result<UserView, Unauthorized>) -> GuardStepView {
    match outcome {
        Ok(user) => GuardStepView::Admit(user),
        Err(why) => GuardStepView::Reject(why),
    }
}

/// The view of an outcome of the guard.
pub open spec fn guard_view(res: Result<User, Unauthorized>) -> Result<UserView, Unauthorized> {
    match res {
        Ok(user) => Ok(user@),
        Err(why) => Err(why),
    }
}

/// What the verification of a bearer token means to the guard.
pub fn bearer_verdict(verified: Result<User, TokenError>) -> (res: Result<User, Unauthorized>)
    ensures
        res == match verified {
            Ok(user) => Ok::<User, Unauthorized>(user),
            Err(_) => Err::<User, Unauthorized>(Unauthorized::InvalidToken),
        },
{
    match verified {
        Ok(user) => Ok(user),
        Err(_) => Err(Unauthorized::InvalidToken),
    }
}

/// Resolves the bearer token `data` at the time `now`.
pub fn bearer_auth_at(data: &str, secret: &str, now: i64) -> (res: Result<User, Unauthorized>)
    ensures
        guard_view(res) == bearer_outcome(data@, secret@, now as int),
{
    bearer_verdict(verify_at(data, secret, now))
}

/// Resolves the bearer token `data` at the present time.
pub fn bearer_auth(data: &str, secret: &str) -> (res: Result<User, Unauthorized>)
    ensures
        exists|now: int|
            0 <= now <= i64::MAX && guard_view(res) == #[trigger] bearer_outcome(
                data@,
                secret@,
                now,
            ),
{
    let now = unix_now();
    let res = bearer_auth_at(data, secret, now);
    assert(guard_view(res) == bearer_outcome(data@, secret@, now as int));
    res
}

/// What an authentication means to the guard.
pub fn basic_verdict(authenticated: Result<User, AuthenticationError>) -> (res: Result<
    User,
    Unauthorized,
>)
    ensures
        res == match authenticated {
            Ok(user) => Ok::<User, Unauthorized>(user),
            Err(_) => Err::<User, Unauthorized>(Unauthorized::InvalidCredentials),
        },
{
    match authenticated {
        Ok(user) => Ok(user),
        Err(_) => Err(Unauthorized::InvalidCredentials),
    }
}

/// Resolves basic credentials among the rows `found` that the store holds
/// for their email.
pub fn basic_auth(found: &Vec<User>, email: &str, password: &str) -> (res: Result<
    User,
    Unauthorized,
>)
    ensures
        guard_view(res) == basic_outcome(found@, email@, password@),
{
    basic_verdict(AuthenticableUser::identify(found, email, password))
}

/// The first step of the guard on a request with the `Authorization` header
/// `header`, at the time `now`.
pub fn is_logged_at(header: Option<&str>, secret: &str, now: i64) -> (step: GuardStep)
    ensures
        step@ == first_step(
            header_text(header),
            secret@,
            now as int,
        ),
{
    match header {
        None => GuardStep::Reject(Unauthorized::MissingHeader),
        Some(text) => match parse_credential(text) {
            Credential::Bearer(token) => match bearer_auth_at(token.as_str(), secret, now) {
                Ok(user) => GuardStep::Admit(user),
                Err(why) => GuardStep::Reject(why),
            },
            Credential::Basic { email, password } => GuardStep::Lookup(
                AuthenticableUser { email, password },
            ),
            Credential::Unsupported(why) => GuardStep::Reject(why),
        },
    }
}

/// The first step of the guard on a request at the present time.
pub fn is_logged(header: Option<&str>, secret: &str) -> (step: GuardStep)
    ensures
        exists|now: int|
            0 <= now <= i64::MAX && step@ == #[trigger] first_step(
                header_text(header),
                secret@,
                now,
            ),
{
    let now = unix_now();
    let step = is_logged_at(header, secret, now);
    assert(step@ == first_step(
        header_text(header),
        secret@,
        now as int,
    ));
    step
}

/// The first step of the guard on a request whose `Authorization` header
/// holds the bytes `raw`, at the time `now`.
pub fn is_logged_raw_at(raw: Option<&[u8]>, secret: &str, now: i64) -> (step: GuardStep)
    ensures
        step@ == first_step_raw(header_bytes(raw), secret@, now as int),
{
    match raw {
        None => is_logged_at(None, secret, now),
        Some(bytes) => match read_header(bytes) {
            Ok(text) => is_logged_at(Some(text), secret, now),
            Err(why) => GuardStep::Reject(why),
        },
    }
}

/// The first step of the guard on a request whose `Authorization` header
/// holds the bytes `raw`, at the present time.
pub fn is_logged_raw(raw: Option<&[u8]>, secret: &str) -> (step: GuardStep)
    ensures
        exists|now: int|
            0 <= now <= i64::MAX && step@ == #[trigger] first_step_raw(
                header_bytes(raw),
                secret@,
                now,
            ),
{
    let now = unix_now();
    let step = is_logged_raw_at(raw, secret, now);
    assert(step@ == first_step_raw(header_bytes(raw), secret@, now as int));
    step
}

/// The step that settles a request with basic credentials, once the store
/// has answered with the rows `found` for their email: an admission or a
/// rejection, never another lookup.
pub fn settle(found: &Vec<User>, credentials: &AuthenticableUser) -> (step: GuardStep)
    ensures
        step@ == settled(basic_outcome(found@, credentials.email@, credentials.password@)),
{
    match basic_auth(found, credentials.email.as_str(), credentials.password.as_str()) {
        Ok(principal) => GuardStep::Admit(principal),
        Err(why) => GuardStep::Reject(why),
    }
}

/// The guard, ready to be put in front of a service.
#[derive(Clone, Debug, PartialEq, Eq)]
pub struct LoggedGuard {
    /// The secret that bearer tokens are verified with.
    pub secret: String,
}

/// The guard in front of one service.
#[derive(Clone, Debug, PartialEq, Eq)]
pub struct LoggedGuardMiddleware<S> {
    /// The service that admitted requests are forwarded to.
    pub service: S,
    /// The secret that bearer tokens are verified with.
    pub secret: String,
}

/// What is to be done with a request.
pub enum GuardAction<'a, S> {
    /// Attach `principal` to the request, hand the request to `service`
    /// otherwise unchanged, and pass on what the service answers.
    Forward { service: &'a S, principal: User },
    /// Answer with `status` and an empty body. The service is not called.
    Respond { status: u16 },
    /// Ask the store for the users with the email of these credentials and
    /// come back with them through `resume`.
    Lookup(AuthenticableUser),
}

/// The action that carries out a step of the guard in front of `service`.
pub open spec fn action_matches<S>(action: GuardAction<'_, S>, step: GuardStepView, service: S) -> bool {
    match step {
        GuardStepView::Admit(user) => action matches GuardAction::Forward { service: s, principal }
            && *s == service && principal@ == user,
        GuardStepView::Reject(_) => action matches GuardAction::Respond { status } && status
            == UNAUTHORIZED,
        GuardStepView::Lookup { email, password } => action matches GuardAction::Lookup(credentials)
            && credentials.email@ == email && credentials.password@ == password,
    }
}

impl LoggedGuard {
    /// The guard for the application with the state `state`.
    pub fn new(state: &AppState) -> (guard: LoggedGuard)
        ensures
            guard.secret@ == state.static_data.jwt_secret@,
    {
        LoggedGuard { secret: state.static_data.jwt_secret.clone() }
    }

    /// Puts the guard in front of `service`.
    pub fn new_transform<S>(&self, service: S) -> (guarded: LoggedGuardMiddleware<S>)
        ensures
            guarded.service == service,
            guarded.secret@ == self.secret@,
    {
        LoggedGuardMiddleware { service, secret: self.secret.clone() }
    }
}

impl<S> LoggedGuardMiddleware<S> {
    /// The action that carries out `step`.
    pub fn act(&self, step: GuardStep) -> (action: GuardAction<'_, S>)
        ensures
            action_matches(action, step@, self.service),
    {
        match step {
            GuardStep::Admit(principal) => GuardAction::Forward { service: &self.service, principal },
            GuardStep::Reject(_) => GuardAction::Respond { status: UNAUTHORIZED },
            GuardStep::Lookup(credentials) => GuardAction::Lookup(credentials),
        }
    }

    /// Decides on a request with the `Authorization` header `header`, at the
    /// time `now`.
    ///
    /// A request without the header, with a scheme other than `Bearer` and
    /// `Basic`, with a token that does not verify or with basic credentials
    /// that cannot be read is answered with status 401, and the service is
    /// not reached.
    pub fn call_at(&self, header: Option<&str>, now: i64) -> (action: GuardAction<'_, S>)
        ensures
            action_matches(
                action,
                first_step(
                    header_text(header),
                    self.secret@,
                    now as int,
                ),
                self.service,
            ),
    {
        self.act(is_logged_at(header, self.secret.as_str(), now))
    }

    /// Decides on a request at the present time.
    pub fn call(&self, header: Option<&str>) -> (action: GuardAction<'_, S>)
        ensures
            exists|now: int|
                0 <= now <= i64::MAX && action_matches(
                    action,
                    #[trigger] first_step(
                        header_text(header),
                        self.secret@,
                        now,
                    ),
                    self.service,
                ),
    {
        let now = unix_now();
        let action = self.call_at(header, now);
        assert(action_matches(
            action,
            first_step(
                header_text(header),
                self.secret@,
                now as int,
            ),
            self.service,
        ));
        action
    }

    /// Decides on a request with basic credentials, once the store has
    /// answered with the rows `found` for their email. The outcome is an
    /// admission or a rejection, never another lookup.
    pub fn resume(&self, found: &Vec<User>, credentials: &AuthenticableUser) -> (action:
        GuardAction<'_, S>)
        ensures
            action_matches(
                action,
                settled(basic_outcome(found@, credentials.email@, credentials.password@)),
                self.service,
            ),
    {
        self.act(settle(found, credentials))
    }
}

/// A request without an `Authorization` header is answered with 401 at every
/// time and under every secret, and nothing is looked up for it.
pub proof fn lemma_missing_header_is_rejected(secret: Seq<char>, now: int)
    ensures
        first_step(None, secret, now) == GuardStepView::Reject(Unauthorized::MissingHeader),
{
}

/// The guard admits a bearer token exactly when the token verifies, and then
/// as the identity that the token stands for.
pub proof fn lemma_bearer_admission(header: Seq<char>, secret: Seq<char>, now: int)
    requires
        scheme_of(header) == "Bearer"@,
    ensures
        first_step(Some(header), secret, now) == settled(
            bearer_outcome(value_of(header), secret, now),
        ),
        first_step(Some(header), secret, now) is Admit <==> verified_identity(
            signed_payload(value_of(header), secret),
            now,
        ) is Ok,
{
}

/// The header that carries `token` as a bearer token: the scheme, a blank and
/// the token.
pub open spec fn bearer_header(token: Seq<char>) -> Seq<char> {
    "Bearer"@ + seq![' '] + token
}

/// A bearer header holds the token it was made of, where the token holds
/// token characters only: the token is read back whole.
pub proof fn lemma_bearer_header_holds_the_token(token: Seq<char>)
    requires
        only_token_chars(token),
    ensures
        credential_of(bearer_header(token)) == CredentialView::Bearer(token),
{
    reveal_strlit("Bearer");
    let scheme = "Bearer"@;
    let header = bearer_header(token);
    assert(scheme.len() == 6);
    assert forall|i: int| 0 <= i < token.len() implies !is_space(#[trigger] token[i]) by {
        assert(is_token_char(token[i]));
    }
    assert(header.len() == 7 + token.len());
    assert forall|i: int| 0 <= i < 6 implies CharClass::Word.holds(#[trigger] header[i]) by {
        assert(header[i] == scheme[i]);
    }
    assert(header[6] == ' ');
    lemma_run_len_is(header, CharClass::Space, 0);
    assert(header.skip(0) =~= header);
    lemma_run_len_is(header, CharClass::Word, 6);
    assert(header.take(6) =~= scheme);
    let rest = header.skip(6);
    assert(rest =~= seq![' '] + token);
    if token.len() > 0 {
        assert(rest[1] == token[0]);
    }
    lemma_run_len_is(rest, CharClass::Space, 1);
    assert(rest.skip(1) =~= token);
    assert forall|i: int| 0 <= i < token.len() implies CharClass::Word.holds(
        #[trigger] token[i],
    ) by {}
    lemma_run_len_is(token, CharClass::Word, token.len() as int);
    assert(token.take(token.len() as int) =~= token);
    assert(scheme_of(header) == scheme);
    assert(value_of(header) == token);
}

/// A request that carries an issued token as its bearer token is admitted, at
/// every time up to the expiry of the token and under the secret that the
/// token was signed with, as the user that the token was issued to: with that
/// user's id and email, and with an empty password.
pub proof fn lemma_issued_token_is_admitted(
    token: Seq<char>,
    user: UserView,
    secret: Seq<char>,
    lifetime: int,
    issued: int,
    now: int,
)
    requires
        issued_as(token, user, secret, lifetime, issued),
        expiry_fits(lifetime, issued),
        now <= issued + lifetime,
    ensures
        first_step(Some(bearer_header(token)), secret, now) == GuardStepView::Admit(
            UserView { id: user.id, email: user.email, password: Seq::empty() },
        ),
{
    lemma_bearer_header_holds_the_token(token);
    lemma_issued_token_verifies(token, user, secret, lifetime, issued);
}

/// A user who is in the store once, with the hash of a password, is
/// identified by email and password; and a request that carries a token
/// issued to that user is admitted, until the token expires, with the id and
/// the email under which the user is stored.
pub proof fn lemma_registered_user_is_admitted(
    found: Seq<User>,
    i: int,
    password: Seq<char>,
    token: Seq<char>,
    secret: Seq<char>,
    lifetime: int,
    issued: int,
    now: int,
)
    requires
        is_only_match(found, found[i].email@, i),
        password_matches(password, found[i].password@),
        issued_as(token, found[i]@, secret, lifetime, issued),
        expiry_fits(lifetime, issued),
        now <= issued + lifetime,
    ensures
        identified(found, found[i].email@, password) == Ok::<UserView, AuthenticationError>(
            found[i]@,
        ),
        first_step(Some(bearer_header(token)), secret, now) == GuardStepView::Admit(
            UserView { id: found[i].id@, email: found[i].email@, password: Seq::empty() },
        ),
{
    lemma_only_match_is_looked_up(found, found[i].email@, i);
    lemma_issued_token_is_admitted(token, found[i]@, secret, lifetime, issued, now);
}

/// Basic credentials with a wrong password, or for an email that the store
/// does not hold exactly once, are rejected.
pub proof fn lemma_basic_rejection(found: Seq<User>, email: Seq<char>, password: Seq<char>)
    requires
        identified(found, email, password) is Err,
    ensures
        settled(basic_outcome(found, email, password)) == GuardStepView::Reject(
            Unauthorized::InvalidCredentials,
        ),
{
}

} // verus!
