//! Registration, login, refresh, profile and logout: what each endpoint
//! decides from the request and from what the directory returned.

use crate::handlers::reply::{
    spec_text_reply, HttpReply, HttpReplyView, ReplyBodyView, BAD_REQUEST, INTERNAL_SERVER_ERROR,
    OK, UNAUTHORIZED,
};
use crate::middleware::jwt_auth::{bearer_token, header_view, spec_bearer_token};
use crate::models::user::{User, UserView};
use crate::rotation::{
    issue_pair_at, lemma_issued_pair_is_usable, refresh_subject_at, rotate_at, spec_issue_pair,
    spec_pair_issued, spec_refresh, spec_refresh_expiry, spec_refresh_subject, RefreshError,
};
use crate::utils::clock::current_timestamp;
use crate::utils::hash::{
    hash_password, hash_password_with_salt, hash_result_view, is_fresh_salt,
    lemma_fresh_salts_exist, sample_salt, spec_hash_with_salt, spec_verify_password,
    verify_password, HashError,
};
use crate::utils::jwt::{
    extract_email_from_jwt_at, spec_extract_email, spec_verify_jwt, Claims, ClaimsView, TokenKind,
};
use crate::utils::text::same_text;
use vstd::prelude::*;

verus! {

/// The body of a registration request.
#[derive(Debug, Clone, PartialEq, Eq)]
pub struct RegisterRequest {
    pub username: String,
    pub email: String,
    pub password: String,
}

/// The body of a login request.
#[derive(Debug, Clone, PartialEq, Eq)]
pub struct LoginRequest {
    pub email: String,
    pub password: String,
}

/// The body of a refresh request.
#[derive(Debug, Clone, PartialEq, Eq)]
pub struct RefreshRequest {
    pub refresh_token: String,
}

/// A freshly issued pair of tokens.
#[derive(Debug, Clone, PartialEq, Eq)]
pub struct TokenResponse {
    pub access_token: String,
    pub refresh_token: String,
}

/// The mathematical value of [`TokenResponse`].
pub struct TokenResponseView {
    pub access_token: Seq<char>,
    pub refresh_token: Seq<char>,
}

impl View for TokenResponse {
    type V = TokenResponseView;

    open spec fn view(&self) -> TokenResponseView {
        TokenResponseView {
            access_token: self.access_token@,
            refresh_token: self.refresh_token@,
        }
    }
}

/// What a protected route tells its caller about themselves.
#[derive(Debug, Clone, PartialEq, Eq)]
pub struct ProfileResponse {
    pub subject: String,
    pub message: String,
}

/// The mathematical value of [`ProfileResponse`].
pub struct ProfileResponseView {
    pub subject: Seq<char>,
    pub message: Seq<char>,
}

impl View for ProfileResponse {
    type V = ProfileResponseView;

    open spec fn view(&self) -> ProfileResponseView {
        ProfileResponseView { subject: self.subject@, message: self.message@ }
    }
}

/// The mathematical value of [`RegisterRequest`].
pub struct RegisterRequestView {
    pub username: Seq<char>,
    pub email: Seq<char>,
    pub password: Seq<char>,
}

impl View for RegisterRequest {
    type V = RegisterRequestView;

    open spec fn view(&self) -> RegisterRequestView {
        RegisterRequestView {
            username: self.username@,
            email: self.email@,
            password: self.password@,
        }
    }
}

/// The mathematical value of [`LoginRequest`].
pub struct LoginRequestView {
    pub email: Seq<char>,
    pub password: Seq<char>,
}

impl View for LoginRequest {
    type V = LoginRequestView;

    open spec fn view(&self) -> LoginRequestView {
        LoginRequestView { email: self.email@, password: self.password@ }
    }
}

/// What the directory returned for a lookup by email.
#[derive(Debug, Clone, PartialEq, Eq)]
pub enum Lookup {
    /// The record stored under the email.
    Found(User),
    /// No record is stored under the email.
    Missing,
    /// The directory could not answer.
    Failed,
}

/// The mathematical value of [`Lookup`].
pub enum LookupView {
    Found(UserView),
    Missing,
    Failed,
}

impl View for Lookup {
    type V = LookupView;

    open spec fn view(&self) -> LookupView {
        match self {
            Lookup::Found(user) => LookupView::Found(user@),
            Lookup::Missing => LookupView::Missing,
            Lookup::Failed => LookupView::Failed,
        }
    }
}

/// What registration decides before anything is stored.
#[derive(Debug, Clone, PartialEq, Eq)]
pub enum Registration {
    /// Answer with this; nothing is stored.
    Reply(HttpReply),
    /// Store this record, then answer with [`registration_reply`].
    Insert(User),
}

/// The mathematical value of [`Registration`].
pub enum RegistrationView {
    Reply(HttpReplyView),
    Insert(UserView),
}

impl View for Registration {
    type V = RegistrationView;

    open spec fn view(&self) -> RegistrationView {
        match self {
            Registration::Reply(reply) => RegistrationView::Reply(reply@),
            Registration::Insert(user) => RegistrationView::Insert(user@),
        }
    }
}

/// What login or refresh decides before anything is stored.
#[derive(Debug, Clone, PartialEq, Eq)]
pub enum SessionDecision {
    /// Answer with this; nothing is stored.
    Reply(HttpReply),
    /// Store the record's refresh token as the identity's live one, then
    /// answer with [`session_reply`].
    Persist { user: User, tokens: TokenResponse },
}

/// The mathematical value of [`SessionDecision`].
pub enum SessionDecisionView {
    Reply(HttpReplyView),
    Persist { user: UserView, tokens: TokenResponseView },
}

impl View for SessionDecision {
    type V = SessionDecisionView;

    open spec fn view(&self) -> SessionDecisionView {
        match self {
            SessionDecision::Reply(reply) => SessionDecisionView::Reply(reply@),
            SessionDecision::Persist { user, tokens } => SessionDecisionView::Persist {
                user: user@,
                tokens: tokens@,
            },
        }
    }
}

/// What logout decides before anything is stored.
#[derive(Debug, Clone, PartialEq, Eq)]
pub enum LogoutDecision {
    /// Answer with this; nothing is stored.
    Reply(HttpReply),
    /// Clear the live refresh token of the identity with this email, then
    /// answer with [`logout_reply`].
    Clear { email: String },
}

/// The mathematical value of [`LogoutDecision`].
pub enum LogoutDecisionView {
    Reply(HttpReplyView),
    Clear { email: Seq<char> },
}

impl View for LogoutDecision {
    type V = LogoutDecisionView;

    open spec fn view(&self) -> LogoutDecisionView {
        match self {
            LogoutDecision::Reply(reply) => LogoutDecisionView::Reply(reply@),
            LogoutDecision::Clear { email } => LogoutDecisionView::Clear { email: email@ },
        }
    }
}

/// The answer to a request that the directory could not serve. It says
/// nothing of what went wrong there.
pub open spec fn spec_directory_failure() -> HttpReplyView {
    spec_text_reply(INTERNAL_SERVER_ERROR, "Database error"@)
}

/// What registration decides when the password is hashed with `salt`: a
/// directory that could not be read is an internal error, an email that is
/// taken is refused, and in both cases nothing is hashed or stored; a
/// hashing failure is an internal error; otherwise a record without
/// identifier and without refresh session is to be stored.
pub open spec fn spec_register_user(
    form: RegisterRequestView,
    lookup: LookupView,
    salt: Seq<char>,
) -> RegistrationView {
    match lookup {
        LookupView::Failed => RegistrationView::Reply(spec_directory_failure()),
        LookupView::Found(_) => RegistrationView::Reply(
            spec_text_reply(BAD_REQUEST, "Email already exists"@),
        ),
        LookupView::Missing => match spec_hash_with_salt(form.password, salt) {
            Err(_) => RegistrationView::Reply(
                spec_text_reply(INTERNAL_SERVER_ERROR, "Failed to hash password"@),
            ),
            Ok(hash) => RegistrationView::Insert(
                UserView {
                    id: None,
                    username: form.username,
                    email: form.email,
                    password: hash,
                    refresh_token: None,
                },
            ),
        },
    }
}

/// What it means that `r` is the decision of a registration whose password
/// was hashed with `salt`: it is what [`spec_register_user`] gives, and the
/// password of a record that is to be stored verifies for the password of
/// the request.
pub open spec fn spec_registered(
    r: RegistrationView,
    form: RegisterRequestView,
    lookup: LookupView,
    salt: Seq<char>,
) -> bool {
    &&& r == spec_register_user(form, lookup, salt)
    &&& r matches RegistrationView::Insert(user) ==> spec_verify_password(
        user.password,
        form.password,
    )
}

/// The answer of registration once the directory has been asked to store
/// the record.
pub open spec fn spec_registration_reply(inserted: bool) -> HttpReplyView {
    if inserted {
        spec_text_reply(OK, "User registered successfully"@)
    } else {
        spec_text_reply(INTERNAL_SERVER_ERROR, "Failed to register user"@)
    }
}

/// Builds the record or the refusal from the outcome of hashing.
fn registration_of(form: &RegisterRequest, hashed: Result<String, HashError>) -> (r: Registration)
    ensures
        r@ == match hash_result_view(hashed) {
            Err(_) => RegistrationView::Reply(
                spec_text_reply(INTERNAL_SERVER_ERROR, "Failed to hash password"@),
            ),
            Ok(hash) => RegistrationView::Insert(
                UserView {
                    id: None,
                    username: form@.username,
                    email: form@.email,
                    password: hash,
                    refresh_token: None,
                },
            ),
        },
{
    match hashed {
        Ok(hash) => Registration::Insert(User::new(form.username.clone(), form.email.clone(), hash)),
        Err(_) => Registration::Reply(
            HttpReply::text(INTERNAL_SERVER_ERROR, "Failed to hash password"),
        ),
    }
}

/// Decides a registration, hashing the password with the salt given.
pub fn register_user_with_salt(form: &RegisterRequest, lookup: &Lookup, salt: &str) -> (r:
    Registration)
    ensures
        spec_registered(r@, form@, lookup@, salt@),
{
    match lookup {
        Lookup::Failed => Registration::Reply(
            HttpReply::text(INTERNAL_SERVER_ERROR, "Database error"),
        ),
        Lookup::Found(_) => Registration::Reply(
            HttpReply::text(BAD_REQUEST, "Email already exists"),
        ),
        Lookup::Missing => registration_of(
            form,
            hash_password_with_salt(form.password.as_str(), salt),
        ),
    }
}

/// Decides a registration, hashing the password with a fresh random salt.
/// The salt is not known beforehand, so the contract says that some salt of
/// the generator's shape explains the decision.
pub fn register_user(form: &RegisterRequest, lookup: &Lookup) -> (r: Registration)
    ensures
        exists|salt: Seq<char>|
            is_fresh_salt(salt) && #[trigger] spec_registered(r@, form@, lookup@, salt),
{
    match lookup {
        Lookup::Failed => {
            let r = Registration::Reply(HttpReply::text(INTERNAL_SERVER_ERROR, "Database error"));
            proof {
                lemma_fresh_salts_exist();
                assert(spec_registered(r@, form@, lookup@, sample_salt()));
            }
            r
        },
        Lookup::Found(_) => {
            let r = Registration::Reply(HttpReply::text(BAD_REQUEST, "Email already exists"));
            proof {
                lemma_fresh_salts_exist();
                assert(spec_registered(r@, form@, lookup@, sample_salt()));
            }
            r
        },
        Lookup::Missing => {
            let hashed = hash_password(form.password.as_str());
            let ghost salt = choose|salt: Seq<char>|
                is_fresh_salt(salt) && hash_result_view(hashed) == #[trigger] spec_hash_with_salt(
                    form@.password,
                    salt,
                );
            let r = registration_of(form, hashed);
            assert(spec_registered(r@, form@, lookup@, salt));
            r
        },
    }
}

/// Answers a registration once the directory has been asked to store the
/// record: `inserted` says whether it did.
pub fn registration_reply(inserted: bool) -> (reply: HttpReply)
    ensures
        reply@ == spec_registration_reply(inserted),
{
    if inserted {
        HttpReply::text(OK, "User registered successfully")
    } else {
        HttpReply::text(INTERNAL_SERVER_ERROR, "Failed to register user")
    }
}

/// What a protected route answers: the profile of the verified caller, or a
/// refusal where no verified claims are attached to the request.
pub open spec fn spec_get_profile(claims: Option<ClaimsView>) -> HttpReplyView {
    match claims {
        Some(verified) => HttpReplyView {
            status: OK,
            body: ReplyBodyView::Profile(
                ProfileResponseView {
                    subject: verified.sub,
                    message: "Your are authorized. This is a protected route"@,
                },
            ),
        },
        None => spec_text_reply(UNAUTHORIZED, "Unauthorized"@),
    }
}

/// Answers a request for the caller's profile from the claims that the guard
/// attached to it.
pub fn get_profile(claims: Option<&Claims>) -> (reply: HttpReply)
    ensures
        reply@ == spec_get_profile(
            match claims {
                Some(verified) => Some(verified@),
                None => None,
            },
        ),
{
    match claims {
        Some(verified) => HttpReply::profile(
            ProfileResponse {
                subject: verified.sub.clone(),
                message: "Your are authorized. This is a protected route".to_owned(),
            },
        ),
        None => HttpReply::text(UNAUTHORIZED, "Unauthorized"),
    }
}

/// The one message that login gives for credentials it does not accept,
/// whichever check failed.
pub open spec fn spec_bad_credentials() -> HttpReplyView {
    spec_text_reply(UNAUTHORIZED, "Invalid credentials"@)
}

/// The one message that refresh gives for a token it does not accept,
/// whichever check failed.
pub open spec fn spec_bad_refresh_token() -> HttpReplyView {
    spec_text_reply(UNAUTHORIZED, "Invalid refresh token"@)
}

/// What login decides at `now`: a directory failure is an internal error; an
/// unknown email, a record for another email and a wrong password are all
/// refused alike; otherwise a pair is issued and its refresh token is to be
/// stored as the identity's live one.
pub open spec fn spec_login(
    lookup: LookupView,
    credentials: LoginRequestView,
    secret: Seq<char>,
    now: int,
) -> SessionDecisionView {
    match lookup {
        LookupView::Failed => SessionDecisionView::Reply(spec_directory_failure()),
        LookupView::Missing => SessionDecisionView::Reply(spec_bad_credentials()),
        LookupView::Found(user) => if user.email != credentials.email || !spec_verify_password(
            user.password,
            credentials.password,
        ) {
            SessionDecisionView::Reply(spec_bad_credentials())
        } else {
            match spec_issue_pair(user.email, secret, now) {
                Err(_) => SessionDecisionView::Reply(
                    spec_text_reply(INTERNAL_SERVER_ERROR, "Token generation error"@),
                ),
                Ok(pair) => SessionDecisionView::Persist {
                    user: user.with_refresh_token(pair.refresh_token),
                    tokens: pair,
                },
            }
        },
    }
}

/// The answer of login or refresh once the directory has been asked to
/// store the new refresh token.
pub open spec fn spec_session_reply(tokens: TokenResponseView, saved: bool) -> HttpReplyView {
    if saved {
        HttpReplyView { status: OK, body: ReplyBodyView::Tokens(tokens) }
    } else {
        spec_text_reply(INTERNAL_SERVER_ERROR, "Failed to save refresh token"@)
    }
}

/// What refresh answers before the directory is asked: the email to look
/// up, or the refusal.
pub open spec fn spec_refresh_lookup(payload: Seq<char>, secret: Seq<char>, now: int) -> Result<
    Seq<char>,
    HttpReplyView,
> {
    match spec_refresh_subject(payload, secret, now) {
        Ok(subject) => Ok(subject),
        Err(_) => Err(spec_bad_refresh_token()),
    }
}

/// What refresh decides at `now` from the presented token and from what the
/// directory returned for its subject: every refusal of the token reads the
/// same; a directory failure and a failure to issue are internal errors;
/// otherwise the new pair's refresh token is to be stored in place of the
/// presented one.
pub open spec fn spec_refresh_token(
    lookup: LookupView,
    payload: Seq<char>,
    secret: Seq<char>,
    now: int,
) -> SessionDecisionView {
    if spec_refresh_subject(payload, secret, now) is Err {
        SessionDecisionView::Reply(spec_bad_refresh_token())
    } else {
        match lookup {
            LookupView::Failed => SessionDecisionView::Reply(spec_directory_failure()),
            LookupView::Missing => SessionDecisionView::Reply(spec_bad_refresh_token()),
            LookupView::Found(user) => match spec_refresh(payload, Some(user), secret, now) {
                Ok((pair, next)) => SessionDecisionView::Persist { user: next, tokens: pair },
                Err(RefreshError::Issuance(_)) => SessionDecisionView::Reply(
                    spec_text_reply(INTERNAL_SERVER_ERROR, "Token generation error"@),
                ),
                Err(_) => SessionDecisionView::Reply(spec_bad_refresh_token()),
            },
        }
    }
}

/// What it means that `decision` is the decision of a login at `now`: it is
/// what [`spec_login`] gives, and a pair that is handed out was issued at
/// `now` for the email of the request.
pub open spec fn spec_login_decided(
    decision: SessionDecisionView,
    lookup: LookupView,
    credentials: LoginRequestView,
    secret: Seq<char>,
    now: int,
) -> bool {
    &&& decision == spec_login(lookup, credentials, secret, now)
    &&& decision matches SessionDecisionView::Persist { user, tokens } ==> spec_pair_issued(
        tokens,
        credentials.email,
        secret,
        now,
    )
}

/// What it means that `decision` is the decision of a refresh at `now`: it
/// is what [`spec_refresh_token`] gives; a pair that is handed out was issued
/// at `now` for the subject of the presented token, and its refresh token
/// differs from the presented one unless the two expire at the same instant.
pub open spec fn spec_refresh_decided(
    decision: SessionDecisionView,
    lookup: LookupView,
    payload: Seq<char>,
    secret: Seq<char>,
    now: int,
) -> bool {
    &&& decision == spec_refresh_token(lookup, payload, secret, now)
    &&& decision matches SessionDecisionView::Persist { user, tokens } ==> {
        &&& spec_pair_issued(tokens, user.email, secret, now)
        &&& spec_refresh_subject(payload, secret, now) == Ok::<Seq<char>, RefreshError>(
            user.email,
        )
        &&& spec_verify_jwt(payload, secret, now)->Ok_0.exp != spec_refresh_expiry(now)->Ok_0
            ==> tokens.refresh_token != payload
    }
}

/// Decides a login at `now` from what the directory returned for the email.
pub fn login_at(lookup: Lookup, credentials: &LoginRequest, secret: &str, now: i64) -> (decision:
    SessionDecision)
    ensures
        spec_login_decided(decision@, lookup@, credentials@, secret@, now as int),
{
    match lookup {
        Lookup::Failed => SessionDecision::Reply(
            HttpReply::text(INTERNAL_SERVER_ERROR, "Database error"),
        ),
        Lookup::Missing => SessionDecision::Reply(
            HttpReply::text(UNAUTHORIZED, "Invalid credentials"),
        ),
        Lookup::Found(user) => {
            let mut user = user;
            if !same_text(user.email.as_str(), credentials.email.as_str()) || !verify_password(
                user.password.as_str(),
                credentials.password.as_str(),
            ) {
                return SessionDecision::Reply(HttpReply::text(UNAUTHORIZED, "Invalid credentials"));
            }
            match issue_pair_at(&mut user, secret, now) {
                Ok(tokens) => SessionDecision::Persist { user, tokens },
                Err(_) => SessionDecision::Reply(
                    HttpReply::text(INTERNAL_SERVER_ERROR, "Token generation error"),
                ),
            }
        },
    }
}

/// Decides a login now; see [`login_at`]. The time of the call is not known
/// beforehand, so the contract says that some instant, not before the epoch,
/// explains the decision.
pub fn login(lookup: Lookup, credentials: &LoginRequest, secret: &str) -> (decision:
    SessionDecision)
    ensures
        exists|now: i64|
            now >= 0 && #[trigger] spec_login_decided(
                decision@,
                lookup@,
                credentials@,
                secret@,
                now as int,
            ),
{
    let now = current_timestamp();
    login_at(lookup, credentials, secret, now)
}

/// Answers a login or a refresh once the directory has been asked to store
/// the new refresh token: `saved` says whether it did.
pub fn session_reply(tokens: TokenResponse, saved: bool) -> (reply: HttpReply)
    ensures
        reply@ == spec_session_reply(tokens@, saved),
{
    if saved {
        HttpReply::tokens(tokens)
    } else {
        HttpReply::text(INTERNAL_SERVER_ERROR, "Failed to save refresh token")
    }
}

/// The view of an email or the refusal in its place.
pub open spec fn email_result_view(r: Result<String, HttpReply>) -> Result<
    Seq<char>,
    HttpReplyView,
> {
    match r {
        Ok(email) => Ok(email@),
        Err(reply) => Err(reply@),
    }
}

/// Verifies the presented refresh token at `now` and returns the email under
/// which the directory is to be asked, or the refusal.
pub fn refresh_lookup_at(payload: &RefreshRequest, secret: &str, now: i64) -> (r: Result<
    String,
    HttpReply,
>)
    ensures
        email_result_view(r) == spec_refresh_lookup(payload.refresh_token@, secret@, now as int),
{
    match refresh_subject_at(payload.refresh_token.as_str(), secret, now) {
        Ok(subject) => Ok(subject),
        Err(_) => Err(HttpReply::text(UNAUTHORIZED, "Invalid refresh token")),
    }
}

/// Verifies the presented refresh token now; see [`refresh_lookup_at`]. The
/// time of the call is not known beforehand, so the contract says that some
/// instant, not before the epoch, explains the outcome.
pub fn refresh_lookup(payload: &RefreshRequest, secret: &str) -> (r: Result<String, HttpReply>)
    ensures
        exists|now: i64|
            now >= 0 && email_result_view(r) == #[trigger] spec_refresh_lookup(
                payload.refresh_token@,
                secret@,
                now as int,
            ),
{
    let now = current_timestamp();
    refresh_lookup_at(payload, secret, now)
}

/// Decides a refresh at `now` from the presented token and from what the
/// directory returned for its subject.
pub fn refresh_token_at(lookup: Lookup, payload: &RefreshRequest, secret: &str, now: i64) -> (decision:
    SessionDecision)
    ensures
        spec_refresh_decided(decision@, lookup@, payload.refresh_token@, secret@, now as int),
{
    let presented = payload.refresh_token.as_str();
    if refresh_subject_at(presented, secret, now).is_err() {
        return SessionDecision::Reply(HttpReply::text(UNAUTHORIZED, "Invalid refresh token"));
    }
    match lookup {
        Lookup::Failed => SessionDecision::Reply(
            HttpReply::text(INTERNAL_SERVER_ERROR, "Database error"),
        ),
        Lookup::Missing => SessionDecision::Reply(
            HttpReply::text(UNAUTHORIZED, "Invalid refresh token"),
        ),
        Lookup::Found(user) => {
            let mut user = user;
            match rotate_at(presented, &mut user, secret, now) {
                Ok(tokens) => SessionDecision::Persist { user, tokens },
                Err(RefreshError::Issuance(_)) => SessionDecision::Reply(
                    HttpReply::text(INTERNAL_SERVER_ERROR, "Token generation error"),
                ),
                Err(_) => SessionDecision::Reply(
                    HttpReply::text(UNAUTHORIZED, "Invalid refresh token"),
                ),
            }
        },
    }
}

/// Decides a refresh now; see [`refresh_token_at`]. The time of the call is
/// not known beforehand, so the contract says that some instant, not before
/// the epoch, explains the decision.
pub fn refresh_token(lookup: Lookup, payload: &RefreshRequest, secret: &str) -> (decision:
    SessionDecision)
    ensures
        exists|now: i64|
            now >= 0 && #[trigger] spec_refresh_decided(
                decision@,
                lookup@,
                payload.refresh_token@,
                secret@,
                now as int,
            ),
{
    let now = current_timestamp();
    refresh_token_at(lookup, payload, secret, now)
}

/// The email of the caller of a request at `now`: the subject of the bearer
/// token in its `Authorization` header, whatever the token's kind.
pub open spec fn spec_get_email_from_request(
    authorization: Option<Seq<char>>,
    secret: Seq<char>,
    now: int,
) -> Result<Seq<char>, HttpReplyView> {
    match spec_bearer_token(authorization) {
        None => Err(spec_text_reply(UNAUTHORIZED, "Missing or invalid authorization header"@)),
        Some(token) => match spec_extract_email(token, secret, now) {
            Ok(email) => Ok(email),
            Err(_) => Err(spec_text_reply(UNAUTHORIZED, "Invalid or expired token"@)),
        },
    }
}

/// What logout decides at `now`.
pub open spec fn spec_logout(authorization: Option<Seq<char>>, secret: Seq<char>, now: int) -> LogoutDecisionView {
    match spec_get_email_from_request(authorization, secret, now) {
        Ok(email) => LogoutDecisionView::Clear { email },
        Err(reply) => LogoutDecisionView::Reply(reply),
    }
}

/// The answer of logout once the directory has been asked to clear the
/// refresh token.
pub open spec fn spec_logout_reply(cleared: bool) -> HttpReplyView {
    if cleared {
        spec_text_reply(OK, "Logged out successfully"@)
    } else {
        spec_text_reply(INTERNAL_SERVER_ERROR, "Database update failed"@)
    }
}

/// Reads the caller's email from the `Authorization` header of a request at
/// `now`, or gives the refusal.
pub fn get_email_from_request_at(authorization: Option<&str>, secret: &str, now: i64) -> (r: Result<
    String,
    HttpReply,
>)
    ensures
        email_result_view(r) == spec_get_email_from_request(
            header_view(authorization),
            secret@,
            now as int,
        ),
{
    match bearer_token(authorization) {
        None => Err(HttpReply::text(UNAUTHORIZED, "Missing or invalid authorization header")),
        Some(token) => match extract_email_from_jwt_at(token, secret, now) {
            Ok(email) => Ok(email),
            Err(_) => Err(HttpReply::text(UNAUTHORIZED, "Invalid or expired token")),
        },
    }
}

/// Reads the caller's email from the `Authorization` header of a request
/// now; see [`get_email_from_request_at`]. The time of the call is not known
/// beforehand, so the contract says that some instant, not before the epoch,
/// explains the outcome.
pub fn get_email_from_request(authorization: Option<&str>, secret: &str) -> (r: Result<
    String,
    HttpReply,
>)
    ensures
        exists|now: i64|
            now >= 0 && email_result_view(r) == #[trigger] spec_get_email_from_request(
                header_view(authorization),
                secret@,
                now as int,
            ),
{
    let now = current_timestamp();
    get_email_from_request_at(authorization, secret, now)
}

/// Decides a logout at `now`: the refresh session of the caller is to be
/// ended, or the request is refused.
pub fn logout_at(authorization: Option<&str>, secret: &str, now: i64) -> (decision: LogoutDecision)
    ensures
        decision@ == spec_logout(header_view(authorization), secret@, now as int),
{
    match get_email_from_request_at(authorization, secret, now) {
        Ok(email) => LogoutDecision::Clear { email },
        Err(reply) => LogoutDecision::Reply(reply),
    }
}

/// Decides a logout now; see [`logout_at`]. The time of the call is not
/// known beforehand, so the contract says that some instant, not before the
/// epoch, explains the decision.
pub fn logout(authorization: Option<&str>, secret: &str) -> (decision: LogoutDecision)
    ensures
        exists|now: i64|
            now >= 0 && decision@ == #[trigger] spec_logout(
                header_view(authorization),
                secret@,
                now as int,
            ),
{
    let now = current_timestamp();
    logout_at(authorization, secret, now)
}

/// Answers a logout once the directory has been asked to clear the refresh
/// token: `cleared` says whether it did.
pub fn logout_reply(cleared: bool) -> (reply: HttpReply)
    ensures
        reply@ == spec_logout_reply(cleared),
{
    if cleared {
        HttpReply::text(OK, "Logged out successfully")
    } else {
        HttpReply::text(INTERNAL_SERVER_ERROR, "Database update failed")
    }
}

/// A login with the email of a stored record and a password that verifies
/// against its hash hands out a pair wherever one can be issued, and only
/// such a login does. The pair is answered with status 200 once it is
/// stored; its two tokens are not empty, differ from each other, and verify
/// at the instant of the login as an access and a refresh token.
pub proof fn lemma_login_hands_out_a_usable_pair(
    decision: SessionDecisionView,
    lookup: LookupView,
    credentials: LoginRequestView,
    secret: Seq<char>,
    now: int,
)
    requires
        spec_login_decided(decision, lookup, credentials, secret, now),
    ensures
        decision is Persist <==> ({
            &&& lookup is Found
            &&& lookup->Found_0.email == credentials.email
            &&& spec_verify_password(lookup->Found_0.password, credentials.password)
            &&& spec_issue_pair(credentials.email, secret, now) is Ok
        }),
        decision matches SessionDecisionView::Persist { user, tokens } ==> {
            &&& user == lookup->Found_0.with_refresh_token(tokens.refresh_token)
            &&& spec_session_reply(tokens, true).status == 200
            &&& tokens.access_token.len() > 0
            &&& tokens.refresh_token.len() > 0
            &&& tokens.access_token != tokens.refresh_token
            &&& spec_verify_jwt(tokens.access_token, secret, now) is Ok
            &&& spec_verify_jwt(tokens.access_token, secret, now)->Ok_0.token_type
                == TokenKind::Access.spec_label()
            &&& spec_verify_jwt(tokens.refresh_token, secret, now) is Ok
            &&& spec_verify_jwt(tokens.refresh_token, secret, now)->Ok_0.token_type
                == TokenKind::Refresh.spec_label()
        },
        decision matches SessionDecisionView::Reply(reply) ==> reply.status == 401 || reply.status
            == 500,
{
    if decision is Persist {
        lemma_issued_pair_is_usable(decision->tokens, credentials.email, secret, now);
    }
}

/// A refresh that hands out a pair whose refresh token expires at another
/// instant than the presented one makes the presented token useless: the new
/// refresh token is another token, and presenting the old one again, against
/// the record as it was stored, is answered with status 401 at every
/// instant.
pub proof fn lemma_refresh_refuses_the_replay(
    decision: SessionDecisionView,
    lookup: LookupView,
    payload: Seq<char>,
    secret: Seq<char>,
    now: int,
    later: int,
)
    requires
        spec_refresh_decided(decision, lookup, payload, secret, now),
        decision is Persist,
        spec_verify_jwt(payload, secret, now)->Ok_0.exp != spec_refresh_expiry(now)->Ok_0,
    ensures
        decision->tokens.refresh_token != payload,
        decision->tokens.refresh_token.len() > 0,
        decision->tokens.access_token.len() > 0,
        spec_session_reply(decision->tokens, true).status == 200,
        spec_refresh_token(LookupView::Found(decision->user), payload, secret, later)
            == SessionDecisionView::Reply(spec_bad_refresh_token()),
        spec_bad_refresh_token().status == 401,
{
    lemma_issued_pair_is_usable(decision->tokens, decision->user.email, secret, now);
}

} // verus!
