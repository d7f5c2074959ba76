use vstd::prelude::*;
use vstd::string::*;

use crate::clock::{clock_can_show, unix_now};
use crate::config::Jwt;
use crate::enums::UserRole;
use crate::jwt::{
    decode_jwt_at, verified_view, verify_outcome, Claims, ClaimsView, TokenError,
};
use crate::model::{
    found_view, identity_of, AuthUser, AuthUserView, UserModel, UserModelView,
};
use crate::response::{
    rejection_message, rejection_status, ApiResponseError, Rejection, RepositoryError,
};
use crate::text::{opt_text, same_text};

verus! {

/// What a bearer header starts with.
pub open spec fn bearer_prefix() -> Seq<char> {
    seq!['B', 'e', 'a', 'r', 'e', 'r', ' ']
}

/// The token of an authorization header: what follows `Bearer `. A header
/// of another style carries none.
pub open spec fn bearer_token(header: Seq<char>) -> Option<Seq<char>> {
    if header.len() >= 7 && header.subrange(0, 7) == bearer_prefix() {
        Some(header.subrange(7, header.len() as int))
    } else {
        None
    }
}

/// The token of a request: the session cookie if there is one, else the
/// token of the authorization header.
pub open spec fn extracted_token(
    cookie: Option<Seq<char>>,
    authorization: Option<Seq<char>>,
) -> Option<Seq<char>> {
    match cookie {
        Some(token) => Some(token),
        None => match authorization {
            Some(header) => bearer_token(header),
            None => None,
        },
    }
}

/// The rejection that a refused token leads to.
pub open spec fn rejection_of(error: TokenError) -> Rejection {
    match error {
        TokenError::ExpiredToken => Rejection::Expired,
        TokenError::InternalError => Rejection::InternalError,
        TokenError::InvalidToken => Rejection::Unauthorized,
        TokenError::InvalidSubject => Rejection::Unauthorized,
    }
}

/// Whether a route lets a principal through. A route without a list of
/// roles asks for nothing more than a valid session. A route with one asks
/// that the principal be active and that its role be on the list.
pub open spec fn admits(allowed: Option<Seq<UserRole>>, user: UserModelView) -> bool {
    match allowed {
        None => true,
        Some(roles) => user.is_active() && (user.role() matches Some(role) && roles.contains(role)),
    }
}

/// Where the interception of one request stands.
#[derive(Debug)]
pub enum AuthState {
    /// Nothing was read yet.
    TokenExtraction,
    /// The request carries this token, which is to be verified.
    TokenValidation { token: String },
    /// The token is good; the principal it names is to be loaded.
    IdentityLoad { subject_id: String },
    /// The request goes on to its handler, with this identity attached.
    Authorized { identity: AuthUser },
    /// The request is answered with this rejection, and with this message
    /// in the body of the answer.
    Rejected { reason: Rejection, message: String },
}

pub enum AuthStateView {
    TokenExtraction,
    TokenValidation { token: Seq<char> },
    IdentityLoad { subject_id: Seq<char> },
    Authorized { identity: AuthUserView },
    Rejected { reason: Rejection, message: Seq<char> },
}

/// The state of a request that an interceptor turns away on its own
/// account: the rejection, with the message that belongs to it.
pub open spec fn turned_away(reason: Rejection) -> AuthStateView {
    AuthStateView::Rejected { reason, message: rejection_message(reason) }
}

/// The text of a handler's error, if it failed.
pub open spec fn failure_of(outcome: Result<(), String>) -> Option<Seq<char>> {
    match outcome {
        Ok(()) => None,
        Err(text) => Some(text@),
    }
}

impl View for AuthState {
    type V = AuthStateView;

    open spec fn view(&self) -> AuthStateView {
        match self {
            AuthState::TokenExtraction => AuthStateView::TokenExtraction,
            AuthState::TokenValidation { token } => AuthStateView::TokenValidation { token: token@ },
            AuthState::IdentityLoad { subject_id } => AuthStateView::IdentityLoad {
                subject_id: subject_id@,
            },
            AuthState::Authorized { identity } => AuthStateView::Authorized { identity: identity@ },
            AuthState::Rejected { reason, message } => AuthStateView::Rejected {
                reason: *reason,
                message: message@,
            },
        }
    }
}

impl AuthStateView {
    /// A request that has reached its end: it is let through or turned
    /// away, and no event changes that, except that a handler may still
    /// fail.
    pub open spec fn is_terminal(self) -> bool {
        self is Authorized || self is Rejected
    }

    /// What an event does to a state that does not await it: a request at
    /// its end stays there; one under way is turned away as a fault of the
    /// server.
    pub open spec fn unexpected(self) -> AuthStateView {
        if self.is_terminal() {
            self
        } else {
            turned_away(Rejection::InternalError)
        }
    }

    /// The request's cookie and authorization header were read.
    pub open spec fn on_credentials(
        self,
        cookie: Option<Seq<char>>,
        authorization: Option<Seq<char>>,
    ) -> AuthStateView {
        match self {
            AuthStateView::TokenExtraction => match extracted_token(cookie, authorization) {
                Some(token) => AuthStateView::TokenValidation { token },
                None => turned_away(Rejection::MissingToken),
            },
            _ => self.unexpected(),
        }
    }

    /// The token codec has verified the token.
    pub open spec fn on_token_checked(
        self,
        outcome: Result<ClaimsView, TokenError>,
    ) -> AuthStateView {
        match self {
            AuthStateView::TokenValidation { token } => match outcome {
                Ok(claims) => AuthStateView::IdentityLoad { subject_id: claims.id },
                Err(error) => turned_away(rejection_of(error)),
            },
            _ => self.unexpected(),
        }
    }

    /// The repository has answered for the subject. Anything but the
    /// subject's own record is a fault of the server. A record that the
    /// route does not admit is forbidden.
    pub open spec fn on_identity_loaded(
        self,
        found: Result<Option<UserModelView>, RepositoryError>,
        allowed: Option<Seq<UserRole>>,
    ) -> AuthStateView {
        match self {
            AuthStateView::IdentityLoad { subject_id } => match found {
                Ok(Some(user)) => {
                    if user.id != subject_id {
                        turned_away(Rejection::InternalError)
                    } else if !admits(allowed, user) {
                        turned_away(Rejection::Forbidden)
                    } else {
                        AuthStateView::Authorized { identity: identity_of(user) }
                    }
                },
                _ => turned_away(Rejection::InternalError),
            },
            _ => self.unexpected(),
        }
    }

    /// The handler has finished; `failure` is the text of its error, if it
    /// failed. A failure leaves the interceptor as a fault of the server
    /// that carries the handler's text: the handler's own kind of error
    /// never gets out.
    pub open spec fn on_handler_finished(self, failure: Option<Seq<char>>) -> AuthStateView {
        match self {
            AuthStateView::Authorized { identity } => match failure {
                None => self,
                Some(text) => AuthStateView::Rejected {
                    reason: Rejection::InternalError,
                    message: text,
                },
            },
            _ => self.unexpected(),
        }
    }
}

/// How far a request gets on what it carries alone, at the instant `now`:
/// to the loading of the principal that its token names, or to a
/// rejection.
pub open spec fn admission(
    secret: Seq<char>,
    cookie: Option<Seq<char>>,
    authorization: Option<Seq<char>>,
    now: int,
) -> AuthStateView {
    match AuthStateView::TokenExtraction.on_credentials(cookie, authorization) {
        AuthStateView::TokenValidation { token } => (AuthStateView::TokenValidation {
            token,
        }).on_token_checked(verify_outcome(secret, token, now)),
        other => other,
    }
}

/// The token of an authorization header.
pub fn bearer_token_of(header: &str) -> (token: Option<String>)
    ensures
        opt_text(token) == bearer_token(header@),
{
    let len = header.unicode_len();
    if len < 7 {
        return None;
    }
    proof {
        reveal_strlit("Bearer ");
        assert("Bearer "@ =~= bearer_prefix());
    }
    if same_text(header.substring_char(0, 7), "Bearer ") {
        Some(header.substring_char(7, len).to_owned())
    } else {
        None
    }
}

/// The token of a request.
pub fn extract_token(cookie: Option<String>, authorization: Option<String>) -> (token: Option<
    String,
>)
    ensures
        opt_text(token) == extracted_token(opt_text(cookie), opt_text(authorization)),
{
    match cookie {
        Some(token) => Some(token),
        None => match authorization {
            Some(header) => bearer_token_of(header.as_str()),
            None => None,
        },
    }
}

/// Whether `role` is on the list.
pub fn role_allowed(allowed: &Vec<UserRole>, role: UserRole) -> (found: bool)
    ensures
        found == allowed@.contains(role),
{
    let mut i: usize = 0;
    while i < allowed.len()
        invariant
            i <= allowed.len(),
            forall|j: int| 0 <= j < i ==> allowed@[j] != role,
        decreases allowed.len() - i,
    {
        if allowed[i] == role {
            return true;
        }
        i = i + 1;
    }
    false
}

/// The roles of an optional list.
pub open spec fn roles_view(allowed: Option<&Vec<UserRole>>) -> Option<Seq<UserRole>> {
    match allowed {
        Some(roles) => Some(roles@),
        None => None,
    }
}

/// Whether a route with this list of roles lets `user` through.
pub fn route_admits(allowed: Option<&Vec<UserRole>>, user: &UserModel) -> (admitted: bool)
    ensures
        admitted == admits(roles_view(allowed), user@),
{
    match allowed {
        None => true,
        Some(roles) => {
            if !user.is_active() {
                false
            } else {
                match user.role() {
                    Some(role) => role_allowed(roles, role),
                    None => false,
                }
            }
        },
    }
}

impl AuthState {
    /// The state of a request that was just received.
    pub fn begin() -> (state: AuthState)
        ensures
            state@ == AuthStateView::TokenExtraction,
    {
        AuthState::TokenExtraction
    }

    pub fn is_terminal(&self) -> (terminal: bool)
        ensures
            terminal == self@.is_terminal(),
    {
        match self {
            AuthState::Authorized { .. } => true,
            AuthState::Rejected { .. } => true,
            _ => false,
        }
    }

    /// The state of a request that is turned away for `reason`, with the
    /// message that belongs to the reason.
    pub fn turn_away(reason: Rejection) -> (state: AuthState)
        ensures
            state@ == turned_away(reason),
    {
        AuthState::Rejected { reason, message: reason.message().to_owned() }
    }

    fn unexpected(self) -> (next: AuthState)
        ensures
            next@ == self@.unexpected(),
    {
        if self.is_terminal() {
            self
        } else {
            AuthState::turn_away(Rejection::InternalError)
        }
    }

    pub fn on_credentials(self, cookie: Option<String>, authorization: Option<String>) -> (next:
        AuthState)
        ensures
            next@ == self@.on_credentials(opt_text(cookie), opt_text(authorization)),
    {
        match self {
            AuthState::TokenExtraction => match extract_token(cookie, authorization) {
                Some(token) => AuthState::TokenValidation { token },
                None => AuthState::turn_away(Rejection::MissingToken),
            },
            other => other.unexpected(),
        }
    }

    pub fn on_token_checked(self, outcome: Result<Claims, TokenError>) -> (next: AuthState)
        ensures
            next@ == self@.on_token_checked(verified_view(outcome)),
    {
        match self {
            AuthState::TokenValidation { token } => match outcome {
                Ok(claims) => AuthState::IdentityLoad { subject_id: claims.id },
                Err(error) => AuthState::turn_away(
                    match error {
                        TokenError::ExpiredToken => Rejection::Expired,
                        TokenError::InternalError => Rejection::InternalError,
                        TokenError::InvalidToken => Rejection::Unauthorized,
                        TokenError::InvalidSubject => Rejection::Unauthorized,
                    },
                ),
            },
            other => other.unexpected(),
        }
    }

    pub fn on_identity_loaded(
        self,
        found: Result<Option<UserModel>, RepositoryError>,
        allowed: Option<&Vec<UserRole>>,
    ) -> (next: AuthState)
        ensures
            next@ == self@.on_identity_loaded(found_view(found), roles_view(allowed)),
    {
        match self {
            AuthState::IdentityLoad { subject_id } => match found {
                Ok(Some(user)) => {
                    let mut user = user;
                    if !same_text(user.id.as_str(), subject_id.as_str()) {
                        AuthState::turn_away(Rejection::InternalError)
                    } else if !route_admits(allowed, &user) {
                        AuthState::turn_away(Rejection::Forbidden)
                    } else {
                        AuthState::Authorized { identity: AuthUser::filter_db(&mut user) }
                    }
                },
                _ => AuthState::turn_away(Rejection::InternalError),
            },
            other => other.unexpected(),
        }
    }

    pub fn on_handler_finished(self, outcome: Result<(), String>) -> (next: AuthState)
        ensures
            next@ == self@.on_handler_finished(failure_of(outcome)),
    {
        match self {
            AuthState::Authorized { identity } => match outcome {
                Ok(()) => AuthState::Authorized { identity },
                Err(text) => AuthState::Rejected { reason: Rejection::InternalError, message: text },
            },
            other => other.unexpected(),
        }
    }

    /// The body of the answer to a request that was turned away: the
    /// status of the rejection and the message that the state carries.
    /// A request that was not turned away has none.
    pub fn rejection_body(&self) -> (body: Option<ApiResponseError>)
        ensures
            body is Some <==> self@ is Rejected,
            body matches Some(error) ==> (self@ matches AuthStateView::Rejected { reason, message }
                && error.status == rejection_status(reason) && error.message@ == message
                && error.validation_errors is None),
    {
        match self {
            AuthState::Rejected { reason, message } => Some(
                ApiResponseError::new(reason.status(), message.clone(), None),
            ),
            _ => None,
        }
    }
}

/// Takes a request from its cookie and header to the loading of its
/// principal, or to a rejection, at the instant `now`.
pub fn admit_at(
    jwt: &Jwt,
    cookie: Option<String>,
    authorization: Option<String>,
    now: i64,
) -> (state: AuthState)
    ensures
        state@ == admission(jwt.secret@, opt_text(cookie), opt_text(authorization), now as int),
        !(state@ is TokenExtraction) && !(state@ is TokenValidation) && !(state@ is Authorized),
{
    match AuthState::begin().on_credentials(cookie, authorization) {
        AuthState::TokenValidation { token } => {
            let outcome = decode_jwt_at(jwt, token.clone(), now);
            (AuthState::TokenValidation { token }).on_token_checked(outcome)
        },
        other => other,
    }
}

/// Guards a route that asks for a valid session.
pub struct RequireAuth {}

/// The interceptor of one route that asks for a valid session.
pub struct AuthMiddleware {}

impl RequireAuth {
    pub fn new_transform(&self) -> AuthMiddleware {
        AuthMiddleware {  }
    }
}

impl AuthMiddleware {
    /// Reads the token of a request and verifies it at the instant `now`.
    pub fn call_at(
        &self,
        jwt: &Jwt,
        cookie: Option<String>,
        authorization: Option<String>,
        now: i64,
    ) -> (state: AuthState)
        ensures
            state@ == admission(jwt.secret@, opt_text(cookie), opt_text(authorization), now as int),
    {
        admit_at(jwt, cookie, authorization, now)
    }

    /// Reads the token of a request and verifies it against the system
    /// clock: the state is what [`AuthMiddleware::call_at`] gives for some
    /// instant that the clock can show.
    pub fn call(&self, jwt: &Jwt, cookie: Option<String>, authorization: Option<String>) -> (state:
        AuthState)
        ensures
            exists|now: int|
                clock_can_show(now) && state@ == #[trigger] admission(
                    jwt.secret@,
                    opt_text(cookie),
                    opt_text(authorization),
                    now,
                ),
            extracted_token(opt_text(cookie), opt_text(authorization)) is None ==> state@ == (
            turned_away(Rejection::MissingToken)),
            state@ is IdentityLoad || state@ is Rejected,
    {
        let now = unix_now();
        admit_at(jwt, cookie, authorization, now)
    }

    /// Takes what the repository returned for the subject.
    pub fn identity_loaded(
        &self,
        state: AuthState,
        found: Result<Option<UserModel>, RepositoryError>,
    ) -> (next: AuthState)
        ensures
            next@ == state@.on_identity_loaded(found_view(found), None),
    {
        state.on_identity_loaded(found, None)
    }
}

/// Guards a route that asks for an active principal with one of the
/// listed roles.
pub struct RequireAdminAuth {
    pub allowed_roles: Vec<UserRole>,
}

/// The interceptor of one route that asks for an active principal with
/// one of the listed roles.
pub struct AuthAdminMiddleware {
    allowed_roles: Vec<UserRole>,
}

impl RequireAdminAuth {
    pub fn allowed_roles(allowed_roles: Vec<UserRole>) -> (guard: Self)
        ensures
            guard.allowed_roles == allowed_roles,
    {
        RequireAdminAuth { allowed_roles }
    }

    pub fn new_transform(&self) -> (middleware: AuthAdminMiddleware)
        ensures
            middleware.allowed() == self.allowed_roles@,
    {
        let mut roles: Vec<UserRole> = Vec::new();
        let mut i: usize = 0;
        while i < self.allowed_roles.len()
            invariant
                i <= self.allowed_roles.len(),
                roles@ == self.allowed_roles@.subrange(0, i as int),
            decreases self.allowed_roles.len() - i,
        {
            roles.push(self.allowed_roles[i]);
            assert(roles@ =~= self.allowed_roles@.subrange(0, i + 1));
            i = i + 1;
        }
        assert(roles@ =~= self.allowed_roles@);
        AuthAdminMiddleware { allowed_roles: roles }
    }
}

impl AuthAdminMiddleware {
    /// The roles that the route lets through.
    pub closed spec fn allowed(&self) -> Seq<UserRole> {
        self.allowed_roles@
    }

    /// Reads the token of a request and verifies it at the instant `now`.
    pub fn call_at(
        &self,
        jwt: &Jwt,
        cookie: Option<String>,
        authorization: Option<String>,
        now: i64,
    ) -> (state: AuthState)
        ensures
            state@ == admission(jwt.secret@, opt_text(cookie), opt_text(authorization), now as int),
    {
        admit_at(jwt, cookie, authorization, now)
    }

    /// Reads the token of a request and verifies it against the system
    /// clock: the state is what [`AuthAdminMiddleware::call_at`] gives for
    /// some instant that the clock can show.
    pub fn call(&self, jwt: &Jwt, cookie: Option<String>, authorization: Option<String>) -> (state:
        AuthState)
        ensures
            exists|now: int|
                clock_can_show(now) && state@ == #[trigger] admission(
                    jwt.secret@,
                    opt_text(cookie),
                    opt_text(authorization),
                    now,
                ),
            extracted_token(opt_text(cookie), opt_text(authorization)) is None ==> state@ == (
            turned_away(Rejection::MissingToken)),
            state@ is IdentityLoad || state@ is Rejected,
    {
        let now = unix_now();
        admit_at(jwt, cookie, authorization, now)
    }

    /// Takes what the repository returned for the subject, and lets the
    /// request through only for an active principal with a listed role.
    pub fn identity_loaded(
        &self,
        state: AuthState,
        found: Result<Option<UserModel>, RepositoryError>,
    ) -> (next: AuthState)
        ensures
            next@ == state@.on_identity_loaded(found_view(found), Some(self.allowed())),
    {
        state.on_identity_loaded(found, Some(&self.allowed_roles))
    }
}

/// No request gets past an interceptor without a token: a request with
/// neither cookie nor bearer header is turned away as `MissingToken`,
/// whatever the secret and the instant; and whatever a request carries, it
/// gets no further than the loading of its principal on that alone.
pub proof fn lemma_admission_needs_token(
    secret: Seq<char>,
    cookie: Option<Seq<char>>,
    authorization: Option<Seq<char>>,
    now: int,
)
    ensures
        extracted_token(cookie, authorization) is None ==> admission(
            secret,
            cookie,
            authorization,
            now,
        ) == (turned_away(Rejection::MissingToken)),
        admission(secret, cookie, authorization, now) matches AuthStateView::IdentityLoad {
            subject_id,
        } ==> (extracted_token(cookie, authorization) matches Some(token) && (verify_outcome(
            secret,
            token,
            now,
        ) matches Ok(claims) && claims.id == subject_id)),
        admission(secret, cookie, authorization, now) is IdentityLoad || admission(
            secret,
            cookie,
            authorization,
            now,
        ) is Rejected,
{
}

/// A rejection is final: whatever is read, checked, loaded or finished
/// afterwards, a request that was turned away stays turned away, for the
/// same reason and with the same message.
pub proof fn lemma_rejection_is_final(
    reason: Rejection,
    message: Seq<char>,
    cookie: Option<Seq<char>>,
    authorization: Option<Seq<char>>,
    outcome: Result<ClaimsView, TokenError>,
    found: Result<Option<UserModelView>, RepositoryError>,
    allowed: Option<Seq<UserRole>>,
    failure: Option<Seq<char>>,
)
    ensures
        ({
            let rejected = AuthStateView::Rejected { reason, message };
            &&& rejected.on_credentials(cookie, authorization) == rejected
            &&& rejected.on_token_checked(outcome) == rejected
            &&& rejected.on_identity_loaded(found, allowed) == rejected
            &&& rejected.on_handler_finished(failure) == rejected
        }),
{
}

/// A handler's failure never leaves an interceptor as it came: the request
/// ends as a fault of the server, with status 500, and the body of the
/// answer carries the text of the handler's error. A handler that
/// succeeds leaves the request authorized.
pub proof fn lemma_handler_failure_is_wrapped(identity: AuthUserView, text: Seq<char>)
    ensures
        (AuthStateView::Authorized { identity }).on_handler_finished(Some(text)) == (
        AuthStateView::Rejected { reason: Rejection::InternalError, message: text }),
        rejection_status(Rejection::InternalError) == 500,
        (AuthStateView::Authorized { identity }).on_handler_finished(None) == (
        AuthStateView::Authorized { identity }),
{
}

/// A handler sees only what its route admits: whatever the state and
/// whatever the repository returned, a request is let through only from the
/// loading of its principal, only with that principal's own record, and, on
/// a route with a list of roles, only if the principal is active and its
/// role is listed. The identity attached is that of the record, without
/// its one-time code.
pub proof fn lemma_authorized_only_if_admitted(
    state: AuthStateView,
    found: Result<Option<UserModelView>, RepositoryError>,
    allowed: Option<Seq<UserRole>>,
)
    requires
        !(state is Authorized),
    ensures
        state.on_identity_loaded(found, allowed) matches AuthStateView::Authorized { identity }
            ==> (state matches AuthStateView::IdentityLoad { subject_id } && (found matches Ok(
            Some(user),
        ) && user.id == subject_id && admits(allowed, user) && identity == identity_of(user))),
{
}

/// On a route with a list of roles, a principal whose role is not listed
/// is forbidden, and so is an inactive principal, whatever its role: a
/// `User` on a route for `Admin` alone, or an `Admin` that is not active.
pub proof fn lemma_admin_route_forbids(
    subject_id: Seq<char>,
    user: UserModelView,
    allowed: Seq<UserRole>,
)
    requires
        user.id == subject_id,
        !user.is_active() || user.role() is None || !allowed.contains(user.role()->0),
    ensures
        (AuthStateView::IdentityLoad { subject_id }).on_identity_loaded(
            Ok(Some(user)),
            Some(allowed),
        ) == (turned_away(Rejection::Forbidden)),
{
}

} // verus!
