use vstd::prelude::*;
use vstd::string::*;

use crate::clock::{clock_can_show, unix_now};
use crate::config::Jwt;
use crate::jwt::{
    encode_jwt_at, issue_outcome, issued, issued_view, lemma_verify_names_issued_subject,
    verify_outcome, TokenError,
};
use crate::mobile::{international, is_local_mobile, normalize_mobile};
use crate::model::{
    found_view, profile_of, ProfileResponse, ProfileView, UserModel, UserModelView,
};
use crate::otp::OTP_SPENT_SECONDS_BACK;
use crate::response::{Rejection, RepositoryError};
use crate::text::same_text;

verus! {

/// How long a session lasts: a hundred days, in seconds.
pub const TOKEN_TTL_SECONDS: i64 = 8_640_000;

/// The body of a request to verify a one-time code.
#[derive(Debug)]
pub struct VerifyOtpRequest {
    pub mobile: String,
    pub otp: String,
}

/// The name of the cookie that carries a session.
pub open spec fn session_cookie_name() -> Seq<char> {
    "auth_token"@
}

/// What `humantime::format_duration` writes for a duration of `seconds`
/// whole seconds.
pub uninterp spec fn humantime_text(seconds: u64) -> Seq<char>;

/// Writes a number of seconds for people to read, through
/// `humantime::format_duration` on `Duration::from_secs`. Trusted: the
/// result is the crate's text for that duration.
#[verifier::external_body]
fn format_seconds(seconds: u64) -> (text: String)
    ensures
        text@ == humantime_text(seconds),
{
    humantime::format_duration(std::time::Duration::from_secs(seconds)).to_string()
}

/// A cookie to set on a response, in plain values.
#[derive(Debug)]
pub struct SessionCookie {
    pub name: String,
    pub value: String,
    pub path: String,
    pub secure: bool,
    pub http_only: bool,
    pub same_site_strict: bool,
    /// How long the browser keeps the cookie, in milliseconds.
    pub max_age_millis: u64,
}

impl SessionCookie {
    /// The cookie that carries `token` for as long as a session lasts.
    pub fn carrying(token: String) -> (cookie: SessionCookie)
        ensures
            cookie.name@ == session_cookie_name(),
            cookie.value@ == token@,
            cookie.path@ == "/"@,
            cookie.secure,
            cookie.http_only,
            cookie.same_site_strict,
            cookie.max_age_millis == TOKEN_TTL_SECONDS * 1000,
    {
        SessionCookie {
            name: "auth_token".to_owned(),
            value: token,
            path: "/".to_owned(),
            secure: true,
            http_only: true,
            same_site_strict: true,
            max_age_millis: 8_640_000_000,
        }
    }

    /// The cookie that ends a session: no token, gone in half a second.
    pub fn ending() -> (cookie: SessionCookie)
        ensures
            cookie.name@ == session_cookie_name(),
            cookie.value@.len() == 0,
            cookie.path@ == "/"@,
            cookie.secure,
            cookie.http_only,
            !cookie.same_site_strict,
            cookie.max_age_millis == 500,
    {
        SessionCookie {
            name: "auth_token".to_owned(),
            value: String::new(),
            path: "/".to_owned(),
            secure: true,
            http_only: true,
            same_site_strict: false,
            max_age_millis: 500,
        }
    }
}

/// The number under which verification looks a principal up. In
/// production a local number is taken in its international form, as
/// sign-in stores it; any other number is looked up as it was given.
pub open spec fn lookup_mobile(raw: Seq<char>, production: bool) -> Seq<char> {
    if production && is_local_mobile(raw) {
        international(raw)
    } else {
        raw
    }
}

/// Where the verification of a one-time code stands. Each state that is
/// not an end names the work that is to be done outside before the next
/// event.
#[derive(Debug)]
pub enum VerifyState {
    /// Nothing was asked yet.
    Unauthenticated,
    /// The principal with this mobile number is to be looked up.
    PrincipalLookup { mobile: String, otp: String },
    /// The code was tried, with this outcome, and the stored record is to
    /// be brought to what `user` shows: no code, and an expiry an hour
    /// before the attempt.
    OtpClear { user: UserModel, accepted: bool },
    /// The principal is signed in: here are its token and its profile.
    Verified { token: String, token_expires_in: String, profile: ProfileResponse },
    /// The request is answered with this rejection.
    Rejected { reason: Rejection },
}

pub enum VerifyStateView {
    Unauthenticated,
    PrincipalLookup { mobile: Seq<char>, otp: Seq<char> },
    OtpClear { user: UserModelView, accepted: bool },
    Verified { token: Seq<char>, token_expires_in: Seq<char>, profile: ProfileView },
    Rejected { reason: Rejection },
}

impl View for VerifyState {
    type V = VerifyStateView;

    open spec fn view(&self) -> VerifyStateView {
        match self {
            VerifyState::Unauthenticated => VerifyStateView::Unauthenticated,
            VerifyState::PrincipalLookup { mobile, otp } => VerifyStateView::PrincipalLookup {
                mobile: mobile@,
                otp: otp@,
            },
            VerifyState::OtpClear { user, accepted } => VerifyStateView::OtpClear {
                user: user@,
                accepted: *accepted,
            },
            VerifyState::Verified { token, token_expires_in, profile } => VerifyStateView::Verified {
                token: token@,
                token_expires_in: token_expires_in@,
                profile: profile@,
            },
            VerifyState::Rejected { reason } => VerifyStateView::Rejected { reason: *reason },
        }
    }
}

impl VerifyStateView {
    pub open spec fn is_terminal(self) -> bool {
        self is Verified || self is Rejected
    }

    /// What an event does to a state that does not await it: a
    /// verification at its end stays there; one under way is turned away
    /// as a fault of the server.
    pub open spec fn unexpected(self) -> VerifyStateView {
        if self.is_terminal() {
            self
        } else {
            VerifyStateView::Rejected { reason: Rejection::InternalError }
        }
    }

    /// A principal supplies the code `otp` for the mobile number `raw`.
    pub open spec fn on_request(
        self,
        raw: Seq<char>,
        otp: Seq<char>,
        production: bool,
    ) -> VerifyStateView {
        match self {
            VerifyStateView::Unauthenticated => VerifyStateView::PrincipalLookup {
                mobile: lookup_mobile(raw, production),
                otp,
            },
            _ => self.unexpected(),
        }
    }

    /// The repository has answered the lookup at the instant `now`. The
    /// supplied code is tried against the stored one, which is spent by
    /// the attempt, whatever comes of it: the record goes on without a
    /// code, with an expiry an hour before the attempt. An instant that
    /// leaves no room for that hour is a fault of the server.
    pub open spec fn on_principal(
        self,
        found: Result<Option<UserModelView>, RepositoryError>,
        now: int,
    ) -> VerifyStateView {
        match self {
            VerifyStateView::PrincipalLookup { mobile, otp } => match found {
                Err(_) => VerifyStateView::Rejected { reason: Rejection::InternalError },
                Ok(None) => VerifyStateView::Rejected { reason: Rejection::NotFound },
                Ok(Some(user)) => {
                    if user.mobile != mobile {
                        VerifyStateView::Rejected { reason: Rejection::InternalError }
                    } else if now - OTP_SPENT_SECONDS_BACK < i64::MIN {
                        VerifyStateView::Rejected { reason: Rejection::InternalError }
                    } else {
                        VerifyStateView::OtpClear {
                            user: user.spent_at(now),
                            accepted: user.otp_accepts(otp, now),
                        }
                    }
                },
            },
            _ => self.unexpected(),
        }
    }

    /// The repository has cleared the stored code: `Ok(true)` if this
    /// verification was the one to clear it, `Ok(false)` if it was gone
    /// already. A code that was refused, or that another verification
    /// got to first, is an invalid code. Otherwise the principal is signed
    /// in with the token that was `issued` for it.
    pub open spec fn on_otp_cleared(
        self,
        cleared: Result<bool, RepositoryError>,
        issued: Result<Seq<char>, TokenError>,
        expires_in: Seq<char>,
    ) -> VerifyStateView {
        match self {
            VerifyStateView::OtpClear { user, accepted } => match cleared {
                Err(_) => VerifyStateView::Rejected { reason: Rejection::InternalError },
                Ok(first) => {
                    if !accepted || !first {
                        VerifyStateView::Rejected { reason: Rejection::InvalidOtp }
                    } else {
                        match issued {
                            Ok(token) => VerifyStateView::Verified {
                                token,
                                token_expires_in: expires_in,
                                profile: profile_of(user),
                            },
                            Err(_) => VerifyStateView::Rejected { reason: Rejection::InternalError },
                        }
                    }
                },
            },
            _ => self.unexpected(),
        }
    }

    /// The same, with the token issued at the instant `now` under
    /// `secret`, for the principal of the state.
    pub open spec fn on_otp_cleared_at(
        self,
        cleared: Result<bool, RepositoryError>,
        secret: Seq<char>,
        now: int,
    ) -> VerifyStateView {
        match self {
            VerifyStateView::OtpClear { user, accepted } => self.on_otp_cleared(
                cleared,
                issue_outcome(secret, user.id, TOKEN_TTL_SECONDS as int, now),
                humantime_text(TOKEN_TTL_SECONDS as u64),
            ),
            _ => self.unexpected(),
        }
    }
}

/// The number under which verification looks a principal up.
pub fn lookup_mobile_of(raw: &str, production: bool) -> (mobile: String)
    ensures
        mobile@ == lookup_mobile(raw@, production),
{
    match normalize_mobile(raw, production) {
        Ok(mobile) => mobile,
        Err(_) => raw.to_owned(),
    }
}

impl VerifyState {
    pub fn is_terminal(&self) -> (terminal: bool)
        ensures
            terminal == self@.is_terminal(),
    {
        match self {
            VerifyState::Verified { .. } => true,
            VerifyState::Rejected { .. } => true,
            _ => false,
        }
    }

    fn unexpected(self) -> (next: VerifyState)
        ensures
            next@ == self@.unexpected(),
    {
        if self.is_terminal() {
            self
        } else {
            VerifyState::Rejected { reason: Rejection::InternalError }
        }
    }

    /// Takes a request to verify a code.
    pub fn on_request(self, request: &VerifyOtpRequest, production: bool) -> (next: VerifyState)
        ensures
            next@ == self@.on_request(request.mobile@, request.otp@, production),
    {
        match self {
            VerifyState::Unauthenticated => VerifyState::PrincipalLookup {
                mobile: lookup_mobile_of(request.mobile.as_str(), production),
                otp: request.otp.clone(),
            },
            other => other.unexpected(),
        }
    }

    /// Takes the answer of the repository to the lookup, at the instant
    /// `now`.
    pub fn on_principal_at(self, found: Result<Option<UserModel>, RepositoryError>, now: i64) -> (next:
        VerifyState)
        ensures
            next@ == self@.on_principal(found_view(found), now as int),
    {
        match self {
            VerifyState::PrincipalLookup { mobile, otp } => match found {
                Err(_) => VerifyState::Rejected { reason: Rejection::InternalError },
                Ok(None) => VerifyState::Rejected { reason: Rejection::NotFound },
                Ok(Some(user)) => {
                    let mut user = user;
                    if !same_text(user.mobile.as_str(), mobile.as_str()) {
                        VerifyState::Rejected { reason: Rejection::InternalError }
                    } else if now < i64::MIN + OTP_SPENT_SECONDS_BACK {
                        VerifyState::Rejected { reason: Rejection::InternalError }
                    } else {
                        let accepted = user.consume_otp(otp.as_str(), now);
                        VerifyState::OtpClear { user, accepted }
                    }
                },
            },
            other => other.unexpected(),
        }
    }

    /// Takes the answer of the repository to the lookup, at the instant
    /// that the system clock shows: the state is what
    /// [`VerifyState::on_principal_at`] gives for some instant that the
    /// clock can show. Whatever that instant, a record found under the
    /// number looked up goes on without its code, with an expiry that is
    /// past, and otherwise unchanged; and a code that is not the stored
    /// one is refused.
    pub fn on_principal(self, found: Result<Option<UserModel>, RepositoryError>) -> (next:
        VerifyState)
        ensures
            exists|now: int|
                clock_can_show(now) && next@ == #[trigger] self@.on_principal(
                    found_view(found),
                    now,
                ),
            (self@ matches VerifyStateView::PrincipalLookup { mobile, otp } && (found_view(
                found,
            ) matches Ok(Some(user)) && user.mobile == mobile)) ==> (
            next@ matches VerifyStateView::OtpClear { user: spent, accepted } && (
            spent.mobile_token is None && spent.mobile_token_expire_at is Some
                && spent.apart_from_otp() == found_view(found)->Ok_0->0.apart_from_otp() && (
            accepted ==> found_view(found)->Ok_0->0.mobile_token == Some(
                self@->PrincipalLookup_otp,
            )))),
    {
        let now = unix_now();
        self.on_principal_at(found, now)
    }

    /// Takes the answer of the repository to the clearing of the code,
    /// with the token that was issued for the principal and the text that
    /// says how long it lasts.
    pub fn on_otp_cleared_with(
        self,
        cleared: Result<bool, RepositoryError>,
        token: Result<String, TokenError>,
        expires_in: String,
    ) -> (next: VerifyState)
        ensures
            next@ == self@.on_otp_cleared(cleared, issued_view(token), expires_in@),
    {
        match self {
            VerifyState::OtpClear { user, accepted } => match cleared {
                Err(_) => VerifyState::Rejected { reason: Rejection::InternalError },
                Ok(first) => {
                    if !accepted || !first {
                        VerifyState::Rejected { reason: Rejection::InvalidOtp }
                    } else {
                        match token {
                            Ok(token) => VerifyState::Verified {
                                token,
                                token_expires_in: expires_in,
                                profile: ProfileResponse::new(&user),
                            },
                            Err(_) => VerifyState::Rejected { reason: Rejection::InternalError },
                        }
                    }
                },
            },
            other => other.unexpected(),
        }
    }

    /// Takes the answer of the repository to the clearing of the code,
    /// and issues the token at the instant `now`. A principal whose code
    /// was accepted, and cleared by this verification, is signed in
    /// whenever it has an id and a session's time fits behind `now`; the
    /// token it gets signs it in, and the profile is its own.
    pub fn on_otp_cleared_at(self, cleared: Result<bool, RepositoryError>, jwt: &Jwt, now: i64) -> (next:
        VerifyState)
        ensures
            next@ == self@.on_otp_cleared_at(cleared, jwt.secret@, now as int),
            self@ matches VerifyStateView::OtpClear { user, accepted } ==> {
                &&& next@ is Verified <==> accepted && cleared == Ok::<bool, RepositoryError>(true)
                    && user.id.len() > 0 && 0 <= now && now + TOKEN_TTL_SECONDS <= i64::MAX
                &&& next@ matches VerifyStateView::Verified { token, profile, .. } ==> signs_in(
                    jwt.secret@,
                    user.id,
                    now as int,
                    token,
                ) && profile == profile_of(user)
            },
    {
        match &self {
            VerifyState::OtpClear { user, .. } => {
                let token = encode_jwt_at(jwt, user.id.clone(), TOKEN_TTL_SECONDS, now);
                proof {
                    if token is Ok {
                        lemma_issued_token_signs_in(
                            jwt.secret@,
                            user.id@,
                            now as int,
                            token->Ok_0@,
                        );
                    }
                }
                let expires_in = format_seconds(8_640_000);
                self.on_otp_cleared_with(cleared, token, expires_in)
            },
            _ => self.unexpected(),
        }
    }

    /// Takes the answer of the repository to the clearing of the code,
    /// and issues the token at the instant that the system clock shows:
    /// the state is what [`VerifyState::on_otp_cleared_at`] gives for some
    /// instant that the clock can show. A session's time fits behind every
    /// such instant, so a principal with an id whose code was accepted,
    /// and cleared by this verification, is always signed in.
    pub fn on_otp_cleared(self, cleared: Result<bool, RepositoryError>, jwt: &Jwt) -> (next:
        VerifyState)
        ensures
            exists|now: int|
                clock_can_show(now) && next@ == #[trigger] self@.on_otp_cleared_at(
                    cleared,
                    jwt.secret@,
                    now,
                ) && (self@ matches VerifyStateView::OtpClear { user, .. } ==> (next@ matches VerifyStateView::Verified {
                    token,
                    profile,
                    ..
                } ==> signs_in(jwt.secret@, user.id, now, token) && profile == profile_of(user))),
            self@ matches VerifyStateView::OtpClear { user, accepted } ==> (next@ is Verified
                <==> accepted && cleared == Ok::<bool, RepositoryError>(true) && user.id.len() > 0),
    {
        let now = unix_now();
        self.on_otp_cleared_at(cleared, jwt, now)
    }
}

/// Whether `token` signs the principal with the id `user_id` in from `now`
/// on: it is the token issued for that id at `now`, for a session's time,
/// and at every instant of that time verifying it yields claims that name
/// the principal.
pub open spec fn signs_in(secret: Seq<char>, user_id: Seq<char>, now: int, token: Seq<char>) -> bool {
    &&& issued(secret, user_id, TOKEN_TTL_SECONDS as int, now, token)
    &&& forall|later: int|
        now <= later < now + TOKEN_TTL_SECONDS ==> (#[trigger] verify_outcome(secret, token, later)
            matches Ok(claims) && claims.id == user_id)
}

/// A token issued for a session's time signs its principal in.
pub proof fn lemma_issued_token_signs_in(
    secret: Seq<char>,
    user_id: Seq<char>,
    now: int,
    token: Seq<char>,
)
    requires
        issued(secret, user_id, TOKEN_TTL_SECONDS as int, now, token),
    ensures
        signs_in(secret, user_id, now, token),
{
    assert forall|later: int| now <= later < now + TOKEN_TTL_SECONDS implies (
    #[trigger] verify_outcome(secret, token, later) matches Ok(claims) && claims.id == user_id) by {
        lemma_verify_names_issued_subject(
            secret,
            user_id,
            TOKEN_TTL_SECONDS as int,
            now,
            later,
            token,
        );
    }
}

} // verus!
