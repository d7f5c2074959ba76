use vstd::prelude::*;
use vstd::string::*;

use crate::clock::{clock_can_show, unix_now};
use crate::config::{is_production_env, Config};
use crate::mobile::{mobile_outcome, normalize_mobile};
use crate::model::{
    found_view, identity_of, AuthUser, AuthUserView, UserModel, UserModelView,
};
use crate::otp::{generate_otp, is_generated_otp, OTP_TTL_SECONDS};
use crate::queue::{
    BoundedQueue, EmailJob, EmailJobView, QueueError, QueueView, SmsJob, SmsJobView,
};
use crate::response::{Rejection, RepositoryError};
use crate::text::same_text;

verus! {

/// The body of a sign-in request.
#[derive(Debug)]
pub struct LoginUserRequest {
    pub mobile: String,
}

/// The text of the message that carries a code.
pub open spec fn otp_message(code: Seq<char>) -> Seq<char> {
    "Login OTP: "@ + code
}

/// The text message that carries `code` to `mobile`.
pub open spec fn login_sms(mobile: Seq<char>, code: Seq<char>) -> SmsJobView {
    SmsJobView { to: mobile, body: otp_message(code) }
}

/// The email that carries `code` to `email`.
pub open spec fn login_email(email: Seq<char>, code: Seq<char>) -> EmailJobView {
    EmailJobView { to: email, subject: "Login OTP"@, body: otp_message(code) }
}

/// The view of an optional text message.
pub open spec fn sms_view(job: Option<SmsJob>) -> Option<SmsJobView> {
    match job {
        Some(job) => Some(job@),
        None => None,
    }
}

/// The view of an optional email.
pub open spec fn email_view(job: Option<EmailJob>) -> Option<EmailJobView> {
    match job {
        Some(job) => Some(job@),
        None => None,
    }
}

/// Where a sign-in stands. Each state that is not an end names the work
/// that is to be done outside before the next event.
#[derive(Debug)]
pub enum LoginState {
    /// Nothing was asked yet.
    Unauthenticated,
    /// The principal with this mobile number is to be looked up.
    PrincipalLookup { mobile: String },
    /// The code and expiry that `user` now holds are to be stored.
    OtpStore { user: UserModel },
    /// These messages are to be put on their queues, the text message
    /// first.
    Dispatch { identity: AuthUser, sms: Option<SmsJob>, email: Option<EmailJob> },
    /// A code was issued to the principal.
    OtpIssued { identity: AuthUser },
    /// The request is answered with this rejection.
    Rejected { reason: Rejection },
}

pub enum LoginStateView {
    Unauthenticated,
    PrincipalLookup { mobile: Seq<char> },
    OtpStore { user: UserModelView },
    Dispatch { identity: AuthUserView, sms: Option<SmsJobView>, email: Option<EmailJobView> },
    OtpIssued { identity: AuthUserView },
    Rejected { reason: Rejection },
}

impl View for LoginState {
    type V = LoginStateView;

    open spec fn view(&self) -> LoginStateView {
        match self {
            LoginState::Unauthenticated => LoginStateView::Unauthenticated,
            LoginState::PrincipalLookup { mobile } => LoginStateView::PrincipalLookup {
                mobile: mobile@,
            },
            LoginState::OtpStore { user } => LoginStateView::OtpStore { user: user@ },
            LoginState::Dispatch { identity, sms, email } => LoginStateView::Dispatch {
                identity: identity@,
                sms: sms_view(*sms),
                email: email_view(*email),
            },
            LoginState::OtpIssued { identity } => LoginStateView::OtpIssued { identity: identity@ },
            LoginState::Rejected { reason } => LoginStateView::Rejected { reason: *reason },
        }
    }
}

impl LoginStateView {
    pub open spec fn is_terminal(self) -> bool {
        self is OtpIssued || self is Rejected
    }

    /// What an event does to a state that does not await it: a sign-in at
    /// its end stays there; one under way is turned away as a fault of the
    /// server.
    pub open spec fn unexpected(self) -> LoginStateView {
        if self.is_terminal() {
            self
        } else {
            LoginStateView::Rejected { reason: Rejection::InternalError }
        }
    }

    /// A principal asks to sign in with the mobile number `raw`.
    pub open spec fn on_request(self, raw: Seq<char>, production: bool) -> LoginStateView {
        match self {
            LoginStateView::Unauthenticated => match mobile_outcome(raw, production) {
                Ok(mobile) => LoginStateView::PrincipalLookup { mobile },
                Err(_) => LoginStateView::Rejected { reason: Rejection::InvalidMobile },
            },
            _ => self.unexpected(),
        }
    }

    /// The repository has answered the lookup; `code` is the fresh code
    /// and `now` the instant.
    pub open spec fn on_principal(
        self,
        found: Result<Option<UserModelView>, RepositoryError>,
        code: Seq<char>,
        now: int,
    ) -> LoginStateView {
        match self {
            LoginStateView::PrincipalLookup { mobile } => match found {
                Err(_) => LoginStateView::Rejected { reason: Rejection::InternalError },
                Ok(None) => LoginStateView::Rejected { reason: Rejection::NotFound },
                Ok(Some(user)) => {
                    if user.mobile != mobile {
                        LoginStateView::Rejected { reason: Rejection::InternalError }
                    } else if !user.is_active() {
                        LoginStateView::Rejected { reason: Rejection::Forbidden }
                    } else if now + OTP_TTL_SECONDS > i64::MAX {
                        LoginStateView::Rejected { reason: Rejection::InternalError }
                    } else {
                        LoginStateView::OtpStore {
                            user: user.with_otp(code, (now + OTP_TTL_SECONDS) as i64),
                        }
                    }
                },
            },
            _ => self.unexpected(),
        }
    }

    /// The repository has stored the code, or failed to. In production the
    /// code goes out by text message, and by email too if the principal
    /// has an address. Outside production nothing is sent.
    pub open spec fn on_otp_stored(
        self,
        stored: Result<(), RepositoryError>,
        production: bool,
    ) -> LoginStateView {
        match self {
            LoginStateView::OtpStore { user } => match (stored, user.mobile_token) {
                (Ok(()), Some(code)) => {
                    if production {
                        LoginStateView::Dispatch {
                            identity: identity_of(user),
                            sms: Some(login_sms(user.mobile, code)),
                            email: match user.email {
                                Some(email) => Some(login_email(email, code)),
                                None => None,
                            },
                        }
                    } else {
                        LoginStateView::OtpIssued { identity: identity_of(user) }
                    }
                },
                _ => LoginStateView::Rejected { reason: Rejection::InternalError },
            },
            _ => self.unexpected(),
        }
    }
}

/// What one attempt to put the waiting messages on their queues comes to.
/// The text message goes first. A message that finds its queue full stays
/// with the sign-in, which waits for a slot and tries again; nothing is
/// tried behind a message that waits. A closed queue ends the sign-in as a
/// fault of the server. Once nothing waits, the code counts as issued.
pub open spec fn dispatched(
    before: LoginState,
    sms_queue: QueueView<SmsJob>,
    email_queue: QueueView<EmailJob>,
    after: LoginState,
    sms_after: QueueView<SmsJob>,
    email_after: QueueView<EmailJob>,
) -> bool {
    match before {
        LoginState::Dispatch { identity, sms, email } => {
            let sms_waits = sms is Some && !sms_queue.accepts();
            &&& sms_after == match sms {
                Some(job) => sms_queue.push(job),
                None => sms_queue,
            }
            &&& email_after == match email {
                Some(job) => if sms_waits {
                    email_queue
                } else {
                    email_queue.push(job)
                },
                None => email_queue,
            }
            &&& after@ == if sms is Some && sms_queue.closed {
                LoginStateView::Rejected { reason: Rejection::InternalError }
            } else if sms_waits {
                before@
            } else if email is Some && email_queue.closed {
                LoginStateView::Rejected { reason: Rejection::InternalError }
            } else if email is Some && email_queue.is_full() {
                LoginStateView::Dispatch { identity: identity@, sms: None, email: email_view(email) }
            } else {
                LoginStateView::OtpIssued { identity: identity@ }
            }
        },
        _ => after@ == before@.unexpected() && sms_after == sms_queue && email_after == email_queue,
    }
}

/// The text of the message that carries `code`.
pub fn otp_message_of(code: &str) -> (text: String)
    ensures
        text@ == otp_message(code@),
{
    let mut text = "Login OTP: ".to_owned();
    text.append(code);
    text
}

impl LoginState {
    pub fn is_terminal(&self) -> (terminal: bool)
        ensures
            terminal == self@.is_terminal(),
    {
        match self {
            LoginState::OtpIssued { .. } => true,
            LoginState::Rejected { .. } => true,
            _ => false,
        }
    }

    fn unexpected(self) -> (next: LoginState)
        ensures
            next@ == self@.unexpected(),
    {
        if self.is_terminal() {
            self
        } else {
            LoginState::Rejected { reason: Rejection::InternalError }
        }
    }

    /// Takes a sign-in request.
    pub fn on_request(self, request: &LoginUserRequest, production: bool) -> (next: LoginState)
        ensures
            next@ == self@.on_request(request.mobile@, production),
    {
        match self {
            LoginState::Unauthenticated => match normalize_mobile(
                request.mobile.as_str(),
                production,
            ) {
                Ok(mobile) => LoginState::PrincipalLookup { mobile },
                Err(_) => LoginState::Rejected { reason: Rejection::InvalidMobile },
            },
            other => other.unexpected(),
        }
    }

    /// Takes the answer of the repository to the lookup, with a fresh
    /// code and the instant at which it was made.
    pub fn on_principal_at(
        self,
        found: Result<Option<UserModel>, RepositoryError>,
        code: String,
        now: i64,
    ) -> (next: LoginState)
        ensures
            next@ == self@.on_principal(found_view(found), code@, now as int),
    {
        match self {
            LoginState::PrincipalLookup { mobile } => match found {
                Err(_) => LoginState::Rejected { reason: Rejection::InternalError },
                Ok(None) => LoginState::Rejected { reason: Rejection::NotFound },
                Ok(Some(user)) => {
                    let mut user = user;
                    if !same_text(user.mobile.as_str(), mobile.as_str()) {
                        LoginState::Rejected { reason: Rejection::InternalError }
                    } else if !user.is_active() {
                        LoginState::Rejected { reason: Rejection::Forbidden }
                    } else if now > i64::MAX - OTP_TTL_SECONDS {
                        LoginState::Rejected { reason: Rejection::InternalError }
                    } else {
                        user.store_otp(code, OTP_TTL_SECONDS, now);
                        LoginState::OtpStore { user }
                    }
                },
            },
            other => other.unexpected(),
        }
    }

    /// Takes the answer of the repository to the lookup. The code is
    /// generated for the mode of `config`, and the instant is read from
    /// the system clock: the state is what [`LoginState::on_principal_at`]
    /// gives for some code of that mode and some instant that the clock
    /// can show. A minute fits behind every such instant, so an active
    /// principal that was found under the number looked up always gets a
    /// code: the next state holds its record with a code of the mode,
    /// good for a minute.
    pub fn on_principal(
        self,
        found: Result<Option<UserModel>, RepositoryError>,
        config: &Config,
    ) -> (next: LoginState)
        ensures
            exists|code: Seq<char>, now: int|
                is_generated_otp(code, is_production_env(config.env@)) && clock_can_show(now)
                    && next@ == #[trigger] self@.on_principal(found_view(found), code, now),
            (self@ matches LoginStateView::PrincipalLookup { mobile } && (found_view(
                found,
            ) matches Ok(Some(user)) && user.mobile == mobile && user.is_active())) ==> (
            next@ matches LoginStateView::OtpStore { user: stored } && (stored.mobile_token matches Some(
                code,
            ) && is_generated_otp(code, is_production_env(config.env@))
                && stored.mobile_token_expire_at is Some && stored.apart_from_otp()
                == found_view(found)->Ok_0->0.apart_from_otp())),
    {
        let code = generate_otp(config);
        let now = unix_now();
        self.on_principal_at(found, code, now)
    }

    /// Takes the answer of the repository to the storing of the code.
    pub fn on_otp_stored(self, stored: Result<(), RepositoryError>, production: bool) -> (next:
        LoginState)
        ensures
            next@ == self@.on_otp_stored(stored, production),
    {
        match self {
            LoginState::OtpStore { user } => {
                let mut user = user;
                match (stored, &user.mobile_token) {
                    (Ok(()), Some(code)) => {
                        if production {
                            let sms = SmsJob {
                                to: user.mobile.clone(),
                                body: otp_message_of(code.as_str()),
                            };
                            let email = match &user.email {
                                Some(email) => Some(
                                    EmailJob {
                                        to: email.clone(),
                                        subject: "Login OTP".to_owned(),
                                        body: otp_message_of(code.as_str()),
                                    },
                                ),
                                None => None,
                            };
                            LoginState::Dispatch {
                                identity: AuthUser::filter_db(&mut user),
                                sms: Some(sms),
                                email,
                            }
                        } else {
                            LoginState::OtpIssued { identity: AuthUser::filter_db(&mut user) }
                        }
                    },
                    _ => LoginState::Rejected { reason: Rejection::InternalError },
                }
            },
            other => other.unexpected(),
        }
    }

    /// Tries once to put the waiting messages on their queues.
    pub fn dispatch(
        self,
        sms_queue: &mut BoundedQueue<SmsJob>,
        email_queue: &mut BoundedQueue<EmailJob>,
    ) -> (next: LoginState)
        requires
            old(sms_queue)@.wf(),
            old(email_queue)@.wf(),
        ensures
            final(sms_queue)@.wf(),
            final(email_queue)@.wf(),
            dispatched(
                self,
                old(sms_queue)@,
                old(email_queue)@,
                next,
                final(sms_queue)@,
                final(email_queue)@,
            ),
    {
        match self {
            LoginState::Dispatch { identity, sms, email } => {
                match sms {
                    Some(job) => match sms_queue.enqueue(job) {
                        Ok(()) => {},
                        Err(QueueError::Closed(_)) => {
                            return LoginState::Rejected { reason: Rejection::InternalError };
                        },
                        Err(QueueError::Full(job)) => {
                            return LoginState::Dispatch { identity, sms: Some(job), email };
                        },
                    },
                    None => {},
                }
                match email {
                    Some(job) => match email_queue.enqueue(job) {
                        Ok(()) => {},
                        Err(QueueError::Closed(_)) => {
                            return LoginState::Rejected { reason: Rejection::InternalError };
                        },
                        Err(QueueError::Full(job)) => {
                            return LoginState::Dispatch { identity, sms: None, email: Some(job) };
                        },
                    },
                    None => {},
                }
                LoginState::OtpIssued { identity }
            },
            other => other.unexpected(),
        }
    }
}

} // verus!
