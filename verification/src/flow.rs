use vstd::prelude::*;

use crate::login::{dispatched, login_email, login_sms, LoginState, LoginStateView};
use crate::jwt::{
    hs256_token, issued, lemma_verify_names_issued_subject, verify_outcome, TokenError,
};
use crate::mobile::{mobile_outcome, InvalidMobile};
use crate::model::{identity_of, profile_of, UserModelView};
use crate::otp::{OTP_SPENT_SECONDS_BACK, OTP_TTL_SECONDS};
use crate::queue::{EmailJob, EmailJobView, QueueView, SmsJob};
use crate::response::{Rejection, RepositoryError};
use crate::verify::{humantime_text, lookup_mobile, VerifyStateView, TOKEN_TTL_SECONDS};

verus! {

/// The email that carries `code` to a principal, if it has an address.
pub open spec fn login_email_for(user: UserModelView, code: Seq<char>) -> Option<EmailJobView> {
    match user.email {
        Some(email) => Some(login_email(email, code)),
        None => None,
    }
}

/// Sign-in of an active principal issues a code: if the mobile number
/// given normalizes to the number of an active principal, then the code
/// is stored with that principal, good for a minute; in production one
/// text message with the code is made ready for the principal's number,
/// and one email if and only if the principal has an address; outside
/// production nothing is sent and the code counts as issued at once. The
/// identity shown is the principal's, without the code.
pub proof fn lemma_login_issues_code(
    raw: Seq<char>,
    production: bool,
    user: UserModelView,
    code: Seq<char>,
    now: int,
)
    requires
        mobile_outcome(raw, production) == Ok::<Seq<char>, InvalidMobile>(user.mobile),
        user.is_active(),
        i64::MIN <= now && now + OTP_TTL_SECONDS <= i64::MAX,
    ensures
        ({
            let lookup = LoginStateView::Unauthenticated.on_request(raw, production);
            let store = lookup.on_principal(Ok(Some(user)), code, now);
            let sent = store.on_otp_stored(Ok(()), production);
            &&& lookup == LoginStateView::PrincipalLookup { mobile: user.mobile }
            &&& store == LoginStateView::OtpStore {
                user: user.with_otp(code, (now + OTP_TTL_SECONDS) as i64),
            }
            &&& production ==> sent == LoginStateView::Dispatch {
                identity: identity_of(user),
                sms: Some(login_sms(user.mobile, code)),
                email: login_email_for(user, code),
            }
            &&& !production ==> sent == LoginStateView::OtpIssued { identity: identity_of(user) }
        }),
{
}

/// Sign-in is refused where the rules say so: a number that production
/// does not accept as `InvalidMobile`, an unknown number as `NotFound`, an
/// inactive principal as `Forbidden`, and a failing repository as
/// `InternalError`.
pub proof fn lemma_login_refusals(
    raw: Seq<char>,
    production: bool,
    mobile: Seq<char>,
    user: UserModelView,
    code: Seq<char>,
    now: int,
)
    ensures
        mobile_outcome(raw, production) is Err ==> LoginStateView::Unauthenticated.on_request(
            raw,
            production,
        ) == (LoginStateView::Rejected { reason: Rejection::InvalidMobile }),
        (LoginStateView::PrincipalLookup { mobile }).on_principal(Ok(None), code, now) == (
        LoginStateView::Rejected { reason: Rejection::NotFound }),
        (LoginStateView::PrincipalLookup { mobile }).on_principal(
            Err(RepositoryError {  }),
            code,
            now,
        ) == (LoginStateView::Rejected { reason: Rejection::InternalError }),
        user.mobile == mobile && !user.is_active() ==> (LoginStateView::PrincipalLookup {
            mobile,
        }).on_principal(Ok(Some(user)), code, now) == (LoginStateView::Rejected {
            reason: Rejection::Forbidden,
        }),
        (LoginStateView::OtpStore { user }).on_otp_stored(Err(RepositoryError {  }), production)
            == (LoginStateView::Rejected { reason: Rejection::InternalError }),
{
}

/// A rejection is final, in sign-in and in verification: no later event
/// turns a request that was refused into one that is served.
pub proof fn lemma_refusal_is_final(
    reason: Rejection,
    raw: Seq<char>,
    otp: Seq<char>,
    production: bool,
    found: Result<Option<UserModelView>, RepositoryError>,
    now: int,
    stored: Result<(), RepositoryError>,
    cleared: Result<bool, RepositoryError>,
    token: Result<Seq<char>, TokenError>,
    expires_in: Seq<char>,
)
    ensures
        ({
            let refused = LoginStateView::Rejected { reason };
            &&& refused.on_request(raw, production) == refused
            &&& refused.on_principal(found, otp, now) == refused
            &&& refused.on_otp_stored(stored, production) == refused
        }),
        ({
            let refused = VerifyStateView::Rejected { reason };
            &&& refused.on_request(raw, otp, production) == refused
            &&& refused.on_principal(found, now) == refused
            &&& refused.on_otp_cleared(cleared, token, expires_in) == refused
        }),
{
}

/// Each message of a sign-in goes on its queue exactly once: where both
/// queues have a free slot, one attempt puts the text message at the tail
/// of its queue, the email, if there is one, at the tail of its own, and
/// the code counts as issued. Where the queue of text messages is full,
/// the attempt changes nothing, and the sign-in waits with both messages.
pub proof fn lemma_dispatch_enqueues_once(
    before: LoginState,
    sms_queue: QueueView<SmsJob>,
    email_queue: QueueView<EmailJob>,
    after: LoginState,
    sms_after: QueueView<SmsJob>,
    email_after: QueueView<EmailJob>,
)
    requires
        before matches LoginState::Dispatch { sms, .. } && sms is Some,
        dispatched(before, sms_queue, email_queue, after, sms_after, email_after),
    ensures
        sms_queue.accepts() && email_queue.accepts() ==> {
            &&& after@ is OtpIssued
            &&& sms_after.jobs == sms_queue.jobs.push(before->Dispatch_sms->0)
            &&& before->Dispatch_email matches Some(job) ==> email_after.jobs
                == email_queue.jobs.push(job)
            &&& before->Dispatch_email is None ==> email_after == email_queue
        },
        !sms_queue.closed && sms_queue.is_full() ==> {
            &&& after@ == before@
            &&& sms_after == sms_queue
            &&& email_after == email_queue
        },
{
}

/// A code that sign-in stored is good for one verification within its
/// minute: supplied for the principal's number no later than a minute
/// after it was stored, it is accepted, and the record is left without a
/// code, with an expiry before the attempt, and otherwise as it was; any
/// code supplied for that record afterwards is refused as `InvalidOtp`.
pub proof fn lemma_code_verifies_once(
    raw: Seq<char>,
    production: bool,
    user: UserModelView,
    code: Seq<char>,
    stored_at: int,
    tried_at: int,
    again: Seq<char>,
    again_at: int,
    token: Result<Seq<char>, TokenError>,
    expires_in: Seq<char>,
)
    requires
        lookup_mobile(raw, production) == user.mobile,
        i64::MIN <= stored_at && stored_at + OTP_TTL_SECONDS <= i64::MAX,
        i64::MIN <= tried_at - OTP_SPENT_SECONDS_BACK,
        tried_at <= stored_at + OTP_TTL_SECONDS,
        i64::MIN <= again_at - OTP_SPENT_SECONDS_BACK,
    ensures
        ({
            let stored = user.with_otp(code, (stored_at + OTP_TTL_SECONDS) as i64);
            let spent = stored.spent_at(tried_at);
            let first = VerifyStateView::Unauthenticated.on_request(raw, code, production).on_principal(
                Ok(Some(stored)),
                tried_at,
            );
            let second = VerifyStateView::Unauthenticated.on_request(
                raw,
                again,
                production,
            ).on_principal(Ok(Some(spent)), again_at);
            &&& first == VerifyStateView::OtpClear { user: spent, accepted: true }
            &&& spent.mobile_token is None
            &&& spent.mobile_token_expire_at matches Some(expiry) && expiry < tried_at
            &&& spent.apart_from_otp() == user.apart_from_otp()
            &&& second == VerifyStateView::OtpClear { user: spent.spent_at(again_at), accepted: false }
            &&& second.on_otp_cleared(Ok(true), token, expires_in) == VerifyStateView::Rejected {
                reason: Rejection::InvalidOtp,
            }
        }),
{
}

/// A code past its expiry is refused even if it is the right one, and so
/// is a wrong code within the time: the verification ends as `InvalidOtp`,
/// and the stored code is spent all the same.
pub proof fn lemma_stale_or_wrong_code_refused(
    mobile: Seq<char>,
    user: UserModelView,
    supplied: Seq<char>,
    tried_at: int,
    cleared: bool,
    token: Result<Seq<char>, TokenError>,
    expires_in: Seq<char>,
)
    requires
        user.mobile == mobile,
        !user.otp_accepts(supplied, tried_at),
        i64::MIN <= tried_at - OTP_SPENT_SECONDS_BACK,
    ensures
        ({
            let tried = (VerifyStateView::PrincipalLookup { mobile, otp: supplied }).on_principal(
                Ok(Some(user)),
                tried_at,
            );
            &&& tried == VerifyStateView::OtpClear { user: user.spent_at(tried_at), accepted: false }
            &&& tried.on_otp_cleared(Ok(cleared), token, expires_in) == VerifyStateView::Rejected {
                reason: Rejection::InvalidOtp,
            }
        }),
{
}

/// The right code signs its principal in: a principal with an id that
/// holds an unexpired code and supplies it under its own number comes out
/// of verification signed in, whenever the code was cleared by this
/// verification and a session's time fits behind the instant of issue. It
/// is handed the token that signs its id from that instant for a hundred
/// days, and its own profile, which holds no one-time code.
pub proof fn lemma_right_code_signs_in(
    raw: Seq<char>,
    production: bool,
    user: UserModelView,
    code: Seq<char>,
    tried_at: int,
    secret: Seq<char>,
    now: int,
)
    requires
        lookup_mobile(raw, production) == user.mobile,
        user.otp_accepts(code, tried_at),
        i64::MIN <= tried_at - OTP_SPENT_SECONDS_BACK,
        user.id.len() > 0,
        0 <= now,
        now + TOKEN_TTL_SECONDS <= i64::MAX,
    ensures
        VerifyStateView::Unauthenticated.on_request(raw, code, production).on_principal(
            Ok(Some(user)),
            tried_at,
        ).on_otp_cleared_at(Ok(true), secret, now) == (VerifyStateView::Verified {
            token: hs256_token(
                secret,
                (now + TOKEN_TTL_SECONDS) as u64,
                now as u64,
                user.id,
            ),
            token_expires_in: humantime_text(TOKEN_TTL_SECONDS as u64),
            profile: profile_of(user),
        }),
{
}

/// What a verification hands out belongs to the principal that was
/// verified: the profile is that principal's, without the one-time code,
/// and the token, checked at any instant of its hundred days, yields
/// claims that name the principal's id. That checking finds in a token
/// what signing put there is what `issued` says of it; every token that
/// [`crate::verify::VerifyState::on_otp_cleared_at`] hands out is issued.
pub proof fn lemma_verified_token_names_principal(
    secret: Seq<char>,
    user: UserModelView,
    now: int,
    later: int,
    token: Seq<char>,
)
    requires
        issued(secret, user.id, TOKEN_TTL_SECONDS as int, now, token),
        now <= later < now + TOKEN_TTL_SECONDS,
    ensures
        (VerifyStateView::OtpClear { user, accepted: true }).on_otp_cleared_at(
            Ok(true),
            secret,
            now,
        ) == (VerifyStateView::Verified {
            token,
            token_expires_in: humantime_text(TOKEN_TTL_SECONDS as u64),
            profile: profile_of(user),
        }),
        verify_outcome(secret, token, later) matches Ok(claims) && claims.id == user.id,
{
    lemma_verify_names_issued_subject(
        secret,
        user.id,
        TOKEN_TTL_SECONDS as int,
        now,
        later,
        token,
    );
}

} // verus!
