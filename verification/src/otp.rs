use vstd::prelude::*;

use crate::config::{is_production_env, Config};
use crate::model::{UserModel, UserModelView};
use crate::text::{
    all_digits, decimal, decimal_value, lemma_decimal_digits, lemma_decimal_six_digits, same_text,
    u32_to_decimal,
};

verus! {

/// The smallest and the largest number of a production code.
pub const OTP_MIN: u32 = 100000;

pub const OTP_MAX: u32 = 999999;

/// How long a stored code is good for, in seconds.
pub const OTP_TTL_SECONDS: i64 = 60;

/// How far before an attempt the expiry of the spent code is set, in
/// seconds.
pub const OTP_SPENT_SECONDS_BACK: i64 = 3600;

/// The code of every mode but production.
pub open spec fn fixed_otp() -> Seq<char> {
    seq!['1', '2', '3', '4', '5']
}

/// Whether `code` is a code that the given mode may generate: outside
/// production the fixed code; in production the numeral of a number from
/// `OTP_MIN` to `OTP_MAX`, both included.
pub open spec fn is_generated_otp(code: Seq<char>, production: bool) -> bool {
    if production {
        exists|n: nat| OTP_MIN <= n <= OTP_MAX && code == #[trigger] decimal(n)
    } else {
        code == fixed_otp()
    }
}

/// Draws a number from `low` to `high`, both included, from the thread's
/// generator: `rand::thread_rng` sampled through
/// `Uniform::new_inclusive`, which refuses `low > high`. Trusted: the
/// number lies in the range. Which number it is depends on chance.
#[verifier::external_body]
fn sample_inclusive(low: u32, high: u32) -> (n: u32)
    requires
        low <= high,
    ensures
        low <= n <= high,
{
    rand::Rng::sample(&mut rand::thread_rng(), rand::distributions::Uniform::new_inclusive(low, high))
}

/// The code for a number that was drawn: its decimal numeral, which is
/// made of digits only and reads as that number again.
pub fn otp_of_number(n: u32) -> (code: String)
    ensures
        code@ == decimal(n as nat),
        all_digits(code@),
        decimal_value(code@) == n,
        OTP_MIN <= n <= OTP_MAX ==> code@.len() == 6 && is_generated_otp(code@, true),
{
    proof {
        lemma_decimal_digits(n as nat);
        if OTP_MIN <= n <= OTP_MAX {
            lemma_decimal_six_digits(n as nat);
        }
    }
    u32_to_decimal(n)
}

/// The fixed code.
pub fn fixed_code() -> (code: String)
    ensures
        code@ == fixed_otp(),
{
    let mut code = String::new();
    code.push('1');
    code.push('2');
    code.push('3');
    code.push('4');
    code.push('5');
    assert(code@ =~= fixed_otp());
    code
}

/// A fresh one-time code: the fixed code outside production, a random
/// number of six digits in production.
pub fn generate_otp(config: &Config) -> (code: String)
    ensures
        is_generated_otp(code@, is_production_env(config.env@)),
        is_production_env(config.env@) ==> code@.len() == 6 && all_digits(code@) && OTP_MIN
            <= decimal_value(code@) <= OTP_MAX,
{
    if config.is_production() {
        otp_of_number(sample_inclusive(OTP_MIN, OTP_MAX))
    } else {
        fixed_code()
    }
}

impl UserModelView {
    /// Whether the stored code admits `supplied` at `now`: a code is
    /// stored, it is not past its expiry, and it is the one supplied.
    pub open spec fn otp_accepts(self, supplied: Seq<char>, now: int) -> bool {
        &&& self.mobile_token == Some(supplied)
        &&& self.mobile_token_expire_at matches Some(expires_at) && now <= expires_at
    }

    /// The record with `code` stored until `expires_at`.
    pub open spec fn with_otp(self, code: Seq<char>, expires_at: i64) -> UserModelView {
        UserModelView {
            mobile_token: Some(code),
            mobile_token_expire_at: Some(expires_at),
            ..self
        }
    }

    /// The record after an attempt at `now`: the code is gone, and the
    /// expiry lies an hour before the attempt.
    pub open spec fn spent_at(self, now: int) -> UserModelView {
        UserModelView {
            mobile_token: None,
            mobile_token_expire_at: Some((now - OTP_SPENT_SECONDS_BACK) as i64),
            ..self
        }
    }

    /// The record with code and expiry left out: what storing and
    /// spending a code never change.
    pub open spec fn apart_from_otp(self) -> UserModelView {
        UserModelView { mobile_token: None, mobile_token_expire_at: None, ..self }
    }
}

impl UserModel {
    /// Stores `code`, good for `ttl` seconds from `now`. It takes the
    /// place of any code stored before.
    pub fn store_otp(&mut self, code: String, ttl: i64, now: i64)
        requires
            i64::MIN <= now + ttl <= i64::MAX,
        ensures
            final(self)@ == old(self)@.with_otp(code@, (now + ttl) as i64),
    {
        self.mobile_token = Some(code);
        self.mobile_token_expire_at = Some(now + ttl);
    }

    /// Tries `supplied` against the stored code at `now`, and spends the
    /// stored code whether or not it matched: afterwards the record holds
    /// no code, its expiry lies an hour before `now`, and nothing else has
    /// changed. The instant must leave room for that hour.
    pub fn consume_otp(&mut self, supplied: &str, now: i64) -> (accepted: bool)
        requires
            i64::MIN <= now - OTP_SPENT_SECONDS_BACK,
        ensures
            accepted == old(self)@.otp_accepts(supplied@, now as int),
            final(self)@ == old(self)@.spent_at(now as int),
            final(self)@.mobile_token is None,
            final(self)@.mobile_token_expire_at matches Some(expiry) && expiry < now,
            final(self)@.apart_from_otp() == old(self)@.apart_from_otp(),
    {
        let matches = match &self.mobile_token {
            Some(code) => same_text(code.as_str(), supplied),
            None => false,
        };
        let in_time = match self.mobile_token_expire_at {
            Some(expires_at) => now <= expires_at,
            None => false,
        };
        self.mobile_token = None;
        self.mobile_token_expire_at = Some(now - OTP_SPENT_SECONDS_BACK);
        matches && in_time
    }
}

/// A code is good for one use: once a record has been through an attempt,
/// with whatever code, it admits no code at all, at whatever instant. It
/// holds no code, its expiry lies before the attempt, and it is otherwise
/// as it was.
pub proof fn lemma_otp_single_use(user: UserModelView, now: i64, supplied: Seq<char>, later: int)
    requires
        i64::MIN <= now - OTP_SPENT_SECONDS_BACK,
    ensures
        !user.spent_at(now as int).otp_accepts(supplied, later),
        user.spent_at(now as int).mobile_token is None,
        user.spent_at(now as int).mobile_token_expire_at matches Some(expiry) && expiry < now,
        user.spent_at(now as int).apart_from_otp() == user.apart_from_otp(),
{
}

/// A stored code is admitted from the moment it is stored up to its
/// expiry, and no longer: past the expiry even the right code is refused,
/// and within it only the right code is admitted.
pub proof fn lemma_otp_expiry(
    user: UserModelView,
    code: Seq<char>,
    expires_at: i64,
    supplied: Seq<char>,
    now: int,
)
    ensures
        user.with_otp(code, expires_at).otp_accepts(supplied, now) <==> supplied == code && now
            <= expires_at,
{
}

} // verus!
