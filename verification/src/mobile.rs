use vstd::prelude::*;
use vstd::string::*;

use crate::config::{is_production_env, Config};
use crate::text::is_ascii_digit;

verus! {

/// The error of a mobile number that production mode does not accept.
#[derive(Debug, Clone, Copy, PartialEq, Eq, Structural)]
pub struct InvalidMobile {}

impl InvalidMobile {
    /// The message shown to the caller.
    pub fn message(&self) -> (text: String)
        ensures
            text@ == "Invalid mobile number. It must start with 05 and be 10 digits long."@,
    {
        "Invalid mobile number. It must start with 05 and be 10 digits long.".to_owned()
    }
}

/// A local mobile number: `05` and eight more digits.
pub open spec fn is_local_mobile(raw: Seq<char>) -> bool {
    &&& raw.len() == 10
    &&& raw[0] == '0'
    &&& raw[1] == '5'
    &&& forall|i: int| 2 <= i < 10 ==> is_ascii_digit(#[trigger] raw[i])
}

/// A local number in international form: the leading `0` gives way to the
/// country code `966`.
pub open spec fn international(raw: Seq<char>) -> Seq<char> {
    seq!['9', '6', '6'] + raw.subrange(1, raw.len() as int)
}

/// What normalizing `raw` gives: in production a local number in
/// international form, and an error for anything else; outside production
/// the input as it is.
pub open spec fn mobile_outcome(raw: Seq<char>, production: bool) -> Result<
    Seq<char>,
    InvalidMobile,
> {
    if !production {
        Ok(raw)
    } else if is_local_mobile(raw) {
        Ok(international(raw))
    } else {
        Err(InvalidMobile {  })
    }
}

/// The view of what normalizing returned.
pub open spec fn mobile_view(result: Result<String, InvalidMobile>) -> Result<
    Seq<char>,
    InvalidMobile,
> {
    match result {
        Ok(mobile) => Ok(mobile@),
        Err(e) => Err(e),
    }
}

/// Whether `mobile` is a local mobile number.
pub fn is_local_number(mobile: &str) -> (local: bool)
    ensures
        local == is_local_mobile(mobile@),
{
    if mobile.unicode_len() != 10 {
        return false;
    }
    if mobile.get_char(0) != '0' || mobile.get_char(1) != '5' {
        return false;
    }
    let mut i: usize = 2;
    while i < 10
        invariant
            2 <= i <= 10,
            mobile@.len() == 10,
            forall|j: int| 2 <= j < i ==> is_ascii_digit(#[trigger] mobile@[j]),
        decreases 10 - i,
    {
        let c = mobile.get_char(i);
        if !('0' <= c && c <= '9') {
            return false;
        }
        i = i + 1;
    }
    true
}

/// Normalizes a mobile number for the given mode.
pub fn normalize_mobile(mobile: &str, production: bool) -> (normal: Result<String, InvalidMobile>)
    ensures
        mobile_view(normal) == mobile_outcome(mobile@, production),
{
    if !production {
        return Ok(mobile.to_owned());
    }
    if !is_local_number(mobile) {
        return Err(InvalidMobile {  });
    }
    let mut normal = String::new();
    normal.push('9');
    normal.push('6');
    normal.push('6');
    normal.append(mobile.substring_char(1, 10));
    assert(normal@ =~= international(mobile@));
    Ok(normal)
}

/// Normalizes a mobile number for the mode that `config` selects.
pub fn validate_and_transform_mobile(config: &Config, mobile: &str) -> (normal: Result<
    String,
    InvalidMobile,
>)
    ensures
        mobile_view(normal) == mobile_outcome(mobile@, is_production_env(config.env@)),
{
    normalize_mobile(mobile, config.is_production())
}

/// Outside production every input passes through unchanged; in production
/// what is accepted comes out as `966`, `5` and the eight digits that were
/// given, twelve digits in all.
pub proof fn lemma_mobile_normal_form(raw: Seq<char>)
    ensures
        mobile_outcome(raw, false) == Ok::<Seq<char>, InvalidMobile>(raw),
        mobile_outcome(raw, true) matches Ok(normal) ==> {
            &&& normal.len() == 12
            &&& normal.subrange(0, 4) == seq!['9', '6', '6', '5']
            &&& normal.subrange(4, 12) == raw.subrange(2, 10)
            &&& forall|i: int| 0 <= i < 12 ==> is_ascii_digit(#[trigger] normal[i])
        },
{
    if is_local_mobile(raw) {
        let normal = international(raw);
        assert(normal.subrange(0, 4) =~= seq!['9', '6', '6', '5']);
        assert(normal.subrange(4, 12) =~= raw.subrange(2, 10));
        assert forall|i: int| 0 <= i < 12 implies is_ascii_digit(#[trigger] normal[i]) by {
            if i >= 4 {
                assert(normal[i] == raw[i - 2]);
            }
        }
    }
}

} // verus!
