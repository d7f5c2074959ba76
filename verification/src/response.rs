use vstd::prelude::*;

use crate::mobile::InvalidMobile;

verus! {

/// One field of a request that did not pass validation, and why.
#[derive(Debug)]
pub struct ValidationErrorDetail {
    pub field: String,
    pub error: String,
}

pub struct ValidationErrorDetailView {
    pub field: Seq<char>,
    pub error: Seq<char>,
}

impl View for ValidationErrorDetail {
    type V = ValidationErrorDetailView;

    open spec fn view(&self) -> ValidationErrorDetailView {
        ValidationErrorDetailView { field: self.field@, error: self.error@ }
    }
}

/// The body of every error response: a status, a message for people, and
/// the fields that failed validation, if that is what went wrong.
#[derive(Debug)]
pub struct ApiResponseError {
    pub message: String,
    pub status: u16,
    pub validation_errors: Option<Vec<ValidationErrorDetail>>,
}

pub struct ApiResponseErrorView {
    pub message: Seq<char>,
    pub status: u16,
    pub validation_errors: Option<Seq<ValidationErrorDetailView>>,
}

/// The views of a list of details.
pub open spec fn details_view(details: Seq<ValidationErrorDetail>) -> Seq<
    ValidationErrorDetailView,
> {
    Seq::new(details.len(), |i: int| details[i]@)
}

impl View for ApiResponseError {
    type V = ApiResponseErrorView;

    open spec fn view(&self) -> ApiResponseErrorView {
        ApiResponseErrorView {
            message: self.message@,
            status: self.status,
            validation_errors: match self.validation_errors {
                Some(details) => Some(details_view(details@)),
                None => None,
            },
        }
    }
}

impl ApiResponseError {
    pub fn new(
        status: u16,
        message: String,
        validation_errors: Option<Vec<ValidationErrorDetail>>,
    ) -> (error: Self)
        ensures
            error.status == status,
            error.message == message,
            error.validation_errors == validation_errors,
    {
        ApiResponseError { status, message, validation_errors }
    }
}

/// The repository could not answer. What went wrong is logged where the
/// repository is called; the flows only need to know that it failed.
#[derive(Debug, Clone, Copy, PartialEq, Eq, Structural)]
pub struct RepositoryError {}

/// Why a request was turned away.
#[derive(Debug, Clone, Copy, PartialEq, Eq, Structural)]
pub enum Rejection {
    /// Neither the session cookie nor a bearer header carries a token.
    MissingToken,
    /// The token is not one of ours, or is malformed.
    Unauthorized,
    /// The token's time is over.
    Expired,
    /// The principal may not do this: wrong role, or not active.
    Forbidden,
    /// No principal has this mobile number.
    NotFound,
    /// No code is stored, or the code is wrong or past its expiry.
    InvalidOtp,
    /// The mobile number is not one that production mode accepts.
    InvalidMobile,
    /// The repository, a queue or a handler failed.
    InternalError,
}

/// The status code of a rejection.
pub open spec fn rejection_status(reason: Rejection) -> u16 {
    match reason {
        Rejection::MissingToken => 401,
        Rejection::Unauthorized => 401,
        Rejection::Expired => 401,
        Rejection::Forbidden => 403,
        Rejection::NotFound => 404,
        Rejection::InvalidOtp => 400,
        Rejection::InvalidMobile => 400,
        Rejection::InternalError => 500,
    }
}

/// The message of a rejection.
pub open spec fn rejection_message(reason: Rejection) -> Seq<char> {
    match reason {
        Rejection::MissingToken => "No token found"@,
        Rejection::Unauthorized => "Invalid token"@,
        Rejection::Expired => "Token is expired"@,
        Rejection::Forbidden => "Forbidden"@,
        Rejection::NotFound => "User not found"@,
        Rejection::InvalidOtp => "Invalid OTP"@,
        Rejection::InvalidMobile => "Validation Error"@,
        Rejection::InternalError => "Server Error"@,
    }
}

impl Rejection {
    pub fn status(&self) -> (status: u16)
        ensures
            status == rejection_status(*self),
            400 <= status <= 500,
    {
        match self {
            Rejection::MissingToken => 401,
            Rejection::Unauthorized => 401,
            Rejection::Expired => 401,
            Rejection::Forbidden => 403,
            Rejection::NotFound => 404,
            Rejection::InvalidOtp => 400,
            Rejection::InvalidMobile => 400,
            Rejection::InternalError => 500,
        }
    }

    pub fn message(&self) -> (message: &'static str)
        ensures
            message@ == rejection_message(*self),
    {
        match self {
            Rejection::MissingToken => "No token found",
            Rejection::Unauthorized => "Invalid token",
            Rejection::Expired => "Token is expired",
            Rejection::Forbidden => "Forbidden",
            Rejection::NotFound => "User not found",
            Rejection::InvalidOtp => "Invalid OTP",
            Rejection::InvalidMobile => "Validation Error",
            Rejection::InternalError => "Server Error",
        }
    }

    /// The error body of a rejection. A mobile number that was refused is
    /// reported as a validation error of the field `mobile`.
    pub fn to_response(&self) -> (error: ApiResponseError)
        ensures
            error.status == rejection_status(*self),
            error.message@ == rejection_message(*self),
            match error.validation_errors {
                Some(details) => *self == Rejection::InvalidMobile && details@.len() == 1
                    && details@[0].field@ == "mobile"@ && details@[0].error@
                    == "Invalid mobile number. It must start with 05 and be 10 digits long."@,
                None => *self != Rejection::InvalidMobile,
            },
    {
        let details = match self {
            Rejection::InvalidMobile => {
                let mut details: Vec<ValidationErrorDetail> = Vec::new();
                details.push(
                    ValidationErrorDetail {
                        field: "mobile".to_owned(),
                        error: InvalidMobile {  }.message(),
                    },
                );
                Some(details)
            },
            _ => None,
        };
        ApiResponseError::new(self.status(), self.message().to_owned(), details)
    }
}

/// One complaint of a validator about one field. A validator that gives
/// no reason leaves the message out.
#[derive(Debug)]
pub struct FieldError {
    pub field: String,
    pub message: Option<String>,
}

/// The detail that reports `error`: its message, or `Validation error`
/// where it has none.
pub open spec fn detail_of(error: FieldError) -> ValidationErrorDetailView {
    ValidationErrorDetailView {
        field: error.field@,
        error: match error.message {
            Some(message) => message@,
            None => "Validation error"@,
        },
    }
}

/// Turns what a validator found into the result of the request: nothing
/// where it found nothing, and otherwise an error of status 400 that lists
/// every complaint, in the order given.
pub fn validate_request(found: Result<(), Vec<FieldError>>) -> (checked: Result<
    (),
    ApiResponseError,
>)
    ensures
        match checked {
            Ok(()) => found is Ok,
            Err(error) => found matches Err(errors) && error.status == 400 && error.message@
                == "Validation Error"@ && error@.validation_errors == Some(
                Seq::new(errors@.len(), |i: int| detail_of(errors@[i])),
            ),
        },
{
    match found {
        Ok(()) => Ok(()),
        Err(errors) => {
            let mut details: Vec<ValidationErrorDetail> = Vec::new();
            let mut i: usize = 0;
            while i < errors.len()
                invariant
                    i <= errors.len(),
                    details@.len() == i,
                    forall|j: int| 0 <= j < i ==> (#[trigger] details@[j])@ == detail_of(errors@[j]),
                decreases errors.len() - i,
            {
                let error = match &errors[i].message {
                    Some(message) => message.clone(),
                    None => "Validation error".to_owned(),
                };
                details.push(ValidationErrorDetail { field: errors[i].field.clone(), error });
                i = i + 1;
            }
            let error = ApiResponseError::new(400, "Validation Error".to_owned(), Some(details));
            assert(error@.validation_errors->0 =~= Seq::new(
                errors@.len(),
                |i: int| detail_of(errors@[i]),
            ));
            Err(error)
        },
    }
}

/// Where a page of a listing stands among all its items.
#[derive(Debug, Clone, Copy, PartialEq, Eq, Structural)]
pub struct Pagination {
    pub total_items: i64,
    pub total_pages: i64,
    pub current_page: i64,
    pub per_page: i64,
}

/// The number of pages of `per_page` items that `total_items` items fill:
/// the quotient, rounded up.
pub open spec fn pages_needed(total_items: int, per_page: int) -> int
    recommends
        total_items >= 0,
        per_page > 0,
{
    (total_items + per_page - 1) / per_page
}

/// How many items stand before page `page` of a listing with `per_page`
/// items to a page. Pages are counted from one.
pub open spec fn items_before(page: int, per_page: int) -> int {
    (page - 1) * per_page
}

impl Pagination {
    /// The number of items to skip for page `page`. `None` where there is
    /// no such page, or the number does not fit.
    pub fn offset(page: i64, limit: i64) -> (offset: Option<i64>)
        ensures
            offset is Some <==> page >= 1 && limit >= 0 && items_before(page as int, limit as int)
                <= i64::MAX,
            offset matches Some(n) ==> n == items_before(page as int, limit as int),
    {
        if page < 1 || limit < 0 {
            return None;
        }
        (page - 1).checked_mul(limit)
    }

    /// The pagination of page `page` of a listing of `total_items` items,
    /// `limit` to a page. `None` where there can be no such listing: a
    /// negative count, or a page size that is not positive.
    pub fn of(total_items: i64, limit: i64, page: i64) -> (pagination: Option<Pagination>)
        ensures
            pagination is Some <==> total_items >= 0 && limit > 0,
            pagination matches Some(p) ==> p.total_items == total_items && p.per_page == limit
                && p.current_page == page && p.total_pages == pages_needed(
                total_items as int,
                limit as int,
            ) && (p.total_pages - 1) * limit < total_items <= p.total_pages * limit,
    {
        if total_items < 0 || limit <= 0 {
            return None;
        }
        let full = total_items / limit;
        let rest = total_items % limit;
        proof {
            let t = total_items as int;
            let l = limit as int;
            assert(t == l * (t / l) + t % l && 0 <= t % l < l) by (nonlinear_arith)
                requires
                    l > 0,
            ;
            assert(t % l != 0 ==> 2 * (t / l) <= t) by (nonlinear_arith)
                requires
                    l > 0,
                    t >= 0,
                    t == l * (t / l) + t % l,
                    0 <= t % l < l,
            ;
        }
        let total_pages = if rest == 0 {
            full
        } else {
            full + 1
        };
        proof {
            let t = total_items as int;
            let l = limit as int;
            assert(t == l * (t / l) + t % l) by (nonlinear_arith)
                requires
                    l > 0,
            ;
            assert(0 <= t % l < l) by (nonlinear_arith)
                requires
                    l > 0,
            ;
            assert(total_pages == (t + l - 1) / l) by (nonlinear_arith)
                requires
                    l > 0,
                    t == l * (t / l) + t % l,
                    0 <= t % l < l,
                    total_pages == if t % l == 0 {
                        t / l
                    } else {
                        t / l + 1
                    },
            ;
            assert((total_pages - 1) * l < t <= total_pages * l) by (nonlinear_arith)
                requires
                    l > 0,
                    t == l * (t / l) + t % l,
                    0 <= t % l < l,
                    total_pages == if t % l == 0 {
                        t / l
                    } else {
                        t / l + 1
                    },
            ;
        }
        Some(Pagination { total_items, total_pages, current_page: page, per_page: limit })
    }
}

} // verus!
