//! How a failed request is answered.
use vstd::prelude::*;

use crate::pool::{
    numbered, numbered_text, transition_message, transition_text, vm_message, vm_text, PoolError,
    PoolErrorView,
};

verus! {

/// Why a request of a client failed.
#[derive(Debug)]
pub enum ApiError {
    Validation { field: Option<String>, error: String },
    NotFound(String),
    Conflict(String),
    PoolExhausted(String),
    Backend(String),
}

/// An `ApiError` with its texts as sequences of characters.
pub enum ApiErrorView {
    Validation { field: Option<Seq<char>>, error: Seq<char> },
    NotFound(Seq<char>),
    Conflict(Seq<char>),
    PoolExhausted(Seq<char>),
    Backend(Seq<char>),
}

/// The characters of an optional text.
pub open spec fn opt_text(s: Option<String>) -> Option<Seq<char>> {
    match s {
        Some(t) => Some(t@),
        None => None,
    }
}

impl View for ApiError {
    type V = ApiErrorView;

    open spec fn view(&self) -> ApiErrorView {
        match *self {
            ApiError::Validation { field, error } => ApiErrorView::Validation {
                field: opt_text(field),
                error: error@,
            },
            ApiError::NotFound(error) => ApiErrorView::NotFound(error@),
            ApiError::Conflict(error) => ApiErrorView::Conflict(error@),
            ApiError::PoolExhausted(error) => ApiErrorView::PoolExhausted(error@),
            ApiError::Backend(error) => ApiErrorView::Backend(error@),
        }
    }
}

/// The outcome of a request, with the error by its view.
pub open spec fn api_outcome<T>(r: Result<T, ApiError>) -> Result<T, ApiErrorView> {
    match r {
        Ok(v) => Ok(v),
        Err(e) => Err(e@),
    }
}

/// How a failure of the pool is shown to a client.
pub open spec fn api_error_of(e: PoolErrorView) -> ApiErrorView {
    match e {
        PoolErrorView::SlotNotFound(slot) => ApiErrorView::NotFound(
            numbered("slot "@, slot as nat, " does not exist"@),
        ),
        PoolErrorView::VmNotFound(name) => ApiErrorView::NotFound(vm_message(name, " not found"@)),
        PoolErrorView::VmAlreadyRunning(name) => ApiErrorView::Conflict(
            vm_message(name, " is already running"@),
        ),
        PoolErrorView::NoAvailableSlot => ApiErrorView::PoolExhausted("pool exhausted"@),
        PoolErrorView::InvalidTransition { slot, from, action } => ApiErrorView::Conflict(
            transition_message(slot, from, action),
        ),
        PoolErrorView::ChannelClosed => ApiErrorView::Backend("slot worker channel is closed"@),
        PoolErrorView::Backend(error) => ApiErrorView::Backend(error),
    }
}

/// The body of an error response.
#[derive(Debug)]
pub struct ErrorResponse {
    pub error: String,
    pub field: Option<String>,
}

/// The HTTP status with which an error is answered.
pub open spec fn http_status(e: ApiErrorView) -> u16 {
    match e {
        ApiErrorView::Validation { .. } => 400,
        ApiErrorView::NotFound(_) => 404,
        ApiErrorView::Conflict(_) => 409,
        ApiErrorView::PoolExhausted(_) => 503,
        ApiErrorView::Backend(_) => 500,
    }
}

/// The text of an error.
pub open spec fn error_text(e: ApiErrorView) -> Seq<char> {
    match e {
        ApiErrorView::Validation { error, .. } => error,
        ApiErrorView::NotFound(error) => error,
        ApiErrorView::Conflict(error) => error,
        ApiErrorView::PoolExhausted(error) => error,
        ApiErrorView::Backend(error) => error,
    }
}

/// The request field that an error is about.
pub open spec fn error_field(e: ApiErrorView) -> Option<Seq<char>> {
    match e {
        ApiErrorView::Validation { field, .. } => field,
        _ => None,
    }
}

impl ApiError {
    /// Shows a failure of the pool to a client.
    pub fn from(error: PoolError) -> (r: ApiError)
        ensures
            r@ == api_error_of(error@),
    {
        match error {
            PoolError::SlotNotFound(slot) => ApiError::NotFound(
                numbered_text("slot ", slot as u64, " does not exist"),
            ),
            PoolError::VmNotFound(name) => ApiError::NotFound(vm_text(name.as_str(), " not found")),
            PoolError::VmAlreadyRunning(name) => ApiError::Conflict(
                vm_text(name.as_str(), " is already running"),
            ),
            PoolError::NoAvailableSlot => ApiError::PoolExhausted("pool exhausted".to_owned()),
            PoolError::InvalidTransition { slot, from, action } => ApiError::Conflict(
                transition_text(slot, from, action),
            ),
            PoolError::ChannelClosed => ApiError::Backend(
                "slot worker channel is closed".to_owned(),
            ),
            PoolError::Backend(error) => ApiError::Backend(error),
        }
    }

    /// The status and body with which the error is answered.
    pub fn into_response(self) -> (r: (u16, ErrorResponse))
        ensures
            r.0 == http_status(self@),
            r.1.error@ == error_text(self@),
            opt_text(r.1.field) == error_field(self@),
    {
        match self {
            ApiError::Validation { field, error } => (400, ErrorResponse { error, field }),
            ApiError::NotFound(error) => (404, ErrorResponse { error, field: None }),
            ApiError::Conflict(error) => (409, ErrorResponse { error, field: None }),
            ApiError::PoolExhausted(error) => (503, ErrorResponse { error, field: None }),
            ApiError::Backend(error) => (500, ErrorResponse { error, field: None }),
        }
    }
}

/// No error is answered as if the request had succeeded, and only a rejected field is named.
pub proof fn law_errors_are_answered_as_failures(e: ApiErrorView)
    ensures
        400 <= http_status(e) < 600,
        error_field(e) is Some ==> http_status(e) == 400,
{
}

} // verus!
