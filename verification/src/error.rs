//! How a request to the service fails.
use vstd::prelude::*;
use vstd::std_specs::convert::FromSpecImpl;

use crate::search::SearchError;

verus! {

/// Why a request is refused.
#[derive(Debug)]
pub enum ApiError {
    NotFound(String),
    BadRequest(String),
    Upstream(String),
}

/// What an `ApiError` says.
pub enum ApiErrorView {
    NotFound(Seq<char>),
    BadRequest(Seq<char>),
    Upstream(Seq<char>),
}

impl DeepView for ApiError {
    type V = ApiErrorView;

    open spec fn deep_view(&self) -> ApiErrorView {
        match self {
            ApiError::NotFound(message) => ApiErrorView::NotFound(message@),
            ApiError::BadRequest(message) => ApiErrorView::BadRequest(message@),
            ApiError::Upstream(message) => ApiErrorView::Upstream(message@),
        }
    }
}

/// The body of an error response.
#[derive(Debug)]
pub struct ErrorBody {
    pub error: String,
    pub message: String,
}

impl ApiErrorView {
    /// The HTTP status of the response.
    pub open spec fn status(self) -> u16 {
        match self {
            ApiErrorView::NotFound(_) => 404,
            ApiErrorView::BadRequest(_) => 400,
            ApiErrorView::Upstream(_) => 502,
        }
    }

    /// The name of the error in the response.
    pub open spec fn code(self) -> Seq<char> {
        match self {
            ApiErrorView::NotFound(_) => "not_found"@,
            ApiErrorView::BadRequest(_) => "bad_request"@,
            ApiErrorView::Upstream(_) => "upstream_error"@,
        }
    }

    /// What the response says in words.
    pub open spec fn message(self) -> Seq<char> {
        match self {
            ApiErrorView::NotFound(message) => message,
            ApiErrorView::BadRequest(message) => message,
            ApiErrorView::Upstream(message) => message,
        }
    }
}

impl FromSpecImpl<SearchError> for ApiError {
    open spec fn obeys_from_spec() -> bool {
        false
    }

    open spec fn from_spec(error: SearchError) -> ApiError {
        arbitrary()
    }
}

impl From<SearchError> for ApiError {
    fn from(error: SearchError) -> (r: Self)
        ensures
            r.deep_view() == ApiErrorView::Upstream(error.deep_view().text()),
    {
        ApiError::Upstream(error.to_string())
    }
}

impl ApiError {
    /// The status and the body of the response that an error is answered with.
    pub fn into_response(self) -> (r: (u16, ErrorBody))
        ensures
            r.0 == self.deep_view().status(),
            r.1.error@ == self.deep_view().code(),
            r.1.message@ == self.deep_view().message(),
    {
        match self {
            ApiError::NotFound(message) => (
                404,
                ErrorBody { error: "not_found".to_owned(), message },
            ),
            ApiError::BadRequest(message) => (
                400,
                ErrorBody { error: "bad_request".to_owned(), message },
            ),
            ApiError::Upstream(message) => (
                502,
                ErrorBody { error: "upstream_error".to_owned(), message },
            ),
        }
    }
}

} // verus!
