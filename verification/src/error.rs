use vstd::prelude::*;

verus! {

/// Errors produced by the service logic, each with the text shown to clients.
#[derive(Debug)]
pub enum ApiError {
    BadRequest(String),
    NotFound(String),
    Validation(String),
    Unauthorized(String),
    Database(String),
    Internal(String),
}

/// The mathematical view of an [`ApiError`]: its kind and its detail text.
pub enum ErrorView {
    BadRequest(Seq<char>),
    NotFound(Seq<char>),
    Validation(Seq<char>),
    Unauthorized(Seq<char>),
    Database(Seq<char>),
    Internal(Seq<char>),
}

impl View for ApiError {
    type V = ErrorView;

    open spec fn view(&self) -> ErrorView {
        match self {
            ApiError::BadRequest(m) => ErrorView::BadRequest(m@),
            ApiError::NotFound(m) => ErrorView::NotFound(m@),
            ApiError::Validation(m) => ErrorView::Validation(m@),
            ApiError::Unauthorized(m) => ErrorView::Unauthorized(m@),
            ApiError::Database(m) => ErrorView::Database(m@),
            ApiError::Internal(m) => ErrorView::Internal(m@),
        }
    }
}

/// HTTP status code of each error kind.
pub open spec fn status_of(e: ErrorView) -> u16 {
    match e {
        ErrorView::BadRequest(_) => 400,
        ErrorView::NotFound(_) => 404,
        ErrorView::Validation(_) => 422,
        ErrorView::Unauthorized(_) => 401,
        ErrorView::Database(_) => 500,
        ErrorView::Internal(_) => 500,
    }
}

impl ApiError {
    pub fn status_code(&self) -> (code: u16)
        ensures
            code == status_of(self@),
    {
        match self {
            ApiError::BadRequest(_) => 400,
            ApiError::NotFound(_) => 404,
            ApiError::Validation(_) => 422,
            ApiError::Unauthorized(_) => 401,
            ApiError::Database(_) => 500,
            ApiError::Internal(_) => 500,
        }
    }

    pub fn validation(msg: &str) -> (e: ApiError)
        ensures
            e@ == ErrorView::Validation(msg@),
    {
        ApiError::Validation(String::from_str(msg))
    }
}

} // verus!
