//! Errors as the REST interface reports them.

use vstd::prelude::*;
use vstd::string::*;
use crate::server::domain::{DomainError, DomainErrorView};
use crate::text::join;

verus! {

/// An error of the REST interface, with the message shown to the client.
#[derive(Debug, PartialEq, Eq)]
pub enum ApiError {
    BadRequest(String),
    Unauthorized(String),
    Forbidden(String),
    NotFound(String),
    InternalServerError(String),
}

/// The mathematical value of an [`ApiError`].
pub enum ApiErrorView {
    BadRequest(Seq<char>),
    Unauthorized(Seq<char>),
    Forbidden(Seq<char>),
    NotFound(Seq<char>),
    InternalServerError(Seq<char>),
}

impl View for ApiError {
    type V = ApiErrorView;

    open spec fn view(&self) -> ApiErrorView {
        match self {
            ApiError::BadRequest(message) => ApiErrorView::BadRequest(message@),
            ApiError::Unauthorized(message) => ApiErrorView::Unauthorized(message@),
            ApiError::Forbidden(message) => ApiErrorView::Forbidden(message@),
            ApiError::NotFound(message) => ApiErrorView::NotFound(message@),
            ApiError::InternalServerError(message) => ApiErrorView::InternalServerError(message@),
        }
    }
}

impl ApiErrorView {
    /// The HTTP status that the error is answered with.
    pub open spec fn status_code(self) -> u16 {
        match self {
            ApiErrorView::BadRequest(_) => 400,
            ApiErrorView::Unauthorized(_) => 401,
            ApiErrorView::Forbidden(_) => 403,
            ApiErrorView::NotFound(_) => 404,
            ApiErrorView::InternalServerError(_) => 500,
        }
    }

    /// The text shown for the error.
    pub open spec fn message(self) -> Seq<char> {
        match self {
            ApiErrorView::BadRequest(message) => "Bad request: "@ + message,
            ApiErrorView::Unauthorized(message) => "Unauthorized: "@ + message,
            ApiErrorView::Forbidden(message) => "Forbidden: "@ + message,
            ApiErrorView::NotFound(message) => "Not found: "@ + message,
            ApiErrorView::InternalServerError(message) => "Internal server error: "@ + message,
        }
    }

    /// The REST error that a domain error is answered with. The message is
    /// the text of the domain error.
    pub open spec fn of_domain(error: DomainErrorView) -> ApiErrorView {
        match error {
            DomainErrorView::UserAlreadyExists { .. } => ApiErrorView::BadRequest(error.message()),
            DomainErrorView::UserNotFound { .. } => ApiErrorView::NotFound(error.message()),
            DomainErrorView::InvalidCredentials => ApiErrorView::Unauthorized(error.message()),
            DomainErrorView::InvalidPassword { .. } => ApiErrorView::BadRequest(error.message()),
            DomainErrorView::PostNotFound { .. } => ApiErrorView::NotFound(error.message()),
            DomainErrorView::Forbidden { .. } => ApiErrorView::Forbidden(error.message()),
            DomainErrorView::RepositoryError(_) => ApiErrorView::InternalServerError(
                error.message(),
            ),
            DomainErrorView::TokenGenerationError(_) => ApiErrorView::InternalServerError(
                error.message(),
            ),
            DomainErrorView::TokenValidationError(_) => ApiErrorView::Unauthorized(
                error.message(),
            ),
        }
    }
}

impl ApiError {
    pub fn bad_request(message: String) -> (error: Self)
        ensures
            error == ApiError::BadRequest(message),
    {
        ApiError::BadRequest(message)
    }

    pub fn unauthorized(message: String) -> (error: Self)
        ensures
            error == ApiError::Unauthorized(message),
    {
        ApiError::Unauthorized(message)
    }

    pub fn forbidden(message: String) -> (error: Self)
        ensures
            error == ApiError::Forbidden(message),
    {
        ApiError::Forbidden(message)
    }

    pub fn not_found(message: String) -> (error: Self)
        ensures
            error == ApiError::NotFound(message),
    {
        ApiError::NotFound(message)
    }

    pub fn internal_server_error(message: String) -> (error: Self)
        ensures
            error == ApiError::InternalServerError(message),
    {
        ApiError::InternalServerError(message)
    }

    /// The HTTP status that the error is answered with.
    pub fn status_code(&self) -> (status: u16)
        ensures
            status == self@.status_code(),
    {
        match self {
            ApiError::BadRequest(_) => 400,
            ApiError::Unauthorized(_) => 401,
            ApiError::Forbidden(_) => 403,
            ApiError::NotFound(_) => 404,
            ApiError::InternalServerError(_) => 500,
        }
    }

    /// The text shown for the error.
    pub fn message(&self) -> (text: String)
        ensures
            text@ == self@.message(),
    {
        match self {
            ApiError::BadRequest(message) => join("Bad request: ", message.as_str()),
            ApiError::Unauthorized(message) => join("Unauthorized: ", message.as_str()),
            ApiError::Forbidden(message) => join("Forbidden: ", message.as_str()),
            ApiError::NotFound(message) => join("Not found: ", message.as_str()),
            ApiError::InternalServerError(message) => join(
                "Internal server error: ",
                message.as_str(),
            ),
        }
    }
}

impl ApiError {
    /// The REST error that a domain error is answered with.
    pub fn from(err: DomainError) -> (error: Self)
        ensures
            error@ == ApiErrorView::of_domain(err@),
    {
        let message = err.message();
        match err {
            DomainError::UserAlreadyExists { .. } => ApiError::bad_request(message),
            DomainError::UserNotFound { .. } => ApiError::not_found(message),
            DomainError::InvalidCredentials => ApiError::unauthorized(message),
            DomainError::InvalidPassword { .. } => ApiError::bad_request(message),
            DomainError::PostNotFound { .. } => ApiError::not_found(message),
            DomainError::Forbidden { .. } => ApiError::forbidden(message),
            DomainError::RepositoryError(_) => ApiError::internal_server_error(message),
            DomainError::TokenGenerationError(_) => ApiError::internal_server_error(message),
            DomainError::TokenValidationError(_) => ApiError::unauthorized(message),
        }
    }
}

} // verus!
