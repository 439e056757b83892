//! Errors a client operation can end with.

use vstd::prelude::*;
use vstd::string::*;

verus! {

/// Errors of the client when it talks to the platform.
#[derive(Debug, PartialEq, Eq)]
pub enum ClientError {
    /// The resource does not exist (HTTP 404).
    NotFound,
    /// The caller is not authenticated (HTTP 401).
    Unauthorized,
    /// The server refused the request as malformed (other HTTP 4xx).
    InvalidRequest(String),
    /// The server failed, or the client met data it cannot use.
    InternalError(String),
    /// The network or the protocol failed.
    TransportError(String),
    /// A token could not be decoded: its text or its claims are not what a
    /// token holds.
    DecodeError(String),
    /// The server turned a refresh down; the caller has to log in again.
    RefreshFailed(String),
}

/// The mathematical value of a [`ClientError`].
pub enum ClientErrorView {
    NotFound,
    Unauthorized,
    InvalidRequest(Seq<char>),
    InternalError(Seq<char>),
    TransportError(Seq<char>),
    DecodeError(Seq<char>),
    RefreshFailed(Seq<char>),
}

impl View for ClientError {
    type V = ClientErrorView;

    open spec fn view(&self) -> ClientErrorView {
        match self {
            ClientError::NotFound => ClientErrorView::NotFound,
            ClientError::Unauthorized => ClientErrorView::Unauthorized,
            ClientError::InvalidRequest(detail) => ClientErrorView::InvalidRequest(detail@),
            ClientError::InternalError(detail) => ClientErrorView::InternalError(detail@),
            ClientError::TransportError(detail) => ClientErrorView::TransportError(detail@),
            ClientError::DecodeError(detail) => ClientErrorView::DecodeError(detail@),
            ClientError::RefreshFailed(detail) => ClientErrorView::RefreshFailed(detail@),
        }
    }
}

impl Clone for ClientError {
    fn clone(&self) -> (copy: Self)
        ensures
            copy@ == self@,
    {
        match self {
            ClientError::NotFound => ClientError::NotFound,
            ClientError::Unauthorized => ClientError::Unauthorized,
            ClientError::InvalidRequest(detail) => ClientError::InvalidRequest(detail.clone()),
            ClientError::InternalError(detail) => ClientError::InternalError(detail.clone()),
            ClientError::TransportError(detail) => ClientError::TransportError(detail.clone()),
            ClientError::DecodeError(detail) => ClientError::DecodeError(detail.clone()),
            ClientError::RefreshFailed(detail) => ClientError::RefreshFailed(detail.clone()),
        }
    }
}

impl ClientErrorView {
    /// The text shown for the error.
    pub open spec fn message(self) -> Seq<char> {
        match self {
            ClientErrorView::NotFound => "Not Found"@,
            ClientErrorView::Unauthorized => "Unauthorized"@,
            ClientErrorView::InvalidRequest(detail) => "Invalid Request: "@ + detail,
            ClientErrorView::InternalError(detail) => "Internal Error: "@ + detail,
            ClientErrorView::TransportError(detail) => "Transport Error: "@ + detail,
            ClientErrorView::DecodeError(detail) => "Decode Error: "@ + detail,
            ClientErrorView::RefreshFailed(detail) => "Refresh Failed: "@ + detail,
        }
    }
}

impl ClientError {
    /// The text shown for the error.
    pub fn message(&self) -> (text: String)
        ensures
            text@ == self@.message(),
    {
        match self {
            ClientError::NotFound => String::from_str("Not Found"),
            ClientError::Unauthorized => String::from_str("Unauthorized"),
            ClientError::InvalidRequest(detail) => String::from_str("Invalid Request: ").concat(
                detail.as_str(),
            ),
            ClientError::InternalError(detail) => String::from_str("Internal Error: ").concat(
                detail.as_str(),
            ),
            ClientError::TransportError(detail) => String::from_str("Transport Error: ").concat(
                detail.as_str(),
            ),
            ClientError::DecodeError(detail) => String::from_str("Decode Error: ").concat(
                detail.as_str(),
            ),
            ClientError::RefreshFailed(detail) => String::from_str("Refresh Failed: ").concat(
                detail.as_str(),
            ),
        }
    }
}

} // verus!
