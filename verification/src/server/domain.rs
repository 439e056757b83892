//! Users, posts and the errors of the domain.

use vstd::prelude::*;
use vstd::string::*;
use crate::bindings::ids::{format_uuid, uuid_text};
use crate::text::join;
use crate::time::UtcTime;

verus! {

/// Errors of the domain layer.
#[derive(Debug, PartialEq, Eq)]
pub enum DomainError {
    /// The user name is taken.
    UserAlreadyExists { username: String },
    /// No user of that name.
    UserNotFound { username: String },
    /// Name and password do not match.
    InvalidCredentials,
    /// The password cannot be used.
    InvalidPassword { reason: String },
    /// No post of that identifier.
    PostNotFound { post_id: u128 },
    /// The action is not allowed, such as changing another user's post.
    Forbidden { reason: String },
    /// The storage failed.
    RepositoryError(String),
    /// A token could not be made.
    TokenGenerationError(String),
    /// A token was not accepted.
    TokenValidationError(String),
}

/// The mathematical value of a [`DomainError`].
pub enum DomainErrorView {
    UserAlreadyExists { username: Seq<char> },
    UserNotFound { username: Seq<char> },
    InvalidCredentials,
    InvalidPassword { reason: Seq<char> },
    PostNotFound { post_id: u128 },
    Forbidden { reason: Seq<char> },
    RepositoryError(Seq<char>),
    TokenGenerationError(Seq<char>),
    TokenValidationError(Seq<char>),
}

impl View for DomainError {
    type V = DomainErrorView;

    open spec fn view(&self) -> DomainErrorView {
        match self {
            DomainError::UserAlreadyExists { username } => DomainErrorView::UserAlreadyExists {
                username: username@,
            },
            DomainError::UserNotFound { username } => DomainErrorView::UserNotFound {
                username: username@,
            },
            DomainError::InvalidCredentials => DomainErrorView::InvalidCredentials,
            DomainError::InvalidPassword { reason } => DomainErrorView::InvalidPassword {
                reason: reason@,
            },
            DomainError::PostNotFound { post_id } => DomainErrorView::PostNotFound {
                post_id: *post_id,
            },
            DomainError::Forbidden { reason } => DomainErrorView::Forbidden { reason: reason@ },
            DomainError::RepositoryError(detail) => DomainErrorView::RepositoryError(detail@),
            DomainError::TokenGenerationError(detail) => DomainErrorView::TokenGenerationError(
                detail@,
            ),
            DomainError::TokenValidationError(detail) => DomainErrorView::TokenValidationError(
                detail@,
            ),
        }
    }
}

impl DomainErrorView {
    /// The text shown for the error.
    pub open spec fn message(self) -> Seq<char> {
        match self {
            DomainErrorView::UserAlreadyExists { username } => "User already exists: "@ + username,
            DomainErrorView::UserNotFound { username } => "User not found: "@ + username,
            DomainErrorView::InvalidCredentials => "Invalid credentials"@,
            DomainErrorView::InvalidPassword { reason } => "Invalid password: "@ + reason,
            DomainErrorView::PostNotFound { post_id } => "Post not found: "@ + uuid_text(post_id),
            DomainErrorView::Forbidden { reason } => "Forbidden: "@ + reason,
            DomainErrorView::RepositoryError(detail) => "Repository error: "@ + detail,
            DomainErrorView::TokenGenerationError(detail) => "Token generation failed: "@ + detail,
            DomainErrorView::TokenValidationError(detail) => "Token validation failed: "@ + detail,
        }
    }
}

impl DomainError {
    /// The text shown for the error.
    pub fn message(&self) -> (text: String)
        ensures
            text@ == self@.message(),
    {
        match self {
            DomainError::UserAlreadyExists { username } => join(
                "User already exists: ",
                username.as_str(),
            ),
            DomainError::UserNotFound { username } => join("User not found: ", username.as_str()),
            DomainError::InvalidCredentials => String::from_str("Invalid credentials"),
            DomainError::InvalidPassword { reason } => join("Invalid password: ", reason.as_str()),
            DomainError::PostNotFound { post_id } => {
                let id = format_uuid(*post_id);
                join("Post not found: ", id.as_str())
            },
            DomainError::Forbidden { reason } => join("Forbidden: ", reason.as_str()),
            DomainError::RepositoryError(detail) => join("Repository error: ", detail.as_str()),
            DomainError::TokenGenerationError(detail) => join(
                "Token generation failed: ",
                detail.as_str(),
            ),
            DomainError::TokenValidationError(detail) => join(
                "Token validation failed: ",
                detail.as_str(),
            ),
        }
    }
}

/// What a failed database operation reports, as far as the domain reads it.
#[derive(Debug, PartialEq, Eq)]
pub enum StorageFailure {
    /// A row was expected and none came.
    RowNotFound,
    /// The database refused the statement; `code` is its error code and
    /// `text` its message.
    Database { code: Option<String>, text: String },
    /// Anything else, with its message.
    Other { text: String },
}

/// The domain error that a storage failure is reported as.
pub open spec fn storage_error(failure: StorageFailure) -> DomainErrorView {
    match failure {
        StorageFailure::RowNotFound => DomainErrorView::RepositoryError("Record not found"@),
        StorageFailure::Database { code, text } => if code matches Some(c) && c@ == "23505"@ {
            DomainErrorView::RepositoryError("Duplicate entry: constraint violation"@)
        } else if code matches Some(c) && c@ == "23503"@ {
            DomainErrorView::RepositoryError("Foreign key constraint violation"@)
        } else {
            DomainErrorView::RepositoryError("Database error: "@ + text@)
        },
        StorageFailure::Other { text } => DomainErrorView::RepositoryError(
            "Database operation failed: "@ + text@,
        ),
    }
}

fn code_is(code: &Option<String>, wanted: &str) -> (same: bool)
    ensures
        same == (*code matches Some(c) && c@ == wanted@),
{
    match code {
        Some(c) => *c == String::from_str(wanted),
        None => false,
    }
}

impl DomainError {
    /// Reports a storage failure as a domain error. The codes of a violated
    /// unique constraint and of a violated foreign key get messages of
    /// their own.
    pub fn from_storage(failure: StorageFailure) -> (error: DomainError)
        ensures
            error@ == storage_error(failure),
    {
        match failure {
            StorageFailure::RowNotFound => DomainError::RepositoryError(
                String::from_str("Record not found"),
            ),
            StorageFailure::Database { code, text } => {
                if code_is(&code, "23505") {
                    DomainError::RepositoryError(
                        String::from_str("Duplicate entry: constraint violation"),
                    )
                } else if code_is(&code, "23503") {
                    DomainError::RepositoryError(
                        String::from_str("Foreign key constraint violation"),
                    )
                } else {
                    DomainError::RepositoryError(join("Database error: ", text.as_str()))
                }
            },
            StorageFailure::Other { text } => DomainError::RepositoryError(
                join("Database operation failed: ", text.as_str()),
            ),
        }
    }
}

/// A post of the blog.
#[derive(Debug, PartialEq, Eq)]
pub struct Post {
    /// Value of the post's unique identifier.
    pub uuid: u128,
    pub title: String,
    pub content: String,
    /// Value of the author's unique identifier.
    pub author_id: u128,
    pub created_at: UtcTime,
    pub updated_at: UtcTime,
}

/// A user of the platform.
#[derive(Debug, PartialEq, Eq)]
pub struct User {
    /// Value of the user's unique identifier.
    pub id: u128,
    /// Unique name, used to log in and shown with posts.
    pub username: String,
    /// Unique e-mail address, also accepted at login.
    pub email: String,
    /// Argon2id hash of the password.
    pub password_hash: String,
    pub created_at: UtcTime,
}

impl User {
    /// A user with the given attributes.
    pub fn new(
        id: u128,
        username: String,
        email: String,
        password_hash: String,
        created_at: UtcTime,
    ) -> (user: Self)
        ensures
            user == (User { id, username, email, password_hash, created_at }),
    {
        User { id, username, email, password_hash, created_at }
    }
}

} // verus!
