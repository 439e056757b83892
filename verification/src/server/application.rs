//! The rules of the use cases: what a registration, a login, a refresh and
//! a change to a post come to, once the storage has said what it holds.

use vstd::prelude::*;
use vstd::string::*;
use crate::bindings::clock::unix_now;
use crate::bindings::ids::{format_uuid, new_uuid_v7, uuid_text};
use crate::bindings::password::argon2_accepts;
use crate::server::auth_service::{
    carried_by,
    issued_token,
    AuthService,
    Claims,
    REFRESH_TOKEN_LIFETIME_SECONDS,
};
use crate::server::domain::{DomainError, DomainErrorView, Post, User};
use crate::server::dto::{CreatePostDto, LoginDto, PostDto, RegisterDto, TokenDto, UpdatePostDto};
use crate::time::UtcTime;

verus! {

/// Lifetime in seconds that a login reports for its access token: one day.
pub const REPORTED_LIFETIME_SECONDS: i64 = 86400;

/// The error for a token that could not be made.
pub open spec fn encoding_failed() -> DomainErrorView {
    DomainErrorView::TokenGenerationError("Failed to encode token"@)
}

/// Whether `result` is the pair of tokens issued at the instant `now` to
/// the given user, or the error where one of the two cannot be made.
pub open spec fn tokens_issued(
    service: AuthService,
    user_id: Seq<char>,
    user_name: Seq<char>,
    now: i64,
    result: Result<TokenDto, DomainError>,
) -> bool {
    match (
        issued_token(user_id, user_name, now, service.token_lifetime(), service.signing_secret()),
        issued_token(
            user_id,
            user_name,
            now,
            REFRESH_TOKEN_LIFETIME_SECONDS,
            service.signing_secret(),
        ),
    ) {
        (Some(access), Some(refresh)) => {
            &&& result matches Ok(tokens)
            &&& tokens.access_token@ == access
            &&& tokens.refresh_token@ == refresh
            &&& tokens.expires_in == REPORTED_LIFETIME_SECONDS
        },
        _ => result matches Err(error) && error@ == encoding_failed(),
    }
}

/// Whether `result` is what a login comes to at the instant `now`, where
/// `found` is the user that the storage holds under the given name.
pub open spec fn logged_in(
    service: AuthService,
    username: Seq<char>,
    password: Seq<char>,
    found: Option<User>,
    now: i64,
    result: Result<TokenDto, DomainError>,
) -> bool {
    match found {
        None => result matches Err(error) && error@ == (DomainErrorView::UserNotFound {
            username,
        }),
        Some(user) => if !argon2_accepts(password, user.password_hash@) {
            result matches Err(error) && error@ == DomainErrorView::InvalidCredentials
        } else {
            tokens_issued(service, uuid_text(user.id), user.username@, now, result)
        },
    }
}

/// The error for a refresh token that does not pass the check.
pub open spec fn refresh_refused() -> DomainErrorView {
    DomainErrorView::TokenValidationError("Invalid refresh token"@)
}

/// Whether `result` is what a refresh comes to at the instant `now`, where
/// `verified` is the outcome of the check of the token presented: the
/// refusal for a token that did not pass, a new pair for the user named by
/// the claims of one that passed.
pub open spec fn refresh_answered(
    service: AuthService,
    verified: Option<Claims>,
    now: i64,
    result: Result<TokenDto, DomainError>,
) -> bool {
    match verified {
        None => result matches Err(error) && error@ == refresh_refused(),
        Some(claims) => tokens_issued(service, claims.sub@, claims.user_name@, now, result),
    }
}

/// Whether `verified` can be the outcome of the check of `token`: claims
/// that come out of the check are those the token carries. A token whose
/// payload does not decode, or lacks a claim, can therefore not pass.
pub open spec fn checked(verified: Option<Claims>, token: Seq<char>) -> bool {
    match verified {
        Some(claims) => carried_by(claims, token),
        None => true,
    }
}

/// Whether `result` is what the exchange of the refresh token `token` comes
/// to at the instant `now`, for some outcome of the token's check.
pub open spec fn refresh_exchanged(
    service: AuthService,
    token: Seq<char>,
    now: i64,
    result: Result<TokenDto, DomainError>,
) -> bool {
    exists|verified: Option<Claims>|
        checked(verified, token) && #[trigger] refresh_answered(service, verified, now, result)
}

/// Registration, login and refresh.
pub struct AuthApplication {
    auth_service: AuthService,
}

impl AuthApplication {
    /// The service that hashes passwords and issues tokens.
    pub closed spec fn service(&self) -> AuthService {
        self.auth_service
    }

    pub fn new(auth_service: AuthService) -> (application: Self)
        ensures
            application.service() == auth_service,
    {
        AuthApplication { auth_service }
    }

    /// The service that hashes passwords and issues tokens.
    pub fn auth_service(&self) -> (service: &AuthService)
        ensures
            *service == self.service(),
    {
        &self.auth_service
    }

    fn issue_tokens(&self, user_id: &str, user_name: &str, now: i64) -> (result: Result<
        TokenDto,
        DomainError,
    >)
        ensures
            tokens_issued(self.service(), user_id@, user_name@, now, result),
    {
        let access_token = self.auth_service.generate_token_at(user_id, user_name, now);
        let refresh_token = self.auth_service.generate_refresh_token_at(user_id, user_name, now);
        match (access_token, refresh_token) {
            (Some(access_token), Some(refresh_token)) => Ok(
                TokenDto { access_token, refresh_token, expires_in: REPORTED_LIFETIME_SECONDS },
            ),
            _ => Err(DomainError::TokenGenerationError(String::from_str("Failed to encode token"))),
        }
    }

    /// The user to store for a registration, with the identifier `id` and
    /// created at `now`. `username_taken` is what the storage answered when
    /// asked whether the name or address is in use.
    ///
    /// A name in use is refused before the password is looked at. The user
    /// carries a hash that accepts the password.
    pub fn create_user_at(&self, dto: RegisterDto, username_taken: bool, id: u128, now: UtcTime) -> (result:
        Result<User, DomainError>)
        ensures
            username_taken ==> (result matches Err(error) && error@
                == (DomainErrorView::UserAlreadyExists { username: dto.username@ })),
            !username_taken ==> match result {
                Ok(user) => {
                    &&& user.id == id
                    &&& user.username@ == dto.username@
                    &&& user.email@ == dto.email@
                    &&& user.created_at == now
                    &&& argon2_accepts(dto.password@, user.password_hash@)
                },
                Err(error) => error@ is InvalidPassword,
            },
    {
        if username_taken {
            return Err(DomainError::UserAlreadyExists { username: dto.username });
        }
        match self.auth_service.hash_password(dto.password.as_str()) {
            Err(reason) => Err(DomainError::InvalidPassword { reason }),
            Ok(password_hash) => Ok(User::new(id, dto.username, dto.email, password_hash, now)),
        }
    }

    /// The user to store for a registration, with a new identifier and the
    /// current time as its creation.
    pub fn create_user(&self, dto: RegisterDto, username_taken: bool) -> (result: Result<
        User,
        DomainError,
    >)
        ensures
            username_taken ==> (result matches Err(error) && error@
                == (DomainErrorView::UserAlreadyExists { username: dto.username@ })),
            !username_taken ==> match result {
                Ok(user) => {
                    &&& user.username@ == dto.username@
                    &&& user.email@ == dto.email@
                    &&& user.created_at.on_calendar()
                    &&& argon2_accepts(dto.password@, user.password_hash@)
                },
                Err(error) => error@ is InvalidPassword,
            },
    {
        if username_taken {
            return Err(DomainError::UserAlreadyExists { username: dto.username });
        }
        let id = new_uuid_v7();
        let now = UtcTime::now();
        self.create_user_at(dto, false, id, now)
    }

    /// What a login comes to at the instant `now`; `found` is the user that
    /// the storage holds under the name given.
    pub fn login_at(&self, dto: LoginDto, found: Option<User>, now: i64) -> (result: Result<
        TokenDto,
        DomainError,
    >)
        ensures
            logged_in(self.service(), dto.username@, dto.password@, found, now, result),
    {
        let user = match found {
            Some(user) => user,
            None => return Err(DomainError::UserNotFound { username: dto.username }),
        };
        if !self.auth_service.verify_password(dto.password.as_str(), user.password_hash.as_str()) {
            return Err(DomainError::InvalidCredentials);
        }
        let user_id = format_uuid(user.id);
        self.issue_tokens(user_id.as_str(), user.username.as_str(), now)
    }

    /// What a login comes to now.
    pub fn login(&self, dto: LoginDto, found: Option<User>) -> (result: Result<
        TokenDto,
        DomainError,
    >)
        ensures
            exists|now: i64|
                now >= 0 && #[trigger] logged_in(
                    self.service(),
                    dto.username@,
                    dto.password@,
                    found,
                    now,
                    result,
                ),
    {
        let now = unix_now();
        self.login_at(dto, found, now)
    }

    /// What a refresh comes to at the instant `now`, given the outcome of the
    /// check of the token presented: a token that did not pass is refused,
    /// one that passed buys a new pair for the user it names.
    pub fn refreshed(&self, verified: Option<Claims>, now: i64) -> (result: Result<
        TokenDto,
        DomainError,
    >)
        ensures
            refresh_answered(self.service(), verified, now, result),
    {
        match verified {
            None => Err(
                DomainError::TokenValidationError(String::from_str("Invalid refresh token")),
            ),
            Some(claims) => self.issue_tokens(claims.sub.as_str(), claims.user_name.as_str(), now),
        }
    }

    /// Exchanges a refresh token for a new pair of tokens issued at the
    /// instant `now`. A token that does not pass the check is refused; the
    /// new pair is issued to the user that the token names.
    pub fn refresh_token_at(&self, refresh_token: String, now: i64) -> (result: Result<
        TokenDto,
        DomainError,
    >)
        ensures
            refresh_exchanged(self.service(), refresh_token@, now, result),
    {
        let verified = self.auth_service.verify_token(refresh_token.as_str());
        let ghost outcome = verified;
        let result = self.refreshed(verified, now);
        assert(checked(outcome, refresh_token@) && refresh_answered(
            self.service(),
            outcome,
            now,
            result,
        ));
        result
    }

    /// Exchanges a refresh token for a new pair of tokens issued now.
    pub fn refresh_token(&self, refresh_token: String) -> (result: Result<TokenDto, DomainError>)
        ensures
            exists|now: i64|
                now >= 0 && #[trigger] refresh_exchanged(
                    self.service(),
                    refresh_token@,
                    now,
                    result,
                ),
    {
        let now = unix_now();
        self.refresh_token_at(refresh_token, now)
    }
}

/// The error for a user who reaches for another user's post.
pub open spec fn not_the_author() -> DomainErrorView {
    DomainErrorView::Forbidden { reason: "You can only access your own posts"@ }
}

/// Creating, changing and listing posts.
pub struct PostApplication {}

impl PostApplication {
    pub fn new() -> (application: Self) {
        PostApplication {  }
    }

    /// The posts as they leave the use cases, in their order.
    pub fn get_posts(posts: Vec<Post>) -> (dtos: Vec<PostDto>)
        ensures
            dtos@.len() == posts@.len(),
            forall|i: int|
                0 <= i < posts@.len() ==> {
                    &&& (#[trigger] dtos@[i]).uuid == posts@[i].uuid
                    &&& dtos@[i].title@ == posts@[i].title@
                    &&& dtos@[i].content@ == posts@[i].content@
                    &&& dtos@[i].author_id == posts@[i].author_id
                    &&& dtos@[i].created_at == posts@[i].created_at
                    &&& dtos@[i].updated_at == posts@[i].updated_at
                },
    {
        let mut dtos: Vec<PostDto> = Vec::new();
        let mut at: usize = 0;
        while at < posts.len()
            invariant
                at <= posts@.len(),
                dtos@.len() == at,
                forall|i: int|
                    0 <= i < at ==> {
                        &&& (#[trigger] dtos@[i]).uuid == posts@[i].uuid
                        &&& dtos@[i].title@ == posts@[i].title@
                        &&& dtos@[i].content@ == posts@[i].content@
                        &&& dtos@[i].author_id == posts@[i].author_id
                        &&& dtos@[i].created_at == posts@[i].created_at
                        &&& dtos@[i].updated_at == posts@[i].updated_at
                    },
            decreases posts@.len() - at,
        {
            let post = &posts[at];
            dtos.push(
                PostDto {
                    uuid: post.uuid,
                    title: post.title.clone(),
                    content: post.content.clone(),
                    author_id: post.author_id,
                    created_at: post.created_at,
                    updated_at: post.updated_at,
                },
            );
            at += 1;
        }
        dtos
    }

    /// The post to store for a creation, with the identifier `id`, created
    /// and last changed at `now`.
    pub fn create_post_at(dto: CreatePostDto, id: u128, now: UtcTime) -> (post: Post)
        ensures
            post == (Post {
                uuid: id,
                title: dto.title,
                content: dto.content,
                author_id: dto.author_id,
                created_at: now,
                updated_at: now,
            }),
    {
        Post {
            uuid: id,
            title: dto.title,
            content: dto.content,
            author_id: dto.author_id,
            created_at: now,
            updated_at: now,
        }
    }

    /// The post to store for a creation, with a new identifier and the
    /// current time.
    pub fn create_post(dto: CreatePostDto) -> (post: Post)
        ensures
            post.title == dto.title,
            post.content == dto.content,
            post.author_id == dto.author_id,
            post.created_at == post.updated_at,
            post.created_at.on_calendar(),
    {
        let id = new_uuid_v7();
        let now = UtcTime::now();
        PostApplication::create_post_at(dto, id, now)
    }

    /// Lets a user through to a post of their own and no other.
    pub fn check_access_to_post(post: Post, user_id: u128) -> (result: Result<Post, DomainError>)
        ensures
            post.author_id == user_id ==> result == Ok::<Post, DomainError>(post),
            post.author_id != user_id ==> (result matches Err(error) && error@
                == not_the_author()),
    {
        if post.author_id != user_id {
            return Err(
                DomainError::Forbidden {
                    reason: String::from_str("You can only access your own posts"),
                },
            );
        }
        Ok(post)
    }

    /// The post to store for a change by the user `user_id`, made at `now`:
    /// title and content replaced, the rest kept. Only the author may change
    /// a post.
    pub fn update_post_at(existing: Post, dto: UpdatePostDto, user_id: u128, now: UtcTime) -> (result:
        Result<Post, DomainError>)
        ensures
            existing.author_id == user_id ==> result == Ok::<Post, DomainError>(
                Post { title: dto.title, content: dto.content, updated_at: now, ..existing },
            ),
            existing.author_id != user_id ==> (result matches Err(error) && error@
                == not_the_author()),
    {
        let mut post = PostApplication::check_access_to_post(existing, user_id)?;
        post.title = dto.title;
        post.content = dto.content;
        post.updated_at = now;
        Ok(post)
    }

    /// The post to store for a change by the user `user_id`, made now.
    pub fn update_post(existing: Post, dto: UpdatePostDto, user_id: u128) -> (result: Result<
        Post,
        DomainError,
    >)
        ensures
            existing.author_id == user_id ==> (result matches Ok(post)
                && post.updated_at.on_calendar() && post == (Post {
                title: dto.title,
                content: dto.content,
                updated_at: post.updated_at,
                ..existing
            })),
            existing.author_id != user_id ==> (result matches Err(error) && error@
                == not_the_author()),
    {
        let now = UtcTime::now();
        PostApplication::update_post_at(existing, dto, user_id, now)
    }

    /// Whether the user `user_id` may delete the post: only its author may.
    pub fn delete_post(post: Post, user_id: u128) -> (result: Result<(), DomainError>)
        ensures
            post.author_id == user_id ==> result is Ok,
            post.author_id != user_id ==> (result matches Err(error) && error@
                == not_the_author()),
    {
        PostApplication::check_access_to_post(post, user_id)?;
        Ok(())
    }
}

} // verus!
