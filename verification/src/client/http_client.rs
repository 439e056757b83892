//! The HTTP client without its network: where each request goes, what it
//! carries, and what each answer means.
//!
//! The caller sends the requests. Before an authenticated one it makes sure
//! of a fresh token through the [`TokenManager`] held here; after the answer
//! it hands status and body back to be read.

use vstd::prelude::*;
use vstd::string::*;
use tokio::sync::mpsc::UnboundedSender;
use crate::api::rest::{PostResponse, TokenResponse};
use crate::bindings::clock::{parse_rfc3339, rfc3339_instant};
use crate::bindings::http::{check_header_value, header_value_error, is_header_value};
use crate::bindings::ids::{parse_uuid, parsed_uuid};
use crate::client::error::{ClientError, ClientErrorView};
use crate::client::interceptor::{token_user_id, user_id_from_token};
use crate::client::token_manager::{
    after_refresh,
    outcome_view,
    refresh_result,
    status_view,
    stored_view,
    TokenManager,
    TokenStore,
    TokenUpdateEvent,
};
use crate::client::types::{AuthData, AuthDataView, Post};
use crate::text::{decimal, join, to_decimal, trim_trailing, trimmed_len};
use crate::time::UtcTime;

verus! {

/// The number of seconds before expiry at which a client refreshes its
/// token unless told otherwise.
pub const DEFAULT_REFRESH_BUFFER_SECONDS: i64 = 300;

/// Whether a status code reports success.
pub open spec fn is_success_status(status: u16) -> bool {
    200 <= status < 300
}

/// The error that a response with a failing status stands for. `body` is
/// the text of the response where it could be read.
pub open spec fn status_error(status: u16, body: Option<Seq<char>>) -> ClientErrorView {
    let detail = match body {
        Some(text) => text,
        None => "Unknown error"@,
    };
    if status == 401 {
        ClientErrorView::Unauthorized
    } else if status == 404 {
        ClientErrorView::NotFound
    } else if 400 <= status < 500 {
        ClientErrorView::InvalidRequest(detail)
    } else {
        ClientErrorView::InternalError(detail)
    }
}

/// The value of the `authorization` header for an access token.
pub open spec fn bearer(access_token: Seq<char>) -> Seq<char> {
    "Bearer "@ + access_token
}

/// The instant that a text in the RFC 3339 format denotes, or `fallback`
/// where the text does not parse.
pub open spec fn instant_or(text: Seq<char>, fallback: UtcTime) -> UtcTime {
    match rfc3339_instant(text) {
        Some(pair) => UtcTime { seconds: pair.0, nanos: pair.1 },
        None => fallback,
    }
}

/// The error for a post whose identifier does not parse.
pub open spec fn invalid_uuid(reason: Seq<char>) -> ClientErrorView {
    ClientErrorView::InternalError("Invalid UUID: "@ + reason)
}

/// Whether `result` is what the server's `response` converts to, with
/// `fallback` in place of an instant that does not parse.
pub open spec fn converts_to(
    response: PostResponse,
    fallback: UtcTime,
    result: Result<Post, ClientError>,
) -> bool {
    match parsed_uuid(response.uuid@) {
        Err(reason) => result matches Err(error) && error@ == invalid_uuid(reason),
        Ok(id) => {
            &&& result matches Ok(post)
            &&& post.id == id
            &&& post.title@ == response.title@
            &&& post.content@ == response.content@
            &&& post.created_at == instant_or(response.created_at@, fallback)
            &&& post.updated_at == instant_or(response.updated_at@, fallback)
        },
    }
}

/// Whether a status code reports success.
pub fn is_success(status: u16) -> (success: bool)
    ensures
        success == is_success_status(status),
{
    200 <= status && status < 300
}

fn instant_from(text: &str, fallback: UtcTime) -> (instant: UtcTime)
    ensures
        instant == instant_or(text@, fallback),
{
    match parse_rfc3339(text) {
        Some((seconds, nanos)) => UtcTime { seconds, nanos },
        None => fallback,
    }
}

/// The identifier of the post that the server reports as created.
pub fn created_post_id(response: &PostResponse) -> (result: Result<u128, ClientError>)
    ensures
        match parsed_uuid(response.uuid@) {
            Ok(id) => result == Ok::<u128, ClientError>(id),
            Err(reason) => result matches Err(error) && error@ == invalid_uuid(reason),
        },
{
    match parse_uuid(response.uuid.as_str()) {
        Ok(id) => Ok(id),
        Err(reason) => Err(ClientError::InternalError(join("Invalid UUID: ", reason.as_str()))),
    }
}

/// Converts a post from its wire form, with `fallback` for an instant that
/// does not parse.
pub fn post_from_response_at(response: &PostResponse, fallback: UtcTime) -> (result: Result<
    Post,
    ClientError,
>)
    ensures
        converts_to(*response, fallback, result),
{
    let id = created_post_id(response)?;
    Ok(
        Post {
            id,
            title: response.title.clone(),
            content: response.content.clone(),
            created_at: instant_from(response.created_at.as_str(), fallback),
            updated_at: instant_from(response.updated_at.as_str(), fallback),
        },
    )
}

/// Converts a post from its wire form. An instant that does not parse is
/// replaced by the current reading of the clock.
pub fn post_from_response(response: &PostResponse) -> (result: Result<Post, ClientError>)
    ensures
        exists|fallback: UtcTime| fallback.on_calendar() && #[trigger] converts_to(*response, fallback, result),
{
    let fallback = UtcTime::now();
    post_from_response_at(response, fallback)
}

/// Whether `result` is what a page of the server's posts converts to: the
/// posts in their order, or the error of the first one that does not
/// convert.
pub open spec fn page_converts_to(
    responses: Seq<PostResponse>,
    fallback: UtcTime,
    result: Result<Vec<Post>, ClientError>,
) -> bool {
    if forall|i: int| 0 <= i < responses.len() ==> parsed_uuid(#[trigger] responses[i].uuid@) is Ok {
        &&& result matches Ok(posts)
        &&& posts@.len() == responses.len()
        &&& forall|i: int|
            0 <= i < responses.len() ==> converts_to(
                #[trigger] responses[i],
                fallback,
                Ok(posts@[i]),
            )
    } else {
        exists|first: int|
            {
                &&& 0 <= first < responses.len()
                &&& parsed_uuid(#[trigger] responses[first].uuid@) matches Err(reason)
                &&& result matches Err(error)
                &&& error@ == invalid_uuid(reason)
                &&& forall|i: int| 0 <= i < first ==> parsed_uuid(#[trigger] responses[i].uuid@) is Ok
            }
    }
}

/// Converts a page of posts from their wire form, with `fallback` for an
/// instant that does not parse.
pub fn posts_from_responses_at(responses: &Vec<PostResponse>, fallback: UtcTime) -> (result: Result<
    Vec<Post>,
    ClientError,
>)
    ensures
        page_converts_to(responses@, fallback, result),
{
    let mut posts: Vec<Post> = Vec::new();
    let mut at: usize = 0;
    while at < responses.len()
        invariant
            at <= responses.len(),
            posts@.len() == at,
            forall|i: int| 0 <= i < at ==> parsed_uuid(#[trigger] responses@[i].uuid@) is Ok,
            forall|i: int|
                0 <= i < at ==> converts_to(#[trigger] responses@[i], fallback, Ok(posts@[i])),
        decreases responses.len() - at,
    {
        match post_from_response_at(&responses[at], fallback) {
            Ok(post) => {
                posts.push(post);
            },
            Err(error) => {
                assert(parsed_uuid(responses@[at as int].uuid@) is Err);
                return Err(error);
            },
        }
        at += 1;
    }
    Ok(posts)
}

/// Converts a page of posts from their wire form. An instant that does not
/// parse is replaced by the current reading of the clock.
pub fn posts_from_responses(responses: &Vec<PostResponse>) -> (result: Result<
    Vec<Post>,
    ClientError,
>)
    ensures
        exists|fallback: UtcTime|
            fallback.on_calendar() && #[trigger] page_converts_to(responses@, fallback, result),
{
    let fallback = UtcTime::now();
    posts_from_responses_at(responses, fallback)
}

/// The pair of tokens that a login or a refresh returned.
pub fn auth_data_from_response(response: &TokenResponse) -> (data: AuthData)
    ensures
        data@ == (AuthDataView {
            access_token: response.access_token@,
            refresh_token: response.refresh_token@,
        }),
{
    AuthData {
        access_token: response.access_token.clone(),
        refresh_token: response.refresh_token.clone(),
    }
}

/// The error for a refresh that the server answered with a failing status;
/// `status` is the status line as it is shown, code and reason. The server
/// was reached and turned the refresh down, so this is no failure of the
/// transport: the caller has to log in again.
pub fn refresh_failure(status: &str) -> (error: ClientError)
    ensures
        error@ == ClientErrorView::RefreshFailed("Failed to refresh token: "@ + status@),
{
    ClientError::RefreshFailed(join("Failed to refresh token: ", status))
}

/// The refusal that the status of the answer to a refresh stands for; none
/// for a status that reports success.
pub open spec fn refresh_refused(status: u16, status_text: Seq<char>) -> Option<ClientErrorView> {
    if is_success_status(status) {
        None
    } else {
        Some(ClientErrorView::RefreshFailed("Failed to refresh token: "@ + status_text))
    }
}

/// Reads the status of the answer to a refresh: `None` where the server
/// granted it and the body holds the new tokens, the refusal otherwise.
/// `status_text` is the status line as it is shown, code and reason.
pub fn refresh_refusal(status: u16, status_text: &str) -> (refusal: Option<ClientError>)
    ensures
        match refresh_refused(status, status_text@) {
            None => refusal is None,
            Some(error) => refusal matches Some(refused) && refused@ == error,
        },
{
    if is_success(status) {
        None
    } else {
        Some(refresh_failure(status_text))
    }
}

/// Whether `result` lists the headers of an authenticated request for the
/// tokens stored: the content type and, where a token is stored, the token
/// as bearer credential. A token that cannot stand in a header, because it
/// holds a control character, is an error.
pub open spec fn are_request_headers(
    stored: Option<AuthDataView>,
    result: Result<Vec<(String, String)>, ClientError>,
) -> bool {
    match stored {
        None => {
            &&& result matches Ok(headers)
            &&& headers@.len() == 1
            &&& headers@[0].0@ == "content-type"@
            &&& headers@[0].1@ == "application/json"@
        },
        Some(data) => match header_value_error(bearer(data.access_token)) {
            None => {
                &&& is_header_value(bearer(data.access_token))
                &&& result matches Ok(headers)
                &&& headers@.len() == 2
                &&& headers@[0].0@ == "content-type"@
                &&& headers@[0].1@ == "application/json"@
                &&& headers@[1].0@ == "authorization"@
                &&& headers@[1].1@ == bearer(data.access_token)
            },
            Some(reason) => {
                &&& !is_header_value(bearer(data.access_token))
                &&& result matches Err(error)
                &&& error@ == ClientErrorView::InternalError("Invalid header value: "@ + reason)
            },
        },
    }
}

/// The headers of an authenticated request for the tokens stored.
pub fn request_headers(stored: &Option<AuthData>) -> (result: Result<
    Vec<(String, String)>,
    ClientError,
>)
    ensures
        are_request_headers(stored_view(*stored), result),
{
    let mut headers: Vec<(String, String)> = Vec::new();
    headers.push((String::from_str("content-type"), String::from_str("application/json")));
    match stored {
        None => {},
        Some(data) => {
            let value = join("Bearer ", data.access_token.as_str());
            match check_header_value(value.as_str()) {
                Some(reason) => {
                    return Err(
                        ClientError::InternalError(
                            join("Invalid header value: ", reason.as_str()),
                        ),
                    );
                },
                None => {},
            }
            headers.push((String::from_str("authorization"), value));
        },
    }
    Ok(headers)
}

/// The state of an HTTP client: the address of the server and the tokens.
pub struct HttpClient {
    base_url: String,
    token_manager: TokenManager,
}

impl HttpClient {
    /// The address under which the server's routes stand.
    pub closed spec fn base(&self) -> Seq<char> {
        self.base_url@
    }

    /// The state of the token manager.
    pub closed spec fn tokens(&self) -> TokenStore {
        self.token_manager@
    }

    /// A client for the server at `url`; slashes at the end of `url` are
    /// dropped. No token is stored, and a token is refreshed five minutes
    /// before it expires.
    pub fn new(url: String) -> (client: Self)
        ensures
            client.base() == url@.take(trimmed_len(url@, '/') as int),
            client.tokens() == (TokenStore {
                auth_data: None,
                refresh_buffer_seconds: DEFAULT_REFRESH_BUFFER_SECONDS,
            }),
    {
        HttpClient {
            base_url: trim_trailing(url.as_str(), '/'),
            token_manager: TokenManager::new(DEFAULT_REFRESH_BUFFER_SECONDS),
        }
    }

    /// As [`HttpClient::new`], with a channel on which every stored token is
    /// announced.
    pub fn new_with_token_notifier(url: String, sender: UnboundedSender<TokenUpdateEvent>) -> (client:
        Self)
        ensures
            client.base() == url@.take(trimmed_len(url@, '/') as int),
            client.tokens() == (TokenStore {
                auth_data: None,
                refresh_buffer_seconds: DEFAULT_REFRESH_BUFFER_SECONDS,
            }),
    {
        HttpClient {
            base_url: trim_trailing(url.as_str(), '/'),
            token_manager: TokenManager::new_with_notifier(DEFAULT_REFRESH_BUFFER_SECONDS, sender),
        }
    }

    /// Stores `token` as the access token, with an empty refresh token.
    pub fn set_token(&mut self, token: String)
        ensures
            final(self).base() == old(self).base(),
            final(self).tokens() == old(self).tokens().set(
                AuthDataView { access_token: token@, refresh_token: Seq::empty() },
            ),
    {
        self.token_manager.set_auth_data(
            AuthData { access_token: token, refresh_token: String::new() },
        );
    }

    /// The stored access token.
    pub fn get_token(&self) -> (token: Option<String>)
        ensures
            match self.tokens().auth_data {
                Some(data) => token matches Some(t) && t@ == data.access_token,
                None => token is None,
            },
    {
        self.token_manager.get_access_token()
    }

    /// Sets the number of seconds before expiry at which the token is
    /// refreshed.
    pub fn set_token_refresh_buffer(&mut self, seconds: i64)
        ensures
            final(self).base() == old(self).base(),
            final(self).tokens() == (TokenStore {
                refresh_buffer_seconds: seconds,
                ..old(self).tokens()
            }),
    {
        self.token_manager.set_token_refresh_buffer(seconds);
    }

    /// The token manager of this client.
    pub fn token_manager(&self) -> (manager: &TokenManager)
        ensures
            manager@ == self.tokens(),
    {
        &self.token_manager
    }

    /// Stores the pair of tokens as a whole.
    pub fn setup_auth_data(&mut self, auth_data: AuthData)
        ensures
            final(self).base() == old(self).base(),
            final(self).tokens() == old(self).tokens().set(auth_data@),
    {
        self.token_manager.set_auth_data(auth_data);
    }

    /// The stored pair of tokens.
    pub fn get_auth_data(&self) -> (stored: Option<AuthData>)
        ensures
            stored_view(stored) == self.tokens().auth_data,
    {
        self.token_manager.get_auth_data()
    }

    /// Stores the pair a refresh returned, or hands its error on and leaves
    /// the tokens as they were.
    pub fn complete_refresh(&mut self, outcome: Result<AuthData, ClientError>) -> (result: Result<
        (),
        ClientError,
    >)
        ensures
            final(self).base() == old(self).base(),
            status_view(result)
                == refresh_result(
                outcome_view(outcome),
            ),
            final(self).tokens().auth_data == after_refresh(
                old(self).tokens().auth_data,
                outcome_view(outcome),
            ),
            final(self).tokens().refresh_buffer_seconds == old(
                self,
            ).tokens().refresh_buffer_seconds,
    {
        self.token_manager.complete_refresh(outcome)
    }

    /// Where a refresh token is exchanged.
    pub fn refresh_url(&self) -> (url: String)
        ensures
            url@ == self.base() + "/auth/refresh"@,
    {
        join(self.base_url.as_str(), "/auth/refresh")
    }

    /// Where a user logs in.
    pub fn login_url(&self) -> (url: String)
        ensures
            url@ == self.base() + "/api/v1/auth/login"@,
    {
        join(self.base_url.as_str(), "/api/v1/auth/login")
    }

    /// Where a user registers.
    pub fn register_url(&self) -> (url: String)
        ensures
            url@ == self.base() + "/api/v1/auth/register"@,
    {
        join(self.base_url.as_str(), "/api/v1/auth/register")
    }

    /// Where posts are created.
    pub fn posts_url(&self) -> (url: String)
        ensures
            url@ == self.base() + "/api/v1/posts"@,
    {
        join(self.base_url.as_str(), "/api/v1/posts")
    }

    /// Where the post `post_id` is read, changed and deleted.
    pub fn post_url(&self, post_id: &str) -> (url: String)
        ensures
            url@ == self.base() + "/api/v1/posts/"@ + post_id@,
    {
        join(self.base_url.as_str(), "/api/v1/posts/").concat(post_id)
    }

    /// Where the page `page` of posts, `page_size` to a page, is read.
    pub fn list_posts_url(&self, page_size: u32, page: u32) -> (url: String)
        ensures
            url@ == self.base() + "/api/v1/posts?page_size="@ + decimal(page_size as nat)
                + "&page="@ + decimal(page as nat),
    {
        let size = to_decimal(page_size as u64);
        let number = to_decimal(page as u64);
        join(self.base_url.as_str(), "/api/v1/posts?page_size=").concat(size.as_str()).concat(
            "&page=",
        ).concat(number.as_str())
    }

    /// The headers of an authenticated request with the token stored now.
    pub fn create_headers(&self) -> (result: Result<Vec<(String, String)>, ClientError>)
        ensures
            are_request_headers(self.tokens().auth_data, result),
    {
        let stored = self.token_manager.get_auth_data();
        request_headers(&stored)
    }

    /// The error that a response with a failing status stands for. `body`
    /// is the text of the response where it could be read.
    pub fn handle_error_response(status: u16, body: Option<String>) -> (error: ClientError)
        ensures
            error@ == status_error(
                status,
                match body {
                    Some(text) => Some(text@),
                    None => None,
                },
            ),
    {
        if status == 401 {
            return ClientError::Unauthorized;
        }
        if status == 404 {
            return ClientError::NotFound;
        }
        let detail = match body {
            Some(text) => text,
            None => String::from_str("Unknown error"),
        };
        if 400 <= status && status < 500 {
            ClientError::InvalidRequest(detail)
        } else {
            ClientError::InternalError(detail)
        }
    }

    /// Takes in the tokens of a successful login: stores the pair and
    /// returns the identifier of the user, read from the access token.
    pub fn accept_login(&mut self, response: &TokenResponse) -> (user_id: u128)
        ensures
            final(self).base() == old(self).base(),
            final(self).tokens() == old(self).tokens().set(
                AuthDataView {
                    access_token: response.access_token@,
                    refresh_token: response.refresh_token@,
                },
            ),
            user_id == token_user_id(response.access_token@),
    {
        self.token_manager.set_auth_data(auth_data_from_response(response));
        user_id_from_token(response.access_token.as_str())
    }
}

} // verus!
