//! The gRPC client without its channel: what each call carries and what
//! each answer means.

use vstd::prelude::*;
use vstd::string::*;
use crate::api::grpc::{
    JwtContainer,
    ListPostsRequest,
    ListPostsResponse,
    LoginResponse,
    Post as WirePost,
    PostResponse,
    RefreshTokenResponse,
    Response,
    Status,
    Timestamp,
    UpdatePostRequest,
};
use crate::bindings::clock::is_utc_instant;
use crate::bindings::http::{check_header_value, is_header_value};
use crate::bindings::ids::{parse_uuid, parsed_uuid};
use crate::client::error::{ClientError, ClientErrorView};
use crate::client::http_client::{bearer, invalid_uuid, DEFAULT_REFRESH_BUFFER_SECONDS};
use crate::client::interceptor::{token_user_id, user_id_from_token};
use crate::client::token_manager::{outcome_view, TokenManager, TokenStore};
use crate::client::types::{AuthData, AuthDataView, Post};
use crate::text::join;
use crate::time::UtcTime;

verus! {

/// The explanation that comes with an outcome; empty where there is none.
pub open spec fn details_text(details: Option<String>) -> Seq<char> {
    match details {
        Some(text) => text@,
        None => Seq::empty(),
    }
}

/// The error that the outcome of a call stands for; `None` for a call that
/// succeeded. An answer without an outcome is an error of its own.
pub open spec fn response_error(response: Option<Response>) -> Option<ClientErrorView> {
    match response {
        None => Some(ClientErrorView::InternalError("No response"@)),
        Some(outcome) => match outcome.code {
            Status::Success => None,
            Status::Unauthorized => Some(ClientErrorView::Unauthorized),
            Status::InvalidRequest => Some(
                ClientErrorView::InvalidRequest(details_text(outcome.details)),
            ),
            Status::InternalError => Some(
                ClientErrorView::InternalError(details_text(outcome.details)),
            ),
        },
    }
}

/// The nanoseconds of a wire timestamp read as an unsigned number: a
/// negative count wraps around.
pub open spec fn wire_nanos(nanos: i32) -> u32 {
    if nanos >= 0 {
        nanos as u32
    } else {
        (nanos + 0x1_0000_0000) as u32
    }
}

/// The nanoseconds of an instant as the wire holds them: a count beyond the
/// signed range wraps around.
pub open spec fn signed_nanos(nanos: u32) -> i32 {
    if nanos <= i32::MAX {
        nanos as i32
    } else {
        (nanos - 0x1_0000_0000) as i32
    }
}

/// The instant of a wire timestamp, or `fallback` where the timestamp is
/// missing or the calendar has no such instant.
pub open spec fn instant_of(timestamp: Option<Timestamp>, fallback: UtcTime) -> UtcTime {
    match timestamp {
        Some(stamp) => if is_utc_instant(stamp.seconds, wire_nanos(stamp.nanos)) {
            UtcTime { seconds: stamp.seconds, nanos: wire_nanos(stamp.nanos) }
        } else {
            fallback
        },
        None => fallback,
    }
}

/// Whether `result` is what the wire form `post` converts to, with
/// `fallback` in place of an instant that is missing or off the calendar.
pub open spec fn converts_to(post: WirePost, fallback: UtcTime, result: Result<Post, ClientError>) -> bool {
    match parsed_uuid(post.id@) {
        Err(reason) => result matches Err(error) && error@ == invalid_uuid(reason),
        Ok(id) => {
            &&& result matches Ok(converted)
            &&& converted.id == id
            &&& converted.title@ == post.title@
            &&& converted.content@ == post.data@
            &&& converted.created_at == instant_of(post.created_ts, fallback)
            &&& converted.updated_at == instant_of(post.last_updated_ts, fallback)
        },
    }
}

/// Whether `result` is what a row of wire posts converts to: the posts in
/// their order, or the error of the first one that does not convert.
pub open spec fn all_convert_to(
    posts: Seq<WirePost>,
    fallback: UtcTime,
    result: Result<Vec<Post>, ClientError>,
) -> bool {
    if forall|i: int| 0 <= i < posts.len() ==> parsed_uuid(#[trigger] posts[i].id@) is Ok {
        &&& result matches Ok(converted)
        &&& converted@.len() == posts.len()
        &&& forall|i: int|
            0 <= i < posts.len() ==> converts_to(#[trigger] posts[i], fallback, Ok(converted@[i]))
    } else {
        exists|first: int|
            {
                &&& 0 <= first < posts.len()
                &&& parsed_uuid(#[trigger] posts[first].id@) matches Err(reason)
                &&& result matches Err(error)
                &&& error@ == invalid_uuid(reason)
                &&& forall|i: int| 0 <= i < first ==> parsed_uuid(#[trigger] posts[i].id@) is Ok
            }
    }
}

/// Reads the outcome of a call.
pub fn check_response(response: Option<Response>) -> (result: Result<(), ClientError>)
    ensures
        match response_error(response) {
            None => result is Ok,
            Some(error) => result matches Err(e) && e@ == error,
        },
{
    let outcome = match response {
        Some(outcome) => outcome,
        None => return Err(ClientError::InternalError(String::from_str("No response"))),
    };
    match outcome.code {
        Status::Success => Ok(()),
        Status::Unauthorized => Err(ClientError::Unauthorized),
        Status::InvalidRequest => Err(ClientError::InvalidRequest(details_or_empty(outcome.details))),
        Status::InternalError => Err(ClientError::InternalError(details_or_empty(outcome.details))),
    }
}

fn details_or_empty(details: Option<String>) -> (text: String)
    ensures
        text@ == details_text(details),
{
    match details {
        Some(text) => text,
        None => String::new(),
    }
}

/// The instant of a wire timestamp, or `fallback` where the timestamp is
/// missing or the calendar has no such instant.
pub fn timestamp_to_datetime_at(timestamp: Option<Timestamp>, fallback: UtcTime) -> (instant:
    UtcTime)
    ensures
        instant == instant_of(timestamp, fallback),
{
    match timestamp {
        Some(stamp) => {
            let nanos: u32 = if stamp.nanos >= 0 {
                stamp.nanos as u32
            } else {
                (stamp.nanos as i64 + 0x1_0000_0000) as u32
            };
            match UtcTime::from_timestamp(stamp.seconds, nanos) {
                Some(instant) => instant,
                None => fallback,
            }
        },
        None => fallback,
    }
}

/// The instant of a wire timestamp; the current reading of the clock where
/// the timestamp is missing or the calendar has no such instant.
pub fn timestamp_to_datetime(timestamp: Option<Timestamp>) -> (instant: UtcTime)
    ensures
        exists|fallback: UtcTime| fallback.on_calendar() && instant == #[trigger] instant_of(timestamp, fallback),
        instant.on_calendar(),
{
    let fallback = UtcTime::now();
    timestamp_to_datetime_at(timestamp, fallback)
}

/// The wire timestamp of an instant.
pub fn datetime_to_timestamp(instant: UtcTime) -> (timestamp: Option<Timestamp>)
    ensures
        timestamp == Some(
            Timestamp { seconds: instant.seconds, nanos: signed_nanos(instant.nanos) },
        ),
{
    let nanos: i32 = if instant.nanos <= 0x7fff_ffff {
        instant.nanos as i32
    } else {
        (instant.nanos as i64 - 0x1_0000_0000) as i32
    };
    Some(Timestamp { seconds: instant.seconds, nanos })
}

/// Converts a post from its wire form, with `fallback` for an instant that
/// is missing or off the calendar.
pub fn proto_post_to_client_post_at(post: WirePost, fallback: UtcTime) -> (result: Result<
    Post,
    ClientError,
>)
    ensures
        converts_to(post, fallback, result),
{
    let id = match parse_uuid(post.id.as_str()) {
        Ok(id) => id,
        Err(reason) => {
            return Err(ClientError::InternalError(join("Invalid UUID: ", reason.as_str())));
        },
    };
    Ok(
        Post {
            id,
            title: post.title,
            content: post.data,
            created_at: timestamp_to_datetime_at(post.created_ts, fallback),
            updated_at: timestamp_to_datetime_at(post.last_updated_ts, fallback),
        },
    )
}

/// Converts a post from its wire form. An instant that is missing or off
/// the calendar is replaced by the current reading of the clock.
pub fn proto_post_to_client_post(post: WirePost) -> (result: Result<Post, ClientError>)
    ensures
        exists|fallback: UtcTime| fallback.on_calendar() && #[trigger] converts_to(post, fallback, result),
{
    let fallback = UtcTime::now();
    proto_post_to_client_post_at(post, fallback)
}

/// The pair of tokens that a login or a refresh handed out.
pub open spec fn granted(response: Option<Response>, token: Option<JwtContainer>) -> Result<
    AuthDataView,
    ClientErrorView,
> {
    match response_error(response) {
        Some(error) => Err(error),
        None => match token {
            None => Err(ClientErrorView::InternalError("No token in response"@)),
            Some(container) => Ok(
                AuthDataView {
                    access_token: container.access_token@,
                    refresh_token: container.refresh_token@,
                },
            ),
        },
    }
}

fn tokens_granted(response: Option<Response>, token: Option<JwtContainer>) -> (result: Result<
    AuthData,
    ClientError,
>)
    ensures
        outcome_view(result) == granted(response, token),
{
    check_response(response)?;
    match token {
        None => Err(ClientError::InternalError(String::from_str("No token in response"))),
        Some(container) => Ok(
            AuthData {
                access_token: container.access_token,
                refresh_token: container.refresh_token,
            },
        ),
    }
}

/// What the answer to a refresh comes to. An answer whose outcome is not a
/// success means that the server turned the refresh down: that is an error
/// of its own kind, which names the outcome, so that the caller can tell it
/// from a failing transport and log in again. An answer without an outcome,
/// or a success without tokens, is reported as for any other call.
pub open spec fn refresh_granted(response: Option<Response>, token: Option<JwtContainer>) -> Result<
    AuthDataView,
    ClientErrorView,
> {
    match response_error(response) {
        Some(error) => if response is Some {
            Err(ClientErrorView::RefreshFailed("Failed to refresh token: "@ + error.message()))
        } else {
            Err(error)
        },
        None => granted(response, token),
    }
}

/// The pair of tokens in the answer to a refresh.
pub fn auth_data_from_refresh(response: RefreshTokenResponse) -> (result: Result<
    AuthData,
    ClientError,
>)
    ensures
        outcome_view(result) == refresh_granted(response.status, response.token),
{
    let outcome = match response.status {
        Some(outcome) => outcome,
        None => return Err(ClientError::InternalError(String::from_str("No response"))),
    };
    match check_response(Some(outcome)) {
        Err(error) => {
            let reason = error.message();
            Err(ClientError::RefreshFailed(join("Failed to refresh token: ", reason.as_str())))
        },
        Ok(()) => match response.token {
            None => Err(ClientError::InternalError(String::from_str("No token in response"))),
            Some(container) => Ok(
                AuthData {
                    access_token: container.access_token,
                    refresh_token: container.refresh_token,
                },
            ),
        },
    }
}

/// The identifier of the post in the answer to a creation.
pub fn created_post_id(response: PostResponse) -> (result: Result<u128, ClientError>)
    ensures
        match response_error(response.response) {
            Some(error) => result matches Err(e) && e@ == error,
            None => match response.post {
                None => result matches Err(e) && e@ == ClientErrorView::InternalError(
                    "No post in response"@,
                ),
                Some(post) => match parsed_uuid(post.id@) {
                    Ok(id) => result == Ok::<u128, ClientError>(id),
                    Err(reason) => result matches Err(e) && e@ == invalid_uuid(reason),
                },
            },
        },
{
    check_response(response.response)?;
    let post = match response.post {
        Some(post) => post,
        None => return Err(ClientError::InternalError(String::from_str("No post in response"))),
    };
    match parse_uuid(post.id.as_str()) {
        Ok(id) => Ok(id),
        Err(reason) => Err(ClientError::InternalError(join("Invalid UUID: ", reason.as_str()))),
    }
}

/// The post in the answer to a read, with `fallback` for an instant that is
/// missing or off the calendar. An answer without a post means that there is
/// no such post.
pub fn fetched_post_at(response: PostResponse, fallback: UtcTime) -> (result: Result<
    Post,
    ClientError,
>)
    ensures
        match response_error(response.response) {
            Some(error) => result matches Err(e) && e@ == error,
            None => match response.post {
                None => result matches Err(e) && e@ == ClientErrorView::NotFound,
                Some(post) => converts_to(post, fallback, result),
            },
        },
{
    check_response(response.response)?;
    match response.post {
        Some(post) => proto_post_to_client_post_at(post, fallback),
        None => Err(ClientError::NotFound),
    }
}

/// The posts in the answer to a listing, with `fallback` for an instant that
/// is missing or off the calendar.
pub fn listed_posts_at(response: &ListPostsResponse, fallback: UtcTime) -> (result: Result<
    Vec<Post>,
    ClientError,
>)
    ensures
        match response_error(response.status) {
            Some(error) => result matches Err(e) && e@ == error,
            None => all_convert_to(response.posts@, fallback, result),
        },
{
    check_response(clone_response(&response.status))?;
    let mut converted: Vec<Post> = Vec::new();
    let mut at: usize = 0;
    while at < response.posts.len()
        invariant
            at <= response.posts.len(),
            converted@.len() == at,
            response_error(response.status) is None,
            forall|i: int| 0 <= i < at ==> parsed_uuid(#[trigger] response.posts@[i].id@) is Ok,
            forall|i: int|
                0 <= i < at ==> converts_to(
                    #[trigger] response.posts@[i],
                    fallback,
                    Ok(converted@[i]),
                ),
        decreases response.posts.len() - at,
    {
        let wire = &response.posts[at];
        match parse_uuid(wire.id.as_str()) {
            Ok(id) => {
                converted.push(
                    Post {
                        id,
                        title: wire.title.clone(),
                        content: wire.data.clone(),
                        created_at: timestamp_to_datetime_at(wire.created_ts, fallback),
                        updated_at: timestamp_to_datetime_at(wire.last_updated_ts, fallback),
                    },
                );
            },
            Err(reason) => {
                assert(parsed_uuid(response.posts@[at as int].id@) is Err);
                return Err(ClientError::InternalError(join("Invalid UUID: ", reason.as_str())));
            },
        }
        at += 1;
    }
    Ok(converted)
}

fn clone_response(response: &Option<Response>) -> (copy: Option<Response>)
    ensures
        response_error(copy) == response_error(*response),
{
    match response {
        None => None,
        Some(outcome) => Some(
            Response {
                code: outcome.code,
                details: match &outcome.details {
                    Some(text) => Some(text.clone()),
                    None => None,
                },
            },
        ),
    }
}

/// A page number or a page size as the wire holds it: a number beyond the
/// signed range wraps around.
pub open spec fn wire_count(count: u32) -> i32 {
    if count <= i32::MAX {
        count as i32
    } else {
        (count - 0x1_0000_0000) as i32
    }
}

fn to_wire_count(count: u32) -> (wire: i32)
    ensures
        wire == wire_count(count),
{
    if count <= 0x7fff_ffff {
        count as i32
    } else {
        (count as i64 - 0x1_0000_0000) as i32
    }
}

/// The request for the page `page` of posts, `page_size` to a page.
pub fn list_posts_request(page_size: u32, page: u32) -> (request: ListPostsRequest)
    ensures
        request == (ListPostsRequest {
            page_count: wire_count(page),
            page_size: wire_count(page_size),
        }),
{
    ListPostsRequest { page_count: to_wire_count(page), page_size: to_wire_count(page_size) }
}

/// The request that changes title and content of the post `post_id`, marked
/// as changed at the instant `now`.
pub fn update_post_request(post_id: &str, title: &str, content: &str, now: UtcTime) -> (request:
    UpdatePostRequest)
    ensures
        request.post matches Some(post) && {
            &&& post.id@ == post_id@
            &&& post.title@ == title@
            &&& post.data@ == content@
            &&& post.created_ts is None
            &&& post.last_updated_ts == Some(
                Timestamp { seconds: now.seconds, nanos: signed_nanos(now.nanos) },
            )
        },
{
    UpdatePostRequest {
        post: Some(
            WirePost {
                id: String::from_str(post_id),
                title: String::from_str(title),
                data: String::from_str(content),
                created_ts: None,
                last_updated_ts: datetime_to_timestamp(now),
            },
        ),
    }
}

/// The state of a gRPC client: the tokens.
pub struct GrpcClient {
    token_manager: TokenManager,
}

impl GrpcClient {
    /// The state of the token manager.
    pub closed spec fn tokens(&self) -> TokenStore {
        self.token_manager@
    }

    /// A client without a token; a token is refreshed five minutes before it
    /// expires.
    pub fn new() -> (client: Self)
        ensures
            client.tokens() == (TokenStore {
                auth_data: None,
                refresh_buffer_seconds: DEFAULT_REFRESH_BUFFER_SECONDS,
            }),
    {
        GrpcClient { token_manager: TokenManager::new(DEFAULT_REFRESH_BUFFER_SECONDS) }
    }

    /// Stores `token` as the access token, with an empty refresh token.
    pub fn set_token(&mut self, token: &str)
        ensures
            final(self).tokens() == old(self).tokens().set(
                AuthDataView { access_token: token@, refresh_token: Seq::empty() },
            ),
    {
        self.token_manager.set_auth_data(
            AuthData { access_token: String::from_str(token), refresh_token: String::new() },
        );
    }

    /// The stored access token.
    pub fn get_token(&self) -> (token: Option<String>)
        ensures
            match self.tokens().auth_data {
                Some(data) => token matches Some(t) && t@ == data.access_token,
                None => token is None,
            },
    {
        self.token_manager.get_access_token()
    }

    /// Sets the number of seconds before expiry at which the token is
    /// refreshed.
    pub fn set_token_refresh_buffer(&mut self, seconds: i64)
        ensures
            final(self).tokens() == (TokenStore {
                refresh_buffer_seconds: seconds,
                ..old(self).tokens()
            }),
    {
        self.token_manager.set_token_refresh_buffer(seconds);
    }

    /// The token manager of this client.
    pub fn token_manager(&self) -> (manager: &TokenManager)
        ensures
            manager@ == self.tokens(),
    {
        &self.token_manager
    }

    /// The `authorization` entry of an authenticated call: the stored token
    /// as bearer credential. There is none where no token is stored or the
    /// token cannot stand in a header.
    pub fn authorization(&self) -> (value: Option<String>)
        ensures
            match self.tokens().auth_data {
                Some(data) => if is_header_value(bearer(data.access_token)) {
                    value matches Some(v) && v@ == bearer(data.access_token)
                } else {
                    value is None
                },
                None => value is None,
            },
    {
        match self.token_manager.get_access_token() {
            None => None,
            Some(access_token) => {
                let value = join("Bearer ", access_token.as_str());
                match check_header_value(value.as_str()) {
                    None => Some(value),
                    Some(_) => None,
                }
            },
        }
    }

    /// Takes in the answer to a login: stores the pair of tokens and returns
    /// the identifier of the user, read from the access token. An answer
    /// that reports an error or carries no tokens changes nothing.
    pub fn accept_login(&mut self, response: LoginResponse) -> (result: Result<u128, ClientError>)
        ensures
            match granted(response.status, response.token) {
                Err(error) => {
                    &&& result matches Err(e)
                    &&& e@ == error
                    &&& final(self).tokens() == old(self).tokens()
                },
                Ok(data) => {
                    &&& result == Ok::<u128, ClientError>(token_user_id(data.access_token))
                    &&& final(self).tokens() == old(self).tokens().set(data)
                },
            },
    {
        let data = tokens_granted(response.status, response.token)?;
        let user_id = user_id_from_token(data.access_token.as_str());
        self.token_manager.set_auth_data(data);
        Ok(user_id)
    }
}

} // verus!
