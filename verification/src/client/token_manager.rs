//! The token store and the refresh protocol.
//!
//! A [`TokenManager`] holds the current pair of tokens and the number of
//! seconds before expiry at which an access token counts as stale. Before an
//! authenticated request the client asks it to make sure the access token is
//! fresh. The protocol has two looks at the store. The first is taken
//! without any exclusion, so that a client with a valid token never waits:
//! [`first_look`]. Only when it finds the token stale does the caller enter
//! the exclusive refresh section, and there it looks again: [`second_look`].
//! A caller that waited while another one refreshed finds a fresh token at
//! the second look and leaves without a refresh of its own.
//!
//! The functions here decide; they do not wait. A caller that shares one
//! store among concurrent tasks guards the store and the exclusive section
//! with its own locks and asks [`check_freshness`] and
//! [`refresh_token_to_send`] what to do next. A caller that owns its
//! manager outright uses [`TokenManager::ensure_valid_token`].

use vstd::prelude::*;
use tokio::sync::mpsc::UnboundedSender;
use crate::bindings::channel::send_or_drop;
use crate::bindings::clock::unix_now;
use crate::client::error::{ClientError, ClientErrorView};
use crate::client::interceptor::{decode_token_without_validation, decoded_claims};
use crate::client::types::{AuthData, AuthDataView};

verus! {

/// Notice that the access token was replaced.
#[derive(Debug, PartialEq, Eq)]
pub struct TokenUpdateEvent {
    pub access_token: String,
}

impl Clone for TokenUpdateEvent {
    fn clone(&self) -> (copy: Self)
        ensures
            copy.access_token@ == self.access_token@,
    {
        TokenUpdateEvent { access_token: self.access_token.clone() }
    }
}

/// What the look at an access token calls for.
#[derive(Debug, Clone, Copy, PartialEq, Eq, Structural)]
pub enum Freshness {
    /// No token is stored, or the stored one is not about to expire.
    UpToDate,
    /// The stored token expires within the buffer.
    RefreshDue,
}

/// The first look at a snapshot of the store, taken at the instant `now`
/// without entering the exclusive section.
///
/// An empty store needs nothing. A token that cannot be decoded is an error
/// of its own and is never refreshed.
pub open spec fn first_look(snapshot: Option<AuthDataView>, buffer_seconds: i64, now: i64) -> Result<
    Freshness,
    ClientErrorView,
> {
    match snapshot {
        None => Ok(Freshness::UpToDate),
        Some(data) => match decoded_claims(data.access_token) {
            Err(error) => Err(error),
            Ok(claims) => if claims.expires_soon_at(now, buffer_seconds) {
                Ok(Freshness::RefreshDue)
            } else {
                Ok(Freshness::UpToDate)
            },
        },
    }
}

/// The second look, taken inside the exclusive section at the instant `now`:
/// the refresh token to send, or `None` where no refresh is to be made.
///
/// No refresh is made when the store is empty or when its access token
/// decodes and is no longer about to expire.
pub open spec fn second_look(current: Option<AuthDataView>, buffer_seconds: i64, now: i64) -> Option<
    Seq<char>,
> {
    match current {
        None => None,
        Some(data) => match decoded_claims(data.access_token) {
            Ok(claims) => if claims.expires_soon_at(now, buffer_seconds) {
                Some(data.refresh_token)
            } else {
                None
            },
            Err(_) => Some(data.refresh_token),
        },
    }
}

/// The content of the store once a refresh has answered: the new pair after
/// a success, the old content after a failure.
pub open spec fn after_refresh(
    stored: Option<AuthDataView>,
    outcome: Result<AuthDataView, ClientErrorView>,
) -> Option<AuthDataView> {
    match outcome {
        Ok(fresh) => Some(fresh),
        Err(_) => stored,
    }
}

/// What the caller of a refresh gets back for its outcome.
pub open spec fn refresh_result(outcome: Result<AuthDataView, ClientErrorView>) -> Result<
    (),
    ClientErrorView,
> {
    match outcome {
        Ok(_) => Ok(()),
        Err(error) => Err(error),
    }
}

/// One caller's passage through the exclusive section: it looks at the
/// store at the instant `now` and, where a refresh is due, receives `reply`
/// from the server. Gives the store it leaves behind and whether it called
/// for a refresh.
pub open spec fn exclusive_section(
    stored: Option<AuthDataView>,
    buffer_seconds: i64,
    now: i64,
    reply: Result<AuthDataView, ClientErrorView>,
) -> (Option<AuthDataView>, bool) {
    match second_look(stored, buffer_seconds, now) {
        None => (stored, false),
        Some(_) => (after_refresh(stored, reply), true),
    }
}

/// The store after the first `callers` of a row of callers have passed
/// through the exclusive section one after another. Caller `i` looks at the
/// instant `nows[i]` and would receive `replies[i]`.
pub open spec fn store_after(
    stored: Option<AuthDataView>,
    buffer_seconds: i64,
    nows: Seq<i64>,
    replies: Seq<Result<AuthDataView, ClientErrorView>>,
    callers: nat,
) -> Option<AuthDataView>
    decreases callers,
{
    if callers == 0 {
        stored
    } else {
        let before = store_after(stored, buffer_seconds, nows, replies, (callers - 1) as nat);
        exclusive_section(before, buffer_seconds, nows[callers - 1], replies[callers - 1]).0
    }
}

/// The number of refreshes that the first `callers` of the row call for.
pub open spec fn refreshes_made(
    stored: Option<AuthDataView>,
    buffer_seconds: i64,
    nows: Seq<i64>,
    replies: Seq<Result<AuthDataView, ClientErrorView>>,
    callers: nat,
) -> nat
    decreases callers,
{
    if callers == 0 {
        0
    } else {
        let before = store_after(stored, buffer_seconds, nows, replies, (callers - 1) as nat);
        let earlier = refreshes_made(stored, buffer_seconds, nows, replies, (callers - 1) as nat);
        if exclusive_section(before, buffer_seconds, nows[callers - 1], replies[callers - 1]).1 {
            earlier + 1
        } else {
            earlier
        }
    }
}

/// The mathematical value of what a refresh function returns.
pub open spec fn outcome_view(outcome: Result<AuthData, ClientError>) -> Result<
    AuthDataView,
    ClientErrorView,
> {
    match outcome {
        Ok(fresh) => Ok(fresh@),
        Err(error) => Err(error@),
    }
}

/// The mathematical value of what the freshness check returns.
pub open spec fn status_view(result: Result<(), ClientError>) -> Result<(), ClientErrorView> {
    match result {
        Ok(()) => Ok(()),
        Err(error) => Err(error@),
    }
}

/// The mathematical value of a stored pair.
pub open spec fn stored_view(stored: Option<AuthData>) -> Option<AuthDataView> {
    match stored {
        Some(data) => Some(data@),
        None => None,
    }
}

/// Takes the first look at a snapshot of the store.
pub fn check_freshness(snapshot: &Option<AuthData>, buffer_seconds: i64, now: i64) -> (result: Result<
    Freshness,
    ClientError,
>)
    ensures
        match first_look(stored_view(*snapshot), buffer_seconds, now) {
            Ok(freshness) => result == Ok::<Freshness, ClientError>(freshness),
            Err(error) => result matches Err(e) && e@ == error,
        },
        *snapshot is None ==> result == Ok::<Freshness, ClientError>(Freshness::UpToDate),
{
    match snapshot {
        None => Ok(Freshness::UpToDate),
        Some(data) => {
            let claims = decode_token_without_validation(data.access_token.as_str())?;
            if claims.expires_soon_at(now, buffer_seconds) {
                Ok(Freshness::RefreshDue)
            } else {
                Ok(Freshness::UpToDate)
            }
        },
    }
}

/// Takes the second look at the store, inside the exclusive section.
pub fn refresh_token_to_send(current: &Option<AuthData>, buffer_seconds: i64, now: i64) -> (token:
    Option<String>)
    ensures
        match second_look(stored_view(*current), buffer_seconds, now) {
            Some(refresh_token) => token matches Some(t) && t@ == refresh_token,
            None => token is None,
        },
{
    match current {
        None => None,
        Some(data) => {
            match decode_token_without_validation(data.access_token.as_str()) {
                Ok(claims) => {
                    if claims.expires_soon_at(now, buffer_seconds) {
                        Some(data.refresh_token.clone())
                    } else {
                        None
                    }
                },
                Err(_) => Some(data.refresh_token.clone()),
            }
        },
    }
}

/// The state of a [`TokenManager`]: the stored pair and the buffer.
pub struct TokenStore {
    pub auth_data: Option<AuthDataView>,
    pub refresh_buffer_seconds: i64,
}

impl TokenStore {
    /// The store with `data` in place of whatever it held.
    pub open spec fn set(self, data: AuthDataView) -> TokenStore {
        TokenStore { auth_data: Some(data), ..self }
    }

    /// The refresh token that a caller owning the store sends when it looks
    /// at `now_first` and, if that look finds the token stale, again at
    /// `now_second`; `None` where the caller makes no refresh.
    pub open spec fn refresh_request(self, now_first: i64, now_second: i64) -> Option<Seq<char>> {
        match first_look(self.auth_data, self.refresh_buffer_seconds, now_first) {
            Ok(Freshness::RefreshDue) => second_look(
                self.auth_data,
                self.refresh_buffer_seconds,
                now_second,
            ),
            _ => None,
        }
    }

    /// Whether `result` and `after` are what making sure of a fresh token
    /// leads to, from the store `self`, with looks at `now_first` and
    /// `now_second` and `refresh_fn` as the way to get a new pair.
    pub open spec fn ensured<F: FnOnce(String) -> Result<AuthData, ClientError>>(
        self,
        now_first: i64,
        now_second: i64,
        refresh_fn: F,
        result: Result<(), ClientErrorView>,
        after: TokenStore,
    ) -> bool {
        &&& after.refresh_buffer_seconds == self.refresh_buffer_seconds
        &&& match first_look(self.auth_data, self.refresh_buffer_seconds, now_first) {
            Err(error) => result == Err::<(), ClientErrorView>(error) && after == self,
            Ok(_) => match self.refresh_request(now_first, now_second) {
                None => result is Ok && after == self,
                Some(refresh_token) => exists|sent: String, outcome: Result<AuthData, ClientError>|
                    {
                        &&& sent@ == refresh_token
                        &&& #[trigger] call_ensures(refresh_fn, (sent,), outcome)
                        &&& result == refresh_result(outcome_view(outcome))
                        &&& after.auth_data == after_refresh(self.auth_data, outcome_view(outcome))
                    },
            },
        }
    }
}

/// Keeps the current pair of tokens and refreshes it when it is about to
/// expire.
pub struct TokenManager {
    auth_data: Option<AuthData>,
    token_refresh_buffer_seconds: i64,
    token_update_sender: Option<UnboundedSender<TokenUpdateEvent>>,
}

impl View for TokenManager {
    type V = TokenStore;

    closed spec fn view(&self) -> TokenStore {
        TokenStore {
            auth_data: stored_view(self.auth_data),
            refresh_buffer_seconds: self.token_refresh_buffer_seconds,
        }
    }
}

impl TokenManager {
    /// An empty manager that treats a token as stale
    /// `token_refresh_buffer_seconds` before its expiry.
    pub fn new(token_refresh_buffer_seconds: i64) -> (manager: Self)
        ensures
            manager@ == (TokenStore {
                auth_data: None,
                refresh_buffer_seconds: token_refresh_buffer_seconds,
            }),
    {
        TokenManager { auth_data: None, token_refresh_buffer_seconds, token_update_sender: None }
    }

    /// An empty manager that also sends a [`TokenUpdateEvent`] on `sender`
    /// each time a pair is stored.
    pub fn new_with_notifier(
        token_refresh_buffer_seconds: i64,
        sender: UnboundedSender<TokenUpdateEvent>,
    ) -> (manager: Self)
        ensures
            manager@ == (TokenStore {
                auth_data: None,
                refresh_buffer_seconds: token_refresh_buffer_seconds,
            }),
    {
        TokenManager {
            auth_data: None,
            token_refresh_buffer_seconds,
            token_update_sender: Some(sender),
        }
    }

    /// Replaces the stored pair as a whole.
    pub fn set_auth_data(&mut self, auth_data: AuthData)
        ensures
            final(self)@ == old(self)@.set(auth_data@),
    {
        let access_token = auth_data.access_token.clone();
        self.auth_data = Some(auth_data);
        match &self.token_update_sender {
            Some(sender) => send_or_drop(sender, TokenUpdateEvent { access_token }),
            None => {},
        }
    }

    /// The stored access token.
    pub fn get_access_token(&self) -> (token: Option<String>)
        ensures
            match self@.auth_data {
                Some(data) => token matches Some(t) && t@ == data.access_token,
                None => token is None,
            },
    {
        match &self.auth_data {
            Some(data) => Some(data.access_token.clone()),
            None => None,
        }
    }

    /// The stored refresh token.
    pub fn get_refresh_token(&self) -> (token: Option<String>)
        ensures
            match self@.auth_data {
                Some(data) => token matches Some(t) && t@ == data.refresh_token,
                None => token is None,
            },
    {
        match &self.auth_data {
            Some(data) => Some(data.refresh_token.clone()),
            None => None,
        }
    }

    /// The stored pair.
    pub fn get_auth_data(&self) -> (stored: Option<AuthData>)
        ensures
            stored_view(stored) == self@.auth_data,
    {
        match &self.auth_data {
            Some(data) => Some(data.clone()),
            None => None,
        }
    }

    /// The number of seconds before expiry at which a token counts as
    /// stale.
    pub fn token_refresh_buffer(&self) -> (seconds: i64)
        ensures
            seconds == self@.refresh_buffer_seconds,
    {
        self.token_refresh_buffer_seconds
    }

    /// Sets the number of seconds before expiry at which a token counts as
    /// stale.
    pub fn set_token_refresh_buffer(&mut self, seconds: i64)
        ensures
            final(self)@ == (TokenStore { refresh_buffer_seconds: seconds, ..old(self)@ }),
    {
        self.token_refresh_buffer_seconds = seconds;
    }

    /// Stores the pair a refresh returned, or hands its error on and leaves
    /// the store as it was.
    pub fn complete_refresh(&mut self, outcome: Result<AuthData, ClientError>) -> (result: Result<
        (),
        ClientError,
    >)
        ensures
            status_view(result) == refresh_result(outcome_view(outcome)),
            final(self)@.auth_data == after_refresh(old(self)@.auth_data, outcome_view(outcome)),
            final(self)@.refresh_buffer_seconds == old(self)@.refresh_buffer_seconds,
    {
        match outcome {
            Ok(fresh) => {
                self.set_auth_data(fresh);
                Ok(())
            },
            Err(error) => Err(error),
        }
    }

    /// The work of the exclusive section: looks at the store at the instant
    /// `now` and, where a refresh is still due, calls `refresh_fn` with the
    /// stored refresh token and stores what it returns.
    pub fn refresh_if_still_due<F: FnOnce(String) -> Result<AuthData, ClientError>>(
        &mut self,
        now: i64,
        refresh_fn: F,
    ) -> (result: Result<(), ClientError>)
        requires
            forall|sent: String|
                second_look(old(self)@.auth_data, old(self)@.refresh_buffer_seconds, now) == Some(
                    sent@,
                ) ==> call_requires(refresh_fn, (sent,)),
        ensures
            final(self)@.refresh_buffer_seconds == old(self)@.refresh_buffer_seconds,
            match second_look(old(self)@.auth_data, old(self)@.refresh_buffer_seconds, now) {
                None => result is Ok && final(self)@ == old(self)@,
                Some(refresh_token) => exists|sent: String, outcome: Result<AuthData, ClientError>|
                    {
                        &&& sent@ == refresh_token
                        &&& #[trigger] call_ensures(refresh_fn, (sent,), outcome)
                        &&& status_view(result) == refresh_result(outcome_view(outcome))
                        &&& (final(self)@.auth_data, true) == exclusive_section(
                            old(self)@.auth_data,
                            old(self)@.refresh_buffer_seconds,
                            now,
                            outcome_view(outcome),
                        )
                    },
            },
    {
        match refresh_token_to_send(&self.auth_data, self.token_refresh_buffer_seconds, now) {
            None => Ok(()),
            Some(refresh_token) => {
                let outcome = refresh_fn(refresh_token);
                self.complete_refresh(outcome)
            },
        }
    }

    /// Makes sure the stored access token is fresh, with the clock readings
    /// given: `now_first` for the first look, `now_second` for the second.
    ///
    /// `refresh_fn` is called at most once, with the stored refresh token,
    /// and only where both looks find a refresh due: on every other path
    /// the caller need not even show that it can be called.
    pub fn ensure_valid_token_at<F: FnOnce(String) -> Result<AuthData, ClientError>>(
        &mut self,
        now_first: i64,
        now_second: i64,
        refresh_fn: F,
    ) -> (result: Result<(), ClientError>)
        requires
            forall|sent: String|
                old(self)@.refresh_request(now_first, now_second) == Some(sent@) ==> call_requires(
                    refresh_fn,
                    (sent,),
                ),
        ensures
            old(self)@.ensured(now_first, now_second, refresh_fn, status_view(result), final(self)@),
    {
        match check_freshness(&self.auth_data, self.token_refresh_buffer_seconds, now_first)? {
            Freshness::UpToDate => Ok(()),
            Freshness::RefreshDue => self.refresh_if_still_due(now_second, refresh_fn),
        }
    }

    /// Makes sure the stored access token is fresh.
    ///
    /// Returns at once when no pair is stored or the access token is not
    /// about to expire. Fails, without a refresh, when the access token
    /// cannot be decoded. Otherwise looks again and, unless the token has
    /// become fresh, calls `refresh_fn` with the stored refresh token: its
    /// pair replaces the stored one, its error is handed on and the store
    /// stays as it was. The clock is read before each look; its readings
    /// are never negative.
    pub fn ensure_valid_token<F: FnOnce(String) -> Result<AuthData, ClientError>>(
        &mut self,
        refresh_fn: F,
    ) -> (result: Result<(), ClientError>)
        requires
            old(self)@.auth_data is Some ==> forall|sent: String|
                sent@ == old(self)@.auth_data->0.refresh_token ==> call_requires(
                    refresh_fn,
                    (sent,),
                ),
        ensures
            exists|now_first: i64, now_second: i64|
                now_first >= 0 && now_second >= 0 && #[trigger] old(self)@.ensured(
                    now_first,
                    now_second,
                    refresh_fn,
                    status_view(result),
                    final(self)@,
                ),
            old(self)@.auth_data is None ==> result is Ok && final(self)@ == old(self)@,
    {
        let now_first = unix_now();
        match check_freshness(&self.auth_data, self.token_refresh_buffer_seconds, now_first) {
            Err(error) => {
                proof {
                    assert(old(self)@.ensured(
                        now_first,
                        0,
                        refresh_fn,
                        status_view(Err(error)),
                        self@,
                    ));
                }
                Err(error)
            },
            Ok(Freshness::UpToDate) => {
                proof {
                    assert(old(self)@.ensured(now_first, 0, refresh_fn, status_view(Ok(())), self@));
                }
                Ok(())
            },
            Ok(Freshness::RefreshDue) => {
                let now_second = unix_now();
                let result = self.refresh_if_still_due(now_second, refresh_fn);
                proof {
                    assert(old(self)@.ensured(
                        now_first,
                        now_second,
                        refresh_fn,
                        status_view(result),
                        self@,
                    ));
                }
                result
            },
        }
    }
}

/// Storing a pair and reading the store back yields that pair, whatever the
/// store held before; the buffer is untouched.
pub proof fn lemma_set_then_get(store: TokenStore, data: AuthDataView)
    ensures
        store.set(data).auth_data == Some(data),
        store.set(data).refresh_buffer_seconds == store.refresh_buffer_seconds,
{
}

/// With nothing stored, making sure of a fresh token succeeds, leaves the
/// store alone and asks for no refresh, at whatever instants it looks.
pub proof fn lemma_empty_store_needs_no_refresh<F: FnOnce(String) -> Result<AuthData, ClientError>>(
    store: TokenStore,
    now_first: i64,
    now_second: i64,
    refresh_fn: F,
    result: Result<(), ClientErrorView>,
    after: TokenStore,
)
    requires
        store.auth_data is None,
        store.ensured(now_first, now_second, refresh_fn, result, after),
    ensures
        first_look(store.auth_data, store.refresh_buffer_seconds, now_first) == Ok::<
            Freshness,
            ClientErrorView,
        >(Freshness::UpToDate),
        store.refresh_request(now_first, now_second) is None,
        result is Ok,
        after == store,
{
}

/// With a token stored that is not about to expire at the first look, making
/// sure of a fresh token succeeds at that look: the exclusive section is not
/// entered, no refresh is asked for and the store is left alone.
pub proof fn lemma_fresh_token_needs_no_refresh<F: FnOnce(String) -> Result<AuthData, ClientError>>(
    store: TokenStore,
    now_first: i64,
    now_second: i64,
    refresh_fn: F,
    result: Result<(), ClientErrorView>,
    after: TokenStore,
)
    requires
        store.auth_data matches Some(data) && decoded_claims(data.access_token) matches Ok(claims)
            && !claims.expires_soon_at(now_first, store.refresh_buffer_seconds),
        store.ensured(now_first, now_second, refresh_fn, result, after),
    ensures
        first_look(store.auth_data, store.refresh_buffer_seconds, now_first) == Ok::<
            Freshness,
            ClientErrorView,
        >(Freshness::UpToDate),
        store.refresh_request(now_first, now_second) is None,
        result is Ok,
        after == store,
{
}

/// A refresh that fails is handed to the caller and leaves the store as it
/// was.
pub proof fn lemma_failed_refresh_keeps_store(
    stored: Option<AuthDataView>,
    buffer_seconds: i64,
    now: i64,
    error: ClientErrorView,
)
    ensures
        exclusive_section(stored, buffer_seconds, now, Err(error)).0 == stored,
        refresh_result(Err(error)) == Err::<(), ClientErrorView>(error),
{
}

/// Callers that found the token stale and pass through the exclusive section
/// one after another make one refresh between them.
///
/// The first to enter finds the refresh still due and receives the pair
/// `fresh`. If the access token of `fresh` is not about to expire at the
/// instants at which the later callers look, none of them refreshes again:
/// each of the `callers` leaves the section with `fresh` stored.
pub proof fn lemma_one_refresh_serves_all(
    stored: Option<AuthDataView>,
    buffer_seconds: i64,
    nows: Seq<i64>,
    replies: Seq<Result<AuthDataView, ClientErrorView>>,
    fresh: AuthDataView,
    callers: nat,
)
    requires
        1 <= callers <= nows.len(),
        nows.len() == replies.len(),
        second_look(stored, buffer_seconds, nows[0]) is Some,
        replies[0] == Ok::<AuthDataView, ClientErrorView>(fresh),
        decoded_claims(fresh.access_token) matches Ok(claims) && forall|i: int|
            1 <= i < nows.len() ==> !claims.expires_soon_at(#[trigger] nows[i], buffer_seconds),
    ensures
        refreshes_made(stored, buffer_seconds, nows, replies, callers) == 1,
        store_after(stored, buffer_seconds, nows, replies, callers) == Some(fresh),
    decreases callers,
{
    if callers == 1 {
        assert(store_after(stored, buffer_seconds, nows, replies, 0) == stored);
        assert(refreshes_made(stored, buffer_seconds, nows, replies, 0) == 0);
    } else {
        lemma_one_refresh_serves_all(
            stored,
            buffer_seconds,
            nows,
            replies,
            fresh,
            (callers - 1) as nat,
        );
    }
}

} // verus!
