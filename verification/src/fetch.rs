//! The decisions of a usage fetch, as a state machine: the caller sends the
//! operation a state names, reports the reply's status, then its body; the
//! machine checks each, moves to the next operation, and at the end folds the
//! replies into a usage cache.

use vstd::prelude::*;
use crate::json::{JsonValue, member};
use crate::model::WarpUsageCache;
use crate::graphql::{
    WarpError, error_valid, check_graphql_status, ensure_graphql_response_ok, graphql_error_items,
    graphql_operation_list, graphql_operations, graphql_request_body, is_graphql_body,
    normalize_graphql_usage, usage_found, aggregate_usage, workspaces_from, reported_messages,
};

verus! {

/// Where a fetch stands, and so what the caller is to do next.
#[derive(Debug)]
pub enum FetchState {
    /// Send operation `index`; `replies` holds the accepted replies so far.
    Sending { index: usize, replies: Vec<JsonValue> },
    /// Read the body of the reply to operation `index`.
    ReadingBody { index: usize, replies: Vec<JsonValue> },
    /// The fetch is over.
    Finished(Result<WarpUsageCache, WarpError>),
}

/// What the caller observed.
#[derive(Debug)]
pub enum FetchEvent {
    /// Sending the request or reading its body failed; the failure's text.
    TransportFailed(String),
    /// The reply's HTTP status code.
    StatusReceived(u16),
    /// The reply's body, and the time it arrived as RFC 3339 text (the cache
    /// is stamped with the arrival time of the last reply).
    BodyReceived(JsonValue, String),
}

/// A state in progress names an operation that exists and holds one accepted
/// reply per operation before it; a finished state holds a reportable error.
pub open spec fn fetch_state_valid(s: FetchState) -> bool {
    match s {
        FetchState::Sending { index, replies } => index < graphql_operation_list().len() && replies@.len() == index,
        FetchState::ReadingBody { index, replies } => index < graphql_operation_list().len() && replies@.len() == index,
        FetchState::Finished(result) => result matches Err(e) ==> error_valid(e),
    }
}

pub open spec fn fetch_event_valid(e: FetchEvent) -> bool {
    e matches FetchEvent::StatusReceived(code) ==> 100 <= code <= 999
}

/// `result` is what folding `replies` with the stamp `synced_at` gives.
pub open spec fn folded(result: Result<WarpUsageCache, WarpError>, replies: Seq<JsonValue>, synced_at: String) -> bool {
    match result {
        Ok(cache) => {
            &&& usage_found(replies)
            &&& cache.version == 1
            &&& cache.synced_at == synced_at
            &&& cache.usage == aggregate_usage(replies)
            &&& cache.workspaces@ == workspaces_from(replies, 0)
        },
        Err(e) => !usage_found(replies) && e == WarpError::MissingUsageFields,
    }
}

/// The state that follows `state` once `event` was observed. An event that
/// does not answer the state's request leaves the state as it was.
pub open spec fn fetch_transition(state: FetchState, event: FetchEvent, next: FetchState) -> bool {
    match (state, event) {
        (FetchState::Sending { .. }, FetchEvent::TransportFailed(text)) =>
            next == FetchState::Finished(Err(WarpError::Transport(text))),
        (FetchState::ReadingBody { .. }, FetchEvent::TransportFailed(text)) =>
            next == FetchState::Finished(Err(WarpError::Transport(text))),
        (FetchState::Sending { index, replies }, FetchEvent::StatusReceived(code)) =>
            if code == 401 || code == 403 {
                next == FetchState::Finished(Err(WarpError::AuthenticationFailed))
            } else if !(200 <= code < 300) {
                next == FetchState::Finished(Err(WarpError::HttpStatus(code)))
            } else {
                next == FetchState::ReadingBody { index, replies }
            },
        (FetchState::ReadingBody { index, replies }, FetchEvent::BodyReceived(body, received_at)) =>
            if graphql_error_items(body).len() > 0 {
                next matches FetchState::Finished(Err(WarpError::GraphQlErrors(messages)))
                    && messages@ == reported_messages(body)
            } else if index + 1 < graphql_operation_list().len() {
                next matches FetchState::Sending { index: i, replies: r }
                    && i == index + 1 && r@ == replies@.push(body)
            } else {
                next matches FetchState::Finished(result) && folded(result, replies@.push(body), received_at)
            },
        _ => next == state,
    }
}

/// A fetch begins by sending the first operation.
pub fn fetch_start() -> (r: FetchState)
    ensures
        r matches FetchState::Sending { index, replies } && index == 0 && replies@.len() == 0,
        fetch_state_valid(r),
{
    FetchState::Sending { index: 0, replies: Vec::new() }
}

/// The operation name and request body of operation `index`.
pub fn fetch_request(index: usize) -> (r: (String, JsonValue))
    requires
        index < graphql_operation_list().len(),
    ensures
        r.0@ == graphql_operation_list()[index as int].0,
        is_graphql_body(r.1, graphql_operation_list()[index as int].0, graphql_operation_list()[index as int].1),
{
    let mut operations = graphql_operations();
    let (name, query) = operations.remove(index);
    let body = graphql_request_body(name.as_str(), query.as_str());
    (name, body)
}

/// The state that follows `state` once `event` was observed.
pub fn fetch_step(state: FetchState, event: FetchEvent) -> (r: FetchState)
    requires
        fetch_state_valid(state),
        fetch_event_valid(event),
    ensures
        fetch_transition(state, event, r),
        fetch_state_valid(r),
{
    match (state, event) {
        (FetchState::Sending { .. }, FetchEvent::TransportFailed(text)) => FetchState::Finished(
            Err(WarpError::Transport(text)),
        ),
        (FetchState::ReadingBody { .. }, FetchEvent::TransportFailed(text)) => FetchState::Finished(
            Err(WarpError::Transport(text)),
        ),
        (FetchState::Sending { index, replies }, FetchEvent::StatusReceived(code)) => {
            match check_graphql_status(code) {
                Err(e) => FetchState::Finished(Err(e)),
                Ok(()) => FetchState::ReadingBody { index, replies },
            }
        },
        (FetchState::ReadingBody { index, replies }, FetchEvent::BodyReceived(body, received_at)) => {
            match ensure_graphql_response_ok(&body) {
                Err(e) => FetchState::Finished(Err(e)),
                Ok(()) => {
                    let mut replies = replies;
                    replies.push(body);
                    if index + 1 < 2 {
                        FetchState::Sending { index: index + 1, replies }
                    } else {
                        FetchState::Finished(normalize_graphql_usage(&replies, received_at))
                    }
                },
            }
        },
        (state, _) => state,
    }
}

/// A fetch succeeds only on accepting the reply to the last operation, and its
/// cache then folds exactly the accepted replies.
pub proof fn law_fetch_success_needs_every_reply(state: FetchState, event: FetchEvent, next: FetchState)
    requires
        !(state is Finished),
        fetch_state_valid(state),
        fetch_transition(state, event, next),
        next matches FetchState::Finished(Ok(_)),
    ensures
        state matches FetchState::ReadingBody { index, replies }
            && index + 1 == graphql_operation_list().len()
            && (event matches FetchEvent::BodyReceived(body, received_at)
                && graphql_error_items(body).len() == 0
                && (next matches FetchState::Finished(result) && folded(result, replies@.push(body), received_at))),
{
}


/// A finished fetch stays finished whatever is reported next: after a failure
/// no further request is asked for, and the failure is kept as it was.
pub proof fn law_finished_fetch_stays_finished(
    result: Result<WarpUsageCache, WarpError>,
    event: FetchEvent,
    next: FetchState,
)
    requires
        fetch_transition(FetchState::Finished(result), event, next),
    ensures
        next == FetchState::Finished(result),
{
}


/// A reply whose top-level `errors` array is not empty ends the fetch, whatever
/// else it holds and whichever operation it answers, with the reply's first
/// (at most three) error messages.
pub proof fn law_reply_with_errors_ends_the_fetch(
    index: usize,
    replies: Vec<JsonValue>,
    body: JsonValue,
    received_at: String,
    next: FetchState,
)
    requires
        member(body, "errors"@) matches Some(JsonValue::Array(items)) && items@.len() > 0,
        fetch_transition(
            FetchState::ReadingBody { index, replies },
            FetchEvent::BodyReceived(body, received_at),
            next,
        ),
    ensures
        next matches FetchState::Finished(Err(WarpError::GraphQlErrors(messages)))
            && messages@ == reported_messages(body) && messages@.len() <= 3,
{
    assert(graphql_error_items(body).len() > 0);
    crate::graphql::law_reported_messages_are_first_three(body);
}

} // verus!
