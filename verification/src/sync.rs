//! The decisions of a cache sync, as a state machine: the caller performs the
//! step that a state asks for (load the credentials, fetch the usage, write the
//! cache) and hands back what happened; the machine says what comes next and,
//! at the end, what to report.

use vstd::prelude::*;
use vstd::string::*;
use crate::model::{WarpCredentials, WarpUsageCache, SyncOutcome};
use crate::graphql::{WarpError, error_text, error_valid};

verus! {

/// Where a sync stands, and so what the caller is to do next.
#[derive(Debug)]
pub enum SyncState {
    /// Load the stored credentials.
    LoadingCredentials,
    /// Fetch the usage with these credentials.
    Fetching(WarpCredentials),
    /// Write this cache.
    WritingCache(WarpUsageCache),
    /// The sync is over; report this outcome.
    Done(SyncOutcome),
}

/// What the caller observed while doing the step a state asked for.
#[derive(Debug)]
pub enum SyncEvent {
    CredentialsLoaded(Option<WarpCredentials>),
    UsageFetched(Result<WarpUsageCache, WarpError>),
    CacheWritten(Result<(), String>),
}

/// An outcome that reports failure with the message `text` and no figures.
pub open spec fn failed_without_figures(o: SyncOutcome, text: Seq<char>) -> bool {
    &&& !o.synced
    &&& o.requests_used is None
    &&& o.spend_cents is None
    &&& o.workspace_count == 0
    &&& o.error matches Some(t)
    &&& t@ == text
}

/// An outcome that carries the figures of `cache`.
pub open spec fn reports_cache(o: SyncOutcome, cache: WarpUsageCache) -> bool {
    &&& o.requests_used == cache.usage.requests_used
    &&& o.spend_cents == cache.usage.spend_cents
    &&& o.workspace_count == cache.workspaces@.len()
}

/// The state that follows `state` once `event` was observed. An event that
/// does not answer the state's request leaves the state as it was.
pub open spec fn sync_transition(state: SyncState, event: SyncEvent, next: SyncState) -> bool {
    match (state, event) {
        (SyncState::LoadingCredentials, SyncEvent::CredentialsLoaded(None)) => {
            &&& next matches SyncState::Done(o)
            &&& failed_without_figures(o, error_text(WarpError::NotAuthenticated))
        },
        (SyncState::LoadingCredentials, SyncEvent::CredentialsLoaded(Some(c))) => next == SyncState::Fetching(c),
        (SyncState::Fetching(_), SyncEvent::UsageFetched(Ok(cache))) => next == SyncState::WritingCache(cache),
        (SyncState::Fetching(_), SyncEvent::UsageFetched(Err(e))) => {
            &&& next matches SyncState::Done(o)
            &&& failed_without_figures(o, error_text(e))
        },
        (SyncState::WritingCache(cache), SyncEvent::CacheWritten(Ok(()))) => {
            &&& next matches SyncState::Done(o)
            &&& o.synced
            &&& o.error is None
            &&& reports_cache(o, cache)
        },
        (SyncState::WritingCache(cache), SyncEvent::CacheWritten(Err(w))) => {
            &&& next matches SyncState::Done(o)
            &&& !o.synced
            &&& reports_cache(o, cache)
            &&& o.error matches Some(t)
            &&& t@ == "Failed to write Warp cache: "@ + w@
        },
        _ => next == state,
    }
}

/// A sync begins by loading the credentials.
pub fn sync_start() -> (r: SyncState)
    ensures
        r == SyncState::LoadingCredentials,
{
    SyncState::LoadingCredentials
}

fn failure(text: String) -> (o: SyncOutcome)
    ensures
        failed_without_figures(o, text@),
{
    SyncOutcome { synced: false, requests_used: None, spend_cents: None, workspace_count: 0, error: Some(text) }
}

/// The state that follows `state` once `event` was observed.
pub fn sync_step(state: SyncState, event: SyncEvent) -> (r: SyncState)
    requires
        event matches SyncEvent::UsageFetched(Err(e)) ==> error_valid(e),
    ensures
        sync_transition(state, event, r),
{
    match (state, event) {
        (SyncState::LoadingCredentials, SyncEvent::CredentialsLoaded(None)) => {
            SyncState::Done(failure(WarpError::NotAuthenticated.message()))
        },
        (SyncState::LoadingCredentials, SyncEvent::CredentialsLoaded(Some(c))) => SyncState::Fetching(c),
        (SyncState::Fetching(_), SyncEvent::UsageFetched(Ok(cache))) => SyncState::WritingCache(cache),
        (SyncState::Fetching(_), SyncEvent::UsageFetched(Err(e))) => SyncState::Done(failure(e.message())),
        (SyncState::WritingCache(cache), SyncEvent::CacheWritten(Ok(()))) => SyncState::Done(
            SyncOutcome {
                synced: true,
                requests_used: cache.usage.requests_used,
                spend_cents: cache.usage.spend_cents,
                workspace_count: cache.workspaces.len(),
                error: None,
            },
        ),
        (SyncState::WritingCache(cache), SyncEvent::CacheWritten(Err(w))) => {
            let mut text = String::from_str("Failed to write Warp cache: ");
            text.append(w.as_str());
            SyncState::Done(
                SyncOutcome {
                    synced: false,
                    requests_used: cache.usage.requests_used,
                    spend_cents: cache.usage.spend_cents,
                    workspace_count: cache.workspaces.len(),
                    error: Some(text),
                },
            )
        },
        (state, _) => state,
    }
}

/// A reported outcome says it synced exactly when it carries no error.
pub open spec fn sync_state_consistent(s: SyncState) -> bool {
    s matches SyncState::Done(o) ==> (o.synced <==> o.error is None)
}

/// Every state a sync can reach from its start is consistent: the outcome
/// reports success exactly when it carries no error message.
pub proof fn law_sync_outcome_synced_iff_no_error(state: SyncState, event: SyncEvent, next: SyncState)
    requires
        sync_state_consistent(state),
        sync_transition(state, event, next),
    ensures
        sync_state_consistent(next),
{
}

/// A sync reports success only after the cache was written, and then it
/// reports the figures of the cache that was written.
pub proof fn law_sync_success_only_after_write(state: SyncState, event: SyncEvent, next: SyncState)
    requires
        !(state is Done),
        sync_transition(state, event, next),
        next matches SyncState::Done(o) && o.synced,
    ensures
        state matches SyncState::WritingCache(cache) && event matches SyncEvent::CacheWritten(Ok(_))
            && (next matches SyncState::Done(o) && reports_cache(o, cache)),
{
    match state {
        SyncState::WritingCache(cache) => match event {
            SyncEvent::CacheWritten(Ok(())) => {
            },
            SyncEvent::CacheWritten(Err(_)) => {},
            _ => {},
        },
        _ => {},
    }
}

} // verus!
