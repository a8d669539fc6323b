//! The records that the usage layer keeps: stored credentials, the aggregate
//! usage cache, and the outcome of a sync.

use vstd::prelude::*;

verus! {

/// How the stored credential is presented to the Warp API.
#[derive(Debug, Clone, Copy, PartialEq, Eq)]
pub enum WarpAuthKind {
    Bearer,
    Cookie,
}

/// A stored Warp credential.
#[derive(Debug, Clone, PartialEq, Eq)]
pub struct WarpCredentials {
    pub auth_value: String,
    pub auth_kind: WarpAuthKind,
    pub created_at: String,
}

/// Account-wide usage figures.
#[derive(Debug, Clone, PartialEq, Eq)]
pub struct WarpAggregateUsage {
    pub requests_used: Option<i64>,
    pub request_limit: Option<i64>,
    pub spend_cents: Option<i64>,
    pub credits_purchased_cents: Option<i64>,
    pub next_refresh_time: Option<String>,
}

/// Usage figures of one workspace.
#[derive(Debug, Clone, PartialEq, Eq)]
pub struct WarpWorkspaceUsage {
    pub id: Option<String>,
    pub name: Option<String>,
    pub requests_used: Option<i64>,
    pub spend_cents: Option<i64>,
}

/// The usage cache as it is persisted.
#[derive(Debug, Clone, PartialEq, Eq)]
pub struct WarpUsageCache {
    pub version: i32,
    pub synced_at: String,
    pub usage: WarpAggregateUsage,
    pub workspaces: Vec<WarpWorkspaceUsage>,
}

/// Pure-data outcome of a cache sync, for callers to render as they like.
#[derive(Debug, Clone, PartialEq, Eq)]
pub struct SyncOutcome {
    pub synced: bool,
    pub requests_used: Option<i64>,
    pub spend_cents: Option<i64>,
    pub workspace_count: usize,
    pub error: Option<String>,
}


impl Default for WarpAggregateUsage {
    /// No figure known.
    fn default() -> (r: Self)
        ensures
            r.requests_used is None,
            r.request_limit is None,
            r.spend_cents is None,
            r.credits_purchased_cents is None,
            r.next_refresh_time is None,
    {
        WarpAggregateUsage {
            requests_used: None,
            request_limit: None,
            spend_cents: None,
            credits_purchased_cents: None,
            next_refresh_time: None,
        }
    }
}

impl Default for WarpWorkspaceUsage {
    /// No field known.
    fn default() -> (r: Self)
        ensures
            r.id is None,
            r.name is None,
            r.requests_used is None,
            r.spend_cents is None,
    {
        WarpWorkspaceUsage { id: None, name: None, requests_used: None, spend_cents: None }
    }
}

impl Default for SyncOutcome {
    /// Not synced, no figure, no error.
    fn default() -> (r: Self)
        ensures
            !r.synced,
            r.requests_used is None,
            r.spend_cents is None,
            r.workspace_count == 0,
            r.error is None,
    {
        SyncOutcome { synced: false, requests_used: None, spend_cents: None, workspace_count: 0, error: None }
    }
}

} // verus!
