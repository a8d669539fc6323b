use tokscale_warp::desktop::{
    cli_command_args, default_pinned, external_surface, split_whitespace, terminal_command_line,
    ExternalSurface,
};
use tokscale_warp::graphql::WarpError;
use tokscale_warp::login::{login_credentials, trim_whitespace};
use tokscale_warp::model::{
    SyncOutcome, WarpAggregateUsage, WarpAuthKind, WarpCredentials, WarpUsageCache,
    WarpWorkspaceUsage,
};
use tokscale_warp::status::{
    build_status, credentials_path, get_warp_cache_dir, has_usage_cache_in_home, join_path,
    usage_cache_path_in_home,
    usage_path,
};
use tokscale_warp::sync::{sync_start, sync_step, SyncEvent, SyncState};

fn credentials() -> WarpCredentials {
    WarpCredentials {
        auth_value: "token".to_string(),
        auth_kind: WarpAuthKind::Bearer,
        created_at: "2026-01-01T00:00:00+00:00".to_string(),
    }
}

fn cache() -> WarpUsageCache {
    WarpUsageCache {
        version: 1,
        synced_at: "2026-01-01T00:00:00+00:00".to_string(),
        usage: WarpAggregateUsage {
            requests_used: Some(42),
            request_limit: Some(100),
            spend_cents: Some(1234),
            credits_purchased_cents: None,
            next_refresh_time: None,
        },
        workspaces: vec![WarpWorkspaceUsage::default(), WarpWorkspaceUsage::default()],
    }
}

fn done(state: SyncState) -> SyncOutcome {
    match state {
        SyncState::Done(outcome) => outcome,
        other => panic!("sync not done: {other:?}"),
    }
}

#[test]
fn sync_without_credentials_reports_not_authenticated() {
    let state = sync_start();
    assert!(matches!(state, SyncState::LoadingCredentials));
    let outcome = done(sync_step(state, SyncEvent::CredentialsLoaded(None)));
    assert!(!outcome.synced);
    assert_eq!(outcome.requests_used, None);
    assert_eq!(outcome.workspace_count, 0);
    assert_eq!(
        outcome.error.as_deref(),
        Some("Not authenticated. Run `tokscale warp login`, then `tokscale warp sync`.")
    );
}

#[test]
fn sync_that_writes_the_cache_reports_its_figures() {
    let state = sync_step(sync_start(), SyncEvent::CredentialsLoaded(Some(credentials())));
    assert!(matches!(&state, SyncState::Fetching(c) if *c == credentials()));
    let state = sync_step(state, SyncEvent::UsageFetched(Ok(cache())));
    assert!(matches!(&state, SyncState::WritingCache(c) if *c == cache()));
    let outcome = done(sync_step(state, SyncEvent::CacheWritten(Ok(()))));
    assert_eq!(
        outcome,
        SyncOutcome {
            synced: true,
            requests_used: Some(42),
            spend_cents: Some(1234),
            workspace_count: 2,
            error: None,
        }
    );
}

#[test]
fn sync_that_fails_to_write_keeps_figures_and_reports_error() {
    let state = SyncState::WritingCache(cache());
    let outcome = done(sync_step(state, SyncEvent::CacheWritten(Err("disk full".to_string()))));
    assert!(!outcome.synced);
    assert_eq!(outcome.requests_used, Some(42));
    assert_eq!(outcome.spend_cents, Some(1234));
    assert_eq!(outcome.workspace_count, 2);
    assert_eq!(outcome.error.as_deref(), Some("Failed to write Warp cache: disk full"));
}

#[test]
fn sync_that_fails_to_fetch_reports_the_error_text() {
    let state = SyncState::Fetching(credentials());
    let outcome = done(sync_step(state, SyncEvent::UsageFetched(Err(WarpError::HttpStatus(404)))));
    assert_eq!(outcome.synced, false);
    assert_eq!(outcome.workspace_count, 0);
    assert_eq!(
        outcome.error.as_deref(),
        Some("Warp GraphQL API returned status 404 Not Found")
    );
    let outcome = done(sync_step(
        SyncState::Fetching(credentials()),
        SyncEvent::UsageFetched(Err(WarpError::Transport("timed out".to_string()))),
    ));
    assert_eq!(outcome.error.as_deref(), Some("timed out"));
}

#[test]
fn sync_outcome_is_synced_exactly_when_it_has_no_error() {
    let outcomes = vec![
        done(sync_step(sync_start(), SyncEvent::CredentialsLoaded(None))),
        done(sync_step(SyncState::WritingCache(cache()), SyncEvent::CacheWritten(Ok(())))),
        done(sync_step(SyncState::WritingCache(cache()), SyncEvent::CacheWritten(Err("e".to_string())))),
        done(sync_step(SyncState::Fetching(credentials()), SyncEvent::UsageFetched(Err(WarpError::MissingUsageFields)))),
    ];
    for outcome in outcomes {
        assert_eq!(outcome.synced, outcome.error.is_none());
    }
}

#[test]
fn sync_ignores_an_event_that_does_not_answer_its_state() {
    let state = sync_step(SyncState::LoadingCredentials, SyncEvent::CacheWritten(Ok(())));
    assert!(matches!(state, SyncState::LoadingCredentials));
}

#[test]
fn paths_join_like_path_join() {
    assert_eq!(join_path("/home/u", "x", '/'), "/home/u/x");
    assert_eq!(join_path("/home/u/", "x", '/'), "/home/u/x");
    assert_eq!(join_path("", "x", '/'), "x");
    assert_eq!(join_path("C:\\Users\\u", "x", '\\'), "C:\\Users\\u\\x");
    assert_eq!(join_path("C:\\Users\\u/", "x", '\\'), "C:\\Users\\u/x");
    assert_eq!(join_path("C:", "x", '\\'), "C:x");
    assert_eq!(join_path("c:", "x", '\\'), "c:x");
    assert_eq!(join_path("1:", "x", '\\'), "1:\\x");
    assert_eq!(join_path("C:", "x", '/'), "C:/x");
    assert_eq!(get_warp_cache_dir("/c/tokscale", '/'), "/c/tokscale/warp-cache");
    assert_eq!(credentials_path("/c/warp-cache", '/'), "/c/warp-cache/credentials.json");
    assert_eq!(usage_path("/c/warp-cache", '/'), "/c/warp-cache/usage.json");
    assert_eq!(
        usage_cache_path_in_home("/home/u", '/'),
        "/home/u/.config/tokscale/warp-cache/usage.json"
    );
    let native = std::path::Path::new("/home/u").join("x");
    assert_eq!(join_path("/home/u", "x", std::path::MAIN_SEPARATOR), native.to_string_lossy());
    for dir in ["/a/b", "/a/b/", "rel"] {
        assert!(credentials_path(dir, '/').starts_with(dir));
        assert!(usage_path(dir, '/').starts_with(dir));
    }
}

#[test]
fn missing_home_has_no_usage_cache() {
    assert!(!has_usage_cache_in_home("/nonexistent-home-for-tokscale-tests", '/'));
}

#[test]
fn status_reports_cache_figures_and_diagnostics() {
    let status = build_status(Some(cache()), true, "/c/warp-cache".to_string(), '/');
    assert_eq!(status.cache_dir, "/c/warp-cache");
    assert_eq!(status.credentials_path, "/c/warp-cache/credentials.json");
    assert_eq!(status.usage_path, "/c/warp-cache/usage.json");
    assert!(status.has_credentials && status.has_cache);
    assert_eq!(status.requests_used, Some(42));
    assert_eq!(status.request_limit, Some(100));
    assert_eq!(status.spend_cents, Some(1234));
    assert_eq!(status.workspace_count, 2);
    assert!(status.diagnostics.is_empty());

    let empty = build_status(None, false, "d".to_string(), '/');
    assert!(!empty.has_cache);
    assert_eq!(empty.requests_used, None);
    assert_eq!(empty.workspace_count, 0);
    assert_eq!(
        empty.diagnostics,
        vec![
            "missing credentials; run `tokscale warp login`".to_string(),
            "missing aggregate usage cache; run `tokscale warp sync`".to_string(),
        ]
    );
    let no_cache = build_status(None, true, "d".to_string(), '/');
    assert_eq!(
        no_cache.diagnostics,
        vec!["missing aggregate usage cache; run `tokscale warp sync`".to_string()]
    );
}

#[test]
fn login_trims_and_refuses_blank_credentials() {
    let creds = login_credentials("  secret-token\n", false, "t".to_string()).unwrap();
    assert_eq!(creds.auth_value, "secret-token");
    assert_eq!(creds.auth_kind, WarpAuthKind::Bearer);
    assert_eq!(creds.created_at, "t");
    let cookie = login_credentials("a=b", true, "t".to_string()).unwrap();
    assert_eq!(cookie.auth_kind, WarpAuthKind::Cookie);
    assert_eq!(
        login_credentials(" \t\u{3000} ", false, "t".to_string()).unwrap_err(),
        "Warp credential must not be empty"
    );
    for text in ["", "  a b  ", "\u{2003}x\u{85}", "x"] {
        assert_eq!(trim_whitespace(text), text.trim());
    }
}

#[test]
fn desktop_defaults_and_menu_entries() {
    assert!(default_pinned());
    assert_eq!(external_surface("web"), Ok(ExternalSurface::Frontend));
    assert_eq!(external_surface("tui"), Ok(ExternalSurface::Terminal));
    assert_eq!(
        external_surface("gui"),
        Err("unknown external kind: gui".to_string())
    );
}

#[test]
fn command_lines_split_like_split_whitespace() {
    for text in ["", "   ", "warp sync", "  warp\tstatus --json \n", "a\u{a0}b\u{2028}c"] {
        let expected: Vec<String> = text.split_whitespace().map(|s| s.to_string()).collect();
        assert_eq!(split_whitespace(text), expected, "{text:?}");
    }
    assert_eq!(cli_command_args(" \t ").unwrap_err(), "empty command");
    assert_eq!(
        cli_command_args("warp sync --json").unwrap(),
        vec!["warp".to_string(), "sync".to_string(), "--json".to_string()]
    );
    let args = vec!["warp".to_string(), "sync".to_string()];
    assert_eq!(terminal_command_line("tokscale", &args), "tokscale warp sync");
    assert_eq!(terminal_command_line("tokscale", &vec![]), "tokscale");
}
