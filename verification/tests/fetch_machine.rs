use tokscale_warp::fetch::{fetch_request, fetch_start, fetch_step, FetchEvent, FetchState};
use tokscale_warp::graphql::WarpError;
use tokscale_warp::json::{JsonNumber, JsonValue};

const STAMP: &str = "2026-05-01T12:00:00+00:00";

fn json(text: &str) -> JsonValue {
    let value: serde_json::Value = serde_json::from_str(text).unwrap();
    convert(&value)
}

fn convert(value: &serde_json::Value) -> JsonValue {
    match value {
        serde_json::Value::Null => JsonValue::Null,
        serde_json::Value::Bool(b) => JsonValue::Bool(*b),
        serde_json::Value::Number(n) => JsonValue::Number(if let Some(u) = n.as_u64() {
            JsonNumber::PosInt(u)
        } else if let Some(i) = n.as_i64() {
            JsonNumber::NegInt(i)
        } else {
            JsonNumber::Float
        }),
        serde_json::Value::String(s) => JsonValue::String(s.clone()),
        serde_json::Value::Array(items) => JsonValue::Array(items.iter().map(convert).collect()),
        serde_json::Value::Object(map) => {
            JsonValue::Object(map.iter().map(|(k, v)| (k.clone(), convert(v))).collect())
        }
    }
}

fn finished(state: FetchState) -> Result<tokscale_warp::model::WarpUsageCache, WarpError> {
    match state {
        FetchState::Finished(result) => result,
        other => panic!("fetch not finished: {other:?}"),
    }
}

#[test]
fn fetch_sends_both_operations_and_folds_their_replies() {
    let state = fetch_start();
    assert!(matches!(&state, FetchState::Sending { index: 0, replies } if replies.is_empty()));
    let (name, body) = fetch_request(0);
    assert_eq!(name, "GetRequestLimitInfo");
    assert!(matches!(body, JsonValue::Object(ref f) if f.len() == 3));
    let state = fetch_step(state, FetchEvent::StatusReceived(200));
    assert!(matches!(&state, FetchState::ReadingBody { index: 0, .. }));
    let state = fetch_step(
        state,
        FetchEvent::BodyReceived(json(r#"{"data": {"requestLimitInfo": {"requestLimit": 100, "requestsUsedSinceLastRefresh": 42}}}"#), STAMP.to_string()),
    );
    assert!(matches!(&state, FetchState::Sending { index: 1, replies } if replies.len() == 1));
    assert_eq!(fetch_request(1).0, "GetWorkspacesMetadataForUser");
    let state = fetch_step(state, FetchEvent::StatusReceived(200));
    let state = fetch_step(
        state,
        FetchEvent::BodyReceived(json(r#"{"data": {"workspacesMetadataForUser": [{"id": "w", "aiOverages": {"currentMonthlyRequestsUsed": 12}}]}}"#), STAMP.to_string()),
    );
    let cache = finished(state).unwrap();
    assert_eq!(cache.version, 1);
    assert_eq!(cache.synced_at, STAMP);
    assert_eq!(cache.usage.requests_used, Some(42));
    assert_eq!(cache.usage.request_limit, Some(100));
    assert_eq!(cache.workspaces.len(), 1);
    assert_eq!(cache.workspaces[0].requests_used, Some(12));
}

#[test]
fn fetch_stops_at_the_first_failure() {
    let refused = fetch_step(fetch_start(), FetchEvent::StatusReceived(401));
    assert_eq!(finished(refused), Err(WarpError::AuthenticationFailed));
    let missing = fetch_step(fetch_start(), FetchEvent::StatusReceived(404));
    assert_eq!(finished(missing), Err(WarpError::HttpStatus(404)));
    let broken = fetch_step(fetch_start(), FetchEvent::TransportFailed("connection refused".to_string()));
    assert_eq!(finished(broken), Err(WarpError::Transport("connection refused".to_string())));
    let reading = fetch_step(fetch_start(), FetchEvent::StatusReceived(200));
    let semantic = fetch_step(reading, FetchEvent::BodyReceived(json(r#"{"errors": [{"message": "token expired"}]}"#), STAMP.to_string()));
    assert_eq!(
        finished(semantic),
        Err(WarpError::GraphQlErrors(vec!["token expired".to_string()]))
    );
    let second = fetch_step(fetch_start(), FetchEvent::StatusReceived(200));
    let second = fetch_step(second, FetchEvent::BodyReceived(json(r#"{"requestLimit": 1}"#), STAMP.to_string()));
    let second = fetch_step(second, FetchEvent::StatusReceived(500));
    assert_eq!(finished(second), Err(WarpError::HttpStatus(500)));
}

#[test]
fn fetch_without_usage_in_any_reply_fails() {
    let mut state = fetch_start();
    for _ in 0..2 {
        state = fetch_step(state, FetchEvent::StatusReceived(200));
        state = fetch_step(state, FetchEvent::BodyReceived(json(r#"{"data": null}"#), STAMP.to_string()));
    }
    assert_eq!(finished(state), Err(WarpError::MissingUsageFields));
}

#[test]
fn fetch_ignores_an_event_that_does_not_answer_its_state() {
    let state = fetch_step(fetch_start(), FetchEvent::BodyReceived(json("{}"), STAMP.to_string()));
    assert!(matches!(state, FetchState::Sending { index: 0, .. }));
}

#[test]
fn finished_fetch_asks_for_nothing_more() {
    let done = fetch_step(fetch_start(), FetchEvent::StatusReceived(403));
    let after = fetch_step(done, FetchEvent::StatusReceived(200));
    assert_eq!(finished(after), Err(WarpError::AuthenticationFailed));
}
