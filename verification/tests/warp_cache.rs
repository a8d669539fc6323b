use tokscale_warp::graphql::{
    check_graphql_status, ensure_graphql_response_ok, graphql_operations, graphql_request_body,
    normalize_graphql_usage, WarpError, REQUEST_LIMIT_QUERY,
    WORKSPACES_QUERY,
};
use tokscale_warp::json::{JsonNumber, JsonValue};
use tokscale_warp::graphql::auth_header;
use tokscale_warp::model::{WarpAuthKind, WarpCredentials};

const STAMP: &str = "2026-05-01T12:00:00+00:00";

fn json(text: &str) -> JsonValue {
    let value: serde_json::Value = serde_json::from_str(text).unwrap();
    convert(&value)
}

fn convert(value: &serde_json::Value) -> JsonValue {
    match value {
        serde_json::Value::Null => JsonValue::Null,
        serde_json::Value::Bool(b) => JsonValue::Bool(*b),
        serde_json::Value::Number(n) => JsonValue::Number(if let Some(u) = n.as_u64() {
            JsonNumber::PosInt(u)
        } else if let Some(i) = n.as_i64() {
            JsonNumber::NegInt(i)
        } else {
            JsonNumber::Float
        }),
        serde_json::Value::String(s) => JsonValue::String(s.clone()),
        serde_json::Value::Array(items) => JsonValue::Array(items.iter().map(convert).collect()),
        serde_json::Value::Object(map) => {
            JsonValue::Object(map.iter().map(|(k, v)| (k.clone(), convert(v))).collect())
        }
    }
}

#[test]
fn ensure_graphql_response_ok_rejects_semantic_errors() {
    let response = json(
        r#"{
            "data": { "requestLimitInfo": null },
            "errors": [
                { "message": "token expired" },
                { "message": "workspace unavailable" }
            ]
        }"#,
    );

    let err = ensure_graphql_response_ok(&response).unwrap_err().message();

    assert!(err.contains("Warp GraphQL API returned errors"));
    assert!(err.contains("token expired"));
    assert!(err.contains("workspace unavailable"));
}

#[test]
fn normalize_graphql_usage_extracts_request_limit_and_workspace_overage() {
    let responses = vec![
        json(
            r#"{
                "data": {
                    "requestLimitInfo": {
                        "requestLimit": 100,
                        "requestsUsedSinceLastRefresh": 42,
                        "nextRefreshTime": "2026-06-01T00:00:00Z",
                        "bonusGrantsInfo": {
                            "spendingInfo": {
                                "currentMonthSpendCents": 1234,
                                "currentMonthCreditsPurchased": 500
                            }
                        }
                    }
                }
            }"#,
        ),
        json(
            r#"{
                "data": {
                    "workspacesMetadataForUser": [
                        {
                            "id": "workspace-1",
                            "name": "Personal",
                            "aiOverages": {
                                "currentMonthlyRequestCostCents": 345,
                                "currentMonthlyRequestsUsed": 12
                            }
                        }
                    ]
                }
            }"#,
        ),
    ];

    let cache = normalize_graphql_usage(&responses, STAMP.to_string()).unwrap();

    assert_eq!(cache.usage.requests_used, Some(42));
    assert_eq!(cache.usage.request_limit, Some(100));
    assert_eq!(cache.usage.spend_cents, Some(1234));
    assert_eq!(cache.usage.credits_purchased_cents, Some(500));
    assert_eq!(
        cache.usage.next_refresh_time.as_deref(),
        Some("2026-06-01T00:00:00Z")
    );
    assert_eq!(cache.workspaces.len(), 1);
    assert_eq!(cache.workspaces[0].requests_used, Some(12));
    assert_eq!(cache.workspaces[0].spend_cents, Some(345));
}

#[test]
fn ensure_graphql_response_ok_accepts_replies_without_errors() {
    assert!(ensure_graphql_response_ok(&json(r#"{"data": {}}"#)).is_ok());
    assert!(ensure_graphql_response_ok(&json(r#"{"data": {}, "errors": []}"#)).is_ok());
    assert!(ensure_graphql_response_ok(&json(r#"{"errors": null}"#)).is_ok());
    assert!(ensure_graphql_response_ok(&json(r#"[{"errors": [1]}]"#)).is_ok());
}

#[test]
fn ensure_graphql_response_ok_without_messages_has_plain_text() {
    let err = ensure_graphql_response_ok(&json(r#"{"errors": [{"code": 7}]}"#)).unwrap_err();
    assert_eq!(err, WarpError::GraphQlErrors(vec![]));
    assert_eq!(err.message(), "Warp GraphQL API returned errors");
}

#[test]
fn ensure_graphql_response_ok_reports_first_three_messages() {
    let err = ensure_graphql_response_ok(&json(
        r#"{"errors": [{"message": "a"}, {"message": 3}, {"message": "b"}, {"message": "c"}, {"message": "d"}]}"#,
    ))
    .unwrap_err();
    assert_eq!(err.message(), "Warp GraphQL API returned errors: a; b; c");
}

#[test]
fn check_graphql_status_classifies_statuses() {
    assert_eq!(check_graphql_status(200), Ok(()));
    assert_eq!(check_graphql_status(299), Ok(()));
    assert_eq!(check_graphql_status(401), Err(WarpError::AuthenticationFailed));
    assert_eq!(check_graphql_status(403), Err(WarpError::AuthenticationFailed));
    assert_eq!(check_graphql_status(500), Err(WarpError::HttpStatus(500)));
    assert_eq!(check_graphql_status(302), Err(WarpError::HttpStatus(302)));
    assert_eq!(
        WarpError::HttpStatus(500).message(),
        "Warp GraphQL API returned status 500 Internal Server Error"
    );
    assert_eq!(
        WarpError::AuthenticationFailed.message(),
        "Warp authentication failed. Run `tokscale warp login` with a fresh credential."
    );
}

#[test]
fn normalize_graphql_usage_fails_without_usage() {
    let responses = vec![json(r#"{"data": {"requestLimitInfo": {"requestLimit": 100}}}"#)];
    let err = normalize_graphql_usage(&responses, STAMP.to_string()).unwrap_err();
    assert_eq!(err, WarpError::MissingUsageFields);
    assert_eq!(
        err.message(),
        "Warp GraphQL response did not contain aggregate usage fields"
    );
    assert_eq!(
        normalize_graphql_usage(&vec![], STAMP.to_string()).unwrap_err(),
        WarpError::MissingUsageFields
    );
}

#[test]
fn normalize_graphql_usage_takes_each_figure_from_the_first_reply_that_has_it() {
    let responses = vec![
        json(r#"{"a": {"currentMonthlyRequestsUsed": 7}}"#),
        json(r#"{"requestsUsedSinceLastRefresh": 9, "requestLimit": "50", "currentMonthlyRequestCostCents": -4}"#),
    ];
    let cache = normalize_graphql_usage(&responses, "2026-01-01T00:00:00+00:00".to_string()).unwrap();
    assert_eq!(cache.version, 1);
    assert_eq!(cache.synced_at, "2026-01-01T00:00:00+00:00");
    assert_eq!(cache.usage.requests_used, Some(7));
    assert_eq!(cache.usage.request_limit, Some(50));
    assert_eq!(cache.usage.spend_cents, Some(0));
    assert_eq!(cache.usage.credits_purchased_cents, None);
    assert_eq!(cache.usage.next_refresh_time, None);
    assert!(cache.workspaces.is_empty());
}

#[test]
fn normalize_graphql_usage_collects_workspaces_of_all_replies() {
    let responses = vec![
        json(r#"{"w": [{"totalRequestsUsedSinceLastRefresh": 3, "id": "one"}]}"#),
        json(r#"{"w": {"aiOverages": {"currentMonthSpendCents": 8}, "name": "two"}}"#),
    ];
    let cache = normalize_graphql_usage(&responses, STAMP.to_string()).unwrap();
    assert_eq!(cache.usage.requests_used, Some(3));
    assert_eq!(cache.usage.spend_cents, Some(8));
    assert_eq!(cache.workspaces.len(), 2);
    assert_eq!(cache.workspaces[0].id.as_deref(), Some("one"));
    assert_eq!(cache.workspaces[0].name, None);
    assert_eq!(cache.workspaces[0].requests_used, Some(3));
    assert_eq!(cache.workspaces[0].spend_cents, None);
    assert_eq!(cache.workspaces[1].id, None);
    assert_eq!(cache.workspaces[1].name.as_deref(), Some("two"));
    assert_eq!(cache.workspaces[1].requests_used, None);
    assert_eq!(cache.workspaces[1].spend_cents, Some(8));
}

#[test]
fn graphql_request_body_has_operation_query_and_no_variables() {
    let body = graphql_request_body("GetRequestLimitInfo", REQUEST_LIMIT_QUERY);
    match body {
        JsonValue::Object(fields) => {
            assert_eq!(fields.len(), 3);
            assert_eq!(fields[0].0, "operationName");
            assert!(matches!(&fields[0].1, JsonValue::String(s) if s == "GetRequestLimitInfo"));
            assert_eq!(fields[1].0, "query");
            assert!(matches!(&fields[1].1, JsonValue::String(s) if s == REQUEST_LIMIT_QUERY));
            assert_eq!(fields[2].0, "variables");
            assert!(matches!(&fields[2].1, JsonValue::Object(v) if v.is_empty()));
        }
        _ => panic!("request body must be an object"),
    }
}

#[test]
fn graphql_operations_are_request_limit_then_workspaces() {
    let ops = graphql_operations();
    assert_eq!(ops.len(), 2);
    assert_eq!(ops[0].0, "GetRequestLimitInfo");
    assert_eq!(ops[0].1, REQUEST_LIMIT_QUERY);
    assert_eq!(ops[1].0, "GetWorkspacesMetadataForUser");
    assert_eq!(ops[1].1, WORKSPACES_QUERY);
}

#[test]
fn graphql_error_text_omits_the_colon_when_the_messages_join_to_nothing() {
    let err = ensure_graphql_response_ok(&json(r#"{"errors": [{"message": ""}]}"#)).unwrap_err();
    assert_eq!(err, WarpError::GraphQlErrors(vec!["".to_string()]));
    assert_eq!(err.message(), "Warp GraphQL API returned errors");
    let two = ensure_graphql_response_ok(&json(r#"{"errors": [{"message": ""}, {"message": ""}]}"#)).unwrap_err();
    assert_eq!(two.message(), "Warp GraphQL API returned errors: ; ");
}

#[test]
fn normalize_graphql_usage_stamps_the_cache() {
    let responses = vec![json(r#"{"requestsUsedSinceLastRefresh": 1}"#)];
    let cache = normalize_graphql_usage(&responses, STAMP.to_string()).unwrap();
    assert_eq!(cache.synced_at, STAMP);
}

#[test]
fn auth_header_presents_bearer_tokens_and_cookies() {
    let bearer = WarpCredentials {
        auth_value: "tok".to_string(),
        auth_kind: WarpAuthKind::Bearer,
        created_at: "t".to_string(),
    };
    let h = auth_header(&bearer);
    assert_eq!((h.name.as_str(), h.value.as_str(), h.sensitive), ("Authorization", "Bearer tok", true));
    let cookie = WarpCredentials { auth_kind: WarpAuthKind::Cookie, ..bearer };
    let h = auth_header(&cookie);
    assert_eq!((h.name.as_str(), h.value.as_str(), h.sensitive), ("Cookie", "tok", false));
}
