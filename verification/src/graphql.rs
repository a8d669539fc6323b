//! The Warp GraphQL exchange as data: the queries that are sent, the checks
//! made on each reply, the errors a fetch can end in, and the folding of the
//! replies into a usage cache.

use vstd::prelude::*;
use vstd::string::*;
use crate::json::{JsonValue, JsonNumber, member, object_get, lookup};
use crate::extract::{
    as_string, find_i64, find_string, direct_i64_from, workspaces_in, key_views, find_i64_by_keys,
    find_string_by_key, extract_workspace_usage, key_list, single_key,
};
use crate::model::{WarpAggregateUsage, WarpAuthKind, WarpCredentials, WarpUsageCache, WarpWorkspaceUsage};
use crate::text::{join, views, join_strings};

verus! {

pub const WARP_GRAPHQL_ENDPOINT: &'static str = "https://app.warp.dev/graphql/v2";

pub const REQUEST_LIMIT_QUERY: &'static str = "query GetRequestLimitInfo { requestLimitInfo { requestLimit requestsUsedSinceLastRefresh nextRefreshTime bonusGrantsInfo { spendingInfo { currentMonthSpendCents currentMonthCreditsPurchased } } } }";

pub const WORKSPACES_QUERY: &'static str = "query GetWorkspacesMetadataForUser { workspacesMetadataForUser { id name totalRequestsUsedSinceLastRefresh aiOverages { currentMonthlyRequestCostCents currentMonthlyRequestsUsed } usageInfo { requestsUsedSinceLastRefresh } members { userId usageInfo { requestsUsedSinceLastRefresh } } } }";

/// Why a Warp fetch or sync did not succeed.
#[derive(Debug, Clone, PartialEq, Eq)]
pub enum WarpError {
    /// No stored credentials.
    NotAuthenticated,
    /// The API answered 401 or 403.
    AuthenticationFailed,
    /// The API answered another non-success status (the code).
    HttpStatus(u16),
    /// The reply carried GraphQL errors (at most the first three messages).
    GraphQlErrors(Vec<String>),
    /// No reply carried a request count, a spend or a workspace.
    MissingUsageFields,
    /// A transport or decoding failure, described by its text.
    Transport(String),
}

/// The status line that reqwest (`http::StatusCode`'s `Display`) renders for a
/// status code: the code and its canonical reason phrase.
pub uninterp spec fn http_status_line(code: u16) -> Seq<char>;

/// Renders `code` with `reqwest::StatusCode::from_u16` and `ToString`; the
/// result is named `http_status_line(code)`. `from_u16` accepts 100..=999,
/// which `requires` asks for.
#[verifier::external_body]
fn status_line(code: u16) -> (r: String)
    requires
        100 <= code <= 999,
    ensures
        r@ == http_status_line(code),
{
    match reqwest::StatusCode::from_u16(code) {
        Ok(status) => status.to_string(),
        Err(_) => String::new(),
    }
}

pub open spec fn error_valid(e: WarpError) -> bool {
    match e {
        WarpError::HttpStatus(code) => 100 <= code <= 999,
        _ => true,
    }
}

/// The text a `WarpError` is reported with.
pub open spec fn error_text(e: WarpError) -> Seq<char> {
    match e {
        WarpError::NotAuthenticated =>
            "Not authenticated. Run `tokscale warp login`, then `tokscale warp sync`."@,
        WarpError::AuthenticationFailed =>
            "Warp authentication failed. Run `tokscale warp login` with a fresh credential."@,
        WarpError::HttpStatus(code) => "Warp GraphQL API returned status "@ + http_status_line(code),
        WarpError::GraphQlErrors(messages) => if join(views(messages@), "; "@).len() == 0 {
            "Warp GraphQL API returned errors"@
        } else {
            "Warp GraphQL API returned errors: "@ + join(views(messages@), "; "@)
        },
        WarpError::MissingUsageFields => "Warp GraphQL response did not contain aggregate usage fields"@,
        WarpError::Transport(text) => text@,
    }
}

impl WarpError {
    /// The text this error is reported with.
    pub fn message(&self) -> (r: String)
        requires
            error_valid(*self),
        ensures
            r@ == error_text(*self),
    {
        match self {
            WarpError::NotAuthenticated => String::from_str(
                "Not authenticated. Run `tokscale warp login`, then `tokscale warp sync`.",
            ),
            WarpError::AuthenticationFailed => String::from_str(
                "Warp authentication failed. Run `tokscale warp login` with a fresh credential.",
            ),
            WarpError::HttpStatus(code) => {
                let mut text = String::from_str("Warp GraphQL API returned status ");
                let line = status_line(*code);
                text.append(line.as_str());
                text
            },
            WarpError::GraphQlErrors(messages) => {
                let joined = join_strings(messages, "; ");
                if joined.as_str().unicode_len() == 0 {
                    String::from_str("Warp GraphQL API returned errors")
                } else {
                    let mut text = String::from_str("Warp GraphQL API returned errors: ");
                    text.append(joined.as_str());
                    text
                }
            },
            WarpError::MissingUsageFields => String::from_str(
                "Warp GraphQL response did not contain aggregate usage fields",
            ),
            WarpError::Transport(text) => text.clone(),
        }
    }
}

/// Checks the HTTP status of a GraphQL reply: 401 and 403 mean the credential
/// was refused, any other status outside 200..=299 is an error.
pub fn check_graphql_status(status: u16) -> (r: Result<(), WarpError>)
    requires
        100 <= status <= 999,
    ensures
        r == (if status == 401 || status == 403 {
            Err(WarpError::AuthenticationFailed)
        } else if !(200 <= status < 300) {
            Err(WarpError::HttpStatus(status))
        } else {
            Ok(())
        }),
        r matches Err(e) ==> error_valid(e),
{
    if status == 401 || status == 403 {
        Err(WarpError::AuthenticationFailed)
    } else if !(200 <= status && status < 300) {
        Err(WarpError::HttpStatus(status))
    } else {
        Ok(())
    }
}

/// The items of the reply's top-level `errors` array (empty when it has none).
pub open spec fn graphql_error_items(response: JsonValue) -> Seq<JsonValue> {
    match member(response, "errors"@) {
        Some(JsonValue::Array(items)) => items@,
        _ => Seq::empty(),
    }
}

/// The `message` strings of the error items from index `i` on, in order.
pub open spec fn error_messages_from(items: Seq<JsonValue>, i: int) -> Seq<String>
    decreases items.len() - i,
{
    if 0 <= i < items.len() {
        match as_string(member(items[i], "message"@)) {
            Some(m) => seq![m] + error_messages_from(items, i + 1),
            None => error_messages_from(items, i + 1),
        }
    } else {
        Seq::empty()
    }
}

/// The messages an error report carries: the first three.
pub open spec fn reported_messages(response: JsonValue) -> Seq<String> {
    let all = error_messages_from(graphql_error_items(response), 0);
    if all.len() <= 3 { all } else { all.take(3) }
}

/// An error report carries at most three messages, and they are the first
/// messages of the reply in order.
pub proof fn law_reported_messages_are_first_three(response: JsonValue)
    ensures
        reported_messages(response).len() <= 3,
        reported_messages(response) == error_messages_from(graphql_error_items(response), 0).take(
            reported_messages(response).len() as int,
        ),
{
    let all = error_messages_from(graphql_error_items(response), 0);
    if all.len() <= 3 {
        assert(all.take(all.len() as int) =~= all);
    }
}

fn string_member_of(value: &JsonValue, key: &str) -> (r: Option<String>)
    ensures
        r == as_string(member(*value, key@)),
{
    match value {
        JsonValue::Object(fields) => {
            let k = String::from_str(key);
            match object_get(fields, &k) {
                Some(JsonValue::String(s)) => Some(s.clone()),
                _ => None,
            }
        },
        _ => None,
    }
}

/// Rejects a reply whose top-level `errors` array is not empty, reporting the
/// first three error messages.
pub fn ensure_graphql_response_ok(response: &JsonValue) -> (r: Result<(), WarpError>)
    ensures
        match r {
            Ok(()) => graphql_error_items(*response).len() == 0,
            Err(e) => graphql_error_items(*response).len() > 0
                && (e matches WarpError::GraphQlErrors(messages)
                && messages@ == reported_messages(*response)),
        },
        r matches Err(e) ==> error_valid(e),
{
    let items: &Vec<JsonValue> = match response {
        JsonValue::Object(fields) => {
            let k = String::from_str("errors");
            match object_get(fields, &k) {
                Some(JsonValue::Array(items)) => items,
                _ => {
                    return Ok(());
                },
            }
        },
        _ => {
            return Ok(());
        },
    };
    if items.len() == 0 {
        return Ok(());
    }
    let ghost all = error_messages_from(items@, 0);
    let mut messages: Vec<String> = Vec::new();
    let mut i: usize = 0;
    while i < items.len()
        invariant
            i <= items@.len(),
            all == error_messages_from(items@, 0),
            messages@ + error_messages_from(items@, i as int) == all,
            messages@.len() <= 3,
        ensures
            i <= items@.len(),
            messages@ + error_messages_from(items@, i as int) == all,
            messages@.len() == 3 || i == items@.len(),
        decreases items@.len() - i,
    {
        if messages.len() == 3 {
            break;
        }
        let ghost before = messages@;
        match string_member_of(&items[i], "message") {
            Some(m) => {
                messages.push(m);
                assert(before + error_messages_from(items@, i as int) =~= messages@
                    + error_messages_from(items@, i + 1));
            },
            None => {},
        }
        i = i + 1;
    }
    proof {
        if messages@.len() == 3 {
            assert(all.take(3) =~= messages@);
        } else {
            assert(error_messages_from(items@, i as int) =~= Seq::<String>::empty());
            assert(messages@ =~= all);
        }
    }
    Err(WarpError::GraphQlErrors(messages))
}


/// The GraphQL operations a fetch sends, in order: (operation name, query).
pub open spec fn graphql_operation_list() -> Seq<(Seq<char>, Seq<char>)> {
    seq![
        ("GetRequestLimitInfo"@, REQUEST_LIMIT_QUERY@),
        ("GetWorkspacesMetadataForUser"@, WORKSPACES_QUERY@),
    ]
}

/// The GraphQL operations a fetch sends, in order: (operation name, query).
pub fn graphql_operations() -> (r: Vec<(String, String)>)
    ensures
        r@.len() == graphql_operation_list().len(),
        forall|i: int| 0 <= i < r@.len() ==> (#[trigger] r@[i]).0@ == graphql_operation_list()[i].0
            && r@[i].1@ == graphql_operation_list()[i].1,
{
    let mut r: Vec<(String, String)> = Vec::new();
    r.push((String::from_str("GetRequestLimitInfo"), String::from_str(REQUEST_LIMIT_QUERY)));
    r.push((String::from_str("GetWorkspacesMetadataForUser"), String::from_str(WORKSPACES_QUERY)));
    r
}

pub open spec fn is_string_value(v: JsonValue, text: Seq<char>) -> bool {
    &&& v matches JsonValue::String(s)
    &&& s@ == text
}

/// The request body of a GraphQL operation:
/// `{"operationName": <name>, "query": <query>, "variables": {}}`.
pub open spec fn is_graphql_body(body: JsonValue, operation_name: Seq<char>, query: Seq<char>) -> bool {
    &&& body matches JsonValue::Object(fields)
    &&& fields@.len() == 3
    &&& fields@[0].0@ == "operationName"@
    &&& is_string_value(fields@[0].1, operation_name)
    &&& fields@[1].0@ == "query"@
    &&& is_string_value(fields@[1].1, query)
    &&& fields@[2].0@ == "variables"@
    &&& fields@[2].1 matches JsonValue::Object(variables)
    &&& variables@.len() == 0
}

/// Builds the request body of a GraphQL operation.
pub fn graphql_request_body(operation_name: &str, query: &str) -> (r: JsonValue)
    ensures
        is_graphql_body(r, operation_name@, query@),
{
    let mut fields: Vec<(String, JsonValue)> = Vec::new();
    fields.push((String::from_str("operationName"), JsonValue::String(String::from_str(operation_name))));
    fields.push((String::from_str("query"), JsonValue::String(String::from_str(query))));
    fields.push((String::from_str("variables"), JsonValue::Object(Vec::new())));
    JsonValue::Object(fields)
}

/// The HTTP header that presents a stored credential; `sensitive` marks a
/// header value that must be kept out of logs.
#[derive(Debug, Clone, PartialEq, Eq)]
pub struct AuthHeader {
    pub name: String,
    pub value: String,
    pub sensitive: bool,
}

/// The header a request carries for `credentials`: a bearer token goes in a
/// sensitive `Authorization: Bearer <token>` header, a cookie value in a
/// `Cookie` header.
pub fn auth_header(credentials: &WarpCredentials) -> (r: AuthHeader)
    ensures
        match credentials.auth_kind {
            WarpAuthKind::Bearer => {
                &&& r.name@ == "Authorization"@
                &&& r.value@ == "Bearer "@ + credentials.auth_value@
                &&& r.sensitive
            },
            WarpAuthKind::Cookie => {
                &&& r.name@ == "Cookie"@
                &&& r.value@ == credentials.auth_value@
                &&& !r.sensitive
            },
        },
{
    match credentials.auth_kind {
        WarpAuthKind::Bearer => {
            let mut value = String::from_str("Bearer ");
            value.append(credentials.auth_value.as_str());
            AuthHeader { name: String::from_str("Authorization"), value, sensitive: true }
        },
        WarpAuthKind::Cookie => AuthHeader {
            name: String::from_str("Cookie"),
            value: credentials.auth_value.clone(),
            sensitive: false,
        },
    }
}

/// Keys under which the account's request count is reported, in order of preference.
pub open spec fn requests_used_keys() -> Seq<Seq<char>> {
    seq!["requestsUsedSinceLastRefresh"@, "totalRequestsUsedSinceLastRefresh"@, "currentMonthlyRequestsUsed"@]
}

pub open spec fn request_limit_keys() -> Seq<Seq<char>> {
    seq!["requestLimit"@]
}

/// Keys under which the account's spend is reported, in order of preference.
pub open spec fn spend_keys() -> Seq<Seq<char>> {
    seq!["currentMonthSpendCents"@, "currentMonthlyRequestCostCents"@]
}

pub open spec fn credits_keys() -> Seq<Seq<char>> {
    seq!["currentMonthCreditsPurchased"@]
}

/// The first reply, from index `i` on, in which the search under `keys` finds a count.
pub open spec fn first_i64_from(responses: Seq<JsonValue>, keys: Seq<Seq<char>>, i: int) -> Option<i64>
    decreases responses.len() - i,
{
    if 0 <= i < responses.len() {
        match find_i64(responses[i], keys) {
            Some(n) => Some(n),
            None => first_i64_from(responses, keys, i + 1),
        }
    } else {
        None
    }
}

/// The first reply, from index `i` on, in which a string is found under `key`.
pub open spec fn first_string_from(responses: Seq<JsonValue>, key: Seq<char>, i: int) -> Option<String>
    decreases responses.len() - i,
{
    if 0 <= i < responses.len() {
        match find_string(responses[i], key) {
            Some(s) => Some(s),
            None => first_string_from(responses, key, i + 1),
        }
    } else {
        None
    }
}

/// The workspaces of the replies from index `i` on, reply by reply.
pub open spec fn workspaces_from(responses: Seq<JsonValue>, i: int) -> Seq<WarpWorkspaceUsage>
    decreases responses.len() - i,
{
    if 0 <= i < responses.len() {
        workspaces_in(responses[i]) + workspaces_from(responses, i + 1)
    } else {
        Seq::empty()
    }
}

/// The account-wide figures of a set of replies: each figure from the first
/// reply that has it.
pub open spec fn aggregate_usage(responses: Seq<JsonValue>) -> WarpAggregateUsage {
    WarpAggregateUsage {
        requests_used: first_i64_from(responses, requests_used_keys(), 0),
        request_limit: first_i64_from(responses, request_limit_keys(), 0),
        spend_cents: first_i64_from(responses, spend_keys(), 0),
        credits_purchased_cents: first_i64_from(responses, credits_keys(), 0),
        next_refresh_time: first_string_from(responses, "nextRefreshTime"@, 0),
    }
}

/// The replies carry usage: a request count, a spend, or a workspace.
pub open spec fn usage_found(responses: Seq<JsonValue>) -> bool {
    aggregate_usage(responses).requests_used is Some
        || aggregate_usage(responses).spend_cents is Some
        || workspaces_from(responses, 0).len() > 0
}

pub open spec fn or_else<T>(a: Option<T>, b: Option<T>) -> Option<T> {
    match a {
        Some(x) => Some(x),
        None => b,
    }
}

/// Folds GraphQL replies into a usage cache stamped `synced_at`: each
/// account-wide figure from the first reply that has it, and the workspaces of
/// all replies in order. Fails when no reply has a request count, a spend or a
/// workspace.
pub fn normalize_graphql_usage(responses: &Vec<JsonValue>, synced_at: String) -> (r: Result<WarpUsageCache, WarpError>)
    ensures
        match r {
            Ok(cache) => {
                &&& usage_found(responses@)
                &&& cache.version == 1
                &&& cache.synced_at == synced_at
                &&& cache.usage == aggregate_usage(responses@)
                &&& cache.workspaces@ == workspaces_from(responses@, 0)
            },
            Err(e) => !usage_found(responses@) && e == WarpError::MissingUsageFields,
        },
{
    let ghost rs = responses@;
    let requests_keys = key_list(
        "requestsUsedSinceLastRefresh",
        "totalRequestsUsedSinceLastRefresh",
        Some("currentMonthlyRequestsUsed"),
    );
    let limit_keys = single_key("requestLimit");
    let spend = key_list("currentMonthSpendCents", "currentMonthlyRequestCostCents", None);
    let credits = single_key("currentMonthCreditsPurchased");
    let refresh_key = String::from_str("nextRefreshTime");
    let mut requests_used: Option<i64> = None;
    let mut request_limit: Option<i64> = None;
    let mut spend_cents: Option<i64> = None;
    let mut credits_purchased_cents: Option<i64> = None;
    let mut next_refresh_time: Option<String> = None;
    let mut workspaces: Vec<WarpWorkspaceUsage> = Vec::new();
    let mut i: usize = 0;
    while i < responses.len()
        invariant
            i <= rs.len(),
            rs == responses@,
            key_views(requests_keys@) == requests_used_keys(),
            key_views(limit_keys@) == request_limit_keys(),
            key_views(spend@) == spend_keys(),
            key_views(credits@) == credits_keys(),
            refresh_key@ == "nextRefreshTime"@,
            first_i64_from(rs, requests_used_keys(), 0) == or_else(requests_used, first_i64_from(rs, requests_used_keys(), i as int)),
            first_i64_from(rs, request_limit_keys(), 0) == or_else(request_limit, first_i64_from(rs, request_limit_keys(), i as int)),
            first_i64_from(rs, spend_keys(), 0) == or_else(spend_cents, first_i64_from(rs, spend_keys(), i as int)),
            first_i64_from(rs, credits_keys(), 0) == or_else(credits_purchased_cents, first_i64_from(rs, credits_keys(), i as int)),
            first_string_from(rs, "nextRefreshTime"@, 0) == or_else(next_refresh_time, first_string_from(rs, "nextRefreshTime"@, i as int)),
            workspaces_from(rs, 0) == workspaces@ + workspaces_from(rs, i as int),
        decreases rs.len() - i,
    {
        let response = &responses[i];
        if requests_used.is_none() {
            requests_used = find_i64_by_keys(response, &requests_keys);
        }
        if request_limit.is_none() {
            request_limit = find_i64_by_keys(response, &limit_keys);
        }
        if spend_cents.is_none() {
            spend_cents = find_i64_by_keys(response, &spend);
        }
        if credits_purchased_cents.is_none() {
            credits_purchased_cents = find_i64_by_keys(response, &credits);
        }
        if next_refresh_time.is_none() {
            next_refresh_time = find_string_by_key(response, &refresh_key);
        }
        let ghost before = workspaces@;
        let mut found = extract_workspace_usage(response);
        workspaces.append(&mut found);
        proof {
            let a = workspaces_in(rs[i as int]);
            let b = workspaces_from(rs, i + 1);
            assert(before + (a + b) =~= (before + a) + b);
        }
        i = i + 1;
    }
    assert(workspaces@ =~= workspaces@ + workspaces_from(rs, i as int));
    let usage = WarpAggregateUsage {
        requests_used,
        request_limit,
        spend_cents,
        credits_purchased_cents,
        next_refresh_time,
    };
    if usage.requests_used.is_none() && usage.spend_cents.is_none() && workspaces.len() == 0 {
        return Err(WarpError::MissingUsageFields);
    }
    Ok(WarpUsageCache { version: 1, synced_at, usage, workspaces })
}


/// A first reply that is an object whose `requestsUsedSinceLastRefresh` member
/// is an integer `u` within `i64` (zero included) gives the account a request
/// count of exactly `u`, and so the fold finds usage.
pub proof fn law_first_reply_request_count_is_read(responses: Seq<JsonValue>, fields: Vec<(String, JsonValue)>, u: u64)
    requires
        responses.len() > 0,
        responses[0] == JsonValue::Object(fields),
        u <= i64::MAX,
        lookup(fields@, "requestsUsedSinceLastRefresh"@) == Some(JsonValue::Number(JsonNumber::PosInt(u))),
    ensures
        aggregate_usage(responses).requests_used == Some(u as i64),
        usage_found(responses),
{
    let keys = requests_used_keys();
    assert(keys[0] == "requestsUsedSinceLastRefresh"@);
    assert(direct_i64_from(fields@, keys, 0) == Some(u as i64));
    assert(find_i64(responses[0], keys) == Some(u as i64));
    assert(first_i64_from(responses, keys, 0) == Some(u as i64));
}

/// A first reply that is an object whose `currentMonthSpendCents` member is an
/// integer `u` within `i64` (zero included) gives the account a spend of
/// exactly `u`, and so the fold finds usage.
pub proof fn law_first_reply_spend_is_read(responses: Seq<JsonValue>, fields: Vec<(String, JsonValue)>, u: u64)
    requires
        responses.len() > 0,
        responses[0] == JsonValue::Object(fields),
        u <= i64::MAX,
        lookup(fields@, "currentMonthSpendCents"@) == Some(JsonValue::Number(JsonNumber::PosInt(u))),
    ensures
        aggregate_usage(responses).spend_cents == Some(u as i64),
        usage_found(responses),
{
    let keys = spend_keys();
    assert(keys[0] == "currentMonthSpendCents"@);
    assert(direct_i64_from(fields@, keys, 0) == Some(u as i64));
    assert(find_i64(responses[0], keys) == Some(u as i64));
    assert(first_i64_from(responses, keys, 0) == Some(u as i64));
}

} // verus!
