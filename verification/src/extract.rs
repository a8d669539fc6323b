//! Finding usage figures anywhere in a GraphQL reply: the first integer under
//! one of several keys, the first string under a key, and the workspaces.

use vstd::prelude::*;
use vstd::string::*;
use crate::json::{JsonValue, JsonNumber, lookup, spec_value_to_i64, object_get, value_to_i64};
use crate::model::{WarpWorkspaceUsage};

verus! {

pub open spec fn key_views(keys: Seq<String>) -> Seq<Seq<char>> {
    keys.map_values(|k: String| k@)
}

/// Counts read straight off an object are never reported below zero.
pub open spec fn clamp_nonneg(n: i64) -> i64 {
    if n < 0 { 0 } else { n }
}

/// The first of `keys` (from index `j` on) whose member reads as an integer.
pub open spec fn direct_i64_from(fields: Seq<(String, JsonValue)>, keys: Seq<Seq<char>>, j: int) -> Option<i64>
    decreases keys.len() - j,
{
    if 0 <= j < keys.len() {
        match lookup(fields, keys[j]) {
            Some(v) => match spec_value_to_i64(v) {
                Some(n) => Some(n),
                None => direct_i64_from(fields, keys, j + 1),
            },
            None => direct_i64_from(fields, keys, j + 1),
        }
    } else {
        None
    }
}

/// Depth-first search for an integer under one of `keys`: at an object its own
/// members are tried key by key first (clamped at zero), then its members'
/// values in order; in an array the items in order.
pub open spec fn find_i64(v: JsonValue, keys: Seq<Seq<char>>) -> Option<i64>
    decreases v, 0int,
{
    match v {
        JsonValue::Object(fields) => match direct_i64_from(fields@, keys, 0) {
            Some(n) => Some(clamp_nonneg(n)),
            None => find_i64_in_fields(fields@, keys, 0),
        },
        JsonValue::Array(items) => find_i64_in_items(items@, keys, 0),
        _ => None,
    }
}

pub open spec fn find_i64_in_fields(fields: Seq<(String, JsonValue)>, keys: Seq<Seq<char>>, i: int) -> Option<i64>
    decreases fields, fields.len() - i,
{
    if 0 <= i < fields.len() {
        match find_i64(fields[i].1, keys) {
            Some(n) => Some(n),
            None => find_i64_in_fields(fields, keys, i + 1),
        }
    } else {
        None
    }
}

pub open spec fn find_i64_in_items(items: Seq<JsonValue>, keys: Seq<Seq<char>>, i: int) -> Option<i64>
    decreases items, items.len() - i,
{
    if 0 <= i < items.len() {
        match find_i64(items[i], keys) {
            Some(n) => Some(n),
            None => find_i64_in_items(items, keys, i + 1),
        }
    } else {
        None
    }
}

/// Searches `value` for an integer stored under one of `keys`.
pub fn find_i64_by_keys(value: &JsonValue, keys: &Vec<String>) -> (r: Option<i64>)
    ensures
        r == find_i64(*value, key_views(keys@)),
    decreases value,
{
    let ghost kv = key_views(keys@);
    match value {
        JsonValue::Object(fields) => {
            let mut j: usize = 0;
            while j < keys.len()
                invariant
                    j <= keys@.len(),
                    kv == key_views(keys@),
                    *value == JsonValue::Object(*fields),
                    direct_i64_from(fields@, kv, 0) == direct_i64_from(fields@, kv, j as int),
                decreases keys@.len() - j,
            {
                assert(kv[j as int] == keys@[j as int]@);
                match object_get(fields, &keys[j]) {
                    Some(v) => match value_to_i64(v) {
                        Some(n) => {
                            return Some(if n < 0 { 0 } else { n });
                        },
                        None => {},
                    },
                    None => {},
                }
                j = j + 1;
            }
            let mut i: usize = 0;
            while i < fields.len()
                invariant
                    i <= fields@.len(),
                    kv == key_views(keys@),
                    *value == JsonValue::Object(*fields),
                    direct_i64_from(fields@, kv, 0) is None,
                    find_i64_in_fields(fields@, kv, 0) == find_i64_in_fields(fields@, kv, i as int),
                decreases fields@.len() - i,
            {
                match find_i64_by_keys(&fields[i].1, keys) {
                    Some(n) => {
                        return Some(n);
                    },
                    None => {},
                }
                i = i + 1;
            }
            None
        },
        JsonValue::Array(items) => {
            let mut i: usize = 0;
            while i < items.len()
                invariant
                    i <= items@.len(),
                    kv == key_views(keys@),
                    *value == JsonValue::Array(*items),
                    find_i64_in_items(items@, kv, 0) == find_i64_in_items(items@, kv, i as int),
                decreases items@.len() - i,
            {
                match find_i64_by_keys(&items[i], keys) {
                    Some(n) => {
                        return Some(n);
                    },
                    None => {},
                }
                i = i + 1;
            }
            None
        },
        _ => None,
    }
}


/// Every count the search reports is at least zero.
pub proof fn law_found_counts_nonneg(v: JsonValue, keys: Seq<Seq<char>>)
    ensures
        find_i64(v, keys) matches Some(n) ==> n >= 0,
    decreases v, 0int,
{
    match v {
        JsonValue::Object(fields) => {
            lemma_fields_counts_nonneg(fields@, keys, 0);
        },
        JsonValue::Array(items) => {
            lemma_items_counts_nonneg(items@, keys, 0);
        },
        _ => {},
    }
}

proof fn lemma_fields_counts_nonneg(fields: Seq<(String, JsonValue)>, keys: Seq<Seq<char>>, i: int)
    ensures
        find_i64_in_fields(fields, keys, i) matches Some(n) ==> n >= 0,
    decreases fields, fields.len() - i,
{
    if 0 <= i < fields.len() {
        law_found_counts_nonneg(fields[i].1, keys);
        lemma_fields_counts_nonneg(fields, keys, i + 1);
    }
}

proof fn lemma_items_counts_nonneg(items: Seq<JsonValue>, keys: Seq<Seq<char>>, i: int)
    ensures
        find_i64_in_items(items, keys, i) matches Some(n) ==> n >= 0,
    decreases items, items.len() - i,
{
    if 0 <= i < items.len() {
        law_found_counts_nonneg(items[i], keys);
        lemma_items_counts_nonneg(items, keys, i + 1);
    }
}

/// Depth-first search for a string stored under `key`: an object's own member
/// first, then its members' values in order; in an array the items in order.
pub open spec fn find_string(v: JsonValue, key: Seq<char>) -> Option<String>
    decreases v, 0int,
{
    match v {
        JsonValue::Object(fields) => match lookup(fields@, key) {
            Some(JsonValue::String(s)) => Some(s),
            _ => find_string_in_fields(fields@, key, 0),
        },
        JsonValue::Array(items) => find_string_in_items(items@, key, 0),
        _ => None,
    }
}

pub open spec fn find_string_in_fields(fields: Seq<(String, JsonValue)>, key: Seq<char>, i: int) -> Option<String>
    decreases fields, fields.len() - i,
{
    if 0 <= i < fields.len() {
        match find_string(fields[i].1, key) {
            Some(s) => Some(s),
            None => find_string_in_fields(fields, key, i + 1),
        }
    } else {
        None
    }
}

pub open spec fn find_string_in_items(items: Seq<JsonValue>, key: Seq<char>, i: int) -> Option<String>
    decreases items, items.len() - i,
{
    if 0 <= i < items.len() {
        match find_string(items[i], key) {
            Some(s) => Some(s),
            None => find_string_in_items(items, key, i + 1),
        }
    } else {
        None
    }
}

/// Searches `value` for a string stored under `key`.
pub fn find_string_by_key(value: &JsonValue, key: &String) -> (r: Option<String>)
    ensures
        r == find_string(*value, key@),
    decreases value,
{
    match value {
        JsonValue::Object(fields) => {
            match object_get(fields, key) {
                Some(JsonValue::String(s)) => {
                    return Some(s.clone());
                },
                _ => {},
            }
            let mut i: usize = 0;
            while i < fields.len()
                invariant
                    i <= fields@.len(),
                    *value == JsonValue::Object(*fields),
                    !(lookup(fields@, key@) matches Some(JsonValue::String(_))),
                    find_string_in_fields(fields@, key@, 0) == find_string_in_fields(fields@, key@, i as int),
                decreases fields@.len() - i,
            {
                match find_string_by_key(&fields[i].1, key) {
                    Some(s) => {
                        return Some(s);
                    },
                    None => {},
                }
                i = i + 1;
            }
            None
        },
        JsonValue::Array(items) => {
            let mut i: usize = 0;
            while i < items.len()
                invariant
                    i <= items@.len(),
                    *value == JsonValue::Array(*items),
                    find_string_in_items(items@, key@, 0) == find_string_in_items(items@, key@, i as int),
                decreases items@.len() - i,
            {
                match find_string_by_key(&items[i], key) {
                    Some(s) => {
                        return Some(s);
                    },
                    None => {},
                }
                i = i + 1;
            }
            None
        },
        _ => None,
    }
}

/// The string held by a member, if the member is a string.
pub open spec fn as_string(v: Option<JsonValue>) -> Option<String> {
    match v {
        Some(JsonValue::String(s)) => Some(s),
        _ => None,
    }
}

/// Keys under which a workspace reports its request count, in order of preference.
pub open spec fn workspace_requests_keys() -> Seq<Seq<char>> {
    seq!["currentMonthlyRequestsUsed"@, "totalRequestsUsedSinceLastRefresh"@, "requestsUsedSinceLastRefresh"@]
}

/// Keys under which a workspace reports its spend, in order of preference.
pub open spec fn workspace_spend_keys() -> Seq<Seq<char>> {
    seq!["currentMonthlyRequestCostCents"@, "currentMonthSpendCents"@]
}

/// An object is taken for a workspace when it carries overage data or a
/// workspace-wide request total.
pub open spec fn looks_like_workspace(fields: Seq<(String, JsonValue)>) -> bool {
    lookup(fields, "aiOverages"@) is Some || lookup(fields, "totalRequestsUsedSinceLastRefresh"@) is Some
}

/// The workspace record read from the object `v` with members `fields`.
pub open spec fn workspace_record(v: JsonValue, fields: Seq<(String, JsonValue)>) -> WarpWorkspaceUsage {
    WarpWorkspaceUsage {
        id: as_string(lookup(fields, "id"@)),
        name: as_string(lookup(fields, "name"@)),
        requests_used: find_i64(v, workspace_requests_keys()),
        spend_cents: find_i64(v, workspace_spend_keys()),
    }
}

pub open spec fn has_usage_figure(w: WarpWorkspaceUsage) -> bool {
    w.requests_used is Some || w.spend_cents is Some
}

/// The workspaces found in `v`, in document order. An object taken for a
/// workspace that has a usage figure is one workspace and is not searched
/// further; any other object or array is searched member by member.
pub open spec fn workspaces_in(v: JsonValue) -> Seq<WarpWorkspaceUsage>
    decreases v, 0int,
{
    match v {
        JsonValue::Object(fields) => {
            if looks_like_workspace(fields@) && has_usage_figure(workspace_record(v, fields@)) {
                seq![workspace_record(v, fields@)]
            } else {
                workspaces_in_fields(fields@, 0)
            }
        },
        JsonValue::Array(items) => workspaces_in_items(items@, 0),
        _ => Seq::empty(),
    }
}

pub open spec fn workspaces_in_fields(fields: Seq<(String, JsonValue)>, i: int) -> Seq<WarpWorkspaceUsage>
    decreases fields, fields.len() - i,
{
    if 0 <= i < fields.len() {
        workspaces_in(fields[i].1) + workspaces_in_fields(fields, i + 1)
    } else {
        Seq::empty()
    }
}

pub open spec fn workspaces_in_items(items: Seq<JsonValue>, i: int) -> Seq<WarpWorkspaceUsage>
    decreases items, items.len() - i,
{
    if 0 <= i < items.len() {
        workspaces_in(items[i]) + workspaces_in_items(items, i + 1)
    } else {
        Seq::empty()
    }
}

/// Every workspace that is collected carries a request count or a spend.
pub proof fn law_collected_workspaces_have_figures(v: JsonValue)
    ensures
        forall|k: int| 0 <= k < workspaces_in(v).len() ==> has_usage_figure(#[trigger] workspaces_in(v)[k]),
    decreases v, 0int,
{
    let w = workspaces_in(v);
    match v {
        JsonValue::Object(fields) => {
            lemma_fields_workspaces_have_figures(fields@, 0);
            if looks_like_workspace(fields@) && has_usage_figure(workspace_record(v, fields@)) {
                assert(w =~= seq![workspace_record(v, fields@)]);
            } else {
                assert(w == workspaces_in_fields(fields@, 0));
            }
            assert forall|k: int| 0 <= k < w.len() implies has_usage_figure(#[trigger] w[k]) by {
                if looks_like_workspace(fields@) && has_usage_figure(workspace_record(v, fields@)) {
                    assert(w[k] == workspace_record(v, fields@));
                } else {
                    assert(w[k] == workspaces_in_fields(fields@, 0)[k]);
                }
            }
        },
        JsonValue::Array(items) => {
            lemma_items_workspaces_have_figures(items@, 0);
            assert forall|k: int| 0 <= k < w.len() implies has_usage_figure(#[trigger] w[k]) by {
                assert(w[k] == workspaces_in_items(items@, 0)[k]);
            }
        },
        _ => {},
    }
}

proof fn lemma_fields_workspaces_have_figures(fields: Seq<(String, JsonValue)>, i: int)
    ensures
        forall|k: int| 0 <= k < workspaces_in_fields(fields, i).len()
            ==> has_usage_figure(#[trigger] workspaces_in_fields(fields, i)[k]),
    decreases fields, fields.len() - i,
{
    if 0 <= i < fields.len() {
        law_collected_workspaces_have_figures(fields[i].1);
        lemma_fields_workspaces_have_figures(fields, i + 1);
        let a = workspaces_in(fields[i].1);
        let b = workspaces_in_fields(fields, i + 1);
        assert forall|k: int| 0 <= k < (a + b).len() implies has_usage_figure(#[trigger] (a + b)[k]) by {
            if k < a.len() {
                assert((a + b)[k] == a[k]);
            } else {
                assert((a + b)[k] == b[k - a.len()]);
            }
        }
    }
}

proof fn lemma_items_workspaces_have_figures(items: Seq<JsonValue>, i: int)
    ensures
        forall|k: int| 0 <= k < workspaces_in_items(items, i).len()
            ==> has_usage_figure(#[trigger] workspaces_in_items(items, i)[k]),
    decreases items, items.len() - i,
{
    if 0 <= i < items.len() {
        law_collected_workspaces_have_figures(items[i]);
        lemma_items_workspaces_have_figures(items, i + 1);
        let a = workspaces_in(items[i]);
        let b = workspaces_in_items(items, i + 1);
        assert forall|k: int| 0 <= k < (a + b).len() implies has_usage_figure(#[trigger] (a + b)[k]) by {
            if k < a.len() {
                assert((a + b)[k] == a[k]);
            } else {
                assert((a + b)[k] == b[k - a.len()]);
            }
        }
    }
}

/// The keys `a`, `b` and, when given, `c`, in that order.
pub(crate) fn key_list(a: &str, b: &str, c: Option<&str>) -> (r: Vec<String>)
    ensures
        key_views(r@) == match c {
            Some(c) => seq![a@, b@, c@],
            None => seq![a@, b@],
        },
{
    let mut r: Vec<String> = Vec::new();
    r.push(String::from_str(a));
    r.push(String::from_str(b));
    match c {
        Some(c) => {
            r.push(String::from_str(c));
            assert(key_views(r@) =~= seq![a@, b@, c@]);
        },
        None => {
            assert(key_views(r@) =~= seq![a@, b@]);
        },
    }
    r
}

/// The single key `key`.
pub(crate) fn single_key(key: &str) -> (r: Vec<String>)
    ensures
        key_views(r@) == seq![key@],
{
    let mut r: Vec<String> = Vec::new();
    r.push(String::from_str(key));
    assert(key_views(r@) =~= seq![key@]);
    r
}

fn string_member(fields: &Vec<(String, JsonValue)>, key: &str) -> (r: Option<String>)
    ensures
        r == as_string(lookup(fields@, key@)),
{
    let k = String::from_str(key);
    match object_get(fields, &k) {
        Some(JsonValue::String(s)) => Some(s.clone()),
        _ => None,
    }
}

fn has_member(fields: &Vec<(String, JsonValue)>, key: &str) -> (r: bool)
    ensures
        r == lookup(fields@, key@) is Some,
{
    let k = String::from_str(key);
    object_get(fields, &k).is_some()
}

/// Appends to `out` the workspaces found in `value`.
pub fn collect_workspace_usage(value: &JsonValue, out: &mut Vec<WarpWorkspaceUsage>)
    ensures
        final(out)@ == old(out)@ + workspaces_in(*value),
    decreases value,
{
    let ghost start = out@;
    match value {
        JsonValue::Object(fields) => {
            if has_member(fields, "aiOverages") || has_member(fields, "totalRequestsUsedSinceLastRefresh") {
                let requests_keys = key_list(
                    "currentMonthlyRequestsUsed",
                    "totalRequestsUsedSinceLastRefresh",
                    Some("requestsUsedSinceLastRefresh"),
                );
                let spend_keys = key_list("currentMonthlyRequestCostCents", "currentMonthSpendCents", None);
                let workspace = WarpWorkspaceUsage {
                    id: string_member(fields, "id"),
                    name: string_member(fields, "name"),
                    requests_used: find_i64_by_keys(value, &requests_keys),
                    spend_cents: find_i64_by_keys(value, &spend_keys),
                };
                assert(workspace == workspace_record(*value, fields@));
                if workspace.requests_used.is_some() || workspace.spend_cents.is_some() {
                    out.push(workspace);
                    assert(out@ =~= start + workspaces_in(*value));
                    return;
                }
            }
            let mut i: usize = 0;
            while i < fields.len()
                invariant
                    i <= fields@.len(),
                    *value == JsonValue::Object(*fields),
                    workspaces_in(*value) == workspaces_in_fields(fields@, 0),
                    out@ + workspaces_in_fields(fields@, i as int) == start + workspaces_in_fields(fields@, 0),
                decreases fields@.len() - i,
            {
                let ghost before = out@;
                collect_workspace_usage(&fields[i].1, out);
                proof {
                    let a = workspaces_in(fields@[i as int].1);
                    let b = workspaces_in_fields(fields@, i + 1);
                    assert(workspaces_in_fields(fields@, i as int) == a + b);
                    assert(before + (a + b) =~= (before + a) + b);
                }
                i = i + 1;
            }
            assert(workspaces_in_fields(fields@, fields@.len() as int) =~= Seq::<WarpWorkspaceUsage>::empty());
            assert(out@ =~= out@ + Seq::<WarpWorkspaceUsage>::empty());
        },
        JsonValue::Array(items) => {
            let mut i: usize = 0;
            while i < items.len()
                invariant
                    i <= items@.len(),
                    *value == JsonValue::Array(*items),
                    workspaces_in(*value) == workspaces_in_items(items@, 0),
                    out@ + workspaces_in_items(items@, i as int) == start + workspaces_in_items(items@, 0),
                decreases items@.len() - i,
            {
                let ghost before = out@;
                collect_workspace_usage(&items[i], out);
                proof {
                    let a = workspaces_in(items@[i as int]);
                    let b = workspaces_in_items(items@, i + 1);
                    assert(workspaces_in_items(items@, i as int) == a + b);
                    assert(before + (a + b) =~= (before + a) + b);
                }
                i = i + 1;
            }
            assert(out@ =~= out@ + Seq::<WarpWorkspaceUsage>::empty());
        },
        _ => {
            assert(out@ =~= start + workspaces_in(*value));
        },
    }
}

/// The workspaces found in `value`, in document order.
pub fn extract_workspace_usage(value: &JsonValue) -> (r: Vec<WarpWorkspaceUsage>)
    ensures
        r@ == workspaces_in(*value),
{
    let mut out: Vec<WarpWorkspaceUsage> = Vec::new();
    collect_workspace_usage(value, &mut out);
    assert(out@ =~= workspaces_in(*value));
    out
}


/// An object that looks like a workspace (it has an `aiOverages` or a
/// `totalRequestsUsedSinceLastRefresh` member) and in which a request count or
/// a spend is found, whatever its value (zero included), is collected as
/// exactly one workspace: its id and name are its own string members, and its
/// figures are the counts found in it.
pub proof fn law_workspace_with_found_figure_is_collected(fields: Vec<(String, JsonValue)>)
    requires
        lookup(fields@, "aiOverages"@) is Some || lookup(fields@, "totalRequestsUsedSinceLastRefresh"@) is Some,
        find_i64(JsonValue::Object(fields), workspace_requests_keys()) is Some
            || find_i64(JsonValue::Object(fields), workspace_spend_keys()) is Some,
    ensures
        workspaces_in(JsonValue::Object(fields)).len() == 1,
        workspaces_in(JsonValue::Object(fields))[0].id == as_string(lookup(fields@, "id"@)),
        workspaces_in(JsonValue::Object(fields))[0].name == as_string(lookup(fields@, "name"@)),
        workspaces_in(JsonValue::Object(fields))[0].requests_used
            == find_i64(JsonValue::Object(fields), workspace_requests_keys()),
        workspaces_in(JsonValue::Object(fields))[0].spend_cents
            == find_i64(JsonValue::Object(fields), workspace_spend_keys()),
{
    let v = JsonValue::Object(fields);
    assert(workspaces_in(v) =~= seq![workspace_record(v, fields@)]);
}

/// A workspace object whose own `currentMonthlyRequestsUsed` member is an
/// integer `u` within `i64` (zero included) reports exactly `u` requests.
pub proof fn law_workspace_request_count_is_read(fields: Vec<(String, JsonValue)>, u: u64)
    requires
        u <= i64::MAX,
        lookup(fields@, "currentMonthlyRequestsUsed"@) == Some(JsonValue::Number(JsonNumber::PosInt(u))),
    ensures
        find_i64(JsonValue::Object(fields), workspace_requests_keys()) == Some(u as i64),
{
    let keys = workspace_requests_keys();
    assert(keys[0] == "currentMonthlyRequestsUsed"@);
    assert(direct_i64_from(fields@, keys, 0) == Some(u as i64));
}

} // verus!
