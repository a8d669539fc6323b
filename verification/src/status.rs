//! Where the Warp cache lives, and the status report built from it.

use vstd::prelude::*;
use vstd::string::*;
use crate::model::WarpUsageCache;
use crate::text::views;

verus! {

/// A path separator: `/`, and on Windows also `sep` (`\`).
pub open spec fn is_separator(c: char, sep: char) -> bool {
    c == '/' || c == sep
}

/// A component that `Path::join` appends rather than substitutes: it starts
/// with no separator and names no drive.
pub open spec fn is_relative_part(part: Seq<char>) -> bool {
    &&& part.len() > 0
    &&& part[0] != '/'
    &&& part[0] != '\\'
    &&& !part.contains(':')
}

/// The platform's main separator, which the caller passes in:
/// `std::path::MAIN_SEPARATOR`, `/` on Unix and `\` on Windows.
pub open spec fn is_main_separator(sep: char) -> bool {
    sep == '/' || sep == '\\'
}

/// On Windows, a base that is nothing but a drive prefix: an ASCII letter and
/// a colon, such as `C:`.
pub open spec fn is_bare_drive(base: Seq<char>, sep: char) -> bool {
    &&& sep == '\\'
    &&& base.len() == 2
    &&& base[1] == ':'
    &&& (('a' <= base[0] && base[0] <= 'z') || ('A' <= base[0] && base[0] <= 'Z'))
}

/// `base` joined with a relative component as `Path::join` does: the
/// platform's separator is put between the two unless the base is empty,
/// already ends in a separator, or (on Windows) is a bare drive prefix such as
/// `C:`, which gives the drive-relative `C:part`.
pub open spec fn path_join(base: Seq<char>, part: Seq<char>, sep: char) -> Seq<char> {
    if base.len() == 0 || is_separator(base.last(), sep) || is_bare_drive(base, sep) {
        base + part
    } else {
        base + seq![sep] + part
    }
}

/// Joins a path and a relative component with the separator `sep`.
pub fn join_path(base: &str, part: &str, sep: char) -> (r: String)
    requires
        is_relative_part(part@),
        is_main_separator(sep),
    ensures
        r@ == path_join(base@, part@, sep),
{
    let base_len = base.unicode_len();
    let mut out = String::from_str(base);
    let bare_drive = if sep == '\\' && base_len == 2 {
        let letter = base.get_char(0);
        base.get_char(1) == ':' && (('a' <= letter && letter <= 'z') || ('A' <= letter && letter <= 'Z'))
    } else {
        false
    };
    if base_len > 0 && !bare_drive {
        let last = base.get_char(base_len - 1);
        if last != '/' && last != sep {
            if sep == '/' {
                proof {
                    reveal_strlit("/");
                }
                out.append("/");
            } else {
                proof {
                    reveal_strlit("\\");
                }
                out.append("\\");
            }
        }
    }
    out.append(part);
    out
}

/// The directory of the Warp cache inside the tokscale configuration directory.
pub fn get_warp_cache_dir(config_dir: &str, sep: char) -> (r: String)
    requires
        is_main_separator(sep),
    ensures
        r@ == path_join(config_dir@, "warp-cache"@, sep),
{
    proof {
        reveal_strlit("warp-cache");
    }
    join_path(config_dir, "warp-cache", sep)
}

/// The stored credentials inside the cache directory.
pub fn credentials_path(cache_dir: &str, sep: char) -> (r: String)
    requires
        is_main_separator(sep),
    ensures
        r@ == path_join(cache_dir@, "credentials.json"@, sep),
{
    proof {
        reveal_strlit("credentials.json");
    }
    join_path(cache_dir, "credentials.json", sep)
}

/// The usage cache inside the cache directory.
pub fn usage_path(cache_dir: &str, sep: char) -> (r: String)
    requires
        is_main_separator(sep),
    ensures
        r@ == path_join(cache_dir@, "usage.json"@, sep),
{
    proof {
        reveal_strlit("usage.json");
    }
    join_path(cache_dir, "usage.json", sep)
}

/// Where the usage cache lives for a given home directory.
pub fn usage_cache_path_in_home(home_dir: &str, sep: char) -> (r: String)
    requires
        is_main_separator(sep),
    ensures
        r@ == path_join(home_dir@, ".config/tokscale/warp-cache/usage.json"@, sep),
{
    proof {
        reveal_strlit(".config/tokscale/warp-cache/usage.json");
    }
    join_path(home_dir, ".config/tokscale/warp-cache/usage.json", sep)
}

/// `std::path::Path::exists` on `path`. The answer depends on the file system
/// at the moment of the call, so nothing is stated of it.
#[verifier::external_body]
fn path_exists(path: &str) -> bool {
    std::path::Path::new(path).exists()
}

/// Whether a usage cache exists under the given home directory (probes the path
/// that `usage_cache_path_in_home` gives).
pub fn has_usage_cache_in_home(home_dir: &str, sep: char) -> bool
    requires
        is_main_separator(sep),
{
    let path = usage_cache_path_in_home(home_dir, sep);
    path_exists(path.as_str())
}

/// The status of the Warp integration, as `tokscale warp status` shows it.
#[derive(Debug, Clone, PartialEq, Eq)]
pub struct WarpStatus {
    pub cache_dir: String,
    pub credentials_path: String,
    pub usage_path: String,
    pub has_credentials: bool,
    pub has_cache: bool,
    pub requests_used: Option<i64>,
    pub request_limit: Option<i64>,
    pub spend_cents: Option<i64>,
    pub workspace_count: usize,
    pub diagnostics: Vec<String>,
}

/// The warnings a status carries: one for missing credentials, one for a
/// missing cache, in that order.
pub open spec fn status_diagnostics(has_credentials: bool, has_cache: bool) -> Seq<Seq<char>> {
    (if has_credentials {
        Seq::empty()
    } else {
        seq!["missing credentials; run `tokscale warp login`"@]
    }) + (if has_cache {
        Seq::empty()
    } else {
        seq!["missing aggregate usage cache; run `tokscale warp sync`"@]
    })
}

/// Builds the status from what was found on disk: the cache (if it loaded),
/// whether credentials loaded, and the cache directory.
pub fn build_status(cache: Option<WarpUsageCache>, has_credentials: bool, cache_dir: String, sep: char) -> (r: WarpStatus)
    requires
        is_main_separator(sep),
    ensures
        r.cache_dir == cache_dir,
        r.credentials_path@ == path_join(cache_dir@, "credentials.json"@, sep),
        r.usage_path@ == path_join(cache_dir@, "usage.json"@, sep),
        r.has_credentials == has_credentials,
        r.has_cache == cache is Some,
        r.requests_used == (match cache { Some(c) => c.usage.requests_used, None => None }),
        r.request_limit == (match cache { Some(c) => c.usage.request_limit, None => None }),
        r.spend_cents == (match cache { Some(c) => c.usage.spend_cents, None => None }),
        r.workspace_count == (match cache { Some(c) => c.workspaces@.len(), None => 0 }),
        views(r.diagnostics@) == status_diagnostics(has_credentials, cache is Some),
{
    let has_cache = cache.is_some();
    let credentials = credentials_path(cache_dir.as_str(), sep);
    let usage = usage_path(cache_dir.as_str(), sep);
    let mut diagnostics: Vec<String> = Vec::new();
    if !has_credentials {
        diagnostics.push(String::from_str("missing credentials; run `tokscale warp login`"));
    }
    if !has_cache {
        diagnostics.push(String::from_str("missing aggregate usage cache; run `tokscale warp sync`"));
    }
    assert(views(diagnostics@) =~= status_diagnostics(has_credentials, has_cache));
    let (requests_used, request_limit, spend_cents, workspace_count) = match &cache {
        Some(c) => (c.usage.requests_used, c.usage.request_limit, c.usage.spend_cents, c.workspaces.len()),
        None => (None, None, None, 0),
    };
    WarpStatus {
        cache_dir,
        credentials_path: credentials,
        usage_path: usage,
        has_credentials,
        has_cache,
        requests_used,
        request_limit,
        spend_cents,
        workspace_count,
        diagnostics,
    }
}

/// A status carries no warning exactly when both the credentials and the cache
/// were found.
pub proof fn law_status_clean_iff_ready(has_credentials: bool, has_cache: bool)
    ensures
        status_diagnostics(has_credentials, has_cache).len() == 0 <==> (has_credentials && has_cache),
{
}

/// The credentials and the usage cache both live directly inside the cache
/// directory: each path is the directory followed by a separator (unless the
/// directory already ends in one) and the file name.
pub proof fn law_cache_files_inside_cache_dir(cache_dir: Seq<char>, sep: char)
    ensures
        path_join(cache_dir, "credentials.json"@, sep).subrange(0, cache_dir.len() as int) == cache_dir,
        path_join(cache_dir, "usage.json"@, sep).subrange(0, cache_dir.len() as int) == cache_dir,
{
    let c = path_join(cache_dir, "credentials.json"@, sep);
    let u = path_join(cache_dir, "usage.json"@, sep);
    assert(c.subrange(0, cache_dir.len() as int) =~= cache_dir);
    assert(u.subrange(0, cache_dir.len() as int) =~= cache_dir);
}


/// Each warning depends on its own flag alone: the missing-credentials warning
/// is given exactly when the credentials are missing, the missing-cache warning
/// exactly when no cache loaded, and there is no other warning.
pub proof fn law_status_warnings_follow_their_flags(has_credentials: bool, has_cache: bool)
    ensures
        status_diagnostics(has_credentials, has_cache).contains("missing credentials; run `tokscale warp login`"@)
            <==> !has_credentials,
        status_diagnostics(has_credentials, has_cache).contains(
            "missing aggregate usage cache; run `tokscale warp sync`"@,
        ) <==> !has_cache,
        status_diagnostics(has_credentials, has_cache).len() == (if has_credentials { 0int } else { 1int }) + (
        if has_cache { 0int } else { 1int }),
{
    reveal_strlit("missing credentials; run `tokscale warp login`");
    reveal_strlit("missing aggregate usage cache; run `tokscale warp sync`");
    let c = "missing credentials; run `tokscale warp login`"@;
    let u = "missing aggregate usage cache; run `tokscale warp sync`"@;
    assert(c[8] != u[8]);
    let d = status_diagnostics(has_credentials, has_cache);
    if !has_credentials {
        assert(d[0] == c);
    }
    if !has_cache {
        assert(d[d.len() - 1] == u);
    }
}

} // verus!
