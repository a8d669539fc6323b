# tokscale_warp

The Warp/Oz aggregate-usage layer of tokscale, as a Verus-verified library.

- `src/json.rs` — the JSON model GraphQL replies are read through, member
  lookup, and reading a value as an integer count (decimal parsing included).
- `src/extract.rs` — depth-first search for counts and strings, and the
  collection of workspace records.
- `src/graphql.rs` — the operations sent, the request body, the checks made on
  each reply (HTTP status, GraphQL `errors`), the error type and its texts, and
  the folding of replies into a usage cache.
- `src/fetch.rs`, `src/sync.rs` — the decisions of a fetch and of a cache sync
  as state machines; the caller performs each step and reports what happened.
- `src/status.rs` — cache paths and the status report.
- `src/login.rs`, `src/desktop.rs` — credential entry, and the desktop widget's
  menu and command-line decisions.
- `app/` — files, HTTP, terminal input and printing around the library.
- `tests/` — tests of the library through its public functions.
