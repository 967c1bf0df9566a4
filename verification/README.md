# actioneer

The logic of a GitHub Actions desktop client, verified with Verus: what it
asks the GitHub REST API, how it reads the answers, what it caches, and what
it shows for workflows, runs and jobs.

## Layout

- `src/` — the verified library.
  - `api/` — request addresses and queries, how each response status is
    handled, rate-limit tracking, the page-by-page repository listing.
  - `cache.rs` — the in-memory cache of workflows, runs and jobs, with its
    laws (what a read gives back after a write, what a refresh of the runs
    forgets).
  - `ui/` — titles, status icons and style classes, the buttons a run
    offers and what follows an action, expander names and the state kept
    across list rebuilds, loading runs from cache or API, the
    per-repository state tables, the rate-limit label.
  - `notifications.rs`, `preferences.rs`, `auth.rs`, `storage/` — notification
    text, user preferences and auto-refresh choices, the device-flow
    request and polling loop, and the decisions
    around the system keyring and the desktop portal.
  - `text.rs`, `collections.rs` — decimal text, substring search and a small
    keyed map, shared by the rest.
- `tests/` — tests of the library on concrete values.
- `app/` — a terminal front end (list repositories and runs, send run
  actions, watch a workflow): HTTP, keyring, files and desktop
  notifications, each driven by the library's decisions.

Verify with Verus; build and test with Cargo.
