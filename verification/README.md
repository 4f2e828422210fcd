# usage_core

Verified core of a small desktop widget that shows how full the session
(five-hour) and weekly rate-limit windows of an Anthropic subscription are.

- `src/` is the library, written in Verus and verified:
  - `usage`: reading the `anthropic-ratelimit-unified-*` response headers
    into a usage snapshot, and judging a poll response;
  - `estimate`: choosing the samples of the current window and judging
    the projected time at which it fills;
  - `auth`: the login session and its expiry;
  - `cache`: the widget settings and the stored snapshot;
  - `status`: the decisions the shell takes between its outside calls
    (what to answer, when to poll, autostart, tray menu).
  Floating-point values (utilization, opacity) are held as their IEEE-754
  bit patterns.
- `app/` is the unverified shell: file and network access, JSON, the
  floating-point arithmetic of the estimate, and the Tauri window and tray.
- `tests/` exercises the library.
