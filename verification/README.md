# serein

The verified core of the Serein desktop client.

`src/` is checked by Verus:

- `last_viewed` — the account-local record of the last channel viewed per
  guild, its validity rule, and how it is written to and read back from the
  local store as JSON (through `serde_json`). Whatever is written reads back as
  the same record.
- `origin` — which URLs the login window trusts: Discord's origin, hCaptcha's,
  the QR login exchange endpoint, and verification storage (through `url`).
- `secret` — the session token accepted from a page, and the random capability
  a page must prove (through `getrandom`).
- `handoff` — the login handoff state machine, specified by `HandoffState`;
  `handoff_laws` proves what holds across its operations (single use, scoped
  candidates, cancellation wins, timeouts, late results, bounded counters).
- `channel_marks`, `scroll`, `selection` — the decisions behind channel row
  marks, hold-to-scroll and the chat selection pointer.

`app/` holds what stays outside: the SQLite store (`rusqlite`), the GTK/WebKit
login window, and the egui widgets, including their floating-point geometry.
Moments given to the handoff are nanoseconds on one monotonic clock.
