# larkstack

A relay that turns Linear webhooks into Lark (Feishu) card notifications
and GitHub webhooks into normalized events, with its decision logic
verified by Verus. Group cards for GitHub events and tweet previews have no
card layout yet: the server logs those events.

## Layout

- `src/` – the verified library.
  - `event.rs` – the normalized event model and its operations.
  - `text.rs` – string helpers (split, trim, prefixes, search) with
    specifications over character sequences.
  - `models.rs`, `cards.rs` – Linear payload models and the Lark cards built
    from them.
  - `linear.rs`, `x.rs` – issue links, tweet links, preview cards and the
    order in which tweet sources are tried.
  - `utils.rs` – truncation, priority colors and HMAC-SHA256 signature
    checks (through `hmac`, `sha2` and `hex`).
  - `config.rs` – configuration values and how raw settings become them.
  - `github.rs` – GitHub webhook payloads and the event each delivery
    becomes.
  - `debounce.rs` – the debounce map that coalesces bursts of issue updates;
    time is passed in, and tickets tell a timer whether it is still current.
  - `lark.rs` – Lark callbacks (challenge, token check, encrypted envelope
    through `base64`, `sha2`, `aes` and `cbc`), link-preview routing and
    the bookkeeping of the bot token.
  - `webhook.rs` – Linear webhook classification and direct-message targets.
- `tests/` – tests of the library.
- `app/` – the HTTP server (axum, tokio, reqwest): reads requests, calls the
  library and performs what it decides.

Laws that relate several operations are stated as public proof functions
named `law_*` next to the functions they speak of.
