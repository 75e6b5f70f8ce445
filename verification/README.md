# Manti

Manti is an LLM gateway: clients call it with the OpenAI chat-completions API
or the Anthropic Messages API, authenticate with gateway API keys, and are
served by upstream providers configured by an administrator. Every request is
rate limited, checked against the caller's quota and balance, and billed.

## Layout

- `src/` — the library, verified with Verus:
  - `models/` — the data of users, API keys, usage, billing, providers and
    models, and the conversion between the OpenAI and Anthropic wire formats
    (requests, responses and streams);
  - `providers/` — provider kinds and registries, the request bodies sent
    upstream, the framing of server-sent event streams, and the conversion of
    upstream event streams;
  - `quota/` — the sliding-window rate limiter and the quota checks;
  - `usage/` — token accounting over a stream;
  - `auth.rs`, `api.rs` — who a request comes from and which answers the
    endpoints give;
  - `text.rs`, `json.rs`, `clock.rs` — small string, JSON and time helpers.
- `tests/` — tests of the library.
- `app/` — the server around the library: HTTP routes, the PostgreSQL
  access, upstream HTTP calls, token signing and configuration.
