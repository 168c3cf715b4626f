# feishu_mcp

An MCP server for Feishu (Lark): documents, tasks and messages exposed as
MCP tools. The library in `src/` is written in Verus; its contracts are
proved. The program in `app/` wraps it with what Verus does not check:
HTTP, SQLite, the configuration file, the environment and the MCP transport.

## Layout

- `src/middleware/rate_limit.rs` — sliding-window rate limiter per user,
  with its laws (no window holds more than `max_requests` admitted checks
  of a user, however the users' checks interleave,
  isolation between users, exactly `max_requests` per instant, honest
  `retry_after`, the window sliding).
- `src/auth/token_store.rs` — AES-256-GCM sealing of stored tokens and the
  reading back of a stored record.
- `src/auth/oauth.rs` — the tenant access token: request, answer, cache.
- `src/feishu/` — API errors, data, and the request plan of every endpoint.
- `src/middleware/error_handler.rs` — how API errors reach the tools' callers.
- `src/tools/` — what each tool asks of the API and answers.
- `src/config.rs` — defaults, `~/.feishu-mcp/` paths, environment
  overrides, the encryption key (exactly 32 bytes, or generated).
- `src/clock.rs` — the system clock in seconds since the epoch.
- `src/text.rs` — decimal numerals and path joining.
- `app/` — the server binary.
