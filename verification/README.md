# codex_wasi_boundary

The guest-side boundary of Codex's managed network proxy and of the
`codex-exec --session-turn` engine for the agentOS wasm32-wasip1 VM, written
in Verus.

- `src/` — the verified library: the attribution wire frame, the child
  environment and its brokered-credential cleanup, the refusals of
  sidecar-owned features (MITM CA, hooks, TLS interception, HTTP proxy,
  symlinks), the rustls provider installation, and the decisions of the
  session-turn protocol (decoding of the `start` and `permission_response`
  lines, history replay, event handling, approvals, the fields of each
  outbound line).
- `app/` — the binary: stdin/stdout, the tokio runtime, the agent calls,
  the serialisation of outbound fields into JSON lines, the serde copies of the hook
  configuration types, and std-typed entry points (`io::Write`, `HashMap`,
  `Path`, socket addresses and listeners, `anyhow` errors) for the
  attribution frame, the credential broker, the CA bundle, the hooks, TLS
  interception, the HTTP proxy and symlinks.
- `tests/` — tests of the library.
