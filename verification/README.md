# codex_permissions

Permission profiles of the v2 app-server protocol, their conversion to and from the core
permission model, and the decision whether a file patch may be applied without asking
the user. The library is written in Verus: every function in `src/` carries a contract
that Verus proves.

Layout:

- `src/path.rs` — native path text, path URIs and local absolute paths; conversions
  between them fail closed for paths of another host or another path convention.
- `src/protocol.rs` — the core permission model: sandbox entries, file-system and network
  permissions, sandbox policies, approval policies, and the file-system sandbox's rule for
  where writes are allowed.
- `src/permissions.rs` — the v2 wire types and their conversions to and from the core
  model, with the round-trip laws.
- `src/apply_patch.rs` — the file changes of a patch.
- `src/sandboxing.rs` — the sandbox the platform offers.
- `src/safety.rs` — `assess_patch_safety` and its laws.
- `app/` — serde forms of the wire types, detection of the local platform, and mapping of
  path errors to `std::io::Error`.
- `tests/` — tests on concrete values.

The native path convention and the platform are facts of the machine; the library takes
them as arguments (`PathConvention`, `Platform`), and `app/` supplies them.
