# alfred_pinboard_rs — settings library

The settings logic of the Alfred Pinboard workflow, verified with Verus.

- `src/workflow_config.rs` — the configuration (`Config`), reading Alfred's
  workflow-configuration values (`parse_bool`, `parse_count`), laying them
  over the stored settings (`apply_env_overrides`), the one-time migration of
  stored settings into Alfred's configuration sheet (`migration_script`), the
  start-up steps (`setup`, `record_migration`) and where the API token lives
  (`resolve_token`, `token_stored`).
- `src/keychain.rs` — the arguments of `security(1)` and how its replies are
  read.
- `src/version.rs` — Alfred's version and the JSON-support check, through the
  `semver` crate.
- `src/text.rs` — trimming, ASCII case folding and decimal numbers, as `str`
  and the integer types do them.
- `src/command.rs`, `src/error.rs` — command replies and errors.
- `app/` — the I/O around the library: environment variables,
  `settings.json` (serde), and running `security` and `osascript`.
