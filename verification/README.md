# cc_switch (verified core)

Verified logic of two parts of CC Switch:

- `src/gemini_auth.rs` decides how a Gemini provider authenticates
  (PackyCode API key, Google OAuth, or a generic API key); each function
  is proved equal to a specification, and `src/gemini_laws.rs` proves the
  detection priorities and its case-insensitivity.
- `src/antigravity_config.rs` computes where the Antigravity configuration
  directory and its `state.vscdb` database live.
- `src/provider.rs` is the provider record, holding as plain values what the
  detection reads from the provider's settings document.
- `src/text.rs` holds the character-level operations (trimming, ASCII
  lowercasing, substring search) with their specifications.

`app/` holds what needs the filesystem, the environment or `serde_json`:
building the settings record from a JSON document, turning computed paths
into `PathBuf`s, and reading, writing and deleting the state database.
