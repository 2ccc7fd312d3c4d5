# cosmic_grackle

A macOS Contacts MCP server. The library (`src/`) holds the logic and is
verified with Verus; `app/` is the server around it: the MCP tool handlers
(rmcp over stdio), the worker thread that owns the Contacts store, and the
serde/schemars copies of the library's types.

- `contact_store/` — reading stored contacts into `Contact` values, parsing
  the contact type and birthday, planning creates and updates (including the
  add/remove/replace edits of phones, emails, URLs and postal addresses),
  answering fetch failures, picking a group by name, and limiting listings.
  `roundtrip.rs` proves that a birthday or contact type that is written reads
  back as the same text, and that a created contact reads back as asked.
- `keys.rs` — the contact properties fetched (never the note).
- `server.rs` — the tools' inputs and the length and presence checks made on
  them.
- `error.rs`, `models.rs`, `text.rs` — the error type, the client-facing
  records, and text helpers specified on character sequences.
