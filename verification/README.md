# quantframe

The logic of a Warframe trading companion, verified with Verus: the game-log
trade detector, the account data export reader, the market scraper's pricing
and order decisions, stock queries and pagination, and the local HTTP endpoint.

Layout:

- `src/` — the verified library. Each module states its behaviour over
  mathematical views (`Seq`, `Option`, integers) in `requires`/`ensures`, and
  the properties that span several calls stand as public `proof fn lemma_*`.
  `export_text.rs` holds the only calls into outside crates (`regex`, `chrono`),
  each behind a small trusted wrapper whose contract names what it returns.
- `tests/` — ordinary Rust tests of the library on concrete values.
- `app/` — the program around it: command line, files, sockets, environment
  paths, JSON (serde), and the one computation over floating-point profits.
