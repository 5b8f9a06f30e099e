# rustuse-cli

The core of the RustUse maintainer tool, written in Verus: every function in
`src/` carries a contract that Verus proves.

- `src/` is the library: the catalog and its search, facade issue codes,
  Cargo manifest analysis, the diagnostics of a facade repository, repair
  planning (which repairs a set of codes selects, how each manifest is
  repaired, which files change), the facade and fleet Markdown reports, the
  fleet model and the small text helpers they share. Calls into the `toml`
  crate go through a few trusted wrappers in `toml_tree.rs`.
- `app/` holds what cannot be verified: reading and writing files, running
  Cargo, terminal prompts and the serde form of `rustuse.toml`. It hands the
  library plain values and writes what the library returns.
- `tests/` runs the library on concrete inputs.
