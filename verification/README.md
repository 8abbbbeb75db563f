# mago_zed

A language-server bridge for the Mago PHP toolchain, with its logic verified
in Verus.

- `src/` is the verified library: Mago command lines and workspace
  configuration lookup (`command`), the parser that turns Mago's textual
  report into diagnostics (`parser`, with the regular-expression searches in
  `pattern`), the error and check-completion decisions (`error`, `executor`),
  binary selection (`runtime`), the server's logging and aggregation
  decisions (`server`) and the editor extension's launch command (`extension`).
- `app/` is the program around it: the tower-lsp server, process spawning,
  environment lookups, logging and the Zed extension entry point.
- `tests/` exercises the library on concrete reports and command lines.
