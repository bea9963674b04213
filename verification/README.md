# ofreg

A recorder of file-open events: a kernel probe reports every file opened
under a target directory, the daemon `ofregd` stores the command, the file
and the time in SQLite, and the client `ofreg` queries them
(`ofreg -c git`, `ofreg -f /home/user/.bashrc`, `-b`/`-e` for a time range,
`-n` for the number of records). The daemon is started as
`ofregd config.toml`; the file gives `target_dir`, and the `ignore_path`
prefixes and `ignore_cmd` commands whose events are not recorded.

- `src/` is the verified library (Verus): which paths are left out of the
  record (`store`, `filter`, `db`), the SQL of a query (`sql`), the framing
  of the query protocol (`frame`) and the daemon's side of a connection as a
  state machine (`session`), the turning of probe events into records and of
  the target directory into the probe's buffer (`capture`), time conversions
  through chrono (`time`), the client's argument and table handling (`cli`),
  and character-level string helpers (`text`).
- `app/` holds the programs around it: sockets, the database connections,
  logging, argument parsing and the serde, clap and tabled derives.
- `tests/` exercises the library on concrete values.
