# commonos_files

The CommonOS Files client: it signs a user in against the CommonOS GraphQL server, keeps the
session token in `~/Documents/CommonOS/auth`, and uploads every file created under
`~/Documents/CommonOS`.

- `src/` is the verified library: the Basic and Bearer headers, the two GraphQL calls as plain
  values, the signed-in user state and its reducer, where the token is stored and how it is read
  back, the watcher's decisions (which events upload which files, which watcher task is live),
  and how each new file becomes an upload.
- `app/main.rs` is the desktop agent around it: the network calls, the file system, the
  `notify` watcher and the tokio tasks.
- `tests/` runs the library on concrete values.
