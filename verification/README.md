# linkdrop

Push HTML files and get a shareable URL at `https://sub.domain.com/<slug>`.

This crate is the verified core of linkdrop, written in Verus:

- `src/` — the library, every function proved against its contract:
  - `slug` — slug validation (1–64 bytes of `a-z`, `0-9`, `-`, no leading or
    trailing hyphen);
  - `ttl` — TTL parsing (`90`, `45s`, `15min`, `24h`, `7days`, ...);
  - `config` — layering of the config file and the environment;
  - `error` — the error type, its HTTP status codes and messages;
  - `record` — page records, timestamps and expiry;
  - `storage` — what to do when storing, serving and deleting pages;
  - `server` — the server's settings, authorization and push checks;
  - `cli` — the client's credentials, endpoints and output;
  - `text` — whitespace, trimming and decimal rendering.
- `tests/` — tests of the library on concrete values.
- `app/` — the programs around it: the axum HTTP server, the clap client, the
  SQLite index and the HTML files on disk.  Run under a name ending in
  `server` it serves; otherwise it is the `linkdrop` client.
