# asthobin

A small service to share pieces of code by URL. Uploaded text is stored with
its language, named by a random ten-character id, highlighted as HTML, cached
for an hour, and deleted after a configurable time.

- `src/` is the library, written in Verus: every function in it carries a
  contract that Verus proves. It holds the service's rules: reading an upload,
  choosing its language, naming it, the highlight cache and its expiry, what a
  reader or a failed request is answered, the settings and their defaults,
  and the TLS and environment settings, with the key and certificates read
  from their PEM files. It builds the row an upload is stored as, and
  describes what the store's insert, lookup and deletion queries do to the
  table, which the server runs; laws over saving, reading back and deleting
  are proved over that description. Calls into outside crates
  (syntect, serde_json, dashmap, rand, rustls-pemfile, actix-web's header
  and status types, std's clock and text functions) go through small trusted wrappers whose contracts say
  what those crates do.
- `tests/` exercises the library with the real outside crates linked.
- `app/` is the server around it: actix-web routes and middleware, the
  PostgreSQL access through diesel, configuration loading with confik,
  logging, TLS files, and the hourly clean-up task.
