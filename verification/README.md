# gourami_social

A small ActivityPub social server: local users write notes, mention each
other, reply to notes, and share a "neighborhood" timeline with a few
whitelisted servers.

## Layout

- `src/` is the library, verified with Verus. Each public function has a
  contract over spec functions:
  - `markup`: the note grammar (links, `📝N` / `>>N` references, `@mentions`);
  - `db/`: notes, users, notifications, invitations, remote servers;
  - `web`: page headers, paging, notifications, registration;
  - `ap`: ActivityPub messages;
  - `httpsig` and `signature`: HTTP signatures;
  - `feed`: RSS items;
  - `session`: login cookies.
  Calls into outside crates (ammonia, bcrypt, zxcvbn, chrono, ring,
  openssl, regex, uuid, rand, base64, http-signature-normalization) sit behind
  small trusted functions whose doc comments say what is assumed of them.
- `app/` is the server around the library: the command line, the database
  (diesel, SQLite), HTTP routes (warp), templates (askama) and network
  requests. It expects `templates/` and `migrations/` beside it.
- `tests/` runs the library on concrete inputs.
