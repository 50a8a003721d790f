# jiosaavn_api

An HTTP service that answers questions about songs, albums, artists and playlists of
the JioSaavn catalogue. A library verified with Verus decides what the service does: the
calls it makes to the catalogue, how it reads their answers, and what it answers its own
clients (status and message of every failure). The HTTP plumbing and the JSON decoding
stay outside it, in `app/`.

## Layout

- `src/` — the verified library.
  - `common/text.rs`, `common/numbers.rs` — string search and replacement, integer parsing
    and printing, each with a specification and laws (replacement by itself is the identity;
    a printed number reads back as itself).
  - `common/links.rs` — the tokens of catalogue page addresses.
  - `common/helpers.rs` — image links in every size, download links from encrypted media
    addresses (base64, DES, PKCS#5, UTF-8), the query of a catalogue call, station ids.
  - `common/sorting.rs` — a stable sort by key, proved to sort stably.
  - `common/types.rs`, `common/constants.rs` — shared records, errors and call names.
  - `modules/` — per kind of item: the catalogue's records, the service's records, the
    mapping between them, the calls to make, how their answers are read, and the answer
    to each failure.
- `app/` — the HTTP server (axum), the HTTP client (reqwest), and the serde/OpenAPI copies
  of the records.
- `tests/` — tests of the library on concrete values, several of them against the standard
  library and the regex crate.
