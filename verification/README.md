# couchdb

Types for working with CouchDB, verified with Verus.

The library is not a CouchDB client. It gives the stringly types of the CouchDB
API (database, document, attachment and view names; document ids; URL paths;
revisions; versions) and the JSON objects of its responses types of their own,
and states and proves what reading and writing them does.

## Layout

- `src/` — the verified library.
  - `path.rs` — names, ids and percent-encoded URL paths, their parsing and
    writing, and the laws that reading a written path gives it back;
    `path/percent.rs` — percent-encoding of whole names and its decoding.
  - `revision.rs` — document revisions (`42-1234567890abcdef1234567890abcdef`).
  - `root.rs`, `nok.rs` — the server's root resource and error responses.
  - `docid.rs`, `design.rs`, `viewfunction.rs` — document ids as enums,
    design documents and their views.
  - `dbtype/` — the types of requests and responses: revisions and MD5 hashes,
    names, document ids, change feeds, databases, documents, attachments, view
    results; each JSON object type has a `from_fields` that decides which
    fields are required and what they make.
  - `name_map.rs` — maps by name, kept sorted so that equal maps compare equal.
  - `numeric.rs`, `text.rs`, `percent.rs` — decimal and hexadecimal text,
    characters, and the `url` crate's percent-encoding.
  - `testing.rs` — which line a test server prints announces its URL.
- `tests/` — tests of the library.
- `app/` — what is left to ordinary Rust: `serde` impls for the library's
  types, and starting a CouchDB server for tests.
