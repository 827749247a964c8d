# matryx_repository

The decision logic of a Matrix homeserver's storage layer, written in Verus
and verified: who may change whose membership, what a push rule decides,
which servers an ACL admits, how media uploads, thumbnails and reservations
are checked, how pagination tokens and queries are built, and so on.

Each repository is a struct over a store handle `D`; its methods take what
was read from the store as arguments and return what is to be written or
answered, with contracts that state the outcome exactly. Laws that relate
several operations are public proof functions named `law_*`.

Layout:

- `src/` — the verified library, one module per repository or service;
  `codec.rs` holds the calls into outside crates (hashing, base64, time,
  UUIDs, images) with the contracts the library relies on.
- `tests/` — tests of the library on concrete values.
- `app/` — what stays outside the verified library: floating-point rates
  and alert thresholds, readings of the machine, and serialisable copies of
  the library's records.
