# poe

Proof-of-existence registries, verified with Verus.

- `src/dispatch.rs`: origins, dispatch errors, the signer check.
- `src/table.rs`: a map from claims (byte strings) to values, with the
  lemmas that tie its entries to its map view.
- `src/something.rs`: a store for one optional number.
- `src/proofs.rs`: claims owned by accounts (create, revoke, transfer).
- `src/market.rs`: priced claims (create, remove, transfer, reprice, buy).

Each module has per-call decision functions (what a call does given what
storage holds for its arguments), an in-memory registry whose methods are
specified by transitions on its view, and the laws proved of those
transitions. `app/` holds the runtime modules that read and write chain
storage, look accounts up, move currency and deposit events around the
decisions.
