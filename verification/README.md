# spacl

A coordination and accountability layer for simulated robot fleets: hybrid
ML-DSA-65 + Ed25519 identities, context-bound action tokens, robot-side
execution checks, exclusive task ownership, and signed hash-chain audit
records. The library is written in Verus; its contracts are proved.

## Layout

- `src/` — the verified library.
  - `coordinator.rs` — enrollment, revocation, task ownership and token
    issuance, with the laws that hold across operations.
  - `runtime.rs` — the execution checks a robot applies before running a
    token, replay protection, the emergency stop.
  - `audit.rs` — building, sealing and verifying audit chains.
  - `crypto.rs` — identities, hybrid signatures and their verification.
  - `model.rs`, `json.rs` — tokens, contexts and policies; canonical JSON of a
    context.
  - `metrics.rs` — Prometheus counters and their exposition text.
  - `key_establishment.rs` — ML-KEM-768 encapsulation and decapsulation.
  - `api.rs` — HTTP error bodies for coordinator and execution errors.
  - `cli.rs` — the decisions of the command-line tool.
  - `primitives.rs` — the calls into the cryptography, encoding and JSON
    crates, each with the contract it is trusted to meet.
  - `table.rs`, `text.rs` — a string-keyed ordered table and text helpers.
- `tests/` — tests of the library.
- `app/` — the `spacl` command: files, HTTP servers and clients, the
  simulations, and the JSON forms of the library's types.

Floating-point limits (speed, force) are carried as bit patterns in the
library; the comparison with a token's limits is made by the caller and
handed to the execution checks as two booleans.
