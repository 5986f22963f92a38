# remitwise

Verified core of the Remitwise contracts: remittance splitting, insurance
policies, the remittance-flow orchestrator and snapshot migration.

- `src/` is the library, checked by Verus. Accounts are integer handles
  (`AccountId`) and the ledger time is an argument, so every contract
  operation is a plain state transition with a contract:
  - `common`: shared enums and their wire codes, page-size clamping, the
    event topic schema;
  - `ledger`: per-account nonces, spent-nonce sets and bounded logs;
  - `remittance_split`: split configuration, the split calculation,
    distributions, snapshots, audit log and remittance schedules;
  - `insurance`: policies, premium payments and cursor pages;
  - `orchestrator`: initialisation and the replay-protected flow;
  - `migration`: snapshot checksums, guardrails, replay tracking and the
    `enc:v1:` framing;
  - `codec`: the trusted calls into `sha2`, `base64`, `csv`, std and
    `soroban_sdk`.
- `tests/` runs the library on concrete values.
- `app/` holds the Soroban contract shells (storage, authorisation, token
  transfers, events) and the serde, bincode and CSV-parsing file formats.

Contract state lives in Soroban instance storage as host `Map` and `Vec`
objects, which only the host can read; app/ loads it into std `Vec` and
`HashMap` values keyed by integer account handles, and writes it back. The
import tracker keeps its records in a `Vec`, because vstd specifies
`HashMap` for integer keys, not for `(String, u32)` keys. A call that
returns an error leaves the library state as it was, just as the host
discards the storage writes of a failed call.
