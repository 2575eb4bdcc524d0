# registry_contracts

Verified storage logic and entry points of three marketplace contracts: a
vendor registry, a reputation store and a protocol parameters store.

- `src/` is the verified library. Each contract sees its host environment
  through a model (`Env`) that holds, as plain values, the storage entries it
  reads and writes, the ledger time, the authorizations the invocation carries,
  and, in order, the time-to-live extensions, events and code replacements it asks
  for. `address_map` is the finite map keyed by address used for vendor
  entries, scores and updater flags. Each contract has a `laws` module with the
  properties that span calls.
- `app/` is the Soroban glue: it loads the model from the host, runs the
  library, and carries the outcome back (writes, TTL extensions, events and code
  replacement).
- `tests/` runs the library on concrete values.
