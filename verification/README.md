# gas_donator

A verified library for a worker that keeps users' deposit wallets funded with
native gas so that their stablecoins can be swept, and that records suspicious
account activity.

- `src/` (Verus): 256-bit wei amounts (`wei`), wallet addresses (`address`),
  the per-chain top-up decision (`gas`), wallet statuses (`wallet`), the retry
  policy (`retry`), activity reports (`activity`) and errors (`error`).
- `app/`: the asynchronous worker, database and chain access, which hands the
  library plain values and carries out its decisions.
- `tests/`: tests of the library on concrete values.
