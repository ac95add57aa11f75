# soroban-contract-library

Four Soroban token contracts — milestone escrow, vesting schedules, an M-of-N
multisig wallet and DAO voting — whose decisions are proved with Verus.

- `src/` is the verified library. For each contract it holds the stored
  records, the rejection errors, and one function per entry point that takes
  the stored record and the call's arguments and returns the new record with
  the token payments to make. Each function's contract states the outcome
  exactly, over spec functions that describe every transition; the `law_*`
  proof functions state properties across calls (funds held by an escrow
  match its payouts, vesting never decreases, each address votes once, owner
  changes keep the multisig threshold reachable, ...).
- Soroban's `Address`, `Vec` and `Bytes` are handles into a contract's host
  environment (`Env`): they cannot be made or read without one, so the
  library cannot hold them. It holds what its logic reads as plain values
  instead: an address as the words of its strkey, collections as `Vec`s.
- `app/` holds the Soroban contracts themselves: authorization, ledger
  storage, token calls and events around the library's functions.
- `tests/` runs the library's functions against an in-memory ledger.
