# warden_contracts

The authorization rules of the Warden smart account and of its policies.

- `src/` is the library. It decides, over plain values, what the contracts do:
  the account's check of a signer removal against the reachability answers of
  the attached policies (`smart_account`), plain and weighted threshold
  reachability (`threshold`, `weighted`), and the session-key method
  allowlist (`session`). Each public function states its result exactly;
  the proof functions state the laws that hold across calls.
- `app/` holds the contract shells: storage, authorization, events, calls to
  other contracts and to `stellar_accounts`, which call into the library for
  every decision.
- `tests/` runs the library on the scenarios the contracts are tested with.
