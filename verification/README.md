# i_bank

Rule-based budgeting accounts for a Soroban smart contract, verified with Verus.

Deposits are split into four budget buckets (savings, food, transport,
flexible) by percentages that must add up to 100, spending is held to a daily
limit, and a self-lock freezes the rules until it expires — a strict lock
also freezes savings, an extreme one every bucket.

- `src/` — the verified library. It works on the record stored for one user
  (`Option<UserAccount>`) and the ledger time; every operation is proved to
  commit exactly the account that `src/model.rs` describes, or to return the
  error and leave the record untouched. `src/laws.rs` proves the properties
  that span operations: money is conserved by deposits and spends; once
  activated, a lock holds until its end and no operation made before then
  changes it; the rules stay as last set until a granted rule change; the
  daily limit is never exceeded; every operation keeps accounts valid.
- `app/` — the Soroban contract: authorisation, the ledger clock and
  persistent storage around the library, with `#[contracttype]` copies of
  the library's types.
- `tests/` — the contract's scenarios and further tests of the library.
