# vault_dao

A multi-signature treasury: M-of-N signers decide on transfers, within spending limits, with
roles, delegation, timelocks, insurance and stakes, recurring and streaming payments, escrows,
subscriptions, funding rounds, recovery, disputes, transfers across vaults and chains, and an
audit trail.

## Layout

- `src/` is the library, verified with Verus. Every call takes an `Env`: what the ledger says,
  who authorized the call, what is stored, and the actions asked for so far. For each call the
  model of the state has a function from the state before the call to the state after it and
  the answer; the call's contract says that it computes that function.
- What other contracts answer (balances, prices, whether a transfer went through) is an
  argument of the call that depends on it.
- `src/limits.rs` and `src/room.rs` hold tests of the conditions under which a call stays
  within the limits of its integers.
- Statements that relate several calls are the public proof functions whose names begin with
  `law_`, beside the calls that they are about and in the modules whose names end in `_laws`.
- `tests/` runs the library on concrete values.
- `app/` is the contract for the Soroban host: storage, tokens, hooks, oracle and events.
