# paylink

A payment-link contract for the Soroban host of the Stellar network, verified with Verus.

Registered creators make payment links, which expire a number of ledgers after they are made and
can be cancelled by the creator that made them until they are paid. An administrator, set once,
credits yield to staked balances.

- `src/types.rs`: the data: storage keys, links and errors. Texts are bytes, as they are on the
  host.
- `src/host.rs`: what the contract can tell of the host, and the calls of `soroban-sdk` by which
  it reads and changes it. What this file states of those calls is trusted; all the rest of `src/`
  is proved from it.
- `src/model.rs`: what each function answers and changes, as functions of what the host holds.
- `src/contract.rs`: the contract's functions.
- `src/laws.rs`: what holds of the contract as a whole, for every state and every call.
- `app/`: the interface that is deployed, in the host's own types.
- `tests/`: the contract on the host that `soroban-sdk` brings for tests.
