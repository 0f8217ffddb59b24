# dripswave-stream

Linear token streaming (vesting) for Soroban, verified with Verus: a sender
escrows a lump sum for a recipient, and the recipient's claimable balance grows
linearly between a `start_time` and an `end_time`. No keeper, cron job or oracle
is involved: vesting is computed from the ledger's timestamp whenever
`withdrawable`, `withdraw` or `cancel` is called.

## Layout

- `src/types.rs`: the records that the contract stores and announces, its errors,
  and the requests that a call makes of the host.
- `src/vesting.rs`: the vesting math and its laws.
- `src/ledger.rs`: the ledger as a call sees it, and what each call does to it.
- `src/contract.rs`: the entry points.
- `src/laws.rs`, `src/history.rs`: laws of single calls and of whole histories.
- `src/escrow.rs`, `src/payouts.rs`: laws of the money, held and paid out.
- `src/tally.rs`: the sums that those laws speak of.
- `app/`: the contract as the host sees it. It reads what a call needs from the
  host, makes the call, and serves the call's requests in order: authorizations,
  storage writes, token transfers and events. It needs `std`, as the library does,
  and is type-checked for a host target only: the Wasm target for deployment,
  `wasm32v1-none`, has no `std`.

A host that cannot serve a request (an authorization that is missing, a transfer
that the token refuses) aborts the whole call and undoes it. The library therefore
never talks to the host itself: it decides what to ask for, and in which order.
