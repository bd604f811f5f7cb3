# dap-satellite

The core of a pallet that gathers funds in a satellite account on chains that do not host the
central one. Its decisions are executable Rust with contracts that Verus proves.

- `src/account.rs`: the satellite account and how it is derived from the pallet's identifier
- `src/balance.rs`, `src/credit.rs`: amounts, and funds on their way between accounts
- `src/tokens.rs`, `src/requests.rs`: what a handler asks of the runtime
- `src/funding.rs`: sinks and burn handlers
- `src/pallet.rs`, `src/weights.rs`: configuration, account creation, genesis and upgrade
- `src/handlers.rs`: fills, slashes, fee splits and sinks into the satellite account
- `src/books.rs`, `src/laws.rs`: what the requests do to accounts, and what follows
- `app/`: the handlers at work on a FRAME runtime
- `tests/satellite.rs`: the requests carried out on a runtime with the system and balances pallets
