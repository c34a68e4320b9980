# stabilitypool

A stability pool for a federated mint. Seekers and providers keep accounts with it, and the
guardians of the federation run it together: they take deposits, grant withdrawals, number
the epochs and pass on what clients propose. Settling positions at the end of an epoch is
left to other modules.

`src/` is a verified library: what a guardian and a client decide, with contracts that Verus
proves.

- `clock`, `config`: moments in time, epochs, and the pool's configuration
- `oracle`: the price sources
- `generator`: how the configuration comes about
- `ledger`: accounts, deposits and withdrawals, and what holds of them over time
- `server`: what a guardian does with deposits, withdrawals and consensus items
- `client`, `keys`, `db`: accounts, signed actions and requests of a client
- `api`: the steps by which an endpoint serves a call
- `proposal`, `module`, `encoding`: what the pool shares with the other modules of a mint

`app/` is ordinary Rust around it: the database, the network, the clock's sleeps and JSON.
