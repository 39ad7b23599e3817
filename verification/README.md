# tx_report

A verified library for recording one regtest exchange between a "Miner" and a "Trader"
wallet of a Bitcoin Core node: the transfer's id, addresses, amounts, fee and confirming
block, written out one field per line.

- `src/transaction_data.rs`: the record, its setters, its ordered listing and report text.
- `src/mining.rs`, `src/transfer.rs`: the decisions taken while mining and while sending,
  as state machines that take the node's answers (`src/node.rs`) and say what to ask next.
- `src/wallet.rs`: wallet endpoints and what to do when a wallet fails to load.
- `src/text.rs`: decimal writing of numbers and substring search.
- `src/address.rs`: the calls into the `bitcoin` crate that turn scripts and text into
  addresses.
- `app/`: the program that talks to the node over RPC and runs the state machines.
