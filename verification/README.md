# btcdb

A bridge that mirrors the block statistics of a local Bitcoin Core node
(`getblockstats`) into a PostgreSQL table, with its core logic verified by Verus.

- `src/` is the verified library:
  - `config.rs`: the SQL and RPC settings, with the `[sql]` and `[rpc]` tables of
    the configuration file (read with figment) layered over the built-in defaults;
  - `utils.rs`: the block subsidy and its halving laws, coinbase fees and the
    walk over a window of blocks, the height ranges that `--update` and `--raise`
    insert, and the status report;
  - `datastore.rs`: the data store's connection parameters, its schema script,
    and the conversion of RPC block statistics into the inserted row;
  - `modes.rs`: the RPC client and data store that a run works with;
  - `text.rs`: decimal formatting.
- `app/main.rs` is the command-line program: argument parsing, reading the
  configuration file, the RPC calls and the database I/O.
- `tests/` runs the library on concrete values.
