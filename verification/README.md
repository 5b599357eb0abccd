# sv2_bitcoin_core

Stratum V2 template handling for a Bitcoin Core node reached over its IPC
interface, as a Verus-verified library.

- `src/` is the verified library:
  - `template_data.rs`: block templates and their coinbase, decoded from Bitcoin
    consensus bytes, their getters and the coinbase merkle path;
  - `merkle.rs`: the Bitcoin merkle tree as spec functions, the double SHA-256 of
    two hashes, and the proof that a leaf folded with its merkle branch gives the
    merkle root;
  - `template_store.rs`: the templates of the current tip, keyed by their ids;
  - `tip.rs`: the decisions taken when the node reports a chain tip;
  - `mining.rs`: the options with which templates are asked of the node;
  - `error.rs`: the error type.
- `app/` is the Cap'n Proto IPC client around the library (connection, requests,
  the tip-monitoring task). It needs the modules that `capnpc` generates from
  Bitcoin Core's `.capnp` schemas.
- `tests/` runs the library on concrete values.
