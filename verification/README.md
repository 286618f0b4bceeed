# protocol_units

Verified protocol units of a Movement node, written in Verus.

- `src/set.rs` — the Hot-Cold set: the insertion handshake as a state machine, consistency
  management, and insertion with recovery, with laws on how every handshake ends.
- `src/checkpoint_set.rs` — a Hot-Cold set of checkpoints and the checkpoints that satisfy one.
- `src/settlement/` — block commitments; the settlement manager's decisions (batching and
  back-pressure); the mock and stub settlement clients' bookkeeping; the rules and retries for
  sending settlement transactions; the Ethereum clients' decisions; configuration and URLs.
- `src/setup/` — the setup strategies: the Anvil chain and accounts, local ports, the path of
  the transactions that a forge deployment saved, the contracts it created and the
  well-known accounts it adds.
- `src/sequencing/` — the in-memory sequencer's configuration and block building.
- `src/syncing/` — sync targets and the leader's part in syncing up (who pulls first, who
  pushes each epoch).
- `src/aptos_vm/` — call messages, signing errors, and the `eth_` RPC errors with their texts
  and the JSON-RPC codes and data they are answered with.
- `src/jelly_move.rs` — the storage keys of Move modules and resources and the updates of a
  change set.
- `app/` — the asynchronous and I/O side: the coordinator of the Hot-Cold set, the settlement
  manager's event loop, the settlement clients' channels, block building against a mempool,
  transaction sending, configuration files and the setup's processes. It performs what the
  library decides.
- `tests/` — tests of the library on concrete values.

## What is not here

- The RocksDB-backed Hot and Cold sets, the RocksDB Jellyfish Merkle tree store and the
  sequencer's move of its RocksDB files: the RocksDB bindings need `libclang` to build, which
  this build environment lacks. The Hot-Cold set's logic is here over any storage; only those
  storage back ends are missing.
- The Aptos executor behind `SovAptosVM::execute_call`, and the other code over the Aptos and
  Sovereign SDK crates: those crates are published only from git repositories, which cannot be
  fetched here. The call messages and errors that surround the executor are here.
- The pipelines of syncing up and down over S3: the `syncador` crate that runs them is not
  available. The decisions that syncing up makes (a follower pulls once first, only the leader
  pushes at each epoch) are in `src/syncing/syncup.rs`.
- The genesis ceremonies, which are sequences of contract calls over `alloy`.
- The addresses of the well-known accounts that a remote deployment adds: deriving an Ethereum
  address from a secret key takes secp256k1 and keccak, which come with `alloy` and are not
  available here. `DeployRemote::append_well_known_accounts` records the keys and the addresses
  that its caller supplies, in order, and `app/` takes an account generator for them.
