# arc_node

Verified helpers of the Arc execution node and its load generator.

- `src/pq.rs`: the SLH-DSA-SHA2-128s signature precompile: gas accounting,
  early-failure penalty, revert data and the verdict, stated exactly by
  `pq_precompile_result`.
- `src/provider.rs`: which precompile answers at an address for a spec and a
  set of Arc hardforks: Ethereum's standard ones, Arc's three stateful
  system precompiles (native-coin authority, native-coin control, system
  accounting) at the addresses the map is given, and the PQ precompile once
  Zero6 is active.
- `src/generator.rs`, `src/config.rs`, `src/tx.rs`, `src/nonce.rs`: the
  transaction generator's state: round-robin account selection, nonce cache,
  per-account caps, weighted transaction mix, transaction building, reading
  node answers and splitting nonce resyncs.
- `src/abi.rs`, `src/slh.rs`, `src/random.rs`, `src/gas.rs`: ABI encoding,
  signature verification and randomness through their crates, and the gas
  counter.

`app/` holds what talks to the outside: revm's precompile types, signing with
alloy, persistence with serde, and the asynchronous loop that drives a
generator against JSON-RPC nodes.
