# open-bitcoin-node: managed peer network logic

The decision logic of a Bitcoin node's managed peer network, written in Verus
with its behaviour stated as `requires`/`ensures` contracts and proved.

## Layout

- `src/` — the verified library.
  - Lifecycle authority: `generation`, `ledger`, `effects`, `checkpoint`,
    `checkpoint_evidence`, `lifecycle`, `authority`, `handle`,
    `checkpoint_coordinator`, `reconciliation`, `projection_plan`.
  - Mempool recovery: `recovery`, `recovery_topology`, `recovery_install`,
    `mempool_lifecycle`.
  - Block serving and relay evidence: `block_serving`, `inventory_plan`,
    `block_relay_evidence`, `chainstate_durability_evidence`, `announcement`,
    `compact_extra`.
  - Transaction relay: `admission`, `admission_bridge`, `action_translation`,
    `relay_evidence`, `relay_serving`, `relay_fanout`, `maintenance`.
  - Peers and headers: `policy_info`, `inbound_admission`, `header_sync`,
    `network`.
  - Shared pieces: `identity` (hashes and member identities), `keyed` (a map
    keyed by hashes), and `laws` (properties relating several operations).
- `tests/` — executable tests of the library on concrete values.
- `app/` — the checkpoint driver: it performs the clock reads, snapshot
  captures and storage writes of one checkpoint flight and hands each result
  to the coordinator's state machine in the library.

Values that the mempool, chainstate and peer manager compute (transaction
ids, mempool outcomes, stored header entries) enter the library as plain
values; the library decides what follows from them.
