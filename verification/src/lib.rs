//! Verified lifecycle, checkpoint, relay-evidence and recovery logic of the
//! managed peer network of an Open Bitcoin node.
pub mod generation;
pub mod identity;
pub mod keyed;
pub mod ledger;
pub mod effects;
pub mod checkpoint;
pub mod checkpoint_evidence;
pub mod lifecycle;
pub mod authority;
pub mod block_serving;
pub mod chainstate_durability_evidence;
pub mod block_relay_evidence;
pub mod relay_evidence;
pub mod recovery;
pub mod recovery_topology;
pub mod compact_extra;
pub mod policy_info;
pub mod network;
pub mod announcement;
pub mod handle;
pub mod checkpoint_coordinator;
pub mod recovery_install;
pub mod inventory_plan;
pub mod admission;
pub mod admission_bridge;
pub mod action_translation;
pub mod header_sync;
pub mod inbound_admission;
pub mod relay_serving;
pub mod relay_fanout;
pub mod maintenance;
pub mod mempool_lifecycle;
pub mod reconciliation;
pub mod projection_plan;
pub mod laws;

use vstd::prelude::*;

verus! {

} // verus!
