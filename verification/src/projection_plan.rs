//! The lifecycle projection plan: the authority-side consequences of one
//! prepared mempool transition, checked and put together before anything
//! is committed.
use vstd::prelude::*;
use crate::authority::LifecycleAuthority;
use crate::generation::{AuthorityEpoch, LifecycleGeneration, LifecyclePreparationError};
use crate::identity::{Hash32, MemberIdentity};
use crate::lifecycle::{
    LifecycleEvidenceSnapshot, LifecycleFacts, MAX_UNBROADCAST_MEMBERS, PeerLifecycleInput, PreparedPersistenceProjection,
    ProjectionShape, evidence_after, shape_spec, peer_projection_input, prepare_lifecycle_evidence, prepare_persistence_projection,
    prepare_unbroadcast_projection, present_members, unbroadcast_after,
};

verus! {

/// The prepared consequences of one transition that the authority commits:
/// its epoch, the transition's shape, the peer manager's input, the new
/// unbroadcast set, the persistence view and the lifecycle evidence.
#[derive(Debug, Clone)]
pub struct LifecycleProjectionPlan {
    pub authority_epoch: AuthorityEpoch,
    pub shape: ProjectionShape,
    pub peers: PeerLifecycleInput,
    pub unbroadcast: Vec<MemberIdentity>,
    pub persistence: PreparedPersistenceProjection,
    pub evidence: LifecycleEvidenceSnapshot,
}

/// The persistence view after a transition: unchanged for an empty delta,
/// otherwise the next generation, also dirty; refused when exhausted.
pub open spec fn persistence_spec(
    generation: LifecycleGeneration,
    dirty: Option<LifecycleGeneration>,
    delta_is_empty: bool,
) -> Result<PreparedPersistenceProjection, LifecyclePreparationError> {
    if delta_is_empty {
        Ok(PreparedPersistenceProjection { lifecycle_generation: generation, dirty_generation: dirty })
    } else if generation.0 == u64::MAX {
        Err(LifecyclePreparationError::LifecycleGenerationExhausted)
    } else {
        Ok(
            PreparedPersistenceProjection {
                lifecycle_generation: LifecycleGeneration((generation.0 + 1) as u64),
                dirty_generation: Some(LifecycleGeneration((generation.0 + 1) as u64)),
            },
        )
    }
}

/// Prepares the projection plan of one transition against `authority`, in
/// order: the shape, the peer manager's input, the unbroadcast set (refused
/// beyond its capacity), the persistence view (refused when the generation
/// is exhausted) and the lifecycle evidence. The first refusal is returned.
pub fn prepare_projection_plan(
    authority: &LifecycleAuthority,
    authority_epoch: AuthorityEpoch,
    facts: &LifecycleFacts,
    maybe_package_fingerprint: Option<Hash32>,
) -> (r: Result<LifecycleProjectionPlan, LifecyclePreparationError>)
    requires
        authority.wf(),
    ensures
        shape_spec(*facts) is Err ==> r == Err::<LifecycleProjectionPlan, LifecyclePreparationError>(
            shape_spec(*facts)->Err_0,
        ),
        shape_spec(*facts) is Ok && unbroadcast_after(authority.unbroadcast_members@.to_set(), *facts).len()
            > MAX_UNBROADCAST_MEMBERS ==> r == Err::<LifecycleProjectionPlan, LifecyclePreparationError>(
            LifecyclePreparationError::UnbroadcastCapacity {
                attempted: unbroadcast_after(authority.unbroadcast_members@.to_set(), *facts).len() as usize,
                capacity: MAX_UNBROADCAST_MEMBERS,
            },
        ),
        shape_spec(*facts) is Ok && unbroadcast_after(authority.unbroadcast_members@.to_set(), *facts).len()
            <= MAX_UNBROADCAST_MEMBERS && persistence_spec(
            authority.lifecycle_generation,
            authority.dirty_generation,
            facts.delta_is_empty,
        ) is Err ==> r == Err::<LifecycleProjectionPlan, LifecyclePreparationError>(
            LifecyclePreparationError::LifecycleGenerationExhausted,
        ),
        r is Ok <==> (shape_spec(*facts) is Ok && unbroadcast_after(authority.unbroadcast_members@.to_set(), *facts).len()
            <= MAX_UNBROADCAST_MEMBERS && persistence_spec(
            authority.lifecycle_generation,
            authority.dirty_generation,
            facts.delta_is_empty,
        ) is Ok),
        r matches Ok(p) ==> {
            &&& p.authority_epoch == authority_epoch
            &&& Ok::<ProjectionShape, LifecyclePreparationError>(p.shape) == shape_spec(*facts)
            &&& p.peers.admissions@ == present_members(facts.final_present@)
            &&& p.peers.teardowns@ == facts.teardown_order@
            &&& match maybe_package_fingerprint {
                Some(f) => if facts.final_present@.len() > 0 {
                    p.peers.accepted_packages@.len() == 1 && p.peers.accepted_packages@[0].fingerprint == f
                        && p.peers.accepted_packages@[0].members@ == present_members(facts.final_present@)
                } else {
                    p.peers.accepted_packages@.len() == 0
                },
                None => p.peers.accepted_packages@.len() == 0,
            }
            &&& p.unbroadcast@.no_duplicates()
            &&& p.unbroadcast@.to_set() == unbroadcast_after(authority.unbroadcast_members@.to_set(), *facts)
            &&& Ok::<PreparedPersistenceProjection, LifecyclePreparationError>(p.persistence) == persistence_spec(
                authority.lifecycle_generation,
                authority.dirty_generation,
                facts.delta_is_empty,
            )
            &&& p.evidence == evidence_after(authority.lifecycle_evidence, *facts)
        },
{
    let shape = match ProjectionShape::prepare(facts) {
        Ok(shape) => shape,
        Err(e) => {
            return Err(e);
        },
    };
    let peers = peer_projection_input(facts, maybe_package_fingerprint);
    let unbroadcast = match prepare_unbroadcast_projection(&authority.unbroadcast_members, facts) {
        Ok(v) => v,
        Err(e) => {
            return Err(e);
        },
    };
    proof {
        unbroadcast@.unique_seq_to_set();
    }
    let persistence = match prepare_persistence_projection(
        authority.lifecycle_generation,
        authority.dirty_generation,
        facts.delta_is_empty,
    ) {
        Ok(p) => p,
        Err(e) => {
            return Err(e);
        },
    };
    let evidence = prepare_lifecycle_evidence(authority.lifecycle_evidence, facts);
    Ok(LifecycleProjectionPlan { authority_epoch, shape, peers, unbroadcast, persistence, evidence })
}

} // verus!
