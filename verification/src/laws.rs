//! Properties of the library that relate several operations or hold of
//! every reachable state, proved over the same spec functions the
//! operations' contracts use.
use vstd::prelude::*;
use crate::block_serving::BlockServingPresenceFacts;
use crate::chainstate_durability_evidence::{
    ServingStatusLabel, count_absent, count_known_without_payload, count_present,
    fresh_have_bytes, record_all,
};
use crate::compact_extra::{CompactExtraTxnBuffer, ExtraTxnSlot, occupied};
use crate::authority::{LifecycleAuthority, LifecycleProjectionError, snapshot_completion_step};
use crate::checkpoint::SnapshotWriteReceipt;
use crate::effects::{EffectCompletion, PeerEffectKey, PeerEffectLedger};
use crate::header_sync::{
    ConsensusSchedule, HeaderFacts, StoredHeader, context_spec,
    ancestor_at_height, height_after, interval_spec, recovery_bits, walk_reached,
};
use crate::identity::MemberIdentity;
use crate::recovery::{MempoolRecoveryStatus, RecoveryReplayOutcome, has_txid, replay_records};
use crate::policy_info::{
    EvictionDecision, ManagedPeerPolicyInfo, MisbehaviorDecision, MisbehaviorResponse, BanDecision, UnbanDecision,
    after_ban, clamp_u32, fold_ban, fold_misbehavior, fold_unban, policy_info_spec,
};
use crate::ledger::bounded_push;
use crate::recovery_topology::{RecoveryTopologyLimits, TopologyInput, eligible, greedy_order, is_candidate, is_parent};
use crate::identity::{PeerId, Txid, Wtxid};
use crate::relay_serving::{RelayServingRecord, ServingView, TxRelayId, after_accept, after_status, record_for};
use crate::relay_fanout::{FanoutMemoryView, after_forget};
use crate::reconciliation::{not_in, saturating_sum};
use crate::relay_evidence::lemma_count_where_zero;
use crate::relay_evidence::{TxServingRecordStatus, 
    LocalRelaySubmissionLabel, ManagedRelayFanoutActionInfo, ManagedTxServeOutcome, TxServeOutcomeLabel, count_where,
    lemma_count_where_bounded, outcome_is, projected_counters,
};

verus! {

/// Law: once an exact completion records a key, the completed record holds
/// it, so completing the same key again reports it as already recorded and
/// aborting it reports it as already completed.
pub proof fn law_recorded_completion_is_remembered<K>(completed: Seq<K>, key: K, cap: nat)
    requires
        cap >= 1,
    ensures
        bounded_push(completed, key, cap).contains(key),
{
    let pushed = completed.push(key);
    if completed.len() + 1 > cap {
        assert(pushed.drop_first()[pushed.len() - 2] == key);
    } else {
        assert(pushed[pushed.len() - 1] == key);
    }
}

/// Law: the completed record never outgrows its bound.
pub proof fn law_completed_record_is_bounded<K>(completed: Seq<K>, key: K, cap: nat)
    requires
        cap >= 1,
        completed.len() <= cap,
    ensures
        bounded_push(completed, key, cap).len() <= cap,
{
}

/// Law: the identity the peer ledger hands out next is held by no pending
/// and no completed effect, so a reserved identity is never reused.
pub proof fn law_next_peer_effect_identity_is_fresh(ledger: PeerEffectLedger, key: PeerEffectKey)
    requires
        ledger.wf(),
        key.reserved_effect.0 == ledger.next_id,
    ensures
        !ledger.core.pending@.contains(key),
        !ledger.core.completed@.contains(key),
{
    if ledger.core.pending@.contains(key) {
        let i = choose|i: int| 0 <= i < ledger.core.pending@.len() && ledger.core.pending@[i] == key;
        assert(ledger.core.pending@[i].reserved_effect.0 < ledger.next_id);
    }
    if ledger.core.completed@.contains(key) {
        let i = choose|i: int| 0 <= i < ledger.core.completed@.len() && ledger.core.completed@[i] == key;
        assert(ledger.core.completed@[i].reserved_effect.0 < ledger.next_id);
    }
}

/// Law: the recovery order puts every record after all of its parents, and
/// every ordered record is eligible.
pub proof fn law_recovery_order_is_parent_first(
    s: Seq<TopologyInput>,
    limits: RecoveryTopologyLimits,
    ordered: Seq<usize>,
    k: int,
    j: int,
)
    requires
        greedy_order(s, limits, ordered),
        0 <= k < ordered.len(),
    ensures
        eligible(s, limits, ordered[k] as int),
        is_parent(s, j, ordered[k] as int) ==> exists|m: int| 0 <= m < k && ordered[m] == j as usize,
{
    assert(is_candidate(s, limits, ordered.take(k), ordered[k] as int));
    if is_parent(s, j, ordered[k] as int) {
        assert(ordered.take(k).contains(j as usize));
        let m = choose|m: int| 0 <= m < ordered.take(k).len() && ordered.take(k)[m] == j as usize;
        assert(ordered[m] == j as usize);
    }
}

/// Law: the recovery order names each record at most once.
pub proof fn law_recovery_order_has_no_repeats(
    s: Seq<TopologyInput>,
    limits: RecoveryTopologyLimits,
    ordered: Seq<usize>,
)
    requires
        greedy_order(s, limits, ordered),
    ensures
        ordered.no_duplicates(),
{
    assert forall|a: int, b: int| 0 <= a < ordered.len() && 0 <= b < ordered.len() && a != b implies ordered[a]
        != ordered[b] by {
        let (lo, hi) = if a < b {
            (a, b)
        } else {
            (b, a)
        };
        assert(is_candidate(s, limits, ordered.take(hi), ordered[hi] as int));
        assert(ordered.take(hi)[lo] == ordered[lo]);
        assert(ordered.take(hi).contains(ordered[lo]));
    }
}

/// Law: relay evidence never counts more served transactions than
/// requests, and counts one request per serving outcome.
pub proof fn law_served_within_requested(
    labels: Seq<LocalRelaySubmissionLabel>,
    actions: Seq<ManagedRelayFanoutActionInfo>,
    outcomes: Seq<ManagedTxServeOutcome>,
)
    requires
        outcomes.len() <= u64::MAX,
    ensures
        projected_counters(labels, actions, outcomes).requested_count == outcomes.len(),
        projected_counters(labels, actions, outcomes).served_count <= projected_counters(
            labels,
            actions,
            outcomes,
        ).requested_count,
{
    lemma_count_where_bounded(outcomes, outcome_is(TxServeOutcomeLabel::Served));
}

/// Law: a transaction just accepted into the serving cache is served by its
/// txid and by its wtxid, and its status is accepted under both.
pub proof fn law_accepted_transaction_is_served<T>(v: ServingView<T>, txid: Txid, wtxid: Wtxid, transaction: T)
    ensures
        record_for(after_accept(v, txid, wtxid, transaction), TxRelayId::Txid(txid)) == Some(
            RelayServingRecord { txid, wtxid, transaction },
        ),
        record_for(after_accept(v, txid, wtxid, transaction), TxRelayId::Wtxid(wtxid)) == Some(
            RelayServingRecord { txid, wtxid, transaction },
        ),
        after_accept(v, txid, wtxid, transaction).status_by_txid[txid] == TxServingRecordStatus::Accepted,
        after_accept(v, txid, wtxid, transaction).status_by_wtxid[wtxid] == TxServingRecordStatus::Accepted,
{
}

/// Law: once a transaction takes a status, it is no longer served by its
/// txid, and the status is what the cache reports for that txid.
pub proof fn law_status_ends_serving<T>(
    v: ServingView<T>,
    txid: Txid,
    maybe_wtxid: Option<Wtxid>,
    status: TxServingRecordStatus,
)
    ensures
        record_for(after_status(v, txid, maybe_wtxid, status), TxRelayId::Txid(txid)) is None,
        after_status(v, txid, maybe_wtxid, status).status_by_txid[txid] == status,
        maybe_wtxid matches Some(w) ==> after_status(v, txid, maybe_wtxid, status).status_by_wtxid[w] == status,
{
}

/// Law: forgetting a transaction forgets, for every peer, the rejection of
/// its txid and, where its wtxid was known, of its wtxid; other rejections stay.
pub proof fn law_forgotten_transaction_is_not_a_recent_reject(v: FanoutMemoryView, txid: Txid, peer: PeerId, other: TxRelayId)
    ensures
        !after_forget(v, txid).recent_rejects.contains((peer, TxRelayId::Txid(txid))),
        v.wtxids_by_txid.dom().contains(txid) ==> !after_forget(v, txid).recent_rejects.contains(
            (peer, TxRelayId::Wtxid(v.wtxids_by_txid[txid])),
        ),
        other != TxRelayId::Txid(txid) && (v.wtxids_by_txid.dom().contains(txid) ==> other != TxRelayId::Wtxid(
            v.wtxids_by_txid[txid],
        )) ==> (after_forget(v, txid).recent_rejects.contains((peer, other)) == v.recent_rejects.contains((peer, other))),
{
}

/// Law: a projection whose members are exactly the canonical ones counts no
/// mismatch against them.
pub proof fn law_identical_projection_reconciles<T>(members: Seq<T>)
    ensures
        saturating_sum(count_where(members, not_in(members)) as int, count_where(members, not_in(members)) as int) == 0,
{
    lemma_count_where_zero(members, not_in(members));
    assert forall|i: int| 0 <= i < members.len() implies !not_in(members)(#[trigger] members[i]) by {
        assert(members.contains(members[i]));
    }
}

/// Law: after recording any number of presence decisions (fewer than
/// `u64::MAX`) into a fresh accumulator, its counters count the decisions
/// that found the payload present, found it absent, and found the index
/// known without the payload; its last labels are those of the last
/// decision, or the fresh labels when there was none.
pub proof fn law_have_bytes_counts_every_decision(ps: Seq<BlockServingPresenceFacts>)
    requires
        ps.len() < u64::MAX,
    ensures
        record_all(fresh_have_bytes(), ps).available_count == count_present(ps),
        record_all(fresh_have_bytes(), ps).unavailable_count == count_absent(ps),
        record_all(fresh_have_bytes(), ps).index_known_without_payload_count == count_known_without_payload(ps),
        ps.len() == 0 ==> record_all(fresh_have_bytes(), ps) == fresh_have_bytes(),
        ps.len() > 0 ==> {
            let acc = record_all(fresh_have_bytes(), ps);
            &&& acc.last_payload_present == ps.last().payload_present
            &&& acc.last_index_known == ps.last().index_known
            &&& acc.last_validated_on_active_chain == ps.last().validated_on_active_chain
            &&& (acc.last_serving_status == ServingStatusLabel::Available <==> ps.last().payload_present)
        },
    decreases ps.len(),
{
    lemma_counts_bounded(ps);
    if ps.len() > 0 {
        law_have_bytes_counts_every_decision(ps.drop_last());
        lemma_counts_bounded(ps.drop_last());
    }
}

proof fn lemma_counts_bounded(ps: Seq<BlockServingPresenceFacts>)
    ensures
        count_present(ps) <= ps.len(),
        count_absent(ps) <= ps.len(),
        count_known_without_payload(ps) <= ps.len(),
    decreases ps.len(),
{
    if ps.len() > 0 {
        lemma_counts_bounded(ps.drop_last());
    }
}

proof fn lemma_occupied_len<T>(slots: Seq<Option<ExtraTxnSlot<T>>>)
    ensures
        occupied(slots).len() <= slots.len(),
    decreases slots.len(),
{
    if slots.len() > 0 {
        lemma_occupied_len(slots.drop_last());
    }
}

/// Law: a well-formed compact-extra buffer never holds more pairs than it
/// has slots.
pub proof fn law_compact_extra_pairs_within_slots<T>(b: CompactExtraTxnBuffer<T>)
    requires
        b.wf(),
    ensures
        occupied(b.slots@).len() <= b.max_slots,
{
    lemma_occupied_len(b.slots@);
}

proof fn lemma_fold_ban_keeps_counts(i: ManagedPeerPolicyInfo, ds: Seq<BanDecision>)
    ensures
        fold_ban(i, ds).eviction_candidates_evaluated == i.eviction_candidates_evaluated,
        fold_ban(i, ds).misbehavior_observations == i.misbehavior_observations,
        (i.maybe_latest_peer_policy_decision is Some || ds.len() > 0) ==> fold_ban(
            i,
            ds,
        ).maybe_latest_peer_policy_decision is Some,
        (i.maybe_latest_peer_policy_decision is None && ds.len() == 0) ==> fold_ban(i, ds) == i,
    decreases ds.len(),
{
    if ds.len() > 0 {
        lemma_fold_ban_keeps_counts(i, ds.drop_last());
    }
}

proof fn lemma_fold_unban_keeps_counts(i: ManagedPeerPolicyInfo, ds: Seq<UnbanDecision>)
    ensures
        fold_unban(i, ds).eviction_candidates_evaluated == i.eviction_candidates_evaluated,
        fold_unban(i, ds).misbehavior_observations == i.misbehavior_observations,
        (i.maybe_latest_peer_policy_decision is Some || ds.len() > 0) ==> fold_unban(
            i,
            ds,
        ).maybe_latest_peer_policy_decision is Some,
        (i.maybe_latest_peer_policy_decision is None && ds.len() == 0) ==> fold_unban(i, ds) == i,
    decreases ds.len(),
{
    if ds.len() > 0 {
        lemma_fold_unban_keeps_counts(i, ds.drop_last());
    }
}

proof fn lemma_fold_misbehavior_keeps_counts(i: ManagedPeerPolicyInfo, ds: Seq<MisbehaviorDecision>)
    ensures
        fold_misbehavior(i, ds).eviction_candidates_evaluated == i.eviction_candidates_evaluated,
        fold_misbehavior(i, ds).misbehavior_observations == i.misbehavior_observations,
        (i.maybe_latest_peer_policy_decision is Some || ds.len() > 0) ==> fold_misbehavior(
            i,
            ds,
        ).maybe_latest_peer_policy_decision is Some,
        ds.len() == 0 ==> fold_misbehavior(i, ds) == i,
    decreases ds.len(),
{
    if ds.len() > 0 {
        lemma_fold_misbehavior_keeps_counts(i, ds.drop_last());
    }
}

/// Law: the peer-policy evidence built from the policy's decisions is empty
/// exactly when there were no eviction candidates and no misbehavior, ban or
/// unban decision.
pub proof fn law_peer_policy_empty_without_decisions(
    eviction_candidate_count: usize,
    maybe_eviction: Option<EvictionDecision>,
    misbehavior: Seq<MisbehaviorDecision>,
    bans: Seq<BanDecision>,
    unbans: Seq<UnbanDecision>,
)
    ensures
        policy_info_spec(eviction_candidate_count, maybe_eviction, misbehavior, bans, unbans).is_empty_spec() <==> (
        eviction_candidate_count == 0 && misbehavior.len() == 0 && bans.len() == 0 && unbans.len() == 0),
{
    let r = policy_info_spec(eviction_candidate_count, maybe_eviction, misbehavior, bans, unbans);
    let start = ManagedPeerPolicyInfo {
        eviction_candidates_evaluated: crate::policy_info::clamp_u32(eviction_candidate_count as int),
        disconnects_requested: 0,
        discouraged_peers: 0,
        active_bans: 0,
        expired_bans: 0,
        manual_unbans: 0,
        misbehavior_observations: crate::policy_info::clamp_u32(misbehavior.len() as int),
        protected_no_actions: 0,
        maybe_latest_peer_policy_decision: None,
    };
    let after_evict = match maybe_eviction {
        Some(d) => if eviction_candidate_count > 0 {
            crate::policy_info::after_eviction(start, d)
        } else {
            start
        },
        None => start,
    };
    let m = fold_misbehavior(after_evict, misbehavior);
    let b = fold_ban(m, bans);
    lemma_fold_misbehavior_keeps_counts(after_evict, misbehavior);
    lemma_fold_ban_keeps_counts(m, bans);
    lemma_fold_unban_keeps_counts(b, unbans);
    assert(r == fold_unban(b, unbans));
}

/// Law: completing one snapshot receipt again after it was accepted is
/// answered as already applied and changes nothing.
pub proof fn law_snapshot_completion_is_idempotent(
    a0: LifecycleAuthority,
    a1: LifecycleAuthority,
    a2: LifecycleAuthority,
    receipt: SnapshotWriteReceipt,
    r1: Result<EffectCompletion, LifecycleProjectionError>,
    r2: Result<EffectCompletion, LifecycleProjectionError>,
)
    requires
        snapshot_completion_step(a0, receipt, a1, r1),
        r1 is Ok,
        snapshot_completion_step(a1, receipt, a2, r2),
    ensures
        r2 == Ok::<EffectCompletion, LifecycleProjectionError>(EffectCompletion::AlreadyApplied),
        a2 == a1,
{
}

/// Whether `a[0..=k]` is a chain of stored ancestors, each the parent of the one before.
pub open spec fn linked_to(a: Seq<StoredHeader>, k: int) -> bool {
    forall|j: int| 0 <= j < k ==> #[trigger] a[j + 1].block_hash == a[j].previous_block_hash
}

proof fn lemma_walk_from(a: Seq<StoredHeader>, i: int, k: int, interval: u32, limit: u32)
    requires
        interval != 0,
        0 <= i <= k < a.len(),
        linked_to(a, k),
        forall|j: int| 0 <= j < k ==> (#[trigger] a[j]).height % interval != 0 && a[j].bits == limit,
        a[k].height % interval == 0 || a[k].bits != limit,
    ensures
        recovery_bits(a, i as nat, a[i].block_hash, interval, limit) == Ok::<u32, crate::identity::Hash32>(a[k].bits),
    decreases k - i,
{
    if i < k {
        assert(a[i + 1].block_hash == a[i].previous_block_hash);
        lemma_walk_from(a, i + 1, k, interval, limit);
    }
}

/// Law: the min-difficulty recovery walk answers with the bits of the first
/// stored ancestor, from the parent down, whose height starts a difficulty
/// period or whose bits are not the proof-of-work limit: ancestors that
/// carry the limit in the middle of a period are stepped over, and the walk
/// never goes past a period start.
pub proof fn law_recovery_walk_stops_at_first_period_start_or_real_bits(
    a: Seq<StoredHeader>,
    k: int,
    interval: u32,
    limit: u32,
)
    requires
        interval != 0,
        0 <= k < a.len(),
        linked_to(a, k),
        forall|j: int| 0 <= j < k ==> (#[trigger] a[j]).height % interval != 0 && a[j].bits == limit,
        a[k].height % interval == 0 || a[k].bits != limit,
    ensures
        recovery_bits(a, 0, a[0].block_hash, interval, limit) == Ok::<u32, crate::identity::Hash32>(a[k].bits),
{
    lemma_walk_from(a, 0, k, interval, limit);
}

/// Law: where a synced header's context needs the min-difficulty recovery
/// target, it is the bits of the first ancestor of the parent (the parent
/// included) that starts a difficulty period or does not carry the
/// proof-of-work limit; the context is then built at the parent's height plus one.
pub proof fn law_header_context_recovery_bits(
    has_known_headers: bool,
    a: Seq<StoredHeader>,
    maybe_mtp: Option<i64>,
    header: HeaderFacts,
    current_time: i64,
    params: ConsensusSchedule,
    k: int,
)
    requires
        walk_reached(has_known_headers, a, maybe_mtp, header, params),
        interval_spec(params) != 0,
        0 <= k < a.len(),
        linked_to(a, k),
        forall|j: int|
            0 <= j < k ==> (#[trigger] a[j]).height % interval_spec(params) != 0 && a[j].bits == params.pow_limit_bits,
        a[k].height % interval_spec(params) == 0 || a[k].bits != params.pow_limit_bits,
    ensures
        context_spec(has_known_headers, a, maybe_mtp, header, current_time, params) matches Ok(ctx)
            && ctx.maybe_min_difficulty_recovery_bits == Some(a[k].bits) && ctx.height == height_after(a[0].height)
            && ctx.maybe_previous_header == Some(a[0]),
{
    lemma_walk_from(a, 0, k, interval_spec(params), params.pow_limit_bits);
}

proof fn lemma_anchor_from(a: Seq<StoredHeader>, i: int, k: int, h: u32)
    requires
        0 <= i <= k < a.len(),
        linked_to(a, k),
        forall|j: int| 0 <= j < k ==> (#[trigger] a[j]).height > h,
        a[k].height == h,
    ensures
        ancestor_at_height(a, i as nat, a[i].block_hash, h) == Some(a[k]),
    decreases k - i,
{
    if i < k {
        assert(a[i + 1].block_hash == a[i].previous_block_hash);
        lemma_anchor_from(a, i + 1, k, h);
    }
}

/// Law: the retarget anchor walk answers with the first stored ancestor,
/// from the given header down, at exactly the asked height, stepping over
/// the higher ones.
pub proof fn law_ancestor_walk_finds_the_height(a: Seq<StoredHeader>, k: int, h: u32)
    requires
        0 <= k < a.len(),
        linked_to(a, k),
        forall|j: int| 0 <= j < k ==> (#[trigger] a[j]).height > h,
        a[k].height == h,
    ensures
        ancestor_at_height(a, 0, a[0].block_hash, h) == Some(a[k]),
{
    lemma_anchor_from(a, 0, k, h);
}

/// How many of `m` chose to ban.
pub open spec fn count_ban_responses(m: Seq<MisbehaviorDecision>) -> nat
    decreases m.len(),
{
    if m.len() == 0 {
        0
    } else {
        count_ban_responses(m.drop_last()) + if m.last().response == MisbehaviorResponse::Ban {
            1nat
        } else {
            0nat
        }
    }
}

/// How many of `bans` are active.
pub open spec fn count_active_bans(bans: Seq<BanDecision>) -> nat
    decreases bans.len(),
{
    if bans.len() == 0 {
        0
    } else {
        count_active_bans(bans.drop_last()) + if bans.last() is Active {
            1nat
        } else {
            0nat
        }
    }
}

/// How many of `bans` have expired.
pub open spec fn count_expired_bans(bans: Seq<BanDecision>) -> nat
    decreases bans.len(),
{
    if bans.len() == 0 {
        0
    } else {
        count_expired_bans(bans.drop_last()) + if bans.last() is Expired {
            1nat
        } else {
            0nat
        }
    }
}

/// How many of `unbans` found the ban already expired.
pub open spec fn count_already_expired(unbans: Seq<UnbanDecision>) -> nat
    decreases unbans.len(),
{
    if unbans.len() == 0 {
        0
    } else {
        count_already_expired(unbans.drop_last()) + if unbans.last() == UnbanDecision::AlreadyExpired {
            1nat
        } else {
            0nat
        }
    }
}

/// Law: one ban decision counts exactly once, in its own counter: an active
/// ban raises the active bans by one (saturating) and leaves the expired
/// bans alone; an expired ban does the converse; nothing else changes but
/// the latest decision.
pub proof fn law_ban_decision_counts_in_its_own_counter(i: ManagedPeerPolicyInfo, d: BanDecision)
    ensures
        d is Active ==> after_ban(i, d).active_bans == clamp_u32(i.active_bans + 1) && after_ban(i, d).expired_bans
            == i.expired_bans,
        d is Expired ==> after_ban(i, d).expired_bans == clamp_u32(i.expired_bans + 1) && after_ban(i, d).active_bans
            == i.active_bans,
        after_ban(i, d).disconnects_requested == i.disconnects_requested,
        after_ban(i, d).discouraged_peers == i.discouraged_peers,
        after_ban(i, d).manual_unbans == i.manual_unbans,
        after_ban(i, d).maybe_latest_peer_policy_decision == Some(crate::policy_info::PeerPolicyEvent::Ban(d)),
{
}

proof fn lemma_clamp_step(x: int, c: int)
    requires
        0 <= x,
        0 <= c,
    ensures
        clamp_u32(clamp_u32(x + c) + 1) == clamp_u32(x + c + 1),
{
}

proof fn lemma_fold_misbehavior_bans(i: ManagedPeerPolicyInfo, m: Seq<MisbehaviorDecision>)
    ensures
        fold_misbehavior(i, m).active_bans == clamp_u32(i.active_bans + count_ban_responses(m)),
        fold_misbehavior(i, m).expired_bans == i.expired_bans,
    decreases m.len(),
{
    if m.len() > 0 {
        lemma_fold_misbehavior_bans(i, m.drop_last());
        lemma_clamp_step(i.active_bans as int, count_ban_responses(m.drop_last()) as int);
    }
}

proof fn lemma_fold_ban_counts(i: ManagedPeerPolicyInfo, bans: Seq<BanDecision>)
    ensures
        fold_ban(i, bans).active_bans == clamp_u32(i.active_bans + count_active_bans(bans)),
        fold_ban(i, bans).expired_bans == clamp_u32(i.expired_bans + count_expired_bans(bans)),
    decreases bans.len(),
{
    if bans.len() > 0 {
        lemma_fold_ban_counts(i, bans.drop_last());
        lemma_clamp_step(i.active_bans as int, count_active_bans(bans.drop_last()) as int);
        lemma_clamp_step(i.expired_bans as int, count_expired_bans(bans.drop_last()) as int);
    }
}

proof fn lemma_fold_unban_counts(i: ManagedPeerPolicyInfo, unbans: Seq<UnbanDecision>)
    ensures
        fold_unban(i, unbans).active_bans == i.active_bans,
        fold_unban(i, unbans).expired_bans == clamp_u32(i.expired_bans + count_already_expired(unbans)),
    decreases unbans.len(),
{
    if unbans.len() > 0 {
        lemma_fold_unban_counts(i, unbans.drop_last());
        lemma_clamp_step(i.expired_bans as int, count_already_expired(unbans.drop_last()) as int);
    }
}

/// Law: the peer-policy info built from the policy's decisions counts as
/// active bans exactly the misbehavior decisions that chose to ban and the
/// active ban decisions, and as expired bans exactly the expired ban
/// decisions and the unbans that found the ban already expired, each
/// clamped at `u32::MAX`.
pub proof fn law_peer_policy_ban_counts(
    eviction_candidate_count: usize,
    maybe_eviction: Option<EvictionDecision>,
    misbehavior: Seq<MisbehaviorDecision>,
    bans: Seq<BanDecision>,
    unbans: Seq<UnbanDecision>,
)
    ensures
        policy_info_spec(eviction_candidate_count, maybe_eviction, misbehavior, bans, unbans).active_bans == clamp_u32(
            (count_ban_responses(misbehavior) + count_active_bans(bans)) as int,
        ),
        policy_info_spec(eviction_candidate_count, maybe_eviction, misbehavior, bans, unbans).expired_bans == clamp_u32(
            (count_expired_bans(bans) + count_already_expired(unbans)) as int,
        ),
{
    let start = ManagedPeerPolicyInfo {
        eviction_candidates_evaluated: clamp_u32(eviction_candidate_count as int),
        disconnects_requested: 0,
        discouraged_peers: 0,
        active_bans: 0,
        expired_bans: 0,
        manual_unbans: 0,
        misbehavior_observations: clamp_u32(misbehavior.len() as int),
        protected_no_actions: 0,
        maybe_latest_peer_policy_decision: None,
    };
    let after_evict = match maybe_eviction {
        Some(d) => if eviction_candidate_count > 0 {
            crate::policy_info::after_eviction(start, d)
        } else {
            start
        },
        None => start,
    };
    assert(after_evict.active_bans == 0 && after_evict.expired_bans == 0);
    let m = fold_misbehavior(after_evict, misbehavior);
    lemma_fold_misbehavior_bans(after_evict, misbehavior);
    let b = fold_ban(m, bans);
    lemma_fold_ban_counts(m, bans);
    lemma_fold_unban_counts(b, unbans);
    let x = count_ban_responses(misbehavior) as int;
    let y = count_active_bans(bans) as int;
    assert(clamp_u32(clamp_u32(x) + y) == clamp_u32(x + y));
    let e = count_expired_bans(bans) as int;
    let f = count_already_expired(unbans) as int;
    assert(clamp_u32(clamp_u32(e) + f) == clamp_u32(e + f));
}

/// How many of `m` chose `response`.
pub open spec fn count_response(m: Seq<MisbehaviorDecision>, response: MisbehaviorResponse) -> nat
    decreases m.len(),
{
    if m.len() == 0 {
        0
    } else {
        count_response(m.drop_last(), response) + if m.last().response == response {
            1nat
        } else {
            0nat
        }
    }
}

/// How many of `unbans` are `which`.
pub open spec fn count_unban(unbans: Seq<UnbanDecision>, which: UnbanDecision) -> nat
    decreases unbans.len(),
{
    if unbans.len() == 0 {
        0
    } else {
        count_unban(unbans.drop_last(), which) + if unbans.last() == which {
            1nat
        } else {
            0nat
        }
    }
}

proof fn lemma_fold_misbehavior_other_counts(i: ManagedPeerPolicyInfo, m: Seq<MisbehaviorDecision>)
    ensures
        fold_misbehavior(i, m).disconnects_requested == clamp_u32(
            i.disconnects_requested + count_response(m, MisbehaviorResponse::Disconnect),
        ),
        fold_misbehavior(i, m).discouraged_peers == clamp_u32(
            i.discouraged_peers + count_response(m, MisbehaviorResponse::Discourage),
        ),
        fold_misbehavior(i, m).manual_unbans == i.manual_unbans,
        m.len() > 0 ==> fold_misbehavior(i, m).maybe_latest_peer_policy_decision == Some(
            crate::policy_info::PeerPolicyEvent::Misbehavior(m.last()),
        ),
    decreases m.len(),
{
    if m.len() > 0 {
        lemma_fold_misbehavior_other_counts(i, m.drop_last());
        lemma_clamp_step(
            i.disconnects_requested as int,
            count_response(m.drop_last(), MisbehaviorResponse::Disconnect) as int,
        );
        lemma_clamp_step(
            i.discouraged_peers as int,
            count_response(m.drop_last(), MisbehaviorResponse::Discourage) as int,
        );
    }
}

proof fn lemma_fold_ban_other_counts(i: ManagedPeerPolicyInfo, bans: Seq<BanDecision>)
    ensures
        fold_ban(i, bans).disconnects_requested == i.disconnects_requested,
        fold_ban(i, bans).discouraged_peers == i.discouraged_peers,
        fold_ban(i, bans).manual_unbans == i.manual_unbans,
        bans.len() > 0 ==> fold_ban(i, bans).maybe_latest_peer_policy_decision == Some(
            crate::policy_info::PeerPolicyEvent::Ban(bans.last()),
        ),
        bans.len() == 0 ==> fold_ban(i, bans).maybe_latest_peer_policy_decision == i.maybe_latest_peer_policy_decision,
    decreases bans.len(),
{
    if bans.len() > 0 {
        lemma_fold_ban_other_counts(i, bans.drop_last());
    }
}

proof fn lemma_fold_unban_other_counts(i: ManagedPeerPolicyInfo, unbans: Seq<UnbanDecision>)
    ensures
        fold_unban(i, unbans).disconnects_requested == i.disconnects_requested,
        fold_unban(i, unbans).discouraged_peers == i.discouraged_peers,
        fold_unban(i, unbans).manual_unbans == clamp_u32(i.manual_unbans + count_unban(unbans, UnbanDecision::Unbanned)),
        unbans.len() > 0 ==> fold_unban(i, unbans).maybe_latest_peer_policy_decision == Some(
            crate::policy_info::PeerPolicyEvent::Unban(unbans.last()),
        ),
        unbans.len() == 0 ==> fold_unban(i, unbans).maybe_latest_peer_policy_decision
            == i.maybe_latest_peer_policy_decision,
    decreases unbans.len(),
{
    if unbans.len() > 0 {
        lemma_fold_unban_other_counts(i, unbans.drop_last());
        lemma_clamp_step(i.manual_unbans as int, count_unban(unbans.drop_last(), UnbanDecision::Unbanned) as int);
    }
}

/// Law: the peer-policy info built from the policy's decisions counts the
/// discouraged peers as the misbehavior decisions that chose to discourage,
/// the manual unbans as the unban decisions that unbanned, and the requested
/// disconnects as those that chose to disconnect plus one for a selected
/// eviction among candidates, each clamped at `u32::MAX`; its latest
/// decision is the last unban, else the last ban, else the last misbehavior
/// decision.
pub proof fn law_peer_policy_counts(
    eviction_candidate_count: usize,
    maybe_eviction: Option<EvictionDecision>,
    misbehavior: Seq<MisbehaviorDecision>,
    bans: Seq<BanDecision>,
    unbans: Seq<UnbanDecision>,
)
    ensures
        ({
            let r = policy_info_spec(eviction_candidate_count, maybe_eviction, misbehavior, bans, unbans);
            let selected: int = if eviction_candidate_count > 0 && maybe_eviction matches Some(EvictionDecision::Select { .. }) {
                1
            } else {
                0
            };
            &&& r.discouraged_peers == clamp_u32(count_response(misbehavior, MisbehaviorResponse::Discourage) as int)
            &&& r.manual_unbans == clamp_u32(count_unban(unbans, UnbanDecision::Unbanned) as int)
            &&& r.disconnects_requested == clamp_u32(
                selected + count_response(misbehavior, MisbehaviorResponse::Disconnect),
            )
            &&& r.misbehavior_observations == clamp_u32(misbehavior.len() as int)
            &&& r.eviction_candidates_evaluated == clamp_u32(eviction_candidate_count as int)
            &&& unbans.len() > 0 ==> r.maybe_latest_peer_policy_decision == Some(
                crate::policy_info::PeerPolicyEvent::Unban(unbans.last()),
            )
            &&& unbans.len() == 0 && bans.len() > 0 ==> r.maybe_latest_peer_policy_decision == Some(
                crate::policy_info::PeerPolicyEvent::Ban(bans.last()),
            )
            &&& unbans.len() == 0 && bans.len() == 0 && misbehavior.len() > 0 ==> r.maybe_latest_peer_policy_decision
                == Some(crate::policy_info::PeerPolicyEvent::Misbehavior(misbehavior.last()))
        }),
{
    let start = ManagedPeerPolicyInfo {
        eviction_candidates_evaluated: clamp_u32(eviction_candidate_count as int),
        disconnects_requested: 0,
        discouraged_peers: 0,
        active_bans: 0,
        expired_bans: 0,
        manual_unbans: 0,
        misbehavior_observations: clamp_u32(misbehavior.len() as int),
        protected_no_actions: 0,
        maybe_latest_peer_policy_decision: None,
    };
    let after_evict = match maybe_eviction {
        Some(d) => if eviction_candidate_count > 0 {
            crate::policy_info::after_eviction(start, d)
        } else {
            start
        },
        None => start,
    };
    let m = fold_misbehavior(after_evict, misbehavior);
    lemma_fold_misbehavior_other_counts(after_evict, misbehavior);
    lemma_fold_misbehavior_keeps_counts(after_evict, misbehavior);
    let b = fold_ban(m, bans);
    lemma_fold_ban_other_counts(m, bans);
    lemma_fold_ban_keeps_counts(m, bans);
    lemma_fold_unban_other_counts(b, unbans);
    lemma_fold_unban_keeps_counts(b, unbans);
}

/// Law: a replayed record's status is fixed by its replay outcome: already
/// confirmed, a duplicate, orphaned for a missing parent, rejected by
/// policy, evicted or expired on replay each give their own drop status; an
/// accepted or replacing replay is dropped as expired when startup expiry
/// removed it, recovered when it is in the final mempool, and dropped as
/// evicted otherwise. The record names the replayed member's txid.
pub proof fn law_replay_status_follows_the_outcome(
    ordered: Seq<MemberIdentity>,
    outcomes: Seq<RecoveryReplayOutcome>,
    expired: Seq<crate::identity::Txid>,
    final_members: Seq<MemberIdentity>,
    i: int,
)
    requires
        0 <= i < ordered.len(),
    ensures
        ({
            let r = replay_records(ordered, outcomes, expired, final_members)[i];
            let txid = ordered[i].txid;
            &&& r.txid == txid
            &&& outcomes[i] == RecoveryReplayOutcome::Confirmed ==> r.status == MempoolRecoveryStatus::DroppedConfirmed
            &&& outcomes[i] == RecoveryReplayOutcome::Duplicate ==> r.status == MempoolRecoveryStatus::DroppedDuplicate
            &&& outcomes[i] == RecoveryReplayOutcome::Orphaned ==> r.status == MempoolRecoveryStatus::DroppedMissingParent
            &&& outcomes[i] == RecoveryReplayOutcome::Rejected ==> r.status
                == MempoolRecoveryStatus::DroppedPolicyIncompatible
            &&& outcomes[i] == RecoveryReplayOutcome::Evicted ==> r.status == MempoolRecoveryStatus::DroppedEvicted
            &&& outcomes[i] == RecoveryReplayOutcome::Expired ==> r.status == MempoolRecoveryStatus::DroppedExpired
            &&& (outcomes[i] == RecoveryReplayOutcome::Accepted || outcomes[i] == RecoveryReplayOutcome::Replaced) ==> {
                &&& expired.contains(txid) ==> r.status == MempoolRecoveryStatus::DroppedExpired
                &&& !expired.contains(txid) && has_txid(final_members, txid) ==> r.status
                    == MempoolRecoveryStatus::Recovered
                &&& !expired.contains(txid) && !has_txid(final_members, txid) ==> r.status
                    == MempoolRecoveryStatus::DroppedEvicted
            }
        }),
{
}

} // verus!
