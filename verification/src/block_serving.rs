//! Block serving: the storage-read guard, the serve intent and its completion,
//! compact `getblocktxn` serving, and the have-bytes accumulator.
use vstd::prelude::*;
use crate::identity::Hash32;

verus! {

/// The kind of an inventory request.
#[derive(Debug, Clone, Copy, PartialEq, Eq, Structural, Hash)]
pub enum InventoryKind {
    Error,
    Transaction,
    Block,
    FilteredBlock,
    CompactBlock,
    WitnessTransaction,
    WitnessBlock,
}

/// One inventory request: its kind and the requested hash.
#[derive(Debug, Clone, Copy, PartialEq, Eq, Structural, Hash)]
pub struct InventoryVector {
    pub inventory_type: InventoryKind,
    pub object_hash: Hash32,
}

/// Why a peer may or may not be served blocks.
#[derive(Debug, Clone, Copy, PartialEq, Eq, Structural, Hash)]
pub enum BlockServingEligibilityReason {
    Eligible,
    Disabled,
    ActivationRequired,
    InboundServingRequired,
    PermissionRequired,
    ProtectedNotServing,
    StatusUnavailable,
    PermissionEffectInactive,
}

/// The serving status of the requested block.
#[derive(Debug, Clone, Copy, PartialEq, Eq, Structural, Hash)]
pub enum BlockServingStatusLabel {
    Validated,
    Available,
    Stale,
    SideChain,
    Pruned,
    Unavailable,
    Unvalidated,
    Unknown,
    Suppressed,
}

/// The outcome label of one block request.
#[derive(Debug, Clone, Copy, PartialEq, Eq, Structural, Hash)]
pub enum BlockServingOutcomeLabel {
    BlockServingEligible,
    BlockServingDisabled,
    BlockServingSuppressed,
    BlockStatusUnavailable,
    BlockRequestCapReached,
    BlockInFlightLimitStillReached,
    BlockServingIneligible,
    BlockServingResourceLimited,
}

/// What is known of the requested block's bytes.
#[derive(Debug, Clone, Copy, PartialEq, Eq, Structural, Hash)]
pub struct BlockServingPresenceFacts {
    pub payload_present: bool,
    pub index_known: bool,
    pub validated_on_active_chain: bool,
}

/// How an eligible block is serialized for the wire.
#[derive(Debug, Clone, Copy, PartialEq, Eq, Structural, Hash)]
pub enum ManagedBlockSerializationMode {
    Block,
    WitnessBlock,
    CompactBlock,
}

/// How the outside work for one serve intent ended.
#[derive(Debug, Clone, Copy, PartialEq, Eq, Structural, Hash)]
pub enum ManagedBlockServeCompletionOutcome {
    LookupUnavailable,
    TransportFailed,
    Written,
}

/// The decision recorded for one block request.
#[derive(Debug, Clone, Copy, PartialEq, Eq, Structural)]
pub struct ManagedBlockServeDecision {
    pub label: BlockServingOutcomeLabel,
    pub status_label: BlockServingStatusLabel,
    pub eligibility_reason: BlockServingEligibilityReason,
    pub missing_inventory: bool,
    pub presence: BlockServingPresenceFacts,
}

/// What the guard reads: the request and the serving policy's classifications
/// of the block status, the peer's eligibility and the resource guard.
#[derive(Debug, Clone, Copy, PartialEq, Eq, Structural)]
pub struct ManagedBlockServeGateInput {
    pub inventory_type: InventoryKind,
    pub block_hash: Hash32,
    pub compact_relay_enabled: bool,
    pub status_label: BlockServingStatusLabel,
    pub eligibility_reason: BlockServingEligibilityReason,
    pub gate_label: BlockServingOutcomeLabel,
    pub gate_allow_storage_read: bool,
    pub gate_may_serve_block: bool,
    pub presence: BlockServingPresenceFacts,
}

/// An eligible request that may read storage.
#[derive(Debug, Clone, Copy, PartialEq, Eq, Structural)]
pub struct ManagedBlockServeIntent {
    pub request: InventoryVector,
    pub block_hash: Hash32,
    pub serialization_mode: ManagedBlockSerializationMode,
    pub eligible_decision: ManagedBlockServeDecision,
}

/// The recorded end of one serve intent.
#[derive(Debug, Clone, Copy, PartialEq, Eq, Structural)]
pub struct ManagedBlockServeCompletion {
    pub request: InventoryVector,
    pub outcome: ManagedBlockServeCompletionOutcome,
    pub decision: ManagedBlockServeDecision,
}

/// What the guard decides: serve with an intent, or deny with a decision.
#[derive(Debug, Clone, Copy, PartialEq, Eq, Structural)]
pub enum ManagedBlockServeGateDecision {
    Serve(ManagedBlockServeIntent),
    Deny(ManagedBlockServeDecision),
}

pub open spec fn missing_decision(
    label: BlockServingOutcomeLabel,
    status_label: BlockServingStatusLabel,
    eligibility_reason: BlockServingEligibilityReason,
    presence: BlockServingPresenceFacts,
) -> ManagedBlockServeDecision {
    ManagedBlockServeDecision { label, status_label, eligibility_reason, missing_inventory: true, presence }
}

fn missing(
    label: BlockServingOutcomeLabel,
    status_label: BlockServingStatusLabel,
    eligibility_reason: BlockServingEligibilityReason,
    presence: BlockServingPresenceFacts,
) -> (r: ManagedBlockServeDecision)
    ensures
        r == missing_decision(label, status_label, eligibility_reason, presence),
{
    ManagedBlockServeDecision { label, status_label, eligibility_reason, missing_inventory: true, presence }
}

/// The serialization of an inventory kind, when it names a servable block.
pub open spec fn serialization_for(kind: InventoryKind, compact_enabled: bool) -> Option<ManagedBlockSerializationMode> {
    match kind {
        InventoryKind::Block => Some(ManagedBlockSerializationMode::Block),
        InventoryKind::WitnessBlock => Some(ManagedBlockSerializationMode::WitnessBlock),
        InventoryKind::CompactBlock => if compact_enabled {
            Some(ManagedBlockSerializationMode::CompactBlock)
        } else {
            None
        },
        _ => None,
    }
}

/// What the guard decides for `input`.
pub open spec fn gate_spec(input: ManagedBlockServeGateInput) -> ManagedBlockServeGateDecision {
    if input.inventory_type == InventoryKind::CompactBlock && !input.compact_relay_enabled {
        ManagedBlockServeGateDecision::Deny(
            missing_decision(
                BlockServingOutcomeLabel::BlockServingSuppressed,
                input.status_label,
                input.eligibility_reason,
                input.presence,
            ),
        )
    } else if serialization_for(input.inventory_type, input.compact_relay_enabled) is None {
        ManagedBlockServeGateDecision::Deny(
            missing_decision(
                BlockServingOutcomeLabel::BlockStatusUnavailable,
                input.status_label,
                input.eligibility_reason,
                input.presence,
            ),
        )
    } else if !input.gate_allow_storage_read || !input.gate_may_serve_block {
        ManagedBlockServeGateDecision::Deny(
            missing_decision(input.gate_label, input.status_label, input.eligibility_reason, input.presence),
        )
    } else {
        ManagedBlockServeGateDecision::Serve(
            ManagedBlockServeIntent {
                request: InventoryVector { inventory_type: input.inventory_type, object_hash: input.block_hash },
                block_hash: input.block_hash,
                serialization_mode: serialization_for(input.inventory_type, input.compact_relay_enabled).unwrap(),
                eligible_decision: ManagedBlockServeDecision {
                    label: BlockServingOutcomeLabel::BlockServingEligible,
                    status_label: input.status_label,
                    eligibility_reason: input.eligibility_reason,
                    missing_inventory: false,
                    presence: input.presence,
                },
            },
        )
    }
}

/// Decides whether a block request may read storage: only a block kind the
/// activation supports, and only when the resource guard allows both the read
/// and the serve.
pub fn gate_managed_block_request(input: ManagedBlockServeGateInput) -> (r: ManagedBlockServeGateDecision)
    ensures
        r == gate_spec(input),
{
    let maybe_mode = match input.inventory_type {
        InventoryKind::Block => Some(ManagedBlockSerializationMode::Block),
        InventoryKind::WitnessBlock => Some(ManagedBlockSerializationMode::WitnessBlock),
        InventoryKind::CompactBlock => {
            if input.compact_relay_enabled {
                Some(ManagedBlockSerializationMode::CompactBlock)
            } else {
                return ManagedBlockServeGateDecision::Deny(
                    missing(
                        BlockServingOutcomeLabel::BlockServingSuppressed,
                        input.status_label,
                        input.eligibility_reason,
                        input.presence,
                    ),
                );
            }
        },
        _ => None,
    };
    let serialization_mode = match maybe_mode {
        Some(mode) => mode,
        None => {
            return ManagedBlockServeGateDecision::Deny(
                missing(
                    BlockServingOutcomeLabel::BlockStatusUnavailable,
                    input.status_label,
                    input.eligibility_reason,
                    input.presence,
                ),
            );
        },
    };
    if !input.gate_allow_storage_read || !input.gate_may_serve_block {
        return ManagedBlockServeGateDecision::Deny(
            missing(input.gate_label, input.status_label, input.eligibility_reason, input.presence),
        );
    }
    ManagedBlockServeGateDecision::Serve(
        ManagedBlockServeIntent {
            request: InventoryVector { inventory_type: input.inventory_type, object_hash: input.block_hash },
            block_hash: input.block_hash,
            serialization_mode,
            eligible_decision: ManagedBlockServeDecision {
                label: BlockServingOutcomeLabel::BlockServingEligible,
                status_label: input.status_label,
                eligibility_reason: input.eligibility_reason,
                missing_inventory: false,
                presence: input.presence,
            },
        },
    )
}

/// The decision that a completion of `intent` with `outcome` records.
pub open spec fn completion_decision(
    intent: ManagedBlockServeIntent,
    outcome: ManagedBlockServeCompletionOutcome,
) -> ManagedBlockServeDecision {
    match outcome {
        ManagedBlockServeCompletionOutcome::LookupUnavailable => missing_decision(
            BlockServingOutcomeLabel::BlockStatusUnavailable,
            BlockServingStatusLabel::Unavailable,
            intent.eligible_decision.eligibility_reason,
            BlockServingPresenceFacts {
                payload_present: false,
                index_known: intent.eligible_decision.presence.index_known,
                validated_on_active_chain: intent.eligible_decision.presence.validated_on_active_chain,
            },
        ),
        _ => intent.eligible_decision,
    }
}

impl ManagedBlockServeIntent {
    pub fn request(&self) -> (r: InventoryVector)
        ensures
            r == self.request,
    {
        self.request
    }

    pub fn block_hash(&self) -> (r: Hash32)
        ensures
            r == self.block_hash,
    {
        self.block_hash
    }

    pub fn serialization_mode(&self) -> (r: ManagedBlockSerializationMode)
        ensures
            r == self.serialization_mode,
    {
        self.serialization_mode
    }

    /// The completion recording how the outside work ended; a failed lookup
    /// records the block as unavailable without a payload.
    pub fn completion(&self, outcome: ManagedBlockServeCompletionOutcome) -> (r: ManagedBlockServeCompletion)
        ensures
            r == (ManagedBlockServeCompletion {
                request: self.request,
                outcome,
                decision: completion_decision(*self, outcome),
            }),
    {
        let decision = match outcome {
            ManagedBlockServeCompletionOutcome::LookupUnavailable => missing(
                BlockServingOutcomeLabel::BlockStatusUnavailable,
                BlockServingStatusLabel::Unavailable,
                self.eligible_decision.eligibility_reason,
                BlockServingPresenceFacts {
                    payload_present: false,
                    index_known: self.eligible_decision.presence.index_known,
                    validated_on_active_chain: self.eligible_decision.presence.validated_on_active_chain,
                },
            ),
            _ => self.eligible_decision,
        };
        ManagedBlockServeCompletion { request: self.request, outcome, decision }
    }
}

impl ManagedBlockServeCompletion {
    pub fn request(&self) -> (r: InventoryVector)
        ensures
            r == self.request,
    {
        self.request
    }

    pub fn decision(&self) -> (r: ManagedBlockServeDecision)
        ensures
            r == self.decision,
    {
        self.decision
    }

    /// Only a written block counts as served.
    pub fn records_served_effect(&self) -> (r: bool)
        ensures
            r == (self.outcome == ManagedBlockServeCompletionOutcome::Written),
    {
        match self.outcome {
            ManagedBlockServeCompletionOutcome::Written => true,
            _ => false,
        }
    }
}

/// Serves one block request: the guard decides first, and only an intent
/// reads the block through `lookup_block`.
pub fn serve_managed_block_request<B, F: FnOnce(Hash32) -> Option<B>>(input: ManagedBlockServeGateInput, lookup_block: F) -> (r: (
    ManagedBlockServeDecision,
    Option<B>,
))
    requires
        gate_spec(input) matches ManagedBlockServeGateDecision::Serve(intent) ==> lookup_block.requires((intent.block_hash,)),
    ensures
        gate_spec(input) matches ManagedBlockServeGateDecision::Deny(d) ==> r.0 == d && r.1 is None,
        gate_spec(input) matches ManagedBlockServeGateDecision::Serve(intent) ==> {
            &&& lookup_block.ensures((intent.block_hash,), r.1)
            &&& r.1 is None ==> r.0 == completion_decision(intent, ManagedBlockServeCompletionOutcome::LookupUnavailable)
            &&& r.1 is Some ==> r.0 == intent.eligible_decision
        },
{
    let intent = match gate_managed_block_request(input) {
        ManagedBlockServeGateDecision::Serve(intent) => intent,
        ManagedBlockServeGateDecision::Deny(decision) => return (decision, None),
    };
    let maybe_block = lookup_block(intent.block_hash());
    match maybe_block {
        None => (intent.completion(ManagedBlockServeCompletionOutcome::LookupUnavailable).decision, None),
        Some(block) => (intent.eligible_decision, Some(block)),
    }
}

/// Why a compact `getblocktxn` request was not served.
#[derive(Debug, Clone, Copy, PartialEq, Eq, Structural, Hash)]
pub enum CompactBlockTxnServeCause {
    Ineligible,
    Unavailable,
    RequestLimited,
    IndexOutOfBounds,
}

impl CompactBlockTxnServeCause {
    pub open spec fn as_str_spec(self) -> &'static str {
        match self {
            CompactBlockTxnServeCause::Ineligible => "compact_getblocktxn_ineligible",
            CompactBlockTxnServeCause::Unavailable => "compact_getblocktxn_unavailable",
            CompactBlockTxnServeCause::RequestLimited => "compact_getblocktxn_request_limited",
            CompactBlockTxnServeCause::IndexOutOfBounds => "compact_getblocktxn_index_out_of_bounds",
        }
    }

    pub fn as_str(self) -> (r: &'static str)
        ensures
            r == self.as_str_spec(),
    {
        match self {
            CompactBlockTxnServeCause::Ineligible => "compact_getblocktxn_ineligible",
            CompactBlockTxnServeCause::Unavailable => "compact_getblocktxn_unavailable",
            CompactBlockTxnServeCause::RequestLimited => "compact_getblocktxn_request_limited",
            CompactBlockTxnServeCause::IndexOutOfBounds => "compact_getblocktxn_index_out_of_bounds",
        }
    }
}

/// The outcome of one compact `getblocktxn` request.
#[derive(Debug, Clone, Copy, PartialEq, Eq, Structural, Hash)]
pub enum CompactBlockTxnServeOutcome {
    Served,
    Suppressed(CompactBlockTxnServeCause),
    Malformed(CompactBlockTxnServeCause),
}

impl CompactBlockTxnServeOutcome {
    pub fn label(self) -> (r: &'static str)
        ensures
            r == (match self {
                CompactBlockTxnServeOutcome::Served => "compact_missing_tx_served",
                CompactBlockTxnServeOutcome::Suppressed(_) => "compact_missing_tx_serve_suppressed",
                CompactBlockTxnServeOutcome::Malformed(_) => "compact_missing_tx_malformed",
            }),
    {
        match self {
            CompactBlockTxnServeOutcome::Served => "compact_missing_tx_served",
            CompactBlockTxnServeOutcome::Suppressed(_) => "compact_missing_tx_serve_suppressed",
            CompactBlockTxnServeOutcome::Malformed(_) => "compact_missing_tx_malformed",
        }
    }

    pub fn cause(self) -> (r: &'static str)
        ensures
            r == (match self {
                CompactBlockTxnServeOutcome::Served => "compact_getblocktxn_served",
                CompactBlockTxnServeOutcome::Suppressed(cause) => cause.as_str_spec(),
                CompactBlockTxnServeOutcome::Malformed(cause) => cause.as_str_spec(),
            }),
    {
        match self {
            CompactBlockTxnServeOutcome::Served => "compact_getblocktxn_served",
            CompactBlockTxnServeOutcome::Suppressed(cause) => cause.as_str(),
            CompactBlockTxnServeOutcome::Malformed(cause) => cause.as_str(),
        }
    }
}

/// The decision for one compact `getblocktxn` request.
#[derive(Debug)]
pub enum ManagedCompactBlockTxnServeDecision<T> {
    Served { block_hash: Hash32, transactions: Vec<T> },
    Suppressed(CompactBlockTxnServeCause),
    Malformed(CompactBlockTxnServeCause),
}

impl<T> ManagedCompactBlockTxnServeDecision<T> {
    pub open spec fn outcome_spec(&self) -> CompactBlockTxnServeOutcome {
        match self {
            ManagedCompactBlockTxnServeDecision::Served { .. } => CompactBlockTxnServeOutcome::Served,
            ManagedCompactBlockTxnServeDecision::Suppressed(cause) => CompactBlockTxnServeOutcome::Suppressed(*cause),
            ManagedCompactBlockTxnServeDecision::Malformed(cause) => CompactBlockTxnServeOutcome::Malformed(*cause),
        }
    }

    pub fn outcome(&self) -> (r: CompactBlockTxnServeOutcome)
        ensures
            r == self.outcome_spec(),
    {
        match self {
            ManagedCompactBlockTxnServeDecision::Served { .. } => CompactBlockTxnServeOutcome::Served,
            ManagedCompactBlockTxnServeDecision::Suppressed(cause) => CompactBlockTxnServeOutcome::Suppressed(*cause),
            ManagedCompactBlockTxnServeDecision::Malformed(cause) => CompactBlockTxnServeOutcome::Malformed(*cause),
        }
    }
}

/// The cause recorded when a compact request finds no block.
pub open spec fn compact_missing_cause(label: BlockServingOutcomeLabel) -> CompactBlockTxnServeCause {
    match label {
        BlockServingOutcomeLabel::BlockStatusUnavailable => CompactBlockTxnServeCause::Unavailable,
        BlockServingOutcomeLabel::BlockRequestCapReached => CompactBlockTxnServeCause::RequestLimited,
        BlockServingOutcomeLabel::BlockInFlightLimitStillReached => CompactBlockTxnServeCause::RequestLimited,
        _ => CompactBlockTxnServeCause::Ineligible,
    }
}

/// Serves the transactions at `indexes` of an eligible block; any index past
/// the block's end makes the request malformed.
#[verifier::loop_isolation(false)]
pub fn serve_managed_compact_block_transactions<T: Clone, F: FnOnce(Hash32) -> Option<Vec<T>>>(
    input: ManagedBlockServeGateInput,
    indexes: &Vec<u16>,
    lookup_block_transactions: F,
) -> (r: ManagedCompactBlockTxnServeDecision<T>)
    requires
        gate_spec(input) matches ManagedBlockServeGateDecision::Serve(intent) ==> lookup_block_transactions.requires((intent.block_hash,)),
    ensures
        !input.compact_relay_enabled ==> r.outcome_spec() == CompactBlockTxnServeOutcome::Suppressed(CompactBlockTxnServeCause::Ineligible),
        input.compact_relay_enabled ==> match gate_spec(input) {
            ManagedBlockServeGateDecision::Deny(d) => r.outcome_spec() == CompactBlockTxnServeOutcome::Suppressed(
                compact_missing_cause(d.label),
            ),
            ManagedBlockServeGateDecision::Serve(intent) => exists|found: Option<Vec<T>>| {
                &&& lookup_block_transactions.ensures((intent.block_hash,), found)
                &&& found is None ==> r.outcome_spec() == CompactBlockTxnServeOutcome::Suppressed(
                    CompactBlockTxnServeCause::Unavailable,
                )
                &&& found matches Some(txs) ==> {
                    &&& (exists|i: int| 0 <= i < indexes@.len() && indexes@[i] >= txs@.len()) ==> r
                        == ManagedCompactBlockTxnServeDecision::<T>::Malformed(CompactBlockTxnServeCause::IndexOutOfBounds)
                    &&& (forall|i: int| 0 <= i < indexes@.len() ==> indexes@[i] < txs@.len()) ==> (r matches ManagedCompactBlockTxnServeDecision::Served {
                        block_hash,
                        transactions,
                    } && block_hash == input.block_hash && transactions@.len() == indexes@.len() && forall|i: int|
                        0 <= i < indexes@.len() ==> cloned(txs@[indexes@[i] as int], #[trigger] transactions@[i]))
                }
            },
        },
{
    if !input.compact_relay_enabled {
        return ManagedCompactBlockTxnServeDecision::Suppressed(CompactBlockTxnServeCause::Ineligible);
    }
    let block_hash = input.block_hash;
    let (decision, maybe_transactions) = serve_managed_block_request(input, lookup_block_transactions);
    let block_transactions = match maybe_transactions {
        Some(txs) => txs,
        None => {
            let cause = match decision.label {
                BlockServingOutcomeLabel::BlockStatusUnavailable => CompactBlockTxnServeCause::Unavailable,
                BlockServingOutcomeLabel::BlockRequestCapReached => CompactBlockTxnServeCause::RequestLimited,
                BlockServingOutcomeLabel::BlockInFlightLimitStillReached => CompactBlockTxnServeCause::RequestLimited,
                _ => CompactBlockTxnServeCause::Ineligible,
            };
            return ManagedCompactBlockTxnServeDecision::Suppressed(cause);
        },
    };
    let mut transactions: Vec<T> = Vec::new();
    let mut i: usize = 0;
    while i < indexes.len()
        invariant
            i <= indexes@.len(),
            transactions@.len() == i,
            forall|j: int| 0 <= j < i ==> indexes@[j] < block_transactions@.len(),
            forall|j: int| 0 <= j < i ==> cloned(block_transactions@[indexes@[j] as int], #[trigger] transactions@[j]),
        decreases indexes@.len() - i,
    {
        let index = indexes[i] as usize;
        if index >= block_transactions.len() {
            assert(indexes@[i as int] >= block_transactions@.len());
            return ManagedCompactBlockTxnServeDecision::Malformed(CompactBlockTxnServeCause::IndexOutOfBounds);
        }
        let transaction = block_transactions[index].clone();
        transactions.push(transaction);
        i = i + 1;
    }
    ManagedCompactBlockTxnServeDecision::Served { block_hash, transactions }
}

/// Where a requested block stands relative to the active chain.
#[derive(Debug, Clone, Copy, PartialEq, Eq, Structural, Hash)]
pub enum BlockServingChainPosition {
    Active,
    SideChain,
    Unknown,
}

/// Whether a requested block is known to be valid.
#[derive(Debug, Clone, Copy, PartialEq, Eq, Structural, Hash)]
pub enum BlockServingValidationState {
    Validated,
    Unknown,
}

/// Whether a requested block's bytes can be had.
#[derive(Debug, Clone, Copy, PartialEq, Eq, Structural, Hash)]
pub enum BlockServingDataAvailability {
    Available,
    Pruned,
    Unavailable,
}

/// The local facts of a requested block that the serving policy reads.
#[derive(Debug, Clone, Copy, PartialEq, Eq, Structural)]
pub struct BlockServingLocalFacts {
    pub chain_position: BlockServingChainPosition,
    pub validation_state: BlockServingValidationState,
    pub data_availability: BlockServingDataAvailability,
}

/// `i` is the first position of `x` in `s`.
pub open spec fn is_first_position(s: Seq<Hash32>, x: Hash32, i: int) -> bool {
    0 <= i < s.len() && s[i] == x && forall|j: int| 0 <= j < i ==> s[j] != x
}

/// The first position of `x` in `s`, if it occurs.
pub open spec fn first_position(s: Seq<Hash32>, x: Hash32) -> Option<int> {
    if exists|i: int| is_first_position(s, x, i) {
        Some(choose|i: int| is_first_position(s, x, i))
    } else {
        None
    }
}

/// The local facts of a block: on the active chain it is validated, and
/// available where its bytes are held (here or durably), pruned where they
/// are not and it is not the tip; off the active chain it is a side-chain
/// block where its bytes are held, and unknown otherwise.
pub open spec fn local_facts_spec(
    active_chain: Seq<Hash32>,
    block_hash: Hash32,
    has_local_data: bool,
    durable_availability: bool,
) -> BlockServingLocalFacts {
    let position = first_position(active_chain, block_hash);
    let is_active = position is Some;
    let is_tip = position matches Some(i) && i + 1 == active_chain.len();
    let has_bytes = has_local_data || durable_availability;
    BlockServingLocalFacts {
        chain_position: if is_active {
            BlockServingChainPosition::Active
        } else if has_local_data {
            BlockServingChainPosition::SideChain
        } else {
            BlockServingChainPosition::Unknown
        },
        validation_state: if is_active {
            BlockServingValidationState::Validated
        } else {
            BlockServingValidationState::Unknown
        },
        data_availability: if is_active && has_bytes {
            BlockServingDataAvailability::Available
        } else if is_active && !is_tip && !has_bytes {
            BlockServingDataAvailability::Pruned
        } else {
            BlockServingDataAvailability::Unavailable
        },
    }
}

/// The first position of `x` in `s`, if it occurs.
fn find_first_position(s: &Vec<Hash32>, x: Hash32) -> (r: Option<usize>)
    ensures
        match r {
            Some(k) => k < s@.len() && first_position(s@, x) == Some(k as int),
            None => first_position(s@, x) is None,
        },
{
    let mut i: usize = 0;
    while i < s.len()
        invariant
            i <= s@.len(),
            forall|j: int| 0 <= j < i ==> s@[j] != x,
        decreases s@.len() - i,
    {
        if s[i] == x {
            proof {
                assert(is_first_position(s@, x, i as int));
                let c = choose|c: int| is_first_position(s@, x, c);
                assert(is_first_position(s@, x, c));
                if c > i {
                    assert(s@[i as int] == x);
                }
                assert(c == i);
            }
            return Some(i);
        }
        i = i + 1;
    }
    proof {
        assert forall|c: int| !is_first_position(s@, x, c) by {
            if 0 <= c < s@.len() && s@[c] == x {
                assert(false);
            }
        }
    }
    None
}

/// Classifies a requested block against the active chain and the bytes held.
pub fn classify_block_locally(
    active_chain: &Vec<Hash32>,
    block_hash: Hash32,
    has_local_data: bool,
    durable_availability: bool,
) -> (r: BlockServingLocalFacts)
    ensures
        r == local_facts_spec(active_chain@, block_hash, has_local_data, durable_availability),
{
    let maybe_index = find_first_position(active_chain, block_hash);
    let is_active = maybe_index.is_some();
    let is_tip = match maybe_index {
        Some(index) => index == active_chain.len() - 1,
        None => false,
    };
    let has_bytes = has_local_data || durable_availability;
    let chain_position = if is_active {
        BlockServingChainPosition::Active
    } else if has_local_data {
        BlockServingChainPosition::SideChain
    } else {
        BlockServingChainPosition::Unknown
    };
    let validation_state = if is_active {
        BlockServingValidationState::Validated
    } else {
        BlockServingValidationState::Unknown
    };
    let data_availability = if is_active && has_bytes {
        BlockServingDataAvailability::Available
    } else if is_active && !is_tip && !has_bytes {
        BlockServingDataAvailability::Pruned
    } else {
        BlockServingDataAvailability::Unavailable
    };
    BlockServingLocalFacts { chain_position, validation_state, data_availability }
}

} // verus!
