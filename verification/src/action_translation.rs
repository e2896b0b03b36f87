//! From peer actions to messages and decisions: transaction-download requests become `getdata`
//! requests, disconnect reasons carry misbehavior decisions and errors, and
//! the processing of a peer's action list gathers the messages produced and stops
//! where an action calls for it.
use vstd::prelude::*;
use crate::identity::{Hash32, PeerId};
use crate::block_serving::{InventoryVector, CompactBlockTxnServeOutcome};
use crate::policy_info::{MisbehaviorDecision, MisbehaviorResponse};
use crate::admission::{route_peer_messages, to_others, to_peer};

verus! {

/// A transaction-download action: the peer it concerns and, where it asks
/// for one, the inventory item to request.
#[derive(Debug, Clone, Copy, PartialEq, Eq, Structural)]
pub struct TxDownloadAction {
    pub peer_id: PeerId,
    pub maybe_request_inventory: Option<InventoryVector>,
}

/// The `getdata` request an action calls for: its peer and the single item.
pub open spec fn relay_request_spec(action: TxDownloadAction) -> Option<(PeerId, InventoryVector)> {
    match action.maybe_request_inventory {
        Some(inventory) => Some((action.peer_id, inventory)),
        None => None,
    }
}

/// A download action that requests an item becomes a one-item `getdata`
/// for the action's peer; any other action sends nothing.
pub fn process_transaction_relay_action(action: TxDownloadAction) -> (r: Option<(PeerId, InventoryVector)>)
    ensures
        r == relay_request_spec(action),
{
    match action.maybe_request_inventory {
        Some(inventory) => Some((action.peer_id, inventory)),
        None => None,
    }
}

/// Why a peer is disconnected.
#[derive(Debug, Clone, Copy, PartialEq, Eq, Structural, Hash)]
pub enum DisconnectReason {
    DuplicateVersion,
    SelfConnection,
    ResourceLimit,
    MissingHeaderAncestor(Hash32),
    CompactBlockMisbehavior,
    CompactBlockHeaderViolation,
}

/// The network error a disconnect is reported as.
#[derive(Debug, Clone, Copy, PartialEq, Eq, Structural, Hash)]
pub enum DisconnectError {
    DuplicateVersion(PeerId),
    SelfConnection(PeerId),
    ResourceLimit(PeerId),
    MissingHeaderAncestor(Hash32),
    CompactBlockMisbehavior(PeerId),
    CompactBlockHeaderViolation(PeerId),
}

/// The error a disconnect of `peer_id` for `reason` reports: the reason's
/// own kind, naming the peer, or the missing ancestor's hash.
pub fn disconnect_network_error(peer_id: PeerId, reason: DisconnectReason) -> (r: DisconnectError)
    ensures
        r == match reason {
            DisconnectReason::DuplicateVersion => DisconnectError::DuplicateVersion(peer_id),
            DisconnectReason::SelfConnection => DisconnectError::SelfConnection(peer_id),
            DisconnectReason::ResourceLimit => DisconnectError::ResourceLimit(peer_id),
            DisconnectReason::MissingHeaderAncestor(hash) => DisconnectError::MissingHeaderAncestor(hash),
            DisconnectReason::CompactBlockMisbehavior => DisconnectError::CompactBlockMisbehavior(peer_id),
            DisconnectReason::CompactBlockHeaderViolation => DisconnectError::CompactBlockHeaderViolation(peer_id),
        },
{
    match reason {
        DisconnectReason::DuplicateVersion => DisconnectError::DuplicateVersion(peer_id),
        DisconnectReason::SelfConnection => DisconnectError::SelfConnection(peer_id),
        DisconnectReason::ResourceLimit => DisconnectError::ResourceLimit(peer_id),
        DisconnectReason::MissingHeaderAncestor(hash) => DisconnectError::MissingHeaderAncestor(hash),
        DisconnectReason::CompactBlockMisbehavior => DisconnectError::CompactBlockMisbehavior(peer_id),
        DisconnectReason::CompactBlockHeaderViolation => DisconnectError::CompactBlockHeaderViolation(peer_id),
    }
}

/// The misbehavior a compact-block disconnect is recorded as.
#[derive(Debug, Clone, Copy, PartialEq, Eq, Structural, Hash)]
pub enum CompactMisbehaviorKind {
    MalformedMessage,
    HeaderViolation,
}

impl CompactMisbehaviorKind {
    pub open spec fn as_str_spec(self) -> &'static str {
        match self {
            CompactMisbehaviorKind::MalformedMessage => "malformed_message",
            CompactMisbehaviorKind::HeaderViolation => "header_violation",
        }
    }

    pub fn as_str(self) -> (r: &'static str)
        ensures
            r == self.as_str_spec(),
    {
        match self {
            CompactMisbehaviorKind::MalformedMessage => "malformed_message",
            CompactMisbehaviorKind::HeaderViolation => "header_violation",
        }
    }
}

/// The misbehavior kind of a compact-block disconnect reason; none for others.
pub open spec fn compact_misbehavior_kind(reason: DisconnectReason) -> Option<CompactMisbehaviorKind> {
    match reason {
        DisconnectReason::CompactBlockMisbehavior => Some(CompactMisbehaviorKind::MalformedMessage),
        DisconnectReason::CompactBlockHeaderViolation => Some(CompactMisbehaviorKind::HeaderViolation),
        _ => None,
    }
}

/// A compact-block disconnect is recorded as a misbehavior whose response is
/// a disconnect; other disconnect reasons record none.
pub fn compact_misbehavior_decision(reason: DisconnectReason) -> (r: Option<MisbehaviorDecision>)
    ensures
        r == (match compact_misbehavior_kind(reason) {
            Some(kind) => Some(MisbehaviorDecision { response: MisbehaviorResponse::Disconnect, kind: kind.as_str_spec() }),
            None => None,
        }),
{
    let kind = match reason {
        DisconnectReason::CompactBlockMisbehavior => CompactMisbehaviorKind::MalformedMessage,
        DisconnectReason::CompactBlockHeaderViolation => CompactMisbehaviorKind::HeaderViolation,
        _ => return None,
    };
    Some(MisbehaviorDecision { response: MisbehaviorResponse::Disconnect, kind: kind.as_str() })
}

/// What a disconnect records before the peer is removed.
#[derive(Debug, Clone, Copy, PartialEq, Eq)]
pub struct DisconnectPlan {
    pub reason: DisconnectReason,
    pub record_self_connection_rejection: bool,
    pub maybe_misbehavior: Option<MisbehaviorDecision>,
}

/// A self-connection is recorded as a rejected self-connection; a
/// compact-block reason as a misbehavior.
pub fn plan_disconnect(reason: DisconnectReason) -> (r: DisconnectPlan)
    ensures
        r.reason == reason,
        r.record_self_connection_rejection == (reason == DisconnectReason::SelfConnection),
        r.maybe_misbehavior == (match compact_misbehavior_kind(reason) {
            Some(kind) => Some(MisbehaviorDecision { response: MisbehaviorResponse::Disconnect, kind: kind.as_str_spec() }),
            None => None,
        }),
{
    let record_self_connection_rejection = match reason {
        DisconnectReason::SelfConnection => true,
        _ => false,
    };
    DisconnectPlan { reason, record_self_connection_rejection, maybe_misbehavior: compact_misbehavior_decision(reason) }
}

/// One action a peer's message produced, by kind.
#[derive(Debug, Clone, Copy, PartialEq, Eq, Structural)]
pub enum PeerActionKind {
    Send,
    ServeInventory,
    ServeCompactBlockTransactions,
    ReceivedTransaction,
    TransactionRelay(TxDownloadAction),
    ReceivedBlock,
    Disconnect(DisconnectReason),
    ResourceGovernanceDisconnect,
}

/// The `getdata` requests of the download actions in `actions`, in order.
pub open spec fn relay_requests(actions: Seq<PeerActionKind>) -> Seq<(PeerId, InventoryVector)>
    decreases actions.len(),
{
    if actions.len() == 0 {
        Seq::empty()
    } else {
        let rest = relay_requests(actions.drop_last());
        match actions.last() {
            PeerActionKind::TransactionRelay(action) => match relay_request_spec(action) {
                Some(request) => rest.push(request),
                None => rest,
            },
            _ => rest,
        }
    }
}

/// The `getdata` requests that a list of actions sends, in order; only
/// download actions that request an item send one.
pub fn transaction_relay_targeted_messages(actions: &Vec<PeerActionKind>) -> (r: Vec<(PeerId, InventoryVector)>)
    ensures
        r@ == relay_requests(actions@),
{
    let mut out: Vec<(PeerId, InventoryVector)> = Vec::new();
    let mut i: usize = 0;
    while i < actions.len()
        invariant
            i <= actions@.len(),
            out@ == relay_requests(actions@.take(i as int)),
        decreases actions@.len() - i,
    {
        assert(actions@.take(i as int + 1).drop_last() =~= actions@.take(i as int));
        if let PeerActionKind::TransactionRelay(action) = actions[i] {
            if let Some(request) = process_transaction_relay_action(action) {
                out.push(request);
            }
        }
        i = i + 1;
    }
    assert(actions@.take(actions@.len() as int) =~= actions@);
    out
}

/// Whether processing goes on after an action, or stops with a disconnect.
#[derive(Debug, Clone, Copy, PartialEq, Eq)]
pub enum ActionContinuation {
    Continue,
    Disconnect(DisconnectPlan),
    ResourceGovernanceDisconnect,
}

/// What follows an action: a disconnect stops processing with its plan, a
/// resource-governance disconnect stops it, a malformed compact
/// `getblocktxn` request stops it as compact-block misbehavior, and every
/// other action lets processing go on.
pub open spec fn continuation_spec(
    kind: PeerActionKind,
    compact_outcome: CompactBlockTxnServeOutcome,
) -> Option<DisconnectReason> {
    match kind {
        PeerActionKind::Disconnect(reason) => Some(reason),
        PeerActionKind::ServeCompactBlockTransactions => match compact_outcome {
            CompactBlockTxnServeOutcome::Malformed(_) => Some(DisconnectReason::CompactBlockMisbehavior),
            _ => None,
        },
        _ => None,
    }
}

/// Decides what follows one processed action. `compact_outcome` is the
/// outcome of serving a compact `getblocktxn` request; it is read only
/// for that kind of action.
pub fn action_continuation(kind: PeerActionKind, compact_outcome: CompactBlockTxnServeOutcome) -> (r: ActionContinuation)
    ensures
        kind == PeerActionKind::ResourceGovernanceDisconnect ==> r == ActionContinuation::ResourceGovernanceDisconnect,
        kind != PeerActionKind::ResourceGovernanceDisconnect ==> match continuation_spec(kind, compact_outcome) {
            Some(reason) => r matches ActionContinuation::Disconnect(plan) && plan.reason == reason
                && plan.record_self_connection_rejection == (reason == DisconnectReason::SelfConnection)
                && plan.maybe_misbehavior == (match compact_misbehavior_kind(reason) {
                    Some(k) => Some(MisbehaviorDecision { response: MisbehaviorResponse::Disconnect, kind: k.as_str_spec() }),
                    None => None,
                }),
            None => r == ActionContinuation::Continue,
        },
{
    match kind {
        PeerActionKind::ResourceGovernanceDisconnect => ActionContinuation::ResourceGovernanceDisconnect,
        PeerActionKind::Disconnect(reason) => ActionContinuation::Disconnect(plan_disconnect(reason)),
        PeerActionKind::ServeCompactBlockTransactions => match compact_outcome {
            CompactBlockTxnServeOutcome::Malformed(_) => ActionContinuation::Disconnect(
                plan_disconnect(DisconnectReason::CompactBlockMisbehavior),
            ),
            _ => ActionContinuation::Continue,
        },
        _ => ActionContinuation::Continue,
    }
}

/// The messages that processing one peer message produced: those for the
/// peer itself, those for other peers, and what became of a received block.
#[derive(Debug)]
pub struct ManagedSyncMessageResult<M, D> {
    pub outbound: Vec<M>,
    pub targeted_outbound: Vec<(PeerId, M)>,
    pub maybe_block_disposition: Option<D>,
}

/// Processing of one peer's action list, fed the outcome of each action's
/// outside work in turn.
#[derive(Debug)]
pub struct PeerActionProcessing<M, D> {
    pub peer_id: PeerId,
    pub result: ManagedSyncMessageResult<M, D>,
}

impl<M, D> PeerActionProcessing<M, D> {
    /// Processing that has produced nothing yet.
    pub fn new(peer_id: PeerId) -> (r: Self)
        ensures
            r.peer_id == peer_id,
            r.result.outbound@.len() == 0,
            r.result.targeted_outbound@.len() == 0,
            r.result.maybe_block_disposition is None,
    {
        PeerActionProcessing {
            peer_id,
            result: ManagedSyncMessageResult {
                outbound: Vec::new(),
                targeted_outbound: Vec::new(),
                maybe_block_disposition: None,
            },
        }
    }

    /// A message for the peer itself.
    pub fn send(&mut self, message: M)
        ensures
            final(self).peer_id == old(self).peer_id,
            final(self).result.outbound@ == old(self).result.outbound@.push(message),
            final(self).result.targeted_outbound@ == old(self).result.targeted_outbound@,
            final(self).result.maybe_block_disposition == old(self).result.maybe_block_disposition,
    {
        self.result.outbound.push(message);
    }

    /// Served inventory: the messages for the peer, then a `notfound` built
    /// by `not_found` from the missing requests where any are missing.
    pub fn serve_inventory_reply<F: FnOnce(Vec<InventoryVector>) -> M>(
        &mut self,
        messages: Vec<M>,
        missing: Vec<InventoryVector>,
        not_found: F,
    )
        requires
            missing@.len() > 0 ==> not_found.requires((missing,)),
        ensures
            final(self).peer_id == old(self).peer_id,
            final(self).result.targeted_outbound@ == old(self).result.targeted_outbound@,
            final(self).result.maybe_block_disposition == old(self).result.maybe_block_disposition,
            missing@.len() == 0 ==> final(self).result.outbound@ == old(self).result.outbound@ + messages@,
            missing@.len() > 0 ==> exists|reply: M|
                #[trigger] not_found.ensures((missing,), reply) && final(self).result.outbound@
                    == (old(self).result.outbound@ + messages@).push(reply),
    {
        let mut messages = messages;
        self.result.outbound.append(&mut messages);
        if missing.len() > 0 {
            let reply = not_found(missing);
            self.result.outbound.push(reply);
        }
    }

    /// Messages produced for any peer: those for this peer join its outbound
    /// queue, the others the targeted queue, each in order.
    pub fn route(&mut self, messages: Vec<(PeerId, M)>)
        ensures
            final(self).peer_id == old(self).peer_id,
            final(self).result.outbound@ == old(self).result.outbound@ + to_peer(messages@, old(self).peer_id),
            final(self).result.targeted_outbound@ == old(self).result.targeted_outbound@ + to_others(
                messages@,
                old(self).peer_id,
            ),
            final(self).result.maybe_block_disposition == old(self).result.maybe_block_disposition,
    {
        route_peer_messages(self.peer_id, messages, &mut self.result.outbound, &mut self.result.targeted_outbound);
    }

    /// A download action: its `getdata`, built by `get_data` from the
    /// requested item, goes to the action's peer, where it requests one.
    pub fn relay_request<F: FnOnce(InventoryVector) -> M>(&mut self, action: TxDownloadAction, get_data: F)
        requires
            action.maybe_request_inventory matches Some(inv) ==> get_data.requires((inv,)),
        ensures
            final(self).peer_id == old(self).peer_id,
            final(self).result.maybe_block_disposition == old(self).result.maybe_block_disposition,
            action.maybe_request_inventory is None ==> final(self).result.outbound@ == old(self).result.outbound@
                && final(self).result.targeted_outbound@ == old(self).result.targeted_outbound@,
            action.maybe_request_inventory matches Some(inv) ==> exists|m: M|
                #[trigger] get_data.ensures((inv,), m) && if action.peer_id == old(self).peer_id {
                    final(self).result.outbound@ == old(self).result.outbound@.push(m)
                        && final(self).result.targeted_outbound@ == old(self).result.targeted_outbound@
                } else {
                    final(self).result.outbound@ == old(self).result.outbound@
                        && final(self).result.targeted_outbound@ == old(self).result.targeted_outbound@.push(
                        (action.peer_id, m),
                    )
                },
    {
        if let Some((target, inventory)) = process_transaction_relay_action(action) {
            let message = get_data(inventory);
            if target == self.peer_id {
                self.result.outbound.push(message);
            } else {
                self.result.targeted_outbound.push((target, message));
            }
        }
    }

    /// What became of a received block; a later block replaces an earlier one.
    pub fn connected_block(&mut self, disposition: D)
        ensures
            final(self).peer_id == old(self).peer_id,
            final(self).result.outbound@ == old(self).result.outbound@,
            final(self).result.targeted_outbound@ == old(self).result.targeted_outbound@,
            final(self).result.maybe_block_disposition == Some(disposition),
    {
        self.result.maybe_block_disposition = Some(disposition);
    }

    /// The result of processing every action.
    pub fn finish(self) -> (r: ManagedSyncMessageResult<M, D>)
        ensures
            r == self.result,
    {
        self.result
    }
}

/// The disconnect plan of `reason`: a self-connection is recorded as a
/// rejected self-connection, a compact-block reason as a misbehavior.
pub open spec fn plan_spec(reason: DisconnectReason) -> DisconnectPlan {
    DisconnectPlan {
        reason,
        record_self_connection_rejection: reason == DisconnectReason::SelfConnection,
        maybe_misbehavior: match compact_misbehavior_kind(reason) {
            Some(k) => Some(MisbehaviorDecision { response: MisbehaviorResponse::Disconnect, kind: k.as_str_spec() }),
            None => None,
        },
    }
}

/// What follows an action, as `action_continuation` decides it.
pub open spec fn continuation_of(kind: PeerActionKind, compact_outcome: CompactBlockTxnServeOutcome) -> ActionContinuation {
    if kind == PeerActionKind::ResourceGovernanceDisconnect {
        ActionContinuation::ResourceGovernanceDisconnect
    } else {
        match continuation_spec(kind, compact_outcome) {
            Some(reason) => ActionContinuation::Disconnect(plan_spec(reason)),
            None => ActionContinuation::Continue,
        }
    }
}

/// What one action's outside work produced, as the processing records it.
#[derive(Debug)]
pub enum ActionOutcome<M, D> {
    /// A message for the peer itself.
    Send(M),
    /// Served inventory: the messages, then the `notfound` reply where some
    /// request was missing.
    ServedInventory { messages: Vec<M>, maybe_not_found: Option<M> },
    /// A compact `getblocktxn` request: how serving it went, and the
    /// response where it was served.
    ServedCompactTransactions { outcome: CompactBlockTxnServeOutcome, maybe_response: Option<M> },
    /// A received transaction: the messages its admission and fan-out
    /// produced, each for some peer.
    ReceivedTransaction(Vec<(PeerId, M)>),
    /// A download action and the `getdata` built for the item it requests.
    TransactionRelay { action: TxDownloadAction, maybe_get_data: Option<M> },
    /// What became of a received block.
    ReceivedBlock(D),
    /// A disconnect for a reason.
    Disconnect(DisconnectReason),
    /// A disconnect the resource governance asked for.
    ResourceGovernanceDisconnect,
}

impl<M, D> ActionOutcome<M, D> {
    /// The kind of the action this outcome is of.
    pub open spec fn kind(&self) -> PeerActionKind {
        match self {
            ActionOutcome::Send(_) => PeerActionKind::Send,
            ActionOutcome::ServedInventory { .. } => PeerActionKind::ServeInventory,
            ActionOutcome::ServedCompactTransactions { .. } => PeerActionKind::ServeCompactBlockTransactions,
            ActionOutcome::ReceivedTransaction(_) => PeerActionKind::ReceivedTransaction,
            ActionOutcome::TransactionRelay { action, .. } => PeerActionKind::TransactionRelay(*action),
            ActionOutcome::ReceivedBlock(_) => PeerActionKind::ReceivedBlock,
            ActionOutcome::Disconnect(reason) => PeerActionKind::Disconnect(*reason),
            ActionOutcome::ResourceGovernanceDisconnect => PeerActionKind::ResourceGovernanceDisconnect,
        }
    }

    /// The compact serving outcome, read only for a compact request.
    pub open spec fn compact_outcome(&self) -> CompactBlockTxnServeOutcome {
        match self {
            ActionOutcome::ServedCompactTransactions { outcome, .. } => *outcome,
            _ => CompactBlockTxnServeOutcome::Served,
        }
    }

    /// What follows this outcome.
    pub open spec fn continuation(&self) -> ActionContinuation {
        continuation_of(self.kind(), self.compact_outcome())
    }

    /// Whether a download action carries a `getdata` exactly when it
    /// requests an item.
    pub open spec fn fits(&self) -> bool {
        match self {
            ActionOutcome::TransactionRelay { action, maybe_get_data } => (maybe_get_data is Some) == (
            action.maybe_request_inventory is Some),
            _ => true,
        }
    }
}

/// The messages for `peer` after recording `o`.
pub open spec fn outbound_after<M, D>(peer: PeerId, out: Seq<M>, o: ActionOutcome<M, D>) -> Seq<M> {
    match o {
        ActionOutcome::Send(m) => out.push(m),
        ActionOutcome::ServedInventory { messages, maybe_not_found } => match maybe_not_found {
            Some(nf) => (out + messages@).push(nf),
            None => out + messages@,
        },
        ActionOutcome::ServedCompactTransactions { outcome, maybe_response } => match maybe_response {
            Some(m) => if outcome == CompactBlockTxnServeOutcome::Served {
                out.push(m)
            } else {
                out
            },
            None => out,
        },
        ActionOutcome::ReceivedTransaction(messages) => out + to_peer(messages@, peer),
        ActionOutcome::TransactionRelay { action, maybe_get_data } => match maybe_get_data {
            Some(m) => if action.peer_id == peer {
                out.push(m)
            } else {
                out
            },
            None => out,
        },
        _ => out,
    }
}

/// The messages for other peers after recording `o`.
pub open spec fn targeted_after<M, D>(peer: PeerId, out: Seq<(PeerId, M)>, o: ActionOutcome<M, D>) -> Seq<(PeerId, M)> {
    match o {
        ActionOutcome::ReceivedTransaction(messages) => out + to_others(messages@, peer),
        ActionOutcome::TransactionRelay { action, maybe_get_data } => match maybe_get_data {
            Some(m) => if action.peer_id == peer {
                out
            } else {
                out.push((action.peer_id, m))
            },
            None => out,
        },
        _ => out,
    }
}

/// The block disposition after recording `o`: a later block replaces an earlier one.
pub open spec fn disposition_after<M, D>(d: Option<D>, o: ActionOutcome<M, D>) -> Option<D> {
    match o {
        ActionOutcome::ReceivedBlock(b) => Some(b),
        _ => d,
    }
}

/// The messages for `peer` after recording each outcome of `os` in turn.
pub open spec fn outbound_fold<M, D>(peer: PeerId, os: Seq<ActionOutcome<M, D>>) -> Seq<M>
    decreases os.len(),
{
    if os.len() == 0 {
        Seq::empty()
    } else {
        outbound_after(peer, outbound_fold(peer, os.drop_last()), os.last())
    }
}

/// The messages for other peers after recording each outcome of `os` in turn.
pub open spec fn targeted_fold<M, D>(peer: PeerId, os: Seq<ActionOutcome<M, D>>) -> Seq<(PeerId, M)>
    decreases os.len(),
{
    if os.len() == 0 {
        Seq::empty()
    } else {
        targeted_after(peer, targeted_fold(peer, os.drop_last()), os.last())
    }
}

/// The block disposition after recording each outcome of `os` in turn.
pub open spec fn disposition_fold<M, D>(os: Seq<ActionOutcome<M, D>>) -> Option<D>
    decreases os.len(),
{
    if os.len() == 0 {
        None
    } else {
        disposition_after(disposition_fold(os.drop_last()), os.last())
    }
}

impl<M, D> PeerActionProcessing<M, D> {
    /// Records one action's outcome and says what follows it: processing
    /// goes on, or stops with a disconnect.
    pub fn apply_outcome(&mut self, outcome: ActionOutcome<M, D>) -> (r: ActionContinuation)
        requires
            outcome.fits(),
        ensures
            r == outcome.continuation(),
            final(self).peer_id == old(self).peer_id,
            final(self).result.outbound@ == outbound_after(old(self).peer_id, old(self).result.outbound@, outcome),
            final(self).result.targeted_outbound@ == targeted_after(
                old(self).peer_id,
                old(self).result.targeted_outbound@,
                outcome,
            ),
            final(self).result.maybe_block_disposition == disposition_after(old(self).result.maybe_block_disposition, outcome),
    {
        let ghost o = outcome;
        match outcome {
            ActionOutcome::Send(m) => {
                self.send(m);
                ActionContinuation::Continue
            },
            ActionOutcome::ServedInventory { messages, maybe_not_found } => {
                let mut messages = messages;
                self.result.outbound.append(&mut messages);
                if let Some(nf) = maybe_not_found {
                    self.result.outbound.push(nf);
                }
                ActionContinuation::Continue
            },
            ActionOutcome::ServedCompactTransactions { outcome: served, maybe_response } => {
                let is_served = match served {
                    CompactBlockTxnServeOutcome::Served => true,
                    _ => false,
                };
                if let Some(m) = maybe_response {
                    if is_served {
                        self.result.outbound.push(m);
                    }
                }
                action_continuation(PeerActionKind::ServeCompactBlockTransactions, served)
            },
            ActionOutcome::ReceivedTransaction(messages) => {
                self.route(messages);
                ActionContinuation::Continue
            },
            ActionOutcome::TransactionRelay { action, maybe_get_data } => {
                if let Some(m) = maybe_get_data {
                    if action.peer_id == self.peer_id {
                        self.result.outbound.push(m);
                    } else {
                        self.result.targeted_outbound.push((action.peer_id, m));
                    }
                }
                ActionContinuation::Continue
            },
            ActionOutcome::ReceivedBlock(d) => {
                self.connected_block(d);
                ActionContinuation::Continue
            },
            ActionOutcome::Disconnect(reason) => action_continuation(PeerActionKind::Disconnect(reason), CompactBlockTxnServeOutcome::Served),
            ActionOutcome::ResourceGovernanceDisconnect => ActionContinuation::ResourceGovernanceDisconnect,
        }
    }
}

/// Processes a peer's action outcomes in order. Each is recorded while
/// processing goes on; the first that calls for a disconnect stops it, and
/// its position and disconnect are returned in place of the messages, which
/// are then dropped.
pub fn process_action_outcomes<M, D>(peer_id: PeerId, outcomes: Vec<ActionOutcome<M, D>>) -> (r: Result<
    ManagedSyncMessageResult<M, D>,
    (usize, ActionContinuation),
>)
    requires
        forall|i: int| 0 <= i < outcomes@.len() ==> (#[trigger] outcomes@[i]).fits(),
    ensures
        match r {
            Ok(result) => {
                &&& forall|i: int|
                    0 <= i < outcomes@.len() ==> (#[trigger] outcomes@[i]).continuation() == ActionContinuation::Continue
                &&& result.outbound@ == outbound_fold(peer_id, outcomes@)
                &&& result.targeted_outbound@ == targeted_fold(peer_id, outcomes@)
                &&& result.maybe_block_disposition == disposition_fold(outcomes@)
            },
            Err((k, stop)) => {
                &&& k < outcomes@.len()
                &&& forall|i: int| 0 <= i < k ==> (#[trigger] outcomes@[i]).continuation() == ActionContinuation::Continue
                &&& stop == outcomes@[k as int].continuation()
                &&& stop != ActionContinuation::Continue
            },
        },
{
    let ghost all = outcomes@;
    let n = outcomes.len();
    let mut processing: PeerActionProcessing<M, D> = PeerActionProcessing::new(peer_id);
    let mut rest = outcomes;
    let mut i: usize = 0;
    let mut stop: Option<ActionContinuation> = None;
    while rest.len() > 0
        invariant_except_break
            stop is None,
            i + rest@.len() == all.len(),
            rest@ == all.skip(i as int),
        invariant
            n == all.len(),
            i <= all.len(),
            forall|j: int| 0 <= j < all.len() ==> (#[trigger] all[j]).fits(),
            forall|j: int| 0 <= j < i ==> (#[trigger] all[j]).continuation() == ActionContinuation::Continue,
            processing.peer_id == peer_id,
            processing.result.outbound@ == outbound_fold(peer_id, all.take(i as int)),
            processing.result.targeted_outbound@ == targeted_fold(peer_id, all.take(i as int)),
            processing.result.maybe_block_disposition == disposition_fold(all.take(i as int)),
        ensures
            stop is None ==> i == all.len(),
            stop matches Some(c) ==> i < all.len() && c == all[i as int].continuation() && c
                != ActionContinuation::Continue,
        decreases rest@.len(),
    {
        let outcome = rest.remove(0);
        proof {
            assert(outcome == all[i as int]);
            assert(all.take(i + 1).drop_last() =~= all.take(i as int));
            assert(all.take(i + 1).last() == all[i as int]);
        }
        let next = processing.apply_outcome(outcome);
        proof {
            assert(rest@ =~= all.skip(i + 1));
        }
        match next {
            ActionContinuation::Continue => {},
            _ => {
                stop = Some(next);
                break;
            },
        }
        i = i + 1;
    }
    match stop {
        Some(c) => Err((i, c)),
        None => {
            proof {
                assert(all.take(i as int) =~= all);
            }
            Ok(processing.finish())
        },
    }
}

} // verus!
