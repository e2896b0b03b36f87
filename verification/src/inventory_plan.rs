//! The response plan for one `getdata` request list: transactions served at
//! once, blocks handed to durable serving through the storage guard, and
//! `notfound` replies, in the order the peer expects them.
use vstd::prelude::*;
use crate::block_serving::{
    InventoryKind, InventoryVector, ManagedBlockServeDecision, ManagedBlockServeGateDecision, ManagedBlockServeGateInput,
    ManagedBlockServeIntent, gate_managed_block_request, gate_spec,
};

verus! {

/// One planned response.
#[derive(Debug)]
pub enum ManagedInboundResponsePlanItem {
    /// Serve the transaction requested at this position.
    Transaction(usize),
    /// Hand the block to durable serving.
    DurableBlock(ManagedBlockServeIntent),
    /// Reply `notfound` for these requests.
    NotFound(Vec<InventoryVector>),
}

/// A planned response, as a mathematical value.
pub enum PlanItemView {
    Transaction(int),
    DurableBlock(ManagedBlockServeIntent),
    NotFound(Seq<InventoryVector>),
}

impl ManagedInboundResponsePlanItem {
    pub open spec fn view_item(&self) -> PlanItemView {
        match self {
            ManagedInboundResponsePlanItem::Transaction(i) => PlanItemView::Transaction(*i as int),
            ManagedInboundResponsePlanItem::DurableBlock(intent) => PlanItemView::DurableBlock(*intent),
            ManagedInboundResponsePlanItem::NotFound(v) => PlanItemView::NotFound(v@),
        }
    }
}

/// Whether a request asks for a transaction.
pub open spec fn is_tx(kind: InventoryKind) -> bool {
    kind == InventoryKind::Transaction || kind == InventoryKind::WitnessTransaction
}

/// Whether a request asks for a block.
pub open spec fn is_block(kind: InventoryKind) -> bool {
    kind == InventoryKind::Block || kind == InventoryKind::WitnessBlock || kind == InventoryKind::CompactBlock
}

/// `[NotFound(missing)]`, or nothing when nothing is missing.
pub open spec fn flush_missing(missing: Seq<InventoryVector>) -> Seq<PlanItemView> {
    if missing.len() == 0 {
        Seq::empty()
    } else {
        seq![PlanItemView::NotFound(missing)]
    }
}

/// The storage guard's input for a block request: the caller's
/// classifications, with the kind and hash taken from the request itself.
pub open spec fn gate_for_request(g: ManagedBlockServeGateInput, request: InventoryVector) -> ManagedBlockServeGateInput {
    ManagedBlockServeGateInput { inventory_type: request.inventory_type, block_hash: request.object_hash, ..g }
}

/// A block request handed to durable serving is answered by an intent for
/// exactly that request.
pub proof fn lemma_block_intent_answers_its_request(g: ManagedBlockServeGateInput, request: InventoryVector)
    requires
        is_block(request.inventory_type),
    ensures
        gate_spec(gate_for_request(g, request)) matches ManagedBlockServeGateDecision::Serve(intent) ==> intent.request
            == request && intent.block_hash == request.object_hash,
{
}

/// The response to the non-transaction request at `i`.
pub open spec fn other_response(reqs: Seq<InventoryVector>, gates: Seq<ManagedBlockServeGateInput>, i: int) -> PlanItemView {
    if is_block(reqs[i].inventory_type) {
        match gate_spec(gate_for_request(gates[i], reqs[i])) {
            ManagedBlockServeGateDecision::Serve(intent) => PlanItemView::DurableBlock(intent),
            ManagedBlockServeGateDecision::Deny(_) => PlanItemView::NotFound(seq![reqs[i]]),
        }
    } else {
        PlanItemView::NotFound(seq![reqs[i]])
    }
}

/// The plan for the requests from `i` on, with `missing` transactions of
/// the current run not yet reported: served transactions answer at once;
/// each other request answers in turn and is followed by the `notfound` of
/// the transactions missed just before it; a run at the end is reported last.
pub open spec fn plan_from(
    reqs: Seq<InventoryVector>,
    served: Seq<bool>,
    gates: Seq<ManagedBlockServeGateInput>,
    i: int,
    missing: Seq<InventoryVector>,
) -> Seq<PlanItemView>
    decreases reqs.len() - i,
{
    if i >= reqs.len() || i < 0 {
        flush_missing(missing)
    } else if is_tx(reqs[i].inventory_type) {
        if served[i] {
            seq![PlanItemView::Transaction(i)] + plan_from(reqs, served, gates, i + 1, missing)
        } else {
            plan_from(reqs, served, gates, i + 1, missing.push(reqs[i]))
        }
    } else {
        seq![other_response(reqs, gates, i)] + flush_missing(missing) + plan_from(
            reqs,
            served,
            gates,
            i + 1,
            Seq::empty(),
        )
    }
}

/// The block-serving decisions denied by the guard among the requests from `i` on.
pub open spec fn denials_from(
    reqs: Seq<InventoryVector>,
    gates: Seq<ManagedBlockServeGateInput>,
    i: int,
) -> Seq<(InventoryKind, ManagedBlockServeDecision)>
    decreases reqs.len() - i,
{
    if i >= reqs.len() || i < 0 {
        Seq::empty()
    } else if !is_tx(reqs[i].inventory_type) && is_block(reqs[i].inventory_type) {
        match gate_spec(gate_for_request(gates[i], reqs[i])) {
            ManagedBlockServeGateDecision::Deny(d) => seq![(reqs[i].inventory_type, d)] + denials_from(
                reqs,
                gates,
                i + 1,
            ),
            _ => denials_from(reqs, gates, i + 1),
        }
    } else {
        denials_from(reqs, gates, i + 1)
    }
}

fn is_tx_kind(kind: InventoryKind) -> (r: bool)
    ensures
        r == is_tx(kind),
{
    matches!(kind, InventoryKind::Transaction | InventoryKind::WitnessTransaction)
}

fn is_block_kind(kind: InventoryKind) -> (r: bool)
    ensures
        r == is_block(kind),
{
    matches!(kind, InventoryKind::Block | InventoryKind::WitnessBlock | InventoryKind::CompactBlock)
}

/// Plans the responses to one request list. `tx_served[i]` says whether the
/// transaction requested at `i` can be served; `gate_inputs[i]` is the
/// storage guard's classifications for a block requested at `i`, whose kind
/// and hash are taken from the request itself. Returns the plan and
/// the decisions of the blocks the guard denied, to be recorded as evidence.
pub fn plan_inventory_responses(
    requests: &Vec<InventoryVector>,
    tx_served: &Vec<bool>,
    gate_inputs: &Vec<ManagedBlockServeGateInput>,
) -> (r: (Vec<ManagedInboundResponsePlanItem>, Vec<(InventoryKind, ManagedBlockServeDecision)>))
    requires
        tx_served@.len() == requests@.len(),
        gate_inputs@.len() == requests@.len(),
    ensures
        r.0@.map_values(|item: ManagedInboundResponsePlanItem| item.view_item()) == plan_from(
            requests@,
            tx_served@,
            gate_inputs@,
            0,
            Seq::empty(),
        ),
        r.1@ == denials_from(requests@, gate_inputs@, 0),
{
    let ghost reqs = requests@;
    let ghost served = tx_served@;
    let ghost gates = gate_inputs@;
    let mut plan: Vec<ManagedInboundResponsePlanItem> = Vec::new();
    let mut denials: Vec<(InventoryKind, ManagedBlockServeDecision)> = Vec::new();
    let mut missing: Vec<InventoryVector> = Vec::new();
    let mut i: usize = 0;
    while i < requests.len()
        invariant
            reqs == requests@,
            served == tx_served@,
            gates == gate_inputs@,
            served.len() == reqs.len(),
            gates.len() == reqs.len(),
            i <= reqs.len(),
            plan@.map_values(|item: ManagedInboundResponsePlanItem| item.view_item()) + plan_from(
                reqs,
                served,
                gates,
                i as int,
                missing@,
            ) == plan_from(reqs, served, gates, 0, Seq::empty()),
            denials@ + denials_from(reqs, gates, i as int) == denials_from(reqs, gates, 0),
        decreases reqs.len() - i,
    {
        let ghost old_plan = plan@.map_values(|item: ManagedInboundResponsePlanItem| item.view_item());
        let ghost old_denials = denials@;
        let request = requests[i];
        if is_tx_kind(request.inventory_type) {
            if tx_served[i] {
                plan.push(ManagedInboundResponsePlanItem::Transaction(i));
                proof {
                    let new_plan = plan@.map_values(|item: ManagedInboundResponsePlanItem| item.view_item());
                    assert(new_plan =~= old_plan.push(PlanItemView::Transaction(i as int)));
                    assert(old_plan.push(PlanItemView::Transaction(i as int)) + plan_from(
                        reqs,
                        served,
                        gates,
                        i + 1,
                        missing@,
                    ) =~= old_plan + (seq![PlanItemView::Transaction(i as int)] + plan_from(
                        reqs,
                        served,
                        gates,
                        i + 1,
                        missing@,
                    )));
                }
            } else {
                missing.push(request);
            }
        } else {
            let item = if is_block_kind(request.inventory_type) {
                let gate = ManagedBlockServeGateInput {
                    inventory_type: request.inventory_type,
                    block_hash: request.object_hash,
                    ..gate_inputs[i]
                };
                match gate_managed_block_request(gate) {
                    ManagedBlockServeGateDecision::Serve(intent) => ManagedInboundResponsePlanItem::DurableBlock(intent),
                    ManagedBlockServeGateDecision::Deny(decision) => {
                        denials.push((request.inventory_type, decision));
                        let mut one: Vec<InventoryVector> = Vec::new();
                        one.push(request);
                        ManagedInboundResponsePlanItem::NotFound(one)
                    },
                }
            } else {
                let mut one: Vec<InventoryVector> = Vec::new();
                one.push(request);
                ManagedInboundResponsePlanItem::NotFound(one)
            };
            proof {
                assert(item.view_item() == other_response(reqs, gates, i as int)) by {
                    if let ManagedInboundResponsePlanItem::NotFound(v) = item {
                        assert(v@ =~= seq![reqs[i as int]]);
                    }
                }
            }
            plan.push(item);
            let ghost missing_before = missing@;
            if missing.len() > 0 {
                let mut reported: Vec<InventoryVector> = Vec::new();
                std::mem::swap(&mut reported, &mut missing);
                plan.push(ManagedInboundResponsePlanItem::NotFound(reported));
            }
            proof {
                let new_plan = plan@.map_values(|item: ManagedInboundResponsePlanItem| item.view_item());
                assert(new_plan =~= old_plan + seq![other_response(reqs, gates, i as int)] + flush_missing(
                    missing_before,
                ));
                assert(missing@ =~= Seq::<InventoryVector>::empty());
                assert(new_plan + plan_from(reqs, served, gates, i + 1, missing@) =~= old_plan + (seq![
                    other_response(reqs, gates, i as int),
                ] + flush_missing(missing_before) + plan_from(reqs, served, gates, i + 1, Seq::empty())));
                if is_block(request.inventory_type) {
                    match gate_spec(gate_for_request(gates[i as int], reqs[i as int])) {
                        ManagedBlockServeGateDecision::Deny(d) => {
                            assert(denials@ =~= old_denials.push((request.inventory_type, d)));
                            assert(denials@ + denials_from(reqs, gates, i + 1) =~= old_denials + (seq![
                                (request.inventory_type, d),
                            ] + denials_from(reqs, gates, i + 1)));
                        },
                        _ => {},
                    }
                }
            }
        }
        i = i + 1;
    }
    let ghost before_flush = plan@.map_values(|item: ManagedInboundResponsePlanItem| item.view_item());
    let ghost missing_end = missing@;
    if missing.len() > 0 {
        plan.push(ManagedInboundResponsePlanItem::NotFound(missing));
    }
    proof {
        let new_plan = plan@.map_values(|item: ManagedInboundResponsePlanItem| item.view_item());
        assert(new_plan =~= before_flush + flush_missing(missing_end));
        assert(denials@ + denials_from(reqs, gates, i as int) =~= denials@);
    }
    (plan, denials)
}

/// The positions of the transactions a plan serves, in plan order.
pub open spec fn served_items(plan: Seq<PlanItemView>) -> Seq<int>
    decreases plan.len(),
{
    if plan.len() == 0 {
        Seq::empty()
    } else {
        (match plan[0] {
            PlanItemView::Transaction(i) => seq![i],
            _ => Seq::empty(),
        }) + served_items(plan.drop_first())
    }
}

/// The block intents a plan hands to durable serving, in plan order.
pub open spec fn intent_items(plan: Seq<PlanItemView>) -> Seq<ManagedBlockServeIntent>
    decreases plan.len(),
{
    if plan.len() == 0 {
        Seq::empty()
    } else {
        (match plan[0] {
            PlanItemView::DurableBlock(intent) => seq![intent],
            _ => Seq::empty(),
        }) + intent_items(plan.drop_first())
    }
}

/// Every request a plan reports as not found, in plan order.
pub open spec fn not_found_items(plan: Seq<PlanItemView>) -> Seq<InventoryVector>
    decreases plan.len(),
{
    if plan.len() == 0 {
        Seq::empty()
    } else {
        (match plan[0] {
            PlanItemView::NotFound(v) => v,
            _ => Seq::empty(),
        }) + not_found_items(plan.drop_first())
    }
}

/// The positions from `i` on of the transaction requests that can be served.
pub open spec fn served_positions(reqs: Seq<InventoryVector>, served: Seq<bool>, i: int) -> Seq<int>
    decreases reqs.len() - i,
{
    if i >= reqs.len() || i < 0 {
        Seq::empty()
    } else if is_tx(reqs[i].inventory_type) && served[i] {
        seq![i] + served_positions(reqs, served, i + 1)
    } else {
        served_positions(reqs, served, i + 1)
    }
}

/// The intents the guard grants, in request order, to the block requests from `i` on.
pub open spec fn granted_intents(
    reqs: Seq<InventoryVector>,
    gates: Seq<ManagedBlockServeGateInput>,
    i: int,
) -> Seq<ManagedBlockServeIntent>
    decreases reqs.len() - i,
{
    if i >= reqs.len() || i < 0 {
        Seq::empty()
    } else if !is_tx(reqs[i].inventory_type) && is_block(reqs[i].inventory_type) {
        match gate_spec(gate_for_request(gates[i], reqs[i])) {
            ManagedBlockServeGateDecision::Serve(intent) => seq![intent] + granted_intents(reqs, gates, i + 1),
            _ => granted_intents(reqs, gates, i + 1),
        }
    } else {
        granted_intents(reqs, gates, i + 1)
    }
}

/// The requests from `i` on that are answered neither by a served
/// transaction nor by a granted intent.
pub open spec fn unanswered(
    reqs: Seq<InventoryVector>,
    served: Seq<bool>,
    gates: Seq<ManagedBlockServeGateInput>,
    i: int,
) -> Seq<InventoryVector>
    decreases reqs.len() - i,
{
    if i >= reqs.len() || i < 0 {
        Seq::empty()
    } else if is_tx(reqs[i].inventory_type) {
        if served[i] {
            unanswered(reqs, served, gates, i + 1)
        } else {
            seq![reqs[i]] + unanswered(reqs, served, gates, i + 1)
        }
    } else if is_block(reqs[i].inventory_type) && gate_spec(gate_for_request(gates[i], reqs[i])) is Serve {
        unanswered(reqs, served, gates, i + 1)
    } else {
        seq![reqs[i]] + unanswered(reqs, served, gates, i + 1)
    }
}

proof fn lemma_items_concat(a: Seq<PlanItemView>, b: Seq<PlanItemView>)
    ensures
        served_items(a + b) == served_items(a) + served_items(b),
        intent_items(a + b) == intent_items(a) + intent_items(b),
        not_found_items(a + b) == not_found_items(a) + not_found_items(b),
    decreases a.len(),
{
    if a.len() == 0 {
        assert(a + b =~= b);
    } else {
        assert((a + b).drop_first() =~= a.drop_first() + b);
        assert((a + b)[0] == a[0]);
        lemma_items_concat(a.drop_first(), b);
    }
}

proof fn lemma_single_item(x: PlanItemView)
    ensures
        served_items(seq![x]) == (match x {
            PlanItemView::Transaction(i) => seq![i],
            _ => Seq::<int>::empty(),
        }),
        intent_items(seq![x]) == (match x {
            PlanItemView::DurableBlock(intent) => seq![intent],
            _ => Seq::<ManagedBlockServeIntent>::empty(),
        }),
        not_found_items(seq![x]) == (match x {
            PlanItemView::NotFound(v) => v,
            _ => Seq::<InventoryVector>::empty(),
        }),
{
    let one = seq![x];
    assert(one.len() == 1 && one[0] == x);
    assert(one.drop_first() =~= Seq::<PlanItemView>::empty());
    let e = Seq::<PlanItemView>::empty();
    assert(served_items(e) == Seq::<int>::empty());
    assert(intent_items(e) == Seq::<ManagedBlockServeIntent>::empty());
    assert(not_found_items(e) == Seq::<InventoryVector>::empty());
    assert(served_items(one) =~= (match x {
        PlanItemView::Transaction(i) => seq![i],
        _ => Seq::<int>::empty(),
    }));
    assert(intent_items(one) =~= (match x {
        PlanItemView::DurableBlock(intent) => seq![intent],
        _ => Seq::<ManagedBlockServeIntent>::empty(),
    }));
    assert(not_found_items(one) =~= (match x {
        PlanItemView::NotFound(v) => v,
        _ => Seq::<InventoryVector>::empty(),
    }));
}

proof fn lemma_flush_items(missing: Seq<InventoryVector>)
    ensures
        served_items(flush_missing(missing)) == Seq::<int>::empty(),
        intent_items(flush_missing(missing)) == Seq::<ManagedBlockServeIntent>::empty(),
        not_found_items(flush_missing(missing)) == missing,
{
    if missing.len() > 0 {
        lemma_single_item(PlanItemView::NotFound(missing));
    } else {
        assert(missing =~= Seq::<InventoryVector>::empty());
    }
}

proof fn lemma_plan_from_answers(
    reqs: Seq<InventoryVector>,
    served: Seq<bool>,
    gates: Seq<ManagedBlockServeGateInput>,
    i: int,
    missing: Seq<InventoryVector>,
)
    requires
        0 <= i,
    ensures
        served_items(plan_from(reqs, served, gates, i, missing)) == served_positions(reqs, served, i),
        intent_items(plan_from(reqs, served, gates, i, missing)) == granted_intents(reqs, gates, i),
        not_found_items(plan_from(reqs, served, gates, i, missing)).to_multiset() == missing.to_multiset().add(
            unanswered(reqs, served, gates, i).to_multiset(),
        ),
    decreases reqs.len() - i,
{
    broadcast use {
        vstd::seq_lib::lemma_multiset_commutative,
        vstd::seq_lib::group_to_multiset_ensures,
        vstd::multiset::group_multiset_axioms,
    };
    if i >= reqs.len() {
        lemma_flush_items(missing);
        assert(unanswered(reqs, served, gates, i).to_multiset() =~= vstd::multiset::Multiset::<InventoryVector>::empty());
        assert(missing.to_multiset().add(vstd::multiset::Multiset::empty()) =~= missing.to_multiset());
    } else if is_tx(reqs[i].inventory_type) {
        if served[i] {
            lemma_plan_from_answers(reqs, served, gates, i + 1, missing);
            let rest = plan_from(reqs, served, gates, i + 1, missing);
            lemma_items_concat(seq![PlanItemView::Transaction(i)], rest);
            lemma_single_item(PlanItemView::Transaction(i));
            assert(intent_items(plan_from(reqs, served, gates, i, missing)) =~= intent_items(rest));
            assert(not_found_items(plan_from(reqs, served, gates, i, missing)) =~= not_found_items(rest));
        } else {
            lemma_plan_from_answers(reqs, served, gates, i + 1, missing.push(reqs[i]));
            assert(missing.push(reqs[i]) =~= missing + seq![reqs[i]]);
            assert(missing.to_multiset().add(seq![reqs[i]].to_multiset()).add(
                unanswered(reqs, served, gates, i + 1).to_multiset(),
            ) =~= missing.to_multiset().add(seq![reqs[i]].to_multiset().add(unanswered(reqs, served, gates, i + 1).to_multiset())));
        }
    } else {
        lemma_plan_from_answers(reqs, served, gates, i + 1, Seq::empty());
        let head = seq![other_response(reqs, gates, i)];
        let rest = plan_from(reqs, served, gates, i + 1, Seq::empty());
        lemma_items_concat(head, flush_missing(missing));
        lemma_items_concat(head + flush_missing(missing), rest);
        lemma_single_item(other_response(reqs, gates, i));
        lemma_flush_items(missing);
        let nf_head = not_found_items(head);
        let un = unanswered(reqs, served, gates, i + 1);
        assert(Seq::<InventoryVector>::empty().to_multiset() =~= vstd::multiset::Multiset::<InventoryVector>::empty());
        assert(vstd::multiset::Multiset::<InventoryVector>::empty().add(un.to_multiset()) =~= un.to_multiset());
        assert(nf_head.to_multiset().add(missing.to_multiset()).add(un.to_multiset()) =~= missing.to_multiset().add(
            nf_head.to_multiset().add(un.to_multiset()),
        ));
        if is_block(reqs[i].inventory_type) && gate_spec(gate_for_request(gates[i], reqs[i])) is Serve {
            assert(nf_head =~= Seq::<InventoryVector>::empty());
            assert(served_items(head) =~= Seq::<int>::empty());
        } else {
            assert(nf_head =~= seq![reqs[i]]);
            assert(intent_items(head) =~= Seq::<ManagedBlockServeIntent>::empty());
            assert(served_items(head) =~= Seq::<int>::empty());
        }
    }
}

/// Law: a plan answers each request exactly once. The transactions it
/// serves are the servable transaction requests, in order; the intents it
/// hands to durable serving are those the guard grants to block requests,
/// in order; and its `notfound` replies hold, counted with multiplicity,
/// exactly the remaining requests.
pub proof fn law_plan_answers_each_request_once(
    reqs: Seq<InventoryVector>,
    served: Seq<bool>,
    gates: Seq<ManagedBlockServeGateInput>,
)
    ensures
        served_items(plan_from(reqs, served, gates, 0, Seq::empty())) == served_positions(reqs, served, 0),
        intent_items(plan_from(reqs, served, gates, 0, Seq::empty())) == granted_intents(reqs, gates, 0),
        not_found_items(plan_from(reqs, served, gates, 0, Seq::empty())).to_multiset() == unanswered(
            reqs,
            served,
            gates,
            0,
        ).to_multiset(),
{
    broadcast use {vstd::seq_lib::group_to_multiset_ensures, vstd::multiset::group_multiset_axioms};

    lemma_plan_from_answers(reqs, served, gates, 0, Seq::empty());
    assert(Seq::<InventoryVector>::empty().to_multiset() =~= vstd::multiset::Multiset::<InventoryVector>::empty());
    assert(vstd::multiset::Multiset::<InventoryVector>::empty().add(unanswered(reqs, served, gates, 0).to_multiset()) =~= unanswered(
        reqs,
        served,
        gates,
        0,
    ).to_multiset());
}

/// Whether the request at `i` is answered at once: a full block whose bytes
/// were found, or a transaction that can be served; compact blocks and other
/// kinds never are.
pub open spec fn answered_now(reqs: Seq<InventoryVector>, block_found: Seq<bool>, tx_served: Seq<bool>, i: int) -> bool {
    let kind = reqs[i].inventory_type;
    if kind == InventoryKind::Block || kind == InventoryKind::WitnessBlock {
        block_found[i]
    } else if is_tx(kind) {
        tx_served[i]
    } else {
        false
    }
}

/// The positions answered at once among the first `n` requests, in order.
pub open spec fn answered_prefix(reqs: Seq<InventoryVector>, block_found: Seq<bool>, tx_served: Seq<bool>, n: int) -> Seq<usize>
    decreases n,
{
    if n <= 0 {
        Seq::empty()
    } else {
        let rest = answered_prefix(reqs, block_found, tx_served, n - 1);
        if answered_now(reqs, block_found, tx_served, n - 1) {
            rest.push((n - 1) as usize)
        } else {
            rest
        }
    }
}

/// The requests not answered among the first `n`, in order.
pub open spec fn missing_prefix(reqs: Seq<InventoryVector>, block_found: Seq<bool>, tx_served: Seq<bool>, n: int) -> Seq<InventoryVector>
    decreases n,
{
    if n <= 0 {
        Seq::empty()
    } else {
        let rest = missing_prefix(reqs, block_found, tx_served, n - 1);
        if answered_now(reqs, block_found, tx_served, n - 1) {
            rest
        } else {
            rest.push(reqs[n - 1])
        }
    }
}

/// Splits a request list served without durable storage into the positions
/// answered at once and the requests reported as not found, each in order.
/// `block_found[i]` says whether the block requested at `i` was found and
/// may be served; `tx_served[i]` whether the transaction requested at `i` can be.
pub fn partition_immediate_inventory(
    requests: &Vec<InventoryVector>,
    block_found: &Vec<bool>,
    tx_served: &Vec<bool>,
) -> (r: (Vec<usize>, Vec<InventoryVector>))
    requires
        block_found@.len() == requests@.len(),
        tx_served@.len() == requests@.len(),
    ensures
        r.0@ == answered_prefix(requests@, block_found@, tx_served@, requests@.len() as int),
        r.1@ == missing_prefix(requests@, block_found@, tx_served@, requests@.len() as int),
{
    let mut answered: Vec<usize> = Vec::new();
    let mut missing: Vec<InventoryVector> = Vec::new();
    let mut i: usize = 0;
    while i < requests.len()
        invariant
            i <= requests@.len(),
            block_found@.len() == requests@.len(),
            tx_served@.len() == requests@.len(),
            answered@ == answered_prefix(requests@, block_found@, tx_served@, i as int),
            missing@ == missing_prefix(requests@, block_found@, tx_served@, i as int),
        decreases requests@.len() - i,
    {
        let kind = requests[i].inventory_type;
        let now = if matches!(kind, InventoryKind::Block | InventoryKind::WitnessBlock) {
            block_found[i]
        } else if is_tx_kind(kind) {
            tx_served[i]
        } else {
            false
        };
        if now {
            answered.push(i);
        } else {
            missing.push(requests[i]);
        }
        i = i + 1;
    }
    (answered, missing)
}

} // verus!
