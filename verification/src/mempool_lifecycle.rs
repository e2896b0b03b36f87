//! Mempool lifecycle across block connection and reorganisation: the order
//! in which disconnected transactions are reconsidered, and the outcome a
//! reconsidered transaction reports when the mempool refuses or admits it.
use vstd::prelude::*;
use crate::identity::{Txid, Wtxid};
use crate::admission_bridge::{AdmissionResult, MempoolOutcome, OutcomeView, RejectionCategory};

verus! {

/// Why the mempool refused to prepare a reconsidered transaction.
#[derive(Debug, Clone, Copy, PartialEq, Eq, Structural)]
pub enum ReorgAdmissionError {
    DuplicateTransaction { txid: Txid },
    MissingInput,
    CandidateEvicted { txid: Txid },
    /// Any other refusal, with the rejection category it maps to where it has one.
    Other { maybe_category: Option<RejectionCategory> },
}

/// One input of a reconsidered transaction: the parent it spends, and
/// whether that output is found in the mempool or in the chainstate.
#[derive(Debug, Clone, Copy, PartialEq, Eq, Structural)]
pub struct ReorgInputFacts {
    pub parent_txid: Txid,
    pub parent_in_mempool: bool,
    pub parent_in_chainstate: bool,
}

/// The parents an orphan misses: those of inputs found nowhere, each once,
/// in the order of their first such input.
pub open spec fn missing_parents_spec(inputs: Seq<ReorgInputFacts>) -> Seq<Txid>
    decreases inputs.len(),
{
    if inputs.len() == 0 {
        Seq::empty()
    } else {
        let rest = missing_parents_spec(inputs.drop_last());
        let input = inputs.last();
        if !input.parent_in_mempool && !input.parent_in_chainstate && !rest.contains(input.parent_txid) {
            rest.push(input.parent_txid)
        } else {
            rest
        }
    }
}

fn txids_contain(v: &Vec<Txid>, t: Txid) -> (r: bool)
    ensures
        r == v@.contains(t),
{
    let mut j: usize = 0;
    while j < v.len()
        invariant
            j <= v@.len(),
            forall|k: int| 0 <= k < j ==> v@[k] != t,
        decreases v@.len() - j,
    {
        if v[j] == t {
            assert(v@[j as int] == t);
            return true;
        }
        j = j + 1;
    }
    false
}

/// The parents an orphan misses.
pub fn missing_parents(inputs: &Vec<ReorgInputFacts>) -> (r: Vec<Txid>)
    ensures
        r@ == missing_parents_spec(inputs@),
{
    let mut parents: Vec<Txid> = Vec::new();
    let mut i: usize = 0;
    while i < inputs.len()
        invariant
            i <= inputs@.len(),
            parents@ == missing_parents_spec(inputs@.take(i as int)),
        decreases inputs@.len() - i,
    {
        proof {
            assert(inputs@.take(i as int + 1).drop_last() =~= inputs@.take(i as int));
        }
        let input = inputs[i];
        if !input.parent_in_mempool && !input.parent_in_chainstate && !txids_contain(&parents, input.parent_txid) {
            parents.push(input.parent_txid);
        }
        i = i + 1;
    }
    assert(inputs@.take(inputs@.len() as int) =~= inputs@);
    parents
}

/// The outcome a reconsidered transaction reports when the mempool refused
/// to prepare it: a duplicate, an orphan missing the parents found nowhere,
/// an eviction, or a rejection in the error's category (an internal
/// invariant where it has none).
pub fn reorg_noop_transition(
    txid: Txid,
    wtxid: Wtxid,
    inputs: &Vec<ReorgInputFacts>,
    error: ReorgAdmissionError,
) -> (r: MempoolOutcome)
    ensures
        match error {
            ReorgAdmissionError::DuplicateTransaction { txid: t } => r@ == (OutcomeView::Duplicate { txid: t }),
            ReorgAdmissionError::MissingInput => r@ == (OutcomeView::Orphaned {
                txid,
                wtxid,
                missing_parents: missing_parents_spec(inputs@),
            }),
            ReorgAdmissionError::CandidateEvicted { txid: t } => r@ == (OutcomeView::Evicted { txid: t, wtxid }),
            ReorgAdmissionError::Other { maybe_category } => r@ == (OutcomeView::Rejected {
                txid,
                wtxid,
                category: match maybe_category {
                    Some(c) => c,
                    None => RejectionCategory::InternalInvariant,
                },
            }),
        },
{
    match error {
        ReorgAdmissionError::DuplicateTransaction { txid: t } => MempoolOutcome::Duplicate { txid: t },
        ReorgAdmissionError::MissingInput => MempoolOutcome::Orphaned {
            txid,
            wtxid,
            missing_parents: missing_parents(inputs),
        },
        ReorgAdmissionError::CandidateEvicted { txid: t } => MempoolOutcome::Evicted { txid: t, wtxid },
        ReorgAdmissionError::Other { maybe_category } => MempoolOutcome::Rejected {
            txid,
            wtxid,
            category: match maybe_category {
                Some(c) => c,
                None => RejectionCategory::InternalInvariant,
            },
        },
    }
}

/// Why a prepared reconsideration has no outcome.
#[derive(Debug, Clone, Copy, PartialEq, Eq, Structural)]
pub enum ReorgPreparationError {
    /// The preparation carried no admission result.
    MissingAdmissionResult,
}

/// The outcome of a prepared reconsideration from its admission result: an
/// acceptance, or a replacement where it replaced anything.
pub fn prepared_reorg_outcome(maybe_admission: Option<AdmissionResult>, wtxid: Wtxid) -> (r: Result<MempoolOutcome, ReorgPreparationError>)
    ensures
        match maybe_admission {
            None => r == Err::<MempoolOutcome, ReorgPreparationError>(ReorgPreparationError::MissingAdmissionResult),
            Some(a) => r matches Ok(o) && o@ == (if a.replaced@.len() == 0 {
                OutcomeView::Accepted { txid: a.accepted, wtxid, evicted: a.evicted@ }
            } else {
                OutcomeView::Replaced { txid: a.accepted, wtxid, replaced: a.replaced@, evicted: a.evicted@ }
            }),
        },
{
    let admission = match maybe_admission {
        Some(a) => a,
        None => return Err(ReorgPreparationError::MissingAdmissionResult),
    };
    if admission.replaced.len() == 0 {
        return Ok(MempoolOutcome::Accepted { txid: admission.accepted, wtxid, evicted: admission.evicted });
    }
    Ok(MempoolOutcome::Replaced {
        txid: admission.accepted,
        wtxid,
        replaced: admission.replaced,
        evicted: admission.evicted,
    })
}

/// The positions of transactions `1..=n` of block `b`.
pub open spec fn tx_positions(b: usize, n: nat) -> Seq<(usize, usize)> {
    Seq::new(n, |k: int| (b, (k + 1) as usize))
}

/// The (block, transaction) positions reconsidered after a reorganisation:
/// the disconnected blocks from the last to the first, each without its
/// coinbase, in block order.
pub open spec fn reconsideration_order(block_sizes: Seq<usize>) -> Seq<(usize, usize)>
    decreases block_sizes.len(),
{
    if block_sizes.len() == 0 {
        Seq::empty()
    } else {
        let b = (block_sizes.len() - 1) as usize;
        tx_positions(
            b,
            if block_sizes.last() == 0 {
                0
            } else {
                (block_sizes.last() - 1) as nat
            },
        ) + reconsideration_order(block_sizes.drop_last())
    }
}

/// The positions to reconsider, given the transaction count of each
/// disconnected block.
pub fn reorg_reconsideration_order(block_sizes: &Vec<usize>) -> (r: Vec<(usize, usize)>)
    ensures
        r@ == reconsideration_order(block_sizes@),
{
    let mut out: Vec<(usize, usize)> = Vec::new();
    let mut b: usize = block_sizes.len();
    proof {
        assert(block_sizes@.take(b as int) =~= block_sizes@);
        assert(out@ + reconsideration_order(block_sizes@) =~= reconsideration_order(block_sizes@));
    }
    while b > 0
        invariant
            b <= block_sizes@.len(),
            out@ + reconsideration_order(block_sizes@.take(b as int)) == reconsideration_order(block_sizes@),
        decreases b,
    {
        let bi = b - 1;
        let size = block_sizes[bi];
        let ghost before = out@;
        proof {
            assert(block_sizes@.take(b as int).drop_last() =~= block_sizes@.take(bi as int));
            assert(block_sizes@.take(b as int).last() == size);
        }
        let mut t: usize = 1;
        while t < size
            invariant
                1 <= t,
                if size == 0 { t == 1 } else { t <= size },
                out@ == before + tx_positions(bi, (t - 1) as nat),
            decreases size - t,
        {
            out.push((bi, t));
            proof {
                assert(tx_positions(bi, t as nat) =~= tx_positions(bi, (t - 1) as nat).push((bi, t)));
            }
            t = t + 1;
        }
        proof {
            let block = tx_positions(
                bi,
                if size == 0 {
                    0
                } else {
                    (size - 1) as nat
                },
            );
            assert(out@ =~= before + block);
            assert(reconsideration_order(block_sizes@.take(b as int)) =~= block + reconsideration_order(
                block_sizes@.take(bi as int),
            ));
            assert(out@ + reconsideration_order(block_sizes@.take(bi as int)) =~= before + reconsideration_order(
                block_sizes@.take(b as int),
            ));
        }
        b = bi;
    }
    assert(out@ + reconsideration_order(block_sizes@.take(0)) =~= out@);
    out
}

} // verus!
