//! Last-observed have-bytes labels and three aggregate counters kept beside
//! block-relay evidence. Only labels and counters are kept: no request log,
//! no block hashes, no per-peer state.
use vstd::prelude::*;
use crate::block_serving::BlockServingPresenceFacts;

verus! {

/// Last-observed serving status of a block's bytes.
#[derive(Debug, Clone, Copy, PartialEq, Eq, Structural, Hash)]
pub enum ServingStatusLabel {
    Available,
    Unavailable,
}

/// The have-bytes labels and counters, copied out without I/O.
#[derive(Debug, Clone, Copy, PartialEq, Eq, Structural)]
pub struct HaveBytesEvidence {
    pub last_serving_status: ServingStatusLabel,
    pub last_payload_present: bool,
    pub last_index_known: bool,
    pub last_validated_on_active_chain: bool,
    pub available_count: u64,
    pub unavailable_count: u64,
    pub index_known_without_payload_count: u64,
}

/// Last serving labels plus three saturating counters; no per-request log.
#[derive(Debug, Clone, Copy, PartialEq, Eq, Structural)]
pub struct HaveBytesAccumulator {
    pub last_serving_status: ServingStatusLabel,
    pub last_payload_present: bool,
    pub last_index_known: bool,
    pub last_validated_on_active_chain: bool,
    pub available_count: u64,
    pub unavailable_count: u64,
    pub index_known_without_payload_count: u64,
}

/// `n + 1`, clamped at `u64::MAX`.
pub open spec fn sat_inc(n: u64) -> u64 {
    if n == u64::MAX {
        n
    } else {
        (n + 1) as u64
    }
}

fn saturating_inc(n: u64) -> (r: u64)
    ensures
        r == sat_inc(n),
{
    if n == u64::MAX {
        n
    } else {
        n + 1
    }
}

/// The accumulator before anything is recorded: unavailable, with zero counters.
pub open spec fn fresh_have_bytes() -> HaveBytesAccumulator {
    HaveBytesAccumulator {
        last_serving_status: ServingStatusLabel::Unavailable,
        last_payload_present: false,
        last_index_known: false,
        last_validated_on_active_chain: false,
        available_count: 0,
        unavailable_count: 0,
        index_known_without_payload_count: 0,
    }
}

/// The accumulator after recording each presence decision of `ps` in turn.
pub open spec fn record_all(acc: HaveBytesAccumulator, ps: Seq<BlockServingPresenceFacts>) -> HaveBytesAccumulator
    decreases ps.len(),
{
    if ps.len() == 0 {
        acc
    } else {
        record_all(acc, ps.drop_last()).after_have_bytes(ps.last())
    }
}

/// How many decisions of `ps` found the payload present.
pub open spec fn count_present(ps: Seq<BlockServingPresenceFacts>) -> nat
    decreases ps.len(),
{
    if ps.len() == 0 {
        0
    } else {
        count_present(ps.drop_last()) + if ps.last().payload_present {
            1nat
        } else {
            0nat
        }
    }
}

/// How many decisions of `ps` found the payload absent.
pub open spec fn count_absent(ps: Seq<BlockServingPresenceFacts>) -> nat
    decreases ps.len(),
{
    if ps.len() == 0 {
        0
    } else {
        count_absent(ps.drop_last()) + if ps.last().payload_present {
            0nat
        } else {
            1nat
        }
    }
}

/// How many decisions of `ps` found the index known without the payload.
pub open spec fn count_known_without_payload(ps: Seq<BlockServingPresenceFacts>) -> nat
    decreases ps.len(),
{
    if ps.len() == 0 {
        0
    } else {
        count_known_without_payload(ps.drop_last()) + if !ps.last().payload_present && ps.last().index_known {
            1nat
        } else {
            0nat
        }
    }
}

impl HaveBytesAccumulator {
    /// The accumulator after one presence decision: the last labels are the
    /// decision's, and the counter of its outcome grows by one, clamped.
    pub open spec fn after_have_bytes(self, presence: BlockServingPresenceFacts) -> HaveBytesAccumulator {
        HaveBytesAccumulator {
            last_serving_status: if presence.payload_present {
                ServingStatusLabel::Available
            } else {
                ServingStatusLabel::Unavailable
            },
            last_payload_present: presence.payload_present,
            last_index_known: presence.index_known,
            last_validated_on_active_chain: presence.validated_on_active_chain,
            available_count: if presence.payload_present {
                sat_inc(self.available_count)
            } else {
                self.available_count
            },
            unavailable_count: if presence.payload_present {
                self.unavailable_count
            } else {
                sat_inc(self.unavailable_count)
            },
            index_known_without_payload_count: if !presence.payload_present && presence.index_known {
                sat_inc(self.index_known_without_payload_count)
            } else {
                self.index_known_without_payload_count
            },
        }
    }

    /// Nothing recorded yet: unavailable, with zero counters.
    pub fn new() -> (r: HaveBytesAccumulator)
        ensures
            r == fresh_have_bytes(),
            r.last_serving_status == ServingStatusLabel::Unavailable,
            !r.last_payload_present && !r.last_index_known && !r.last_validated_on_active_chain,
            r.available_count == 0 && r.unavailable_count == 0 && r.index_known_without_payload_count == 0,
    {
        HaveBytesAccumulator {
            last_serving_status: ServingStatusLabel::Unavailable,
            last_payload_present: false,
            last_index_known: false,
            last_validated_on_active_chain: false,
            available_count: 0,
            unavailable_count: 0,
            index_known_without_payload_count: 0,
        }
    }

    /// Records one serve-seam presence decision into the last labels and counters.
    pub fn record_have_bytes(&mut self, presence: BlockServingPresenceFacts)
        ensures
            *final(self) == old(self).after_have_bytes(presence),
            final(self).last_payload_present == presence.payload_present,
            final(self).last_index_known == presence.index_known,
            final(self).last_validated_on_active_chain == presence.validated_on_active_chain,
            !presence.payload_present ==> {
                &&& final(self).last_serving_status == ServingStatusLabel::Unavailable
                &&& final(self).unavailable_count == sat_inc(old(self).unavailable_count)
                &&& final(self).available_count == old(self).available_count
                &&& final(self).index_known_without_payload_count == if presence.index_known {
                    sat_inc(old(self).index_known_without_payload_count)
                } else {
                    old(self).index_known_without_payload_count
                }
            },
            presence.payload_present ==> {
                &&& final(self).last_serving_status == ServingStatusLabel::Available
                &&& final(self).available_count == sat_inc(old(self).available_count)
                &&& final(self).unavailable_count == old(self).unavailable_count
                &&& final(self).index_known_without_payload_count == old(self).index_known_without_payload_count
            },
    {
        self.last_payload_present = presence.payload_present;
        self.last_index_known = presence.index_known;
        self.last_validated_on_active_chain = presence.validated_on_active_chain;
        if !presence.payload_present {
            self.last_serving_status = ServingStatusLabel::Unavailable;
            self.unavailable_count = saturating_inc(self.unavailable_count);
            if presence.index_known {
                self.index_known_without_payload_count = saturating_inc(self.index_known_without_payload_count);
            }
            return;
        }
        self.last_serving_status = ServingStatusLabel::Available;
        self.available_count = saturating_inc(self.available_count);
    }

    /// The evidence the accumulator reports: its last labels and counters.
    pub open spec fn snapshot_spec(self) -> HaveBytesEvidence {
        HaveBytesEvidence {
            last_serving_status: self.last_serving_status,
            last_payload_present: self.last_payload_present,
            last_index_known: self.last_index_known,
            last_validated_on_active_chain: self.last_validated_on_active_chain,
            available_count: self.available_count,
            unavailable_count: self.unavailable_count,
            index_known_without_payload_count: self.index_known_without_payload_count,
        }
    }

    /// Copies the last labels and the three counters.
    pub fn snapshot(&self) -> (r: HaveBytesEvidence)
        ensures
            r == self.snapshot_spec(),
    {
        HaveBytesEvidence {
            last_serving_status: self.last_serving_status,
            last_payload_present: self.last_payload_present,
            last_index_known: self.last_index_known,
            last_validated_on_active_chain: self.last_validated_on_active_chain,
            available_count: self.available_count,
            unavailable_count: self.unavailable_count,
            index_known_without_payload_count: self.index_known_without_payload_count,
        }
    }
}

impl Default for HaveBytesAccumulator {
    fn default() -> (r: Self)
        ensures
            r == fresh_have_bytes(),
            r.last_serving_status == ServingStatusLabel::Unavailable,
            !r.last_payload_present && !r.last_index_known && !r.last_validated_on_active_chain,
            r.available_count == 0 && r.unavailable_count == 0 && r.index_known_without_payload_count == 0,
    {
        HaveBytesAccumulator::new()
    }
}

} // verus!
