//! The contextual facts a header is validated against during header sync:
//! its height, its parent, the retarget anchor and the min-difficulty
//! recovery target, read from the stored ancestors of its parent.
use vstd::prelude::*;
use crate::identity::Hash32;

verus! {

/// The consensus parameters that header context depends on.
#[derive(Debug, Clone, Copy, PartialEq, Eq, Structural)]
pub struct ConsensusSchedule {
    pub pow_target_spacing_seconds: i64,
    pub pow_target_timespan_seconds: i64,
    pub no_pow_retargeting: bool,
    pub allow_min_difficulty_blocks: bool,
    pub pow_limit_bits: u32,
}

/// Blocks per difficulty period: timespan over spacing, at least one, as a
/// `u32` (truncated like the cast it is); one when the spacing is not positive.
pub open spec fn interval_spec(params: ConsensusSchedule) -> u32 {
    if params.pow_target_spacing_seconds <= 0 || params.pow_target_timespan_seconds <= 0 {
        1
    } else {
        let q = params.pow_target_timespan_seconds / params.pow_target_spacing_seconds;
        if q < 1 {
            1
        } else {
            q as u32
        }
    }
}

/// The number of blocks in a difficulty period.
pub fn difficulty_adjustment_interval(params: &ConsensusSchedule) -> (r: u32)
    ensures
        r == interval_spec(*params),
{
    if params.pow_target_spacing_seconds <= 0 || params.pow_target_timespan_seconds <= 0 {
        return 1;
    }
    let timespan: u64 = params.pow_target_timespan_seconds as u64;
    let spacing: u64 = params.pow_target_spacing_seconds as u64;
    let q: u64 = timespan / spacing;
    if q < 1 {
        1
    } else {
        #[verifier::truncate]
        (q as u32)
    }
}

/// `x` is a multiple of `m`; zero is the only multiple of zero.
pub open spec fn is_multiple_of(x: u32, m: u32) -> bool {
    if m == 0 {
        x == 0
    } else {
        x % m == 0
    }
}

fn multiple_of(x: u32, m: u32) -> (r: bool)
    ensures
        r == is_multiple_of(x, m),
{
    if m == 0 {
        x == 0
    } else {
        x % m == 0
    }
}

/// A stored header entry: its hash, its parent's hash, height, time and bits.
#[derive(Debug, Clone, Copy, PartialEq, Eq, Structural)]
pub struct StoredHeader {
    pub block_hash: Hash32,
    pub previous_block_hash: Hash32,
    pub height: u32,
    pub time: u32,
    pub bits: u32,
}

/// The header under validation, as far as its context depends on it.
#[derive(Debug, Clone, Copy, PartialEq, Eq, Structural)]
pub struct HeaderFacts {
    pub previous_block_hash: Hash32,
    pub time: u32,
}

/// What the header store holds for a header's context: whether it holds any
/// header at all, the stored ancestors starting at the header's parent (each
/// entry found by the previous one's parent hash), and the median time past
/// of the parent where the store can compute it.
#[derive(Debug, Clone, PartialEq, Eq)]
pub struct HeaderChainView {
    pub has_known_headers: bool,
    pub ancestors: Vec<StoredHeader>,
    pub maybe_median_time_past: Option<i64>,
}

/// Why a header's context cannot be built.
#[derive(Debug, Clone, Copy, PartialEq, Eq, Structural)]
pub enum HeaderContextError {
    /// A second genesis header for a store that already holds headers.
    UnexpectedGenesis,
    /// The store lacks an ancestor; the hash that was not found.
    MissingHeaderAncestor(Hash32),
}

impl HeaderContextError {
    /// The reject reason of an invalid header; none for a missing ancestor.
    pub fn reject_reason(&self) -> (r: Option<&'static str>)
        ensures
            r == (if *self == HeaderContextError::UnexpectedGenesis {
                Some("bad-prevblk")
            } else {
                None
            }),
    {
        match self {
            HeaderContextError::UnexpectedGenesis => Some("bad-prevblk"),
            HeaderContextError::MissingHeaderAncestor(_) => None,
        }
    }

    /// The debug message of an invalid header; none for a missing ancestor.
    pub fn debug_message(&self) -> (r: Option<&'static str>)
        ensures
            r == (if *self == HeaderContextError::UnexpectedGenesis {
                Some("unexpected additional genesis header in non-empty header store")
            } else {
                None
            }),
    {
        match self {
            HeaderContextError::UnexpectedGenesis => Some(
                "unexpected additional genesis header in non-empty header store",
            ),
            HeaderContextError::MissingHeaderAncestor(_) => None,
        }
    }
}

/// The context a header is validated against. A genesis header has no
/// previous header (the default header stands for it).
#[derive(Debug, Clone, Copy, PartialEq, Eq, Structural)]
pub struct HeaderValidationContext {
    pub height: u32,
    pub maybe_previous_header: Option<StoredHeader>,
    pub maybe_retarget_first_block_time: Option<i64>,
    pub maybe_min_difficulty_recovery_bits: Option<u32>,
    pub previous_median_time_past: i64,
    pub current_time: i64,
}

/// The all-zero hash, which a genesis header names as its parent.
pub open spec fn zero_hash() -> Hash32 {
    Hash32 { hi: 0, lo: 0 }
}

/// The stored entry of `hash` among `a` from index `i`: `a[i]` where its
/// hash is `hash`.
pub open spec fn entry_at(a: Seq<StoredHeader>, i: int, hash: Hash32) -> bool {
    0 <= i < a.len() && a[i].block_hash == hash
}

/// The ancestor at height `h`, walking parent links down from `hash`.
pub open spec fn ancestor_at_height(a: Seq<StoredHeader>, i: nat, hash: Hash32, h: u32) -> Option<StoredHeader>
    decreases a.len() - i,
{
    if entry_at(a, i as int, hash) {
        if a[i as int].height == h {
            Some(a[i as int])
        } else if a[i as int].height < h {
            None
        } else {
            ancestor_at_height(a, i + 1, a[i as int].previous_block_hash, h)
        }
    } else {
        None
    }
}

/// The bits of the nearest ancestor from `hash` down that starts a period or
/// does not carry the proof-of-work limit; the hash that was not found where
/// the walk leaves the store.
pub open spec fn recovery_bits(a: Seq<StoredHeader>, i: nat, hash: Hash32, interval: u32, limit: u32) -> Result<u32, Hash32>
    decreases a.len() - i,
{
    if entry_at(a, i as int, hash) {
        if a[i as int].height % interval == 0 || a[i as int].bits != limit {
            Ok(a[i as int].bits)
        } else {
            recovery_bits(a, i + 1, a[i as int].previous_block_hash, interval, limit)
        }
    } else {
        Err(hash)
    }
}

/// Two block spacings, saturating at the bounds of `i64`.
pub open spec fn two_spacings(spacing: i64) -> int {
    if 2 * spacing > i64::MAX {
        i64::MAX as int
    } else if 2 * spacing < i64::MIN {
        i64::MIN as int
    } else {
        2 * spacing
    }
}

/// `x + 1`, saturating at `u32::MAX`.
pub open spec fn height_after(x: u32) -> u32 {
    if x == u32::MAX {
        u32::MAX
    } else {
        (x + 1) as u32
    }
}

/// `x - y`, saturating at zero.
pub open spec fn height_before(x: u32, y: u32) -> u32 {
    if x < y {
        0
    } else {
        (x - y) as u32
    }
}

/// A retarget anchor is needed at a non-zero period start, unless retargeting is off.
pub open spec fn retarget_needed(params: ConsensusSchedule, height: u32) -> bool {
    !params.no_pow_retargeting && height != 0 && is_multiple_of(height, interval_spec(params))
}

/// The min-difficulty walk is reached: min-difficulty blocks are allowed, the
/// height is neither zero nor a period start, and the header is not delayed
/// by more than two spacings after its parent.
pub open spec fn min_difficulty_walk_needed(params: ConsensusSchedule, parent: StoredHeader, header: HeaderFacts, height: u32) -> bool {
    &&& params.allow_min_difficulty_blocks
    &&& height != 0
    &&& !is_multiple_of(height, interval_spec(params))
    &&& !((header.time as int) > (parent.time as int) + two_spacings(params.pow_target_spacing_seconds))
}

/// The retarget anchor's first-block time at `height`, or the missing hash.
pub open spec fn anchor_spec(a: Seq<StoredHeader>, parent: StoredHeader, params: ConsensusSchedule, height: u32) -> Result<Option<i64>, Hash32> {
    if !retarget_needed(params, height) {
        Ok(None)
    } else {
        match ancestor_at_height(a, 0, parent.block_hash, height_before(height, interval_spec(params))) {
            Some(anchor) => Ok(Some(anchor.time as i64)),
            None => Err(parent.block_hash),
        }
    }
}

/// The min-difficulty recovery bits at `height`, or the missing hash.
pub open spec fn recovery_spec(a: Seq<StoredHeader>, parent: StoredHeader, header: HeaderFacts, params: ConsensusSchedule, height: u32) -> Result<Option<u32>, Hash32> {
    if !min_difficulty_walk_needed(params, parent, header, height) {
        Ok(None)
    } else {
        match recovery_bits(a, 0, parent.block_hash, interval_spec(params), params.pow_limit_bits) {
            Ok(bits) => Ok(Some(bits)),
            Err(hash) => Err(hash),
        }
    }
}

/// The context of `header`: a genesis header gets the empty context where the
/// store holds nothing and is refused otherwise; any other header needs its
/// parent and the parent's median time past, then the retarget anchor and the
/// recovery target, in that order, each where it is needed.
pub open spec fn context_spec(
    has_known_headers: bool,
    a: Seq<StoredHeader>,
    maybe_mtp: Option<i64>,
    header: HeaderFacts,
    current_time: i64,
    params: ConsensusSchedule,
) -> Result<HeaderValidationContext, HeaderContextError> {
    if header.previous_block_hash == zero_hash() {
        if has_known_headers {
            Err(HeaderContextError::UnexpectedGenesis)
        } else {
            Ok(HeaderValidationContext {
                height: 0,
                maybe_previous_header: None,
                maybe_retarget_first_block_time: None,
                maybe_min_difficulty_recovery_bits: None,
                previous_median_time_past: 0,
                current_time,
            })
        }
    } else if !entry_at(a, 0, header.previous_block_hash) {
        Err(HeaderContextError::MissingHeaderAncestor(header.previous_block_hash))
    } else {
        let parent = a[0];
        let height = height_after(parent.height);
        match maybe_mtp {
            None => Err(HeaderContextError::MissingHeaderAncestor(parent.block_hash)),
            Some(mtp) => match anchor_spec(a, parent, params, height) {
                Err(hash) => Err(HeaderContextError::MissingHeaderAncestor(hash)),
                Ok(anchor) => match recovery_spec(a, parent, header, params, height) {
                    Err(hash) => Err(HeaderContextError::MissingHeaderAncestor(hash)),
                    Ok(bits) => Ok(HeaderValidationContext {
                        height,
                        maybe_previous_header: Some(parent),
                        maybe_retarget_first_block_time: anchor,
                        maybe_min_difficulty_recovery_bits: bits,
                        previous_median_time_past: mtp,
                        current_time,
                    }),
                },
            },
        }
    }
}

/// The recovery walk is reached for `header` (and so needs a non-zero period).
pub open spec fn walk_reached(has_known_headers: bool, a: Seq<StoredHeader>, maybe_mtp: Option<i64>, header: HeaderFacts, params: ConsensusSchedule) -> bool {
    &&& header.previous_block_hash != zero_hash()
    &&& entry_at(a, 0, header.previous_block_hash)
    &&& maybe_mtp is Some
    &&& anchor_spec(a, a[0], params, height_after(a[0].height)) is Ok
    &&& min_difficulty_walk_needed(params, a[0], header, height_after(a[0].height))
}

fn find_ancestor_at_height(a: &Vec<StoredHeader>, start: Hash32, h: u32) -> (r: Option<StoredHeader>)
    ensures
        r == ancestor_at_height(a@, 0, start, h),
{
    let mut i: usize = 0;
    let mut hash = start;
    while i < a.len()
        invariant
            i <= a@.len(),
            ancestor_at_height(a@, 0, start, h) == ancestor_at_height(a@, i as nat, hash, h),
        decreases a@.len() - i,
    {
        let entry = a[i];
        if entry.block_hash != hash {
            return None;
        }
        if entry.height == h {
            return Some(entry);
        }
        if entry.height < h {
            return None;
        }
        hash = entry.previous_block_hash;
        i = i + 1;
    }
    None
}

fn walk_recovery_bits(a: &Vec<StoredHeader>, start: Hash32, interval: u32, limit: u32) -> (r: Result<u32, Hash32>)
    requires
        interval != 0,
    ensures
        r == recovery_bits(a@, 0, start, interval, limit),
{
    let mut i: usize = 0;
    let mut hash = start;
    while i < a.len()
        invariant
            interval != 0,
            i <= a@.len(),
            recovery_bits(a@, 0, start, interval, limit) == recovery_bits(a@, i as nat, hash, interval, limit),
        decreases a@.len() - i,
    {
        let entry = a[i];
        if entry.block_hash != hash {
            return Err(hash);
        }
        if entry.height % interval == 0 || entry.bits != limit {
            return Ok(entry.bits);
        }
        hash = entry.previous_block_hash;
        i = i + 1;
    }
    Err(hash)
}

fn two_spacings_exec(spacing: i64) -> (r: i128)
    ensures
        r == two_spacings(spacing),
{
    let doubled: i128 = 2 * (spacing as i128);
    if doubled > i64::MAX as i128 {
        i64::MAX as i128
    } else if doubled < i64::MIN as i128 {
        i64::MIN as i128
    } else {
        doubled
    }
}

/// The retarget anchor's first-block time, where one is needed.
pub fn retarget_anchor_for_height(
    view: &HeaderChainView,
    parent: StoredHeader,
    height: u32,
    interval: u32,
    params: ConsensusSchedule,
) -> (r: Result<Option<i64>, Hash32>)
    requires
        interval == interval_spec(params),
    ensures
        r == anchor_spec(view.ancestors@, parent, params, height),
{
    if params.no_pow_retargeting || height == 0 || !multiple_of(height, interval) {
        return Ok(None);
    }
    let anchor_height: u32 = if height < interval { 0 } else { height - interval };
    match find_ancestor_at_height(&view.ancestors, parent.block_hash, anchor_height) {
        Some(anchor) => Ok(Some(anchor.time as i64)),
        None => Err(parent.block_hash),
    }
}

/// The min-difficulty recovery bits, where the walk is needed: the nearest
/// stored ancestor that starts a period or does not carry the limit bits.
pub fn min_difficulty_recovery_target(
    view: &HeaderChainView,
    parent: StoredHeader,
    header: HeaderFacts,
    height: u32,
    interval: u32,
    params: ConsensusSchedule,
) -> (r: Result<Option<u32>, Hash32>)
    requires
        interval == interval_spec(params),
        min_difficulty_walk_needed(params, parent, header, height) ==> interval != 0,
    ensures
        r == recovery_spec(view.ancestors@, parent, header, params, height),
{
    if !params.allow_min_difficulty_blocks || height == 0 || multiple_of(height, interval) {
        return Ok(None);
    }
    let limit_time: i128 = (parent.time as i128) + two_spacings_exec(params.pow_target_spacing_seconds);
    if (header.time as i128) > limit_time {
        return Ok(None);
    }
    match walk_recovery_bits(&view.ancestors, parent.block_hash, interval, params.pow_limit_bits) {
        Ok(bits) => Ok(Some(bits)),
        Err(hash) => Err(hash),
    }
}

/// Builds the context `header` is validated against from what the store holds.
pub fn build_header_validation_context(
    view: &HeaderChainView,
    header: HeaderFacts,
    current_time: i64,
    params: ConsensusSchedule,
) -> (r: Result<HeaderValidationContext, HeaderContextError>)
    requires
        walk_reached(view.has_known_headers, view.ancestors@, view.maybe_median_time_past, header, params)
            ==> interval_spec(params) != 0,
    ensures
        r == context_spec(view.has_known_headers, view.ancestors@, view.maybe_median_time_past, header, current_time, params),
{
    let has_parent = header.previous_block_hash.hi != 0 || header.previous_block_hash.lo != 0;
    if !has_parent {
        if view.has_known_headers {
            return Err(HeaderContextError::UnexpectedGenesis);
        }
        return Ok(HeaderValidationContext {
            height: 0,
            maybe_previous_header: None,
            maybe_retarget_first_block_time: None,
            maybe_min_difficulty_recovery_bits: None,
            previous_median_time_past: 0,
            current_time,
        });
    }
    if view.ancestors.len() == 0 || view.ancestors[0].block_hash != header.previous_block_hash {
        return Err(HeaderContextError::MissingHeaderAncestor(header.previous_block_hash));
    }
    let parent = view.ancestors[0];
    let height: u32 = if parent.height == u32::MAX { u32::MAX } else { parent.height + 1 };
    let previous_median_time_past = match view.maybe_median_time_past {
        Some(mtp) => mtp,
        None => return Err(HeaderContextError::MissingHeaderAncestor(parent.block_hash)),
    };
    let interval = difficulty_adjustment_interval(&params);
    let maybe_retarget_first_block_time = match retarget_anchor_for_height(view, parent, height, interval, params) {
        Ok(anchor) => anchor,
        Err(hash) => return Err(HeaderContextError::MissingHeaderAncestor(hash)),
    };
    let maybe_min_difficulty_recovery_bits = match min_difficulty_recovery_target(
        view,
        parent,
        header,
        height,
        interval,
        params,
    ) {
        Ok(bits) => bits,
        Err(hash) => return Err(HeaderContextError::MissingHeaderAncestor(hash)),
    };
    Ok(HeaderValidationContext {
        height,
        maybe_previous_header: Some(parent),
        maybe_retarget_first_block_time,
        maybe_min_difficulty_recovery_bits,
        previous_median_time_past,
        current_time,
    })
}

/// The chain work given to the next connected block: one past the tip's,
/// saturating, or one where there is no tip.
pub fn next_chain_work(maybe_tip_chain_work: Option<u128>) -> (r: u128)
    ensures
        r == match maybe_tip_chain_work {
            Some(w) => if w == u128::MAX {
                u128::MAX
            } else {
                (w + 1) as u128
            },
            None => 1,
        },
{
    match maybe_tip_chain_work {
        Some(w) => if w == u128::MAX {
            u128::MAX
        } else {
            w + 1
        },
        None => 1,
    }
}

} // verus!
