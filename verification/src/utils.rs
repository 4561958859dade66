use vstd::prelude::*;
use vstd::arithmetic::power2::pow2;
use crate::text::{decimal, decimal_string};

verus! {

/// Subsidy of the genesis era, in satoshis (50 BTC).
pub open spec fn initial_subsidy() -> nat {
    5_000_000_000
}

/// Number of blocks between two halvings of the subsidy.
pub open spec fn halving_interval() -> nat {
    210_000
}

/// Number of halvings that took place before the block at `height`.
pub open spec fn halvings(height: nat) -> nat {
    height / halving_interval()
}

/// The subsidy of the block at `height`: 50 BTC halved once per completed era.
pub open spec fn block_reward(height: nat) -> nat {
    initial_subsidy() / pow2(halvings(height))
}

/// Heights whose subsidy can be computed by a 64-bit shift.
pub open spec fn reward_defined(height: nat) -> bool {
    halvings(height) < 64
}

/// get the block reward for a given block height
pub fn get_block_reward(block_height: u64) -> (reward: u64)
    requires
        reward_defined(block_height as nat),
    ensures
        reward == block_reward(block_height as nat),
{
    let initial_reward: u64 = 50 * 100_000_000;
    let halvings: u64 = block_height / 210_000;
    proof {
        vstd::bits::lemma_u64_shr_is_div(initial_reward, halvings);
    }
    let block_reward = initial_reward >> halvings;
    block_reward
}


/// The subsidy halves from one era to the next: the block `halving_interval()`
/// blocks later earns half (rounded down) of what the block at `height` earns.
pub proof fn lemma_reward_halves(height: nat)
    ensures
        block_reward(height + halving_interval()) == block_reward(height) / 2,
{
    let n = halvings(height);
    assert(halvings(height + halving_interval()) == n + 1) by {
        vstd::arithmetic::div_mod::lemma_div_plus_one(height as int, 210_000);
    }
    vstd::arithmetic::power2::lemma_pow2_unfold(n + 1);
    vstd::arithmetic::power2::lemma_pow2_pos(n);
    vstd::arithmetic::div_mod::lemma_div_denominator(initial_subsidy() as int, pow2(n) as int, 2);
}

/// The subsidy never grows: a later block never earns more than an earlier one.
pub proof fn lemma_reward_non_increasing(h1: nat, h2: nat)
    requires
        h1 <= h2,
    ensures
        block_reward(h2) <= block_reward(h1),
{
    let n1 = halvings(h1);
    let n2 = halvings(h2);
    vstd::arithmetic::div_mod::lemma_div_is_ordered(h1 as int, h2 as int, 210_000);
    vstd::arithmetic::power2::lemma_pow2_pos(n1);
    if n1 < n2 {
        vstd::arithmetic::power2::lemma_pow2_strictly_increases(n1, n2);
    }
    vstd::arithmetic::div_mod::lemma_div_is_ordered_by_denominator(
        initial_subsidy() as int,
        pow2(n1) as int,
        pow2(n2) as int,
    );
}

/// All blocks of one era earn the same subsidy.
pub proof fn lemma_reward_constant_within_era(h1: nat, h2: nat)
    requires
        halvings(h1) == halvings(h2),
    ensures
        block_reward(h1) == block_reward(h2),
{
}

/// Every block of the first era earns 50 BTC.
pub proof fn lemma_reward_first_era(height: nat)
    requires
        height < halving_interval(),
    ensures
        block_reward(height) == 5_000_000_000,
{
    vstd::arithmetic::div_mod::lemma_basic_div(height as int, 210_000);
    assert(halvings(height) == 0);
    vstd::arithmetic::power2::lemma2_to64();
    assert(pow2(0) == 1);
    assert(block_reward(height) == initial_subsidy() / 1);
}

/// No block ever earns more than 50 BTC.
pub proof fn lemma_reward_at_most_initial(height: nat)
    ensures
        block_reward(height) <= initial_subsidy(),
{
    lemma_reward_non_increasing(0, height);
    lemma_reward_first_era(0);
}

/// From the 33rd halving on, the subsidy is zero.
pub proof fn lemma_reward_exhausted(height: nat)
    requires
        halvings(height) >= 33,
    ensures
        block_reward(height) == 0,
{
    let n = halvings(height);
    vstd::arithmetic::power2::lemma2_to64_rest();
    if n > 33 {
        vstd::arithmetic::power2::lemma_pow2_strictly_increases(33, n);
    }
    vstd::arithmetic::div_mod::lemma_basic_div(initial_subsidy() as int, pow2(n) as int);
}


/// Sum of a sequence of satoshi amounts.
pub open spec fn amount_sum(s: Seq<u64>) -> nat
    decreases s.len(),
{
    if s.len() == 0 {
        0
    } else {
        amount_sum(s.drop_last()) + s.last() as nat
    }
}

/// The fee collected by the block at `height` whose coinbase pays out
/// `outputs`: the coinbase total minus the subsidy. `None` where the total does
/// not fit in 64 bits, falls short of the subsidy, or the subsidy is not defined.
pub open spec fn block_fee(height: nat, outputs: Seq<u64>) -> Option<nat> {
    if reward_defined(height) && amount_sum(outputs) <= u64::MAX
        && block_reward(height) <= amount_sum(outputs) {
        Some((amount_sum(outputs) - block_reward(height)) as nat)
    } else {
        None
    }
}

/// Amounts add up: the sum of two sequences laid end to end is the sum of
/// their sums, and a single output sums to itself.
pub proof fn lemma_amount_sum_additive(s: Seq<u64>, t: Seq<u64>)
    ensures
        amount_sum(s + t) == amount_sum(s) + amount_sum(t),
        amount_sum(Seq::<u64>::empty()) == 0,
        forall|x: u64| #[trigger] amount_sum(seq![x]) == x,
    decreases t.len(),
{
    assert forall|x: u64| #[trigger] amount_sum(seq![x]) == x by {
        assert(seq![x].drop_last() =~= Seq::<u64>::empty());
        assert(amount_sum(seq![x]) == amount_sum(seq![x].drop_last()) + seq![x].last() as nat);
        assert(amount_sum(Seq::<u64>::empty()) == 0);
    }
    if t.len() > 0 {
        assert((s + t).drop_last() =~= s + t.drop_last());
        lemma_amount_sum_additive(s, t.drop_last());
    } else {
        assert(s + t =~= s);
    }
}

/// The fee of a block is what its coinbase pays out beyond the subsidy: where
/// a fee is defined, fee plus subsidy is the coinbase total; and a fee is
/// defined for every block whose subsidy is defined and whose total fits in
/// 64 bits and covers the subsidy.
pub proof fn lemma_fee_is_total_minus_subsidy(height: nat, outputs: Seq<u64>)
    ensures
        block_fee(height, outputs) matches Some(f) ==> {
            &&& f + block_reward(height) == amount_sum(outputs)
            &&& amount_sum(outputs) <= u64::MAX
            &&& reward_defined(height)
        },
        (reward_defined(height) && amount_sum(outputs) <= u64::MAX
            && block_reward(height) <= amount_sum(outputs)) ==> block_fee(height, outputs) is Some,
{
}

/// Paying one more satoshi in the coinbase raises the fee by exactly one
/// satoshi, and a block paying out just its subsidy has a zero fee.
pub proof fn lemma_fee_tracks_outputs(height: nat, outputs: Seq<u64>, extra: u64)
    requires
        block_fee(height, outputs) is Some,
        amount_sum(outputs) + extra <= u64::MAX,
    ensures
        block_fee(height, outputs.push(extra)) == Some((block_fee(height, outputs)->0 + extra) as nat),
        reward_defined(height) && block_reward(height) <= u64::MAX ==>
            block_fee(height, seq![block_reward(height) as u64]) == Some(0nat),
{
    lemma_amount_sum_additive(outputs, seq![extra]);
    assert(outputs + seq![extra] =~= outputs.push(extra));
    lemma_amount_sum_additive(Seq::<u64>::empty(), seq![block_reward(height) as u64]);
}

/// Total of the coinbase outputs, or `None` where it overflows 64 bits.
pub fn coinbase_total(outputs: &Vec<u64>) -> (total: Option<u64>)
    ensures
        match total {
            Some(t) => t == amount_sum(outputs@),
            None => amount_sum(outputs@) > u64::MAX,
        },
{
    let mut total: u64 = 0;
    let mut i: usize = 0;
    while i < outputs.len()
        invariant
            i <= outputs.len(),
            total == amount_sum(outputs@.take(i as int)),
        decreases outputs.len() - i,
    {
        assert(outputs@.take(i + 1).drop_last() =~= outputs@.take(i as int));
        match total.checked_add(outputs[i]) {
            Some(t) => {
                total = t;
            },
            None => {
                proof { lemma_amount_sum_prefix_bounded(outputs@, (i + 1) as nat); }
                return None;
            },
        }
        i = i + 1;
    }
    assert(outputs@.take(i as int) =~= outputs@);
    Some(total)
}

/// A prefix never sums to more than the whole sequence.
proof fn lemma_amount_sum_prefix_bounded(s: Seq<u64>, k: nat)
    requires
        k <= s.len(),
    ensures
        amount_sum(s.take(k as int)) <= amount_sum(s),
    decreases s.len(),
{
    if k < s.len() {
        assert(s.drop_last().take(k as int) =~= s.take(k as int));
        lemma_amount_sum_prefix_bounded(s.drop_last(), k);
    } else {
        assert(s.take(k as int) =~= s);
    }
}

/// The fee of the block at `height` whose coinbase outputs are `outputs`.
pub fn coinbase_fee(height: u64, outputs: &Vec<u64>) -> (fee: Option<u64>)
    ensures
        match fee {
            Some(f) => block_fee(height as nat, outputs@) == Some(f as nat),
            None => block_fee(height as nat, outputs@) is None,
        },
{
    let total = match coinbase_total(outputs) {
        Some(t) => t,
        None => return None,
    };
    if height / 210_000 >= 64 {
        return None;
    }
    let reward = get_block_reward(height);
    if total < reward {
        return None;
    }
    Some(total - reward)
}

/// A block whose fee could not be computed.
#[derive(Debug, PartialEq, Eq)]
pub struct FeeError {
    pub height: u64,
}

/// Walk over a window of consecutive blocks that collects the fee of each
/// block from its coinbase outputs, lowest height first.
pub struct FeeScan {
    first: u64,
    count: u64,
    recorded: u64,
    fees: Vec<u64>,
}

impl FeeScan {
    /// The walk is consistent: the window fits below 2^64 and each block
    /// visited so far gave one fee.
    pub closed spec fn wf(&self) -> bool {
        &&& self.recorded <= self.count
        &&& self.fees@.len() == self.recorded
        &&& self.count > 0 ==> self.first + self.count - 1 <= u64::MAX
    }

    /// Lowest height of the window (meaningful when the window is not empty).
    pub closed spec fn first_height(&self) -> nat {
        self.first as nat
    }

    /// Number of blocks in the window.
    pub closed spec fn window_len(&self) -> nat {
        self.count as nat
    }

    /// The height whose block is to be fed next, if any.
    pub closed spec fn pending(&self) -> Option<nat> {
        if self.recorded < self.count {
            Some((self.first + self.recorded) as nat)
        } else {
            None
        }
    }

    /// The fees collected so far, lowest height first.
    pub closed spec fn fees(&self) -> Seq<u64> {
        self.fees@
    }

    /// Starts a walk over the last `numblocks` blocks, ending with the tip at
    /// `current_height`. `None` where that window would reach below the
    /// genesis block; an empty, finished walk for `numblocks == 0`.
    pub fn start(current_height: u64, numblocks: u64) -> (scan: Option<FeeScan>)
        ensures
            scan is None <==> numblocks > current_height + 1,
            scan matches Some(s) ==> {
                &&& s.wf()
                &&& s.window_len() == numblocks
                &&& s.fees() == Seq::<u64>::empty()
                &&& numblocks > 0 ==> {
                    &&& s.first_height() == current_height + 1 - numblocks
                    &&& s.first_height() + s.window_len() - 1 == current_height
                    &&& s.pending() == Some((current_height + 1 - numblocks) as nat)
                }
                &&& numblocks == 0 ==> s.pending() is None
            },
    {
        if numblocks == 0 {
            return Some(FeeScan { first: current_height, count: 0, recorded: 0, fees: Vec::new() });
        }
        if numblocks - 1 > current_height {
            return None;
        }
        let first = current_height - (numblocks - 1);
        Some(FeeScan { first, count: numblocks, recorded: 0, fees: Vec::new() })
    }

    /// The height whose block the walk needs next; `None` once every block
    /// of the window was fed.
    pub fn next_height(&self) -> (h: Option<u64>)
        requires
            self.wf(),
        ensures
            match h {
                Some(h) => self.pending() == Some(h as nat),
                None => self.pending() is None,
            },
    {
        if self.recorded < self.count {
            Some(self.first + self.recorded)
        } else {
            None
        }
    }

    /// Feeds the coinbase outputs of the pending block. On success its fee is
    /// appended and the walk moves on; where the fee cannot be computed the
    /// walk is left unchanged and the height is reported.
    pub fn record(&mut self, outputs: &Vec<u64>) -> (res: Result<u64, FeeError>)
        requires
            old(self).wf(),
            old(self).pending() is Some,
        ensures
            final(self).wf(),
            final(self).first_height() == old(self).first_height(),
            final(self).window_len() == old(self).window_len(),
            match block_fee(old(self).pending()->0, outputs@) {
                Some(f) => {
                    &&& res == Ok::<u64, FeeError>(f as u64)
                    &&& final(self).fees() == old(self).fees().push(f as u64)
                    &&& final(self).pending() == if old(self).fees().len() + 1 == old(self).window_len() {
                        None
                    } else {
                        Some(old(self).pending()->0 + 1)
                    }
                },
                None => {
                    &&& res == Err::<u64, FeeError>(FeeError { height: old(self).pending()->0 as u64 })
                    &&& final(self).fees() == old(self).fees()
                    &&& final(self).pending() == old(self).pending()
                },
            },
    {
        let height = self.first + self.recorded;
        match coinbase_fee(height, outputs) {
            Some(fee) => {
                self.fees.push(fee);
                self.recorded = self.recorded + 1;
                Ok(fee)
            },
            None => Err(FeeError { height }),
        }
    }

    /// The fees of the whole window, lowest height first.
    pub fn into_fees(self) -> (fees: Vec<u64>)
        requires
            self.wf(),
            self.pending() is None,
        ensures
            fees@ == self.fees(),
            fees@.len() == self.window_len(),
    {
        self.fees
    }
}

/// A finished walk holds exactly one fee per block of its window, so a walk
/// started for `numblocks` blocks yields `numblocks` fees.
pub proof fn lemma_scan_covers_window(scan: FeeScan)
    requires
        scan.wf(),
        scan.pending() is None,
    ensures
        scan.fees().len() == scan.window_len(),
{
}

/// The block fed after the `i`-th fee of a walk is the one at
/// `first_height() + i`: fees come out in height order, one per block.
pub proof fn lemma_scan_pending_height(scan: FeeScan)
    requires
        scan.wf(),
        scan.pending() is Some,
    ensures
        scan.pending()->0 == scan.first_height() + scan.fees().len(),
        scan.pending()->0 < scan.first_height() + scan.window_len(),
{
}

/// An inclusive range of block heights; empty when `first > last`.
#[derive(Debug, PartialEq, Eq, Clone, Copy)]
pub struct HeightRange {
    pub first: u64,
    pub last: u64,
}

/// Smaller of two heights.
pub open spec fn min_nat(a: nat, b: nat) -> nat {
    if a <= b { a } else { b }
}

/// The blocks that bring a store at `store_height` level with a chain at
/// `current_height`: every block above the store, up to the tip.
pub open spec fn update_range(store_height: nat, current_height: nat) -> (nat, nat) {
    ((store_height + 1) as nat, current_height)
}

/// The blocks that raise a store at `store_height` by at most `numblocks`
/// blocks without passing the tip at `current_height`; `None` where the store
/// is above the tip.
pub open spec fn raise_range(store_height: nat, current_height: nat, numblocks: nat) -> Option<(nat, nat)> {
    if store_height > current_height {
        None
    } else {
        Some((
            (store_height + 1) as nat,
            store_height + min_nat(numblocks, (current_height - store_height) as nat),
        ))
    }
}

/// Heights to fetch and insert to bring the store level with the chain tip.
pub fn update_heights(store_height: u64, current_height: u64) -> (range: HeightRange)
    requires
        store_height < u64::MAX,
    ensures
        (range.first as nat, range.last as nat) == update_range(store_height as nat, current_height as nat),
{
    HeightRange { first: store_height + 1, last: current_height }
}

/// Heights to fetch and insert to raise the store by up to `numblocks` blocks.
pub fn raise_heights(store_height: u64, current_height: u64, numblocks: u64) -> (range: Option<HeightRange>)
    requires
        store_height < u64::MAX,
    ensures
        match range {
            Some(r) => raise_range(store_height as nat, current_height as nat, numblocks as nat)
                == Some((r.first as nat, r.last as nat)),
            None => raise_range(store_height as nat, current_height as nat, numblocks as nat) is None,
        },
{
    if store_height > current_height {
        return None;
    }
    let gap = current_height - store_height;
    let increment = if numblocks <= gap { numblocks } else { gap };
    Some(HeightRange { first: store_height + 1, last: store_height + increment })
}

/// Raising never passes the chain tip and never adds more than `numblocks`
/// blocks; it starts right above the store, as updating does.
pub proof fn lemma_raise_bounded(store_height: nat, current_height: nat, numblocks: nat)
    requires
        store_height <= current_height,
    ensures
        raise_range(store_height, current_height, numblocks) matches Some((first, last)) && {
            &&& last <= current_height
            &&& last + 1 - first <= numblocks
            &&& first == update_range(store_height, current_height).0
        },
{
}

/// Raising by at least the gap to the tip is the same as updating: both walk
/// the blocks right above the store up to the tip, so both leave the store at
/// the tip. Raising by less adds exactly `numblocks` blocks.
pub proof fn lemma_raise_versus_update(store_height: nat, current_height: nat, numblocks: nat)
    requires
        store_height <= current_height,
    ensures
        numblocks >= current_height - store_height ==>
            raise_range(store_height, current_height, numblocks) == Some(update_range(store_height, current_height)),
        numblocks >= current_height - store_height ==>
            (raise_range(store_height, current_height, numblocks)->0).1 == current_height,
        numblocks < current_height - store_height ==>
            raise_range(store_height, current_height, numblocks) == Some(((store_height + 1) as nat, store_height + numblocks)),
{
}

/// An update leaves the store at the tip: its last block is the tip, and it
/// covers exactly the blocks the store is behind.
pub proof fn lemma_update_reaches_tip(store_height: nat, current_height: nat)
    requires
        store_height <= current_height,
    ensures
        update_range(store_height, current_height).1 == current_height,
        update_range(store_height, current_height).1 + 1 - update_range(store_height, current_height).0
            == current_height - store_height,
{
}

/// An update inserts exactly the blocks the store is missing: a height is in
/// its range if and only if it lies above the store and not above the tip.
pub proof fn lemma_update_inserts_missing_blocks(store_height: nat, current_height: nat, h: nat)
    ensures
        (update_range(store_height, current_height).0 <= h && h <= update_range(store_height, current_height).1)
            <==> (store_height < h && h <= current_height),
{
}

/// A raise inserts exactly the missing blocks that lie at most `numblocks`
/// above the store: a height is in its range if and only if it is above the
/// store, not above the tip, and not more than `numblocks` above the store.
pub proof fn lemma_raise_inserts_next_blocks(store_height: nat, current_height: nat, numblocks: nat, h: nat)
    requires
        store_height <= current_height,
    ensures
        raise_range(store_height, current_height, numblocks) matches Some((first, last))
            && ((first <= h && h <= last) <==> (store_height < h && h <= current_height
                && h <= store_height + numblocks)),
{
}

/// The height of a store whose highest stored block is `max_height`; `None`
/// where that value is negative.
pub fn store_height_from_max(max_height: i64) -> (h: Option<u64>)
    ensures
        match h {
            Some(h) => max_height >= 0 && h == max_height,
            None => max_height < 0,
        },
{
    if max_height < 0 {
        None
    } else {
        Some(max_height as u64)
    }
}

/// First line of the status report.
pub fn blockchain_height_line(blockchain_height: u64) -> (line: String)
    ensures
        line@ == "blockchain height: "@ + decimal(blockchain_height as nat),
{
    let mut line = String::from_str("blockchain height: ");
    let digits = decimal_string(blockchain_height);
    line.append(digits.as_str());
    line
}

/// Second line of the status report.
pub fn store_height_line(store_height: u64) -> (line: String)
    ensures
        line@ == "store height: "@ + decimal(store_height as nat),
{
    let mut line = String::from_str("store height: ");
    let digits = decimal_string(store_height);
    line.append(digits.as_str());
    line
}

/// Last line of the status report: how far the store lags behind the chain.
pub fn sync_line(blockchain_height: u64, store_height: u64) -> (line: String)
    requires
        store_height <= blockchain_height,
    ensures
        store_height < blockchain_height ==> line@ == "store is "@
            + decimal((blockchain_height - store_height) as nat) + " blocks behind the local blockchain"@,
        store_height == blockchain_height ==> line@ == "store and the local blockchain have equal height"@,
{
    let delta = blockchain_height - store_height;
    if delta > 0 {
        let mut line = String::from_str("store is ");
        let digits = decimal_string(delta);
        line.append(digits.as_str());
        line.append(" blocks behind the local blockchain");
        line
    } else {
        String::from_str("store and the local blockchain have equal height")
    }
}

} // verus!
