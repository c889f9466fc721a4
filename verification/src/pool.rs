//! Size-class pool of reusable memory blocks. The blocks themselves are
//! opaque values of a type chosen by the caller.

use vstd::prelude::*;
use crate::memory::{block_size_ok, calculate_block_size, wrap_add, PoolStatsData};

verus! {

/// Pool counters, each wrapping as an atomic counter does.
#[derive(Debug, Clone, Copy)]
pub struct PoolStats {
    pub hits: u64,
    pub misses: u64,
    pub returns: u64,
    pub discards: u64,
    pub cleanups: u64,
}

impl PoolStats {
    /// All counters at zero.
    pub fn new() -> (s: Self)
        ensures
            s.hits == 0 && s.misses == 0 && s.returns == 0 && s.discards == 0 && s.cleanups == 0,
    {
        PoolStats { hits: 0, misses: 0, returns: 0, discards: 0, cleanups: 0 }
    }

    /// Counts a request served from the pool.
    pub fn record_pool_hit(&mut self)
        ensures
            *final(self) == (PoolStats { hits: wrap_add(old(self).hits, 1), ..*old(self) }),
    {
        self.hits = self.hits.wrapping_add(1);
    }

    /// Counts a request that needed a new block.
    pub fn record_pool_miss(&mut self)
        ensures
            *final(self) == (PoolStats { misses: wrap_add(old(self).misses, 1), ..*old(self) }),
    {
        self.misses = self.misses.wrapping_add(1);
    }

    /// Counts a block taken back into the pool.
    pub fn record_pool_return(&mut self)
        ensures
            *final(self) == (PoolStats { returns: wrap_add(old(self).returns, 1), ..*old(self) }),
    {
        self.returns = self.returns.wrapping_add(1);
    }

    /// Counts a block dropped because its pool was full.
    pub fn record_pool_discard(&mut self)
        ensures
            *final(self) == (PoolStats {
                discards: wrap_add(old(self).discards, 1),
                ..*old(self)
            }),
    {
        self.discards = self.discards.wrapping_add(1);
    }

    /// Counts a clean-up pass.
    pub fn record_cleanup(&mut self)
        ensures
            *final(self) == (PoolStats {
                cleanups: wrap_add(old(self).cleanups, 1),
                ..*old(self)
            }),
    {
        self.cleanups = self.cleanups.wrapping_add(1);
    }

    /// A snapshot of the counters.
    pub fn get_stats(&self) -> (d: PoolStatsData)
        ensures
            d.hits == self.hits && d.misses == self.misses && d.returns == self.returns
                && d.discards == self.discards && d.cleanups == self.cleanups,
    {
        PoolStatsData {
            hits: self.hits,
            misses: self.misses,
            returns: self.returns,
            discards: self.discards,
            cleanups: self.cleanups,
        }
    }
}

/// Occupancy of the pool.
#[derive(Debug, Clone, Copy)]
pub struct PoolUsage {
    pub total_pools: usize,
    pub total_blocks: usize,
    pub total_memory: usize,
    pub stats: PoolStatsData,
}

/// The map from block size to free blocks that a list of pools stands for.
pub open spec fn pools_map<B>(s: Seq<(usize, Vec<B>)>) -> Map<usize, Seq<B>>
    decreases s.len(),
{
    if s.len() == 0 {
        Map::empty()
    } else {
        pools_map(s.drop_last()).insert(s.last().0, s.last().1@)
    }
}

/// No block size has two pools.
pub open spec fn distinct_sizes<B>(s: Seq<(usize, Vec<B>)>) -> bool {
    forall|i: int, j: int| 0 <= i < s.len() && 0 <= j < s.len() && i != j ==> #[trigger] s[i].0
        != #[trigger] s[j].0
}

proof fn lemma_distinct_prefix<B>(s: Seq<(usize, Vec<B>)>)
    requires
        distinct_sizes(s),
        s.len() > 0,
    ensures
        distinct_sizes(s.drop_last()),
{
    let p = s.drop_last();
    assert forall|i: int, j: int| 0 <= i < p.len() && 0 <= j < p.len() && i != j implies #[trigger] p[i].0
        != #[trigger] p[j].0 by {
        assert(p[i] == s[i] && p[j] == s[j]);
    }
}

/// Sizes and contents of the map are those of the pools.
pub proof fn lemma_pools_map<B>(s: Seq<(usize, Vec<B>)>)
    requires
        distinct_sizes(s),
    ensures
        forall|k: usize| #[trigger]
            pools_map(s).dom().contains(k) <==> exists|i: int| 0 <= i < s.len() && s[i].0 == k,
        forall|i: int| 0 <= i < s.len() ==> #[trigger] pools_map(s)[s[i].0] == s[i].1@,
        pools_map(s).dom().finite(),
        pools_map(s).dom().len() == s.len(),
    decreases s.len(),
{
    if s.len() > 0 {
        let p = s.drop_last();
        lemma_distinct_prefix(s);
        lemma_pools_map(p);
        let last = s.last();
        assert(!pools_map(p).dom().contains(last.0)) by {
            if pools_map(p).dom().contains(last.0) {
                let i = choose|i: int| 0 <= i < p.len() && p[i].0 == last.0;
                assert(s[i].0 == s[s.len() - 1].0);
            }
        }
        assert forall|k: usize| #[trigger]
            pools_map(s).dom().contains(k) <==> exists|i: int| 0 <= i < s.len() && s[i].0 == k by {
            if pools_map(s).dom().contains(k) {
                if k == last.0 {
                    assert(s[s.len() - 1].0 == k);
                } else {
                    let i = choose|i: int| 0 <= i < p.len() && p[i].0 == k;
                    assert(s[i].0 == k);
                }
            }
            if exists|i: int| 0 <= i < s.len() && s[i].0 == k {
                let i = choose|i: int| 0 <= i < s.len() && s[i].0 == k;
                if i < s.len() - 1 {
                    assert(p[i].0 == k);
                }
            }
        }
        assert forall|i: int| 0 <= i < s.len() implies #[trigger] pools_map(s)[s[i].0] == s[i].1@ by {
            if i < s.len() - 1 {
                assert(p[i] == s[i]);
                assert(s[i].0 != last.0);
            }
        }
    }
}

/// Replacing the blocks of one pool replaces that entry of the map.
pub proof fn lemma_pools_map_update<B>(s: Seq<(usize, Vec<B>)>, i: int, v: Vec<B>)
    requires
        distinct_sizes(s),
        0 <= i < s.len(),
    ensures
        pools_map(s.update(i, (s[i].0, v))) == pools_map(s).insert(s[i].0, v@),
        distinct_sizes(s.update(i, (s[i].0, v))),
    decreases s.len(),
{
    let u = s.update(i, (s[i].0, v));
    assert(distinct_sizes(u)) by {
        assert forall|a: int, b: int| 0 <= a < u.len() && 0 <= b < u.len() && a != b implies #[trigger] u[a].0
            != #[trigger] u[b].0 by {
            assert(u[a].0 == s[a].0 && u[b].0 == s[b].0);
        }
    }
    let p = s.drop_last();
    lemma_distinct_prefix(s);
    if i == s.len() - 1 {
        assert(u.drop_last() =~= p);
        assert(pools_map(u) =~= pools_map(s).insert(s[i].0, v@));
    } else {
        lemma_pools_map_update(p, i, v);
        assert(u.drop_last() =~= p.update(i, (p[i].0, v)));
        assert(s[i].0 != s.last().0);
        assert(pools_map(u) =~= pools_map(s).insert(s[i].0, v@));
    }
}

/// Removing a pool removes its size from the map.
pub proof fn lemma_pools_map_remove<B>(s: Seq<(usize, Vec<B>)>, k: int)
    requires
        distinct_sizes(s),
        0 <= k < s.len(),
    ensures
        pools_map(s.remove(k)) == pools_map(s).remove(s[k].0),
        distinct_sizes(s.remove(k)),
    decreases s.len(),
{
    let p = s.drop_last();
    lemma_distinct_prefix(s);
    let r = s.remove(k);
    assert(distinct_sizes(r)) by {
        assert forall|i: int, j: int| 0 <= i < r.len() && 0 <= j < r.len() && i != j implies #[trigger] r[i].0
            != #[trigger] r[j].0 by {
            let si = if i < k { i } else { i + 1 };
            let sj = if j < k { j } else { j + 1 };
            assert(r[i] == s[si] && r[j] == s[sj]);
        }
    }
    if k == s.len() - 1 {
        assert(r =~= p);
        lemma_pools_map(p);
        assert(!pools_map(p).dom().contains(s[k].0)) by {
            if pools_map(p).dom().contains(s[k].0) {
                let i = choose|i: int| 0 <= i < p.len() && p[i].0 == s[k].0;
                assert(s[i].0 == s[k].0);
            }
        }
        assert(pools_map(s).remove(s[k].0) =~= pools_map(p));
    } else {
        lemma_pools_map_remove(p, k);
        assert(r.drop_last() =~= p.remove(k));
        assert(r.last() == s.last());
        assert(p[k] == s[k]);
        assert(s[k].0 != s[s.len() - 1].0);
        assert(pools_map(r) =~= pools_map(s).remove(s[k].0));
    }
}

/// The blocks kept for a size, none when there is no pool for it.
pub open spec fn blocks_of<B>(m: Map<usize, Seq<B>>, size: usize) -> Seq<B> {
    if m.dom().contains(size) {
        m[size]
    } else {
        Seq::empty()
    }
}

/// Pools of free blocks by size class, each holding at most
/// `max_pool_size` blocks.
pub struct MemoryPool<B> {
    pools: Vec<(usize, Vec<B>)>,
    max_pool_size: usize,
    stats: PoolStats,
}

impl<B> MemoryPool<B> {
    /// Free blocks by size.
    pub closed spec fn view(&self) -> Map<usize, Seq<B>> {
        pools_map(self.pools@)
    }

    /// Largest number of blocks kept per size.
    pub closed spec fn capacity(&self) -> usize {
        self.max_pool_size
    }

    /// The counters.
    pub closed spec fn counters(&self) -> PoolStats {
        self.stats
    }

    #[verifier::type_invariant]
    spec fn inv(self) -> bool {
        distinct_sizes(self.pools@)
    }

    /// An empty pool.
    pub fn new(max_pool_size: usize) -> (p: Self)
        ensures
            p.view() == Map::<usize, Seq<B>>::empty(),
            p.capacity() == max_pool_size,
            p.counters() == PoolStats::new_spec(),
    {
        MemoryPool { pools: Vec::new(), max_pool_size, stats: PoolStats::new() }
    }

    fn find(&self, size: usize) -> (r: Option<usize>)
        ensures
            match r {
                Some(i) => i < self.pools@.len() && self.pools@[i as int].0 == size,
                None => forall|i: int| 0 <= i < self.pools@.len() ==> self.pools@[i].0 != size,
            },
    {
        let mut i: usize = 0;
        while i < self.pools.len()
            invariant
                i <= self.pools@.len(),
                forall|j: int| 0 <= j < i ==> self.pools@[j].0 != size,
            decreases self.pools.len() - i,
        {
            if self.pools[i].0 == size {
                return Some(i);
            }
            i = i + 1;
        }
        None
    }

    /// Serves a request of `size` bytes: returns its block size class and,
    /// when that class has a free block, the oldest one, taken out of the
    /// pool. Without one the caller makes a new block of that size.
    pub fn allocate(&mut self, size: usize) -> (r: (usize, Option<B>))
        requires
            size as int <= (usize::MAX as int + 1) / 2,
        ensures
            block_size_ok(size as int, r.0 as int),
            blocks_of(old(self).view(), r.0).len() > 0 ==> {
                &&& r.1 == Some(blocks_of(old(self).view(), r.0)[0])
                &&& final(self).view() == old(self).view().insert(
                    r.0,
                    blocks_of(old(self).view(), r.0).drop_first(),
                )
                &&& final(self).counters() == (PoolStats {
                    hits: wrap_add(old(self).counters().hits, 1),
                    ..old(self).counters()
                })
            },
            blocks_of(old(self).view(), r.0).len() == 0 ==> {
                &&& r.1 is None
                &&& final(self).view() == old(self).view()
                &&& final(self).counters() == (PoolStats {
                    misses: wrap_add(old(self).counters().misses, 1),
                    ..old(self).counters()
                })
            },
            final(self).capacity() == old(self).capacity(),
    {
        proof {
            use_type_invariant(&*self);
            lemma_pools_map(self.pools@);
        }
        let block_size = calculate_block_size(size);
        match self.find(block_size) {
            Some(i) => {
                if self.pools[i].1.len() > 0 {
                    let mut pools: Vec<(usize, Vec<B>)> = Vec::new();
                    std::mem::swap(&mut pools, &mut self.pools);
                    let ghost before = pools@;
                    let (k, mut blocks) = pools.remove(i);
                    let first = blocks.remove(0);
                    let ghost after_blocks = blocks@;
                    pools.insert(i, (k, blocks));
                    proof {
                        assert(pools@ =~= before.update(i as int, (k, pools@[i as int].1)));
                        lemma_pools_map_update(before, i as int, pools@[i as int].1);
                        assert(after_blocks =~= before[i as int].1@.drop_first());
                    }
                    self.pools = pools;
                    let mut st = self.stats;
                    st.record_pool_hit();
                    self.stats = st;
                    return (block_size, Some(first));
                }
            },
            None => {},
        }
        let mut st = self.stats;
        st.record_pool_miss();
        self.stats = st;
        (block_size, None)
    }
}

/// Number of blocks held by a list of pools.
pub open spec fn blocks_total<B>(s: Seq<(usize, Vec<B>)>) -> nat
    decreases s.len(),
{
    if s.len() == 0 {
        0
    } else {
        blocks_total(s.drop_last()) + s.last().1@.len()
    }
}

/// Bytes held by a list of pools.
pub open spec fn memory_total<B>(s: Seq<(usize, Vec<B>)>) -> nat
    decreases s.len(),
{
    if s.len() == 0 {
        0
    } else {
        memory_total(s.drop_last()) + (s.last().1@.len() * s.last().0) as nat
    }
}

/// Whether a size was removed from the map by the pass that dropped the
/// empty pools from index `i` on.
pub open spec fn dropped_from<B>(orig: Seq<(usize, Vec<B>)>, k: usize, i: int) -> bool {
    exists|j: int| i <= j < orig.len() && orig[j].0 == k && orig[j].1@.len() == 0
}

impl<B> MemoryPool<B> {
    /// Number of blocks held, over all sizes.
    pub closed spec fn block_count(&self) -> nat {
        blocks_total(self.pools@)
    }

    /// Bytes held, over all sizes.
    pub closed spec fn byte_count(&self) -> nat {
        memory_total(self.pools@)
    }

    /// Takes a block of `block_size` bytes back: it is kept when its pool
    /// holds fewer than the capacity, else dropped. The pool for that size
    /// exists afterwards either way.
    pub fn deallocate(&mut self, block_size: usize, block: B) -> (kept: bool)
        ensures
            kept == (blocks_of(old(self).view(), block_size).len() < old(self).capacity()),
            final(self).view() == old(self).view().insert(
                block_size,
                if kept {
                    blocks_of(old(self).view(), block_size).push(block)
                } else {
                    blocks_of(old(self).view(), block_size)
                },
            ),
            kept ==> final(self).counters() == (PoolStats {
                returns: wrap_add(old(self).counters().returns, 1),
                ..old(self).counters()
            }),
            !kept ==> final(self).counters() == (PoolStats {
                discards: wrap_add(old(self).counters().discards, 1),
                ..old(self).counters()
            }),
            final(self).capacity() == old(self).capacity(),
    {
        proof {
            use_type_invariant(&*self);
            lemma_pools_map(self.pools@);
        }
        let found = self.find(block_size);
        let mut pools: Vec<(usize, Vec<B>)> = Vec::new();
        std::mem::swap(&mut pools, &mut self.pools);
        let ghost before = pools@;
        let kept;
        match found {
            Some(i) => {
                let (k, mut blocks) = pools.remove(i);
                let ghost old_blocks = blocks@;
                kept = blocks.len() < self.max_pool_size;
                if kept {
                    blocks.push(block);
                }
                pools.insert(i, (k, blocks));
                proof {
                    assert(old_blocks == before[i as int].1@);
                    assert(pools@ =~= before.update(i as int, (k, pools@[i as int].1)));
                    lemma_pools_map_update(before, i as int, pools@[i as int].1);
                }
            },
            None => {
                let mut blocks: Vec<B> = Vec::new();
                kept = 0 < self.max_pool_size;
                if kept {
                    blocks.push(block);
                }
                pools.push((block_size, blocks));
                proof {
                    assert(pools@.drop_last() =~= before);
                    assert(!pools_map(before).dom().contains(block_size));
                    assert(distinct_sizes(pools@)) by {
                        assert forall|a: int, b: int|
                            0 <= a < pools@.len() && 0 <= b < pools@.len() && a != b implies #[trigger] pools@[a].0
                            != #[trigger] pools@[b].0 by {
                            if a < before.len() && b < before.len() {
                                assert(pools@[a] == before[a] && pools@[b] == before[b]);
                            } else if a < before.len() {
                                assert(pools@[a] == before[a]);
                            } else {
                                assert(pools@[b] == before[b]);
                            }
                        }
                    }
                }
            },
        }
        self.pools = pools;
        let mut st = self.stats;
        if kept {
            st.record_pool_return();
        } else {
            st.record_pool_discard();
        }
        self.stats = st;
        kept
    }

    /// Halves every pool, keeping the older half (rounded down).
    pub fn cleanup(&mut self)
        ensures
            final(self).view().dom() == old(self).view().dom(),
            forall|k: usize|
                #![trigger final(self).view()[k]]
                old(self).view().dom().contains(k) ==> final(self).view()[k] == old(
                    self,
                ).view()[k].take((old(self).view()[k].len() / 2) as int),
            final(self).counters() == (PoolStats {
                cleanups: wrap_add(old(self).counters().cleanups, 1),
                ..old(self).counters()
            }),
            final(self).capacity() == old(self).capacity(),
    {
        proof {
            use_type_invariant(&*self);
        }
        let mut pools: Vec<(usize, Vec<B>)> = Vec::new();
        std::mem::swap(&mut pools, &mut self.pools);
        let ghost orig = pools@;
        let mut i: usize = 0;
        while i < pools.len()
            invariant
                i <= pools@.len(),
                pools@.len() == orig.len(),
                forall|j: int| 0 <= j < orig.len() ==> #[trigger] pools@[j].0 == orig[j].0,
                forall|j: int|
                    0 <= j < i ==> #[trigger] pools@[j].1@ == orig[j].1@.take(
                        (orig[j].1@.len() / 2) as int,
                    ),
                forall|j: int| i <= j < orig.len() ==> #[trigger] pools@[j].1@ == orig[j].1@,
            decreases pools.len() - i,
        {
            let ghost prev = pools@;
            let (k, mut blocks) = pools.remove(i);
            let half = blocks.len() / 2;
            blocks.truncate(half);
            pools.insert(i, (k, blocks));
            proof {
                assert(pools@ =~= prev.update(i as int, (k, pools@[i as int].1)));
            }
            i = i + 1;
        }
        proof {
            assert(distinct_sizes(pools@)) by {
                assert forall|a: int, b: int|
                    0 <= a < pools@.len() && 0 <= b < pools@.len() && a != b implies #[trigger] pools@[a].0
                    != #[trigger] pools@[b].0 by {
                    assert(pools@[a].0 == orig[a].0 && pools@[b].0 == orig[b].0);
                }
            }
            lemma_pools_map(orig);
            lemma_pools_map(pools@);
            assert forall|k: usize| #[trigger]
                pools_map(pools@).dom().contains(k) == pools_map(orig).dom().contains(k) by {
                if pools_map(orig).dom().contains(k) {
                    let j = choose|j: int| 0 <= j < orig.len() && orig[j].0 == k;
                    assert(pools@[j].0 == k);
                }
                if pools_map(pools@).dom().contains(k) {
                    let j = choose|j: int| 0 <= j < pools@.len() && pools@[j].0 == k;
                    assert(orig[j].0 == k);
                }
            }
            assert(pools_map(pools@).dom() =~= pools_map(orig).dom());
            assert forall|k: usize| #![trigger pools_map(pools@)[k]]
                pools_map(orig).dom().contains(k) implies pools_map(pools@)[k] == pools_map(
                orig,
            )[k].take((pools_map(orig)[k].len() / 2) as int) by {
                let j = choose|j: int| 0 <= j < orig.len() && orig[j].0 == k;
                assert(pools@[j].0 == k);
                assert(pools_map(pools@)[pools@[j].0] == pools@[j].1@);
                assert(pools_map(orig)[orig[j].0] == orig[j].1@);
            }
        }
        self.pools = pools;
        let mut st = self.stats;
        st.record_cleanup();
        self.stats = st;
    }

    /// Drops the pools that hold no block.
    pub fn optimize(&mut self)
        ensures
            forall|k: usize| #[trigger]
                final(self).view().dom().contains(k) <==> (old(self).view().dom().contains(k)
                    && old(self).view()[k].len() > 0),
            forall|k: usize| #[trigger]
                final(self).view().dom().contains(k) ==> final(self).view()[k] == old(
                    self,
                ).view()[k],
            final(self).counters() == old(self).counters(),
            final(self).capacity() == old(self).capacity(),
    {
        proof {
            use_type_invariant(&*self);
        }
        let mut pools: Vec<(usize, Vec<B>)> = Vec::new();
        std::mem::swap(&mut pools, &mut self.pools);
        let ghost orig = pools@;
        let ghost om = pools_map(orig);
        let mut i: usize = pools.len();
        proof {
            assert(pools@.take(i as int) =~= orig.take(i as int));
            assert(pools_map(pools@) =~= Map::new(
                |k: usize| om.dom().contains(k) && !dropped_from(orig, k, i as int),
                |k: usize| om[k],
            ));
        }
        while i > 0
            invariant
                i <= pools@.len(),
                i <= orig.len(),
                om == pools_map(orig),
                distinct_sizes(orig),
                distinct_sizes(pools@),
                pools@.take(i as int) == orig.take(i as int),
                pools_map(pools@) == Map::new(
                    |k: usize| om.dom().contains(k) && !dropped_from(orig, k, i as int),
                    |k: usize| om[k],
                ),
            decreases i,
        {
            i = i - 1;
            proof {
                assert(pools@[i as int] == pools@.take(i + 1)[i as int]);
                assert(orig[i as int] == orig.take(i + 1)[i as int]);
            }
            let ghost prev = pools@;
            let ghost prev_map = pools_map(prev);
            if pools[i].1.len() == 0 {
                proof {
                    lemma_pools_map_remove(prev, i as int);
                }
                pools.remove(i);
                proof {
                    assert(pools@.take(i as int) =~= orig.take(i as int));
                    assert forall|k: usize|
                        om.dom().contains(k) && !dropped_from(orig, k, i as int) implies !dropped_from(
                        orig,
                        k,
                        i + 1,
                    ) && k != orig[i as int].0 by {
                        if dropped_from(orig, k, i + 1) {
                            let j = choose|j: int|
                                i + 1 <= j < orig.len() && orig[j].0 == k && orig[j].1@.len() == 0;
                            assert(dropped_from(orig, k, i as int));
                        }
                    }
                    assert forall|k: usize|
                        om.dom().contains(k) && !dropped_from(orig, k, i + 1) && k != orig[i as int].0
                            implies !dropped_from(orig, k, i as int) by {
                        if dropped_from(orig, k, i as int) {
                            let j = choose|j: int|
                                i <= j < orig.len() && orig[j].0 == k && orig[j].1@.len() == 0;
                            if j != i {
                                assert(dropped_from(orig, k, i + 1));
                            }
                        }
                    }
                    assert(pools_map(pools@) =~= Map::new(
                        |k: usize| om.dom().contains(k) && !dropped_from(orig, k, i as int),
                        |k: usize| om[k],
                    ));
                }
            } else {
                proof {
                    assert(pools@.take(i as int) =~= orig.take(i as int));
                    assert forall|k: usize| #[trigger]
                        dropped_from(orig, k, i as int) == dropped_from(orig, k, i + 1) by {
                        if dropped_from(orig, k, i as int) {
                            let j = choose|j: int|
                                i <= j < orig.len() && orig[j].0 == k && orig[j].1@.len() == 0;
                            if j == i {
                                assert(orig[i as int].1@.len() != 0);
                            }
                        }
                    }
                    assert(pools_map(pools@) =~= Map::new(
                        |k: usize| om.dom().contains(k) && !dropped_from(orig, k, i as int),
                        |k: usize| om[k],
                    ));
                }
            }
        }
        proof {
            lemma_pools_map(orig);
            assert forall|k: usize| #[trigger]
                dropped_from(orig, k, 0) == (om.dom().contains(k) && om[k].len() == 0) by {
                if dropped_from(orig, k, 0) {
                    let j = choose|j: int| 0 <= j < orig.len() && orig[j].0 == k && orig[j].1@.len() == 0;
                    assert(om[orig[j].0] == orig[j].1@);
                }
                if om.dom().contains(k) && om[k].len() == 0 {
                    let j = choose|j: int| 0 <= j < orig.len() && orig[j].0 == k;
                    assert(om[orig[j].0] == orig[j].1@);
                }
            }
        }
        self.pools = pools;
    }

    /// Occupancy: number of pools, blocks and bytes held, and counters.
    pub fn usage(&self) -> (u: PoolUsage)
        requires
            self.byte_count() <= usize::MAX,
            self.block_count() <= usize::MAX,
        ensures
            u.total_pools == self.view().dom().len(),
            u.total_blocks == self.block_count(),
            u.total_memory == self.byte_count(),
            u.stats == self.counters().get_stats_spec(),
    {
        proof {
            use_type_invariant(self);
            lemma_pools_map(self.pools@);
        }
        let mut blocks: usize = 0;
        let mut bytes: usize = 0;
        let mut i: usize = 0;
        while i < self.pools.len()
            invariant
                i <= self.pools@.len(),
                memory_total(self.pools@) <= usize::MAX,
                blocks_total(self.pools@) <= usize::MAX,
                blocks == blocks_total(self.pools@.take(i as int)),
                bytes == memory_total(self.pools@.take(i as int)),
            decreases self.pools.len() - i,
        {
            proof {
                assert(self.pools@.take(i + 1).drop_last() =~= self.pools@.take(i as int));
                lemma_totals_prefix(self.pools@, i + 1);
            }
            let n = self.pools[i].1.len();
            let size = self.pools[i].0;
            proof {
                assert(n * size <= memory_total(self.pools@.take(i + 1)));
            }
            bytes = bytes + n * size;
            blocks = blocks + n;
            i = i + 1;
        }
        proof {
            assert(self.pools@.take(self.pools@.len() as int) =~= self.pools@);
        }
        PoolUsage {
            total_pools: self.pools.len(),
            total_blocks: blocks,
            total_memory: bytes,
            stats: self.stats.get_stats(),
        }
    }
}

/// The totals of a prefix are at most those of the whole list.
pub proof fn lemma_totals_prefix<B>(s: Seq<(usize, Vec<B>)>, i: int)
    requires
        0 <= i <= s.len(),
    ensures
        memory_total(s.take(i)) <= memory_total(s),
        blocks_total(s.take(i)) <= blocks_total(s),
    decreases s.len(),
{
    if i < s.len() {
        assert(s.drop_last().take(i) =~= s.take(i));
        lemma_totals_prefix(s.drop_last(), i);
        assert(s.last().1@.len() * s.last().0 >= 0) by (nonlinear_arith);
    } else {
        assert(s.take(i) =~= s);
    }
}

impl PoolStats {
    /// A snapshot of the counters.
    pub open spec fn get_stats_spec(self) -> PoolStatsData {
        PoolStatsData {
            hits: self.hits,
            misses: self.misses,
            returns: self.returns,
            discards: self.discards,
            cleanups: self.cleanups,
        }
    }
}

impl PoolStats {
    /// The zero counters.
    pub open spec fn new_spec() -> PoolStats {
        PoolStats { hits: 0, misses: 0, returns: 0, discards: 0, cleanups: 0 }
    }
}

/// A block given back to a size class that holds no free block is the
/// block the next request of that class is served, and that request
/// leaves the class empty again.
pub proof fn lemma_returned_block_is_reused<B>(m: Map<usize, Seq<B>>, size: usize, block: B)
    requires
        blocks_of(m, size).len() == 0,
    ensures
        ({
            let m2 = m.insert(size, blocks_of(m, size).push(block));
            &&& blocks_of(m2, size).len() > 0
            &&& blocks_of(m2, size)[0] == block
            &&& blocks_of(m2.insert(size, blocks_of(m2, size).drop_first()), size).len() == 0
        }),
{
    let m2 = m.insert(size, blocks_of(m, size).push(block));
    assert(blocks_of(m2, size) =~= seq![block]);
}

} // verus!
