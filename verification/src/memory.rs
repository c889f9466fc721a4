//! Memory bookkeeping: the allocation monitor, the size-class block pool
//! and their statistics.

use vstd::prelude::*;
use vstd::arithmetic::power2::{pow2, lemma_pow2_pos, lemma_pow2_adds};

verus! {

/// Counters of the block pool.
#[derive(Debug, Clone, Copy)]
pub struct PoolStatsData {
    pub hits: u64,
    pub misses: u64,
    pub returns: u64,
    pub discards: u64,
    pub cleanups: u64,
}

impl PoolStatsData {
    /// All counters at zero.
    pub fn new() -> (s: Self)
        ensures
            s.hits == 0 && s.misses == 0 && s.returns == 0 && s.discards == 0 && s.cleanups == 0,
    {
        PoolStatsData { hits: 0, misses: 0, returns: 0, discards: 0, cleanups: 0 }
    }
}

impl Default for PoolStatsData {
    fn default() -> (s: Self)
        ensures
            s.hits == 0 && s.misses == 0 && s.returns == 0 && s.discards == 0 && s.cleanups == 0,
    {
        Self::new()
    }
}

/// Counters of compression work; times are averages in milliseconds.
#[derive(Debug, Clone, Copy)]
pub struct CompressionStatsData {
    pub compressions: u64,
    pub decompressions: u64,
    pub total_original_size: u64,
    pub total_compressed_size: u64,
    pub average_compression_time_ms: u64,
    pub average_decompression_time_ms: u64,
}

impl CompressionStatsData {
    /// All counters at zero.
    pub fn new() -> (s: Self)
        ensures
            s.compressions == 0 && s.decompressions == 0 && s.total_original_size == 0
                && s.total_compressed_size == 0 && s.average_compression_time_ms == 0
                && s.average_decompression_time_ms == 0,
    {
        CompressionStatsData {
            compressions: 0,
            decompressions: 0,
            total_original_size: 0,
            total_compressed_size: 0,
            average_compression_time_ms: 0,
            average_decompression_time_ms: 0,
        }
    }
}

impl Default for CompressionStatsData {
    fn default() -> (s: Self)
        ensures
            s.compressions == 0 && s.decompressions == 0 && s.total_original_size == 0
                && s.total_compressed_size == 0 && s.average_compression_time_ms == 0
                && s.average_decompression_time_ms == 0,
    {
        Self::new()
    }
}

/// Memory statistics as reported to callers.
#[derive(Debug, Clone, Copy)]
pub struct MemoryStats {
    pub total_allocations: u64,
    pub total_deallocations: u64,
    pub current_allocated: u64,
    pub peak_allocated: u64,
    pub cleanup_count: u64,
    pub compression_stats: CompressionStatsData,
    pub pool_stats: PoolStatsData,
}

impl MemoryStats {
    /// All counters at zero.
    pub fn new() -> (s: Self)
        ensures
            s.total_allocations == 0 && s.total_deallocations == 0 && s.current_allocated == 0
                && s.peak_allocated == 0 && s.cleanup_count == 0,
            s.compression_stats == CompressionStatsData::new_spec(),
            s.pool_stats == PoolStatsData::new_spec(),
    {
        MemoryStats {
            total_allocations: 0,
            total_deallocations: 0,
            current_allocated: 0,
            peak_allocated: 0,
            cleanup_count: 0,
            compression_stats: CompressionStatsData::new(),
            pool_stats: PoolStatsData::new(),
        }
    }

    /// Kept for callers that report an allocation; the statistics are
    /// snapshots and do not change.
    pub fn record_allocation(&self, _size: usize) {
    }

    /// Kept for callers that report a deallocation; no change.
    pub fn record_deallocation(&self, _size: usize) {
    }

    /// Kept for callers that report a clean-up; no change.
    pub fn record_cleanup(&self) {
    }
}

impl PoolStatsData {
    /// The zero counters.
    pub open spec fn new_spec() -> PoolStatsData {
        PoolStatsData { hits: 0, misses: 0, returns: 0, discards: 0, cleanups: 0 }
    }
}

impl CompressionStatsData {
    /// The zero counters.
    pub open spec fn new_spec() -> CompressionStatsData {
        CompressionStatsData {
            compressions: 0,
            decompressions: 0,
            total_original_size: 0,
            total_compressed_size: 0,
            average_compression_time_ms: 0,
            average_decompression_time_ms: 0,
        }
    }
}

impl Default for MemoryStats {
    fn default() -> (s: Self)
        ensures
            s.total_allocations == 0 && s.current_allocated == 0 && s.peak_allocated == 0,
    {
        Self::new()
    }
}

/// `a + b` modulo 2^64, as atomic counters add.
pub open spec fn wrap_add(a: u64, b: u64) -> u64 {
    if a + b <= u64::MAX {
        (a + b) as u64
    } else {
        (a + b - u64::MAX - 1) as u64
    }
}

/// `a - b` modulo 2^64, as atomic counters subtract.
pub open spec fn wrap_sub(a: u64, b: u64) -> u64 {
    if a >= b {
        (a - b) as u64
    } else {
        (a - b + u64::MAX + 1) as u64
    }
}

/// Tracks the bytes handed out against a ceiling.
#[derive(Debug, Clone, Copy)]
pub struct MemoryMonitor {
    pub max_memory: u64,
    pub current_allocated: u64,
    pub peak_allocated: u64,
    pub allocation_count: u64,
    pub deallocation_count: u64,
}

impl MemoryMonitor {
    /// A monitor with nothing allocated.
    pub fn new(max_memory: u64) -> (m: Self)
        ensures
            m.max_memory == max_memory,
            m.current_allocated == 0 && m.peak_allocated == 0,
            m.allocation_count == 0 && m.deallocation_count == 0,
    {
        MemoryMonitor {
            max_memory,
            current_allocated: 0,
            peak_allocated: 0,
            allocation_count: 0,
            deallocation_count: 0,
        }
    }

    /// Whether `size` more bytes stay within the ceiling.
    pub fn can_allocate(&self, size: u64) -> (b: bool)
        ensures
            b == (self.current_allocated + size <= self.max_memory),
    {
        size <= self.max_memory && self.current_allocated <= self.max_memory - size
    }

    /// Records an allocation of `size` bytes and raises the peak.
    pub fn record_allocation(&mut self, size: u64)
        requires
            old(self).current_allocated + size <= u64::MAX,
        ensures
            final(self).current_allocated == old(self).current_allocated + size,
            final(self).peak_allocated == if final(self).current_allocated
                > old(self).peak_allocated {
                final(self).current_allocated
            } else {
                old(self).peak_allocated
            },
            final(self).allocation_count == wrap_add(old(self).allocation_count, 1),
            final(self).deallocation_count == old(self).deallocation_count,
            final(self).max_memory == old(self).max_memory,
    {
        self.current_allocated = self.current_allocated + size;
        if self.current_allocated > self.peak_allocated {
            self.peak_allocated = self.current_allocated;
        }
        self.allocation_count = self.allocation_count.wrapping_add(1);
    }

    /// Records a deallocation of `size` bytes (the counter wraps as an
    /// atomic subtraction does).
    pub fn record_deallocation(&mut self, size: u64)
        ensures
            final(self).current_allocated == wrap_sub(old(self).current_allocated, size),
            final(self).deallocation_count == wrap_add(old(self).deallocation_count, 1),
            final(self).allocation_count == old(self).allocation_count,
            final(self).peak_allocated == old(self).peak_allocated,
            final(self).max_memory == old(self).max_memory,
    {
        self.current_allocated = self.current_allocated.wrapping_sub(size);
        self.deallocation_count = self.deallocation_count.wrapping_add(1);
    }

    /// Bytes currently handed out.
    pub fn total_allocated(&self) -> (n: u64)
        ensures
            n == self.current_allocated,
    {
        self.current_allocated
    }

    /// Bytes left under the ceiling (0 when over it).
    pub fn available_memory(&self) -> (n: u64)
        ensures
            n == if self.max_memory >= self.current_allocated {
                (self.max_memory - self.current_allocated) as u64
            } else {
                0
            },
    {
        self.max_memory.saturating_sub(self.current_allocated)
    }

    /// Highest allocation seen.
    pub fn peak_memory(&self) -> (n: u64)
        ensures
            n == self.peak_allocated,
    {
        self.peak_allocated
    }
}

/// An allocation and its release leave the allocated total as it was.
pub proof fn lemma_allocation_roundtrip(current: u64, size: u64)
    requires
        current + size <= u64::MAX,
    ensures
        wrap_sub((current + size) as u64, size) == current,
{
}

/// The peak never falls below what is allocated after an allocation.
pub proof fn lemma_peak_covers_current(current: u64, peak: u64, size: u64)
    requires
        current + size <= u64::MAX,
    ensures
        ({
            let c = current + size;
            let p = if c > peak { c } else { peak as int };
            p >= c && p >= peak
        }),
{
}

/// Whether `n` is a power of two.
pub open spec fn is_pow2(n: int) -> bool {
    exists|k: nat| pow2(k) == n
}

/// The block size for a request: the least power of two that holds it,
/// and at least 64.
pub open spec fn block_size_ok(size: int, b: int) -> bool {
    &&& b >= size
    &&& b >= 64
    &&& is_pow2(b)
    &&& (b == 64 || b / 2 < size)
}

/// The block size class of a request of `size` bytes.
pub fn calculate_block_size(size: usize) -> (b: usize)
    requires
        size as int <= (usize::MAX as int + 1) / 2,
    ensures
        block_size_ok(size as int, b as int),
{
    let mut block: usize = 1;
    let ghost mut k: nat = 0;
    proof {
        vstd::arithmetic::power2::lemma2_to64();
    }
    while block < size
        invariant
            block as int == pow2(k),
            size as int <= (usize::MAX as int + 1) / 2,
            block == 1 || block / 2 < size,
            block >= 1,
        decreases usize::MAX - block,
    {
        proof {
            lemma_pow2_adds(k, 1);
            vstd::arithmetic::power2::lemma2_to64();
        }
        block = block * 2;
        proof {
            k = k + 1;
        }
    }
    proof {
        assert(is_pow2(block as int));
    }
    if block < 64 {
        proof {
            vstd::arithmetic::power2::lemma2_to64();
            assert(pow2(6) == 64);
            assert(is_pow2(64));
        }
        64
    } else {
        block
    }
}

} // verus!
