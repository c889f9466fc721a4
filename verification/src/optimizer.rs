//! The memory optimizer: blocks served from the pool within the memory
//! ceiling, and gzip compression of buffers with its statistics.

use vstd::prelude::*;
use vstd::slice::slice_to_vec;
use std::io::{Read, Write};
use crate::env_status::now_unix_millis;
use crate::error::AppError;
use crate::memory::{block_size_ok, wrap_add, CompressionStatsData, MemoryMonitor};
use crate::pool::{blocks_of, MemoryPool};
use crate::text::{push_decimal, push_str, decimal};

verus! {

/// What `flate2::write::GzEncoder` writes for some bytes at the default
/// level, with the default header; `None` where it fails.
pub uninterp spec fn gzip_bytes(data: Seq<u8>) -> Option<Seq<u8>>;

/// Compresses bytes in memory with `flate2::write::GzEncoder` at the
/// default level; an error carries the encoder's message.
#[verifier::external_body]
fn gzip_compress(data: &[u8]) -> (r: Result<Vec<u8>, String>)
    ensures
        match r {
            Ok(c) => gzip_bytes(data@) == Some(c@),
            Err(_) => gzip_bytes(data@) is None,
        },
{
    let mut e = flate2::write::GzEncoder::new(Vec::new(), flate2::Compression::default());
    e.write_all(data).map_err(|e| e.to_string())?;
    e.finish().map_err(|e| e.to_string())
}

/// What `flate2::read::GzDecoder` reads to the end from some bytes;
/// `None` where reading fails.
pub uninterp spec fn gzip_decoded(data: Seq<u8>) -> Option<Seq<u8>>;

/// Decompresses a gzip stream with `flate2::read::GzDecoder`, reading it
/// to the end. The stream the encoder wrote for some bytes gives those
/// bytes back (gzip is lossless).
#[verifier::external_body]
fn gzip_decompress(data: &[u8]) -> (r: Result<Vec<u8>, String>)
    ensures
        match r {
            Ok(d) => gzip_decoded(data@) == Some(d@),
            Err(_) => gzip_decoded(data@) is None,
        },
        r is Ok || !(exists|x: Seq<u8>| #[trigger] gzip_bytes(x) == Some(data@)),
        r matches Ok(d) ==> forall|x: Seq<u8>| #[trigger] gzip_bytes(x) == Some(data@) ==> d@ == x,
{
    let mut d = flate2::read::GzDecoder::new(data);
    let mut out = Vec::new();
    d.read_to_end(&mut out).map_err(|e| e.to_string())?;
    Ok(out)
}

/// A block of memory handed out by the optimizer.
#[derive(Debug)]
pub struct MemoryBlock {
    pub data: Vec<u8>,
    pub size: usize,
    pub allocated_at_ms: u64,
}

impl MemoryBlock {
    /// A fresh block of `size` bytes of capacity, stamped with the time.
    pub fn new(size: usize) -> (b: Self)
        ensures
            b.size == size && b.data@.len() == 0,
    {
        MemoryBlock { data: Vec::with_capacity(size), size, allocated_at_ms: now_unix_millis() }
    }

    /// Its size class.
    pub fn size(&self) -> (s: usize)
        ensures
            s == self.size,
    {
        self.size
    }

    /// Its bytes.
    pub fn data(&self) -> (d: &[u8])
        ensures
            d@ == self.data@,
    {
        self.data.as_slice()
    }
}

/// Running totals of compression work; times in milliseconds.
#[derive(Debug, Clone, Copy)]
pub struct CompressionStats {
    pub compressions: u64,
    pub decompressions: u64,
    pub total_original_size: u64,
    pub total_compressed_size: u64,
    pub total_compression_time_ms: u64,
    pub total_decompression_time_ms: u64,
}

impl CompressionStats {
    /// All totals at zero.
    pub fn new() -> (s: Self)
        ensures
            s.compressions == 0 && s.decompressions == 0 && s.total_original_size == 0,
            s.total_compressed_size == 0 && s.total_compression_time_ms == 0,
            s.total_decompression_time_ms == 0,
    {
        CompressionStats {
            compressions: 0,
            decompressions: 0,
            total_original_size: 0,
            total_compressed_size: 0,
            total_compression_time_ms: 0,
            total_decompression_time_ms: 0,
        }
    }

    /// Counts a compression of `original` bytes into `compressed` bytes
    /// (the counters wrap as atomic counters do).
    pub fn record_compression(&mut self, original: u64, compressed: u64, time_ms: u64)
        ensures
            final(self).compressions == wrap_add(old(self).compressions, 1),
            final(self).total_original_size == wrap_add(old(self).total_original_size, original),
            final(self).total_compressed_size == wrap_add(
                old(self).total_compressed_size,
                compressed,
            ),
            final(self).total_compression_time_ms == wrap_add(
                old(self).total_compression_time_ms,
                time_ms,
            ),
            final(self).decompressions == old(self).decompressions,
            final(self).total_decompression_time_ms == old(self).total_decompression_time_ms,
    {
        self.compressions = self.compressions.wrapping_add(1);
        self.total_original_size = self.total_original_size.wrapping_add(original);
        self.total_compressed_size = self.total_compressed_size.wrapping_add(compressed);
        self.total_compression_time_ms = self.total_compression_time_ms.wrapping_add(time_ms);
    }

    /// Counts a decompression.
    pub fn record_decompression(&mut self, time_ms: u64)
        ensures
            final(self).decompressions == wrap_add(old(self).decompressions, 1),
            final(self).total_decompression_time_ms == wrap_add(
                old(self).total_decompression_time_ms,
                time_ms,
            ),
            final(self).compressions == old(self).compressions,
            final(self).total_original_size == old(self).total_original_size,
            final(self).total_compressed_size == old(self).total_compressed_size,
            final(self).total_compression_time_ms == old(self).total_compression_time_ms,
    {
        self.decompressions = self.decompressions.wrapping_add(1);
        self.total_decompression_time_ms = self.total_decompression_time_ms.wrapping_add(time_ms);
    }

    /// The totals as reported, with mean times per operation.
    pub fn snapshot(&self) -> (d: CompressionStatsData)
        ensures
            d.compressions == self.compressions && d.decompressions == self.decompressions,
            d.total_original_size == self.total_original_size,
            d.total_compressed_size == self.total_compressed_size,
            d.average_compression_time_ms == if self.compressions == 0 {
                0
            } else {
                self.total_compression_time_ms / self.compressions
            },
            d.average_decompression_time_ms == if self.decompressions == 0 {
                0
            } else {
                self.total_decompression_time_ms / self.decompressions
            },
    {
        CompressionStatsData {
            compressions: self.compressions,
            decompressions: self.decompressions,
            total_original_size: self.total_original_size,
            total_compressed_size: self.total_compressed_size,
            average_compression_time_ms: if self.compressions == 0 {
                0
            } else {
                self.total_compression_time_ms / self.compressions
            },
            average_decompression_time_ms: if self.decompressions == 0 {
                0
            } else {
                self.total_decompression_time_ms / self.decompressions
            },
        }
    }
}

fn elapsed_since(start_ms: u64) -> u64 {
    now_unix_millis().saturating_sub(start_ms)
}

/// Gzip compression of buffers, when enabled, with its statistics.
#[derive(Debug, Clone, Copy)]
pub struct CompressionManager {
    pub enabled: bool,
    pub stats: CompressionStats,
}

impl CompressionManager {
    /// A manager with zeroed statistics.
    pub fn new(enabled: bool) -> (m: Self)
        ensures
            m.enabled == enabled && m.stats == CompressionStats::new_spec(),
    {
        CompressionManager { enabled, stats: CompressionStats::new() }
    }

    /// Compresses `data` with gzip when enabled (else hands it back as it
    /// is) and counts the work; an encoder failure is a configuration
    /// error.
    pub fn compress(&mut self, data: &[u8]) -> (r: Result<Vec<u8>, AppError>)
        ensures
            !old(self).enabled ==> (r matches Ok(c) && c@ == data@),
            old(self).enabled ==> match gzip_bytes(data@) {
                Some(z) => r matches Ok(c) && c@ == z,
                None => r matches Err(e) && e is Config,
            },
            final(self).enabled == old(self).enabled,
            old(self).enabled && r is Ok ==> final(self).stats.compressions == wrap_add(
                old(self).stats.compressions,
                1,
            ),
    {
        if !self.enabled {
            return Ok(slice_to_vec(data));
        }
        let start = now_unix_millis();
        match gzip_compress(data) {
            Ok(c) => {
                let t = elapsed_since(start);
                self.stats.record_compression(data.len() as u64, c.len() as u64, t);
                Ok(c)
            },
            Err(m) => {
                let mut msg = String::from_str("Compression error: ");
                push_str(&mut msg, m.as_str());
                Err(AppError::Config(msg))
            },
        }
    }

    /// Decompresses `data` when enabled (else hands it back as it is):
    /// what [`CompressionManager::compress`] made of some bytes gives those
    /// bytes back. A decoder failure is a file error.
    pub fn decompress(&mut self, data: &[u8]) -> (r: Result<Vec<u8>, AppError>)
        ensures
            !old(self).enabled ==> (r matches Ok(d) && d@ == data@),
            old(self).enabled ==> match gzip_decoded(data@) {
                Some(x) => r matches Ok(d) && d@ == x,
                None => r matches Err(e) && e is File,
            },
            old(self).enabled ==> forall|x: Seq<u8>| #[trigger] gzip_bytes(x) == Some(data@) ==> (r matches Ok(
                d,
            ) && d@ == x),
            r matches Err(e) ==> e is File,
            final(self).enabled == old(self).enabled,
    {
        if !self.enabled {
            return Ok(slice_to_vec(data));
        }
        let start = now_unix_millis();
        match gzip_decompress(data) {
            Ok(d) => {
                let t = elapsed_since(start);
                self.stats.record_decompression(t);
                Ok(d)
            },
            Err(m) => Err(AppError::File(m)),
        }
    }
}

impl CompressionStats {
    /// All totals at zero.
    pub open spec fn new_spec() -> Self {
        CompressionStats {
            compressions: 0,
            decompressions: 0,
            total_original_size: 0,
            total_compressed_size: 0,
            total_compression_time_ms: 0,
            total_decompression_time_ms: 0,
        }
    }
}

/// Serves memory blocks from a pool of freed ones within a ceiling on the
/// bytes handed out, and compresses buffers when enabled.
pub struct MemoryOptimizer {
    pub monitor: MemoryMonitor,
    pub pool: MemoryPool<MemoryBlock>,
    pub compression: CompressionManager,
}

/// The message of a refused allocation.
pub open spec fn limit_message(size: usize, available: u64) -> Seq<char> {
    "Memory limit exceeded: requested "@ + decimal(size as nat) + " bytes, available "@ + decimal(
        available as nat,
    ) + " bytes"@
}

/// Every freed block kept in the pool sits in the class of its own size.
pub open spec fn blocks_sized(m: Map<usize, Seq<MemoryBlock>>) -> bool {
    forall|k: usize, i: int|
        m.dom().contains(k) && 0 <= i < m[k].len() ==> (#[trigger] m[k][i]).size == k
}

impl MemoryOptimizer {
    /// The optimizer's pool holds each block in the class of its size.
    pub open spec fn wf(&self) -> bool {
        blocks_sized(self.pool.view())
    }

    /// An optimizer with an empty pool of at most `pool_size` blocks per
    /// size, the given ceiling, and compression on or off.
    pub fn new(pool_size: usize, max_memory_usage: u64, enable_compression: bool) -> (o: Self)
        ensures
            o.wf(),
            o.monitor.max_memory == max_memory_usage && o.monitor.current_allocated == 0,
            o.pool.view() == Map::<usize, Seq<MemoryBlock>>::empty(),
            o.pool.capacity() == pool_size,
            o.compression.enabled == enable_compression,
    {
        MemoryOptimizer {
            monitor: MemoryMonitor::new(max_memory_usage),
            pool: MemoryPool::new(pool_size),
            compression: CompressionManager::new(enable_compression),
        }
    }

    /// Hands out a block for `size` bytes when they fit under the ceiling
    /// (after halving the pools when they do not, which frees no counted
    /// bytes): a freed block of the size class when the pool has one, else
    /// a new one. The bytes requested are counted as handed out. Requests
    /// beyond a quarter of the address space are left out: their size
    /// class would exceed what a buffer can hold.
    pub fn allocate(&mut self, size: usize) -> (r: Result<MemoryBlock, AppError>)
        requires
            old(self).wf(),
            size as int <= (usize::MAX as int + 1) / 4,
        ensures
            final(self).wf(),
            old(self).monitor.current_allocated + size <= old(self).monitor.max_memory <==> r is Ok,
            r matches Ok(b) ==> {
                &&& block_size_ok(size as int, b.size as int)
                &&& final(self).monitor.current_allocated == old(self).monitor.current_allocated
                    + size
            },
            r matches Err(e) ==> e is Config && e.message() == limit_message(
                size,
                if old(self).monitor.max_memory >= old(self).monitor.current_allocated {
                    (old(self).monitor.max_memory - old(self).monitor.current_allocated) as u64
                } else {
                    0
                },
            ),
            final(self).monitor.max_memory == old(self).monitor.max_memory,
    {
        let need = size as u64;
        if !self.monitor.can_allocate(need) {
            self.pool.cleanup();
            proof {
                let m0 = old(self).pool.view();
                let m1 = self.pool.view();
                assert forall|k: usize, i: int|
                    m1.dom().contains(k) && 0 <= i < m1[k].len() implies (#[trigger] m1[k][i]).size
                    == k by {
                    assert(m1[k] == m0[k].take((m0[k].len() / 2) as int));
                    assert(m1[k][i] == m0[k][i]);
                }
            }
            if !self.monitor.can_allocate(need) {
                let mut m = String::from_str("Memory limit exceeded: requested ");
                push_decimal(&mut m, need);
                push_str(&mut m, " bytes, available ");
                push_decimal(&mut m, self.monitor.available_memory());
                push_str(&mut m, " bytes");
                return Err(AppError::Config(m));
            }
        }
        let ghost before = self.pool.view();
        let (block_size, reused) = self.pool.allocate(size);
        proof {
            let after = self.pool.view();
            if blocks_of(before, block_size).len() > 0 {
                assert(before.dom().contains(block_size));
                assert(blocks_of(before, block_size)[0].size == block_size);
                assert forall|k: usize, i: int|
                    after.dom().contains(k) && 0 <= i < after[k].len() implies (
                    #[trigger] after[k][i]).size == k by {
                    if k == block_size {
                        assert(after[k][i] == before[k][i + 1]);
                    }
                }
            }
        }
        let block = match reused {
            Some(b) => b,
            None => MemoryBlock::new(block_size),
        };
        self.monitor.record_allocation(need);
        Ok(block)
    }

    /// Takes a block back: into its size class when that holds fewer than
    /// the pool's capacity, else dropped; its size is counted as freed.
    pub fn deallocate(&mut self, block: MemoryBlock)
        requires
            old(self).wf(),
        ensures
            final(self).wf(),
            final(self).monitor.current_allocated == crate::memory::wrap_sub(
                old(self).monitor.current_allocated,
                block.size as u64,
            ),
            final(self).monitor.max_memory == old(self).monitor.max_memory,
    {
        let size = block.size;
        let ghost before = self.pool.view();
        let ghost b = block;
        let kept = self.pool.deallocate(size, block);
        proof {
            let after = self.pool.view();
            assert forall|k: usize, i: int|
                after.dom().contains(k) && 0 <= i < after[k].len() implies (
                #[trigger] after[k][i]).size == k by {
                if k == size {
                    if kept && i == blocks_of(before, size).len() {
                        assert(after[k][i] == b);
                    } else {
                        assert(after[k][i] == blocks_of(before, size)[i]);
                        assert(before.dom().contains(k));
                    }
                }
            }
        }
        self.monitor.record_deallocation(size as u64);
    }

    /// Compresses a buffer (see [`CompressionManager::compress`]).
    pub fn compress(&mut self, data: &[u8]) -> (r: Result<Vec<u8>, AppError>)
        ensures
            !old(self).compression.enabled ==> (r matches Ok(c) && c@ == data@),
            old(self).compression.enabled ==> match gzip_bytes(data@) {
                Some(z) => r matches Ok(c) && c@ == z,
                None => r matches Err(e) && e is Config,
            },
    {
        self.compression.compress(data)
    }

    /// Decompresses a buffer (see [`CompressionManager::decompress`]).
    pub fn decompress(&mut self, data: &[u8]) -> (r: Result<Vec<u8>, AppError>)
        ensures
            !old(self).compression.enabled ==> (r matches Ok(d) && d@ == data@),
            old(self).compression.enabled ==> forall|x: Seq<u8>| #[trigger] gzip_bytes(x) == Some(data@)
                ==> (r matches Ok(d) && d@ == x),
    {
        self.compression.decompress(data)
    }
}

} // verus!
