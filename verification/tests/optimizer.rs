use docparse::error::AppError;
use docparse::optimizer::{CompressionManager, MemoryBlock, MemoryOptimizer};

#[test]
fn compression_round_trips() {
    let mut m = CompressionManager::new(true);
    let data = b"hello hello hello hello hello hello".to_vec();
    let c = m.compress(&data).unwrap();
    assert_ne!(c, data);
    assert_eq!(&c[..2], &[0x1f, 0x8b]);
    assert_eq!(m.decompress(&c).unwrap(), data);
    assert_eq!(m.stats.compressions, 1);
    assert_eq!(m.stats.decompressions, 1);
    assert_eq!(m.stats.total_original_size, data.len() as u64);
    assert!(matches!(m.decompress(b"not gzip"), Err(AppError::File(_))));
}

#[test]
fn disabled_compression_passes_data_through() {
    let mut m = CompressionManager::new(false);
    assert_eq!(m.compress(b"abc").unwrap(), b"abc".to_vec());
    assert_eq!(m.decompress(b"abc").unwrap(), b"abc".to_vec());
    assert_eq!(m.stats.compressions, 0);
}

#[test]
fn optimizer_serves_within_the_ceiling_and_reuses_blocks() {
    let mut o = MemoryOptimizer::new(4, 1000, false);
    let b = o.allocate(100).unwrap();
    assert_eq!(b.size(), 128);
    assert_eq!(o.monitor.total_allocated(), 100);
    match o.allocate(901) {
        Err(AppError::Config(m)) => {
            assert_eq!(m, "Memory limit exceeded: requested 901 bytes, available 900 bytes")
        }
        other => panic!("unexpected {:?}", other.map(|b| b.size())),
    }
    o.deallocate(b);
    // The request (100 bytes) was counted out and its size class (128) back in.
    assert_eq!(o.monitor.total_allocated(), 100u64.wrapping_sub(128));
    // Over the ceiling now, so even an empty request is refused.
    assert!(o.allocate(0).is_err());
    let reused = MemoryOptimizer::new(4, u64::MAX, false).allocate(70).unwrap();
    assert_eq!(reused.size(), 128);
    let mut o3 = MemoryOptimizer::new(4, 10_000, false);
    let c1 = o3.allocate(128).unwrap();
    let t1 = c1.allocated_at_ms;
    o3.deallocate(c1);
    let c2 = o3.allocate(128).unwrap();
    assert_eq!(c2.allocated_at_ms, t1);
    assert!(t1 > 0);
    let fresh = MemoryBlock::new(64);
    assert_eq!(fresh.data().len(), 0);
}
