use docparse::error::AppError;
use docparse::formats::{
    DocumentFormat, FormatDetector, ParserFactory, SecurityConfig, SecurityStatus,
};
use docparse::memory::{calculate_block_size, MemoryMonitor};
use docparse::pool::MemoryPool;
use docparse::resources::{
    predict_from_recent, trim_history, ResourceLimits, ResourceRequirement, ResourceUsage,
    HISTORY_LIMIT,
};
use docparse::sections::{DocumentStructure, MarkdownProcessor, TocItem};
use docparse::task_state::ParserEngine;

fn detector(limit: u64) -> FormatDetector {
    FormatDetector::new(SecurityConfig::with_size_limit(limit))
}

#[test]
fn pdf_goes_to_mineru_and_the_rest_to_markitdown() {
    assert_eq!(ParserFactory::get_parser_for_format(&DocumentFormat::PDF), ParserEngine::MinerU);
    assert_eq!(
        ParserFactory::get_parser_for_format(&DocumentFormat::Word),
        ParserEngine::MarkItDown
    );
    assert_eq!(
        ParserFactory::get_parser_for_format(&DocumentFormat::Other("xyz".to_string())),
        ParserEngine::MarkItDown
    );
    assert!(ParserFactory::is_format_supported(&DocumentFormat::Md));
}

#[test]
fn dangerous_extensions_are_compared_in_lower_case() {
    let d = detector(1024);
    match d.assess_security_status_for_extension(&DocumentFormat::PDF, Some("EXE")) {
        SecurityStatus::Dangerous(m) => assert_eq!(m, "危险文件扩展名: EXE"),
        other => panic!("unexpected {other:?}"),
    }
    assert!(matches!(
        d.assess_security_status_for_extension(&DocumentFormat::PDF, Some("pdf")),
        SecurityStatus::Safe
    ));
    match d.assess_security_status_for_extension(&DocumentFormat::HTML, None) {
        SecurityStatus::Suspicious(m) => assert_eq!(m, "HTML文件可能包含脚本"),
        other => panic!("unexpected {other:?}"),
    }
    assert!(matches!(
        d.assess_security_status_for_extension(&DocumentFormat::Other("x".to_string()), None),
        SecurityStatus::Unknown
    ));
}

#[test]
fn file_security_checks_extension_name_and_size() {
    let d = detector(100);
    assert!(d.validate_file_security_with(Some("pdf"), Some("a.pdf"), Some(50)).is_ok());
    match d.validate_file_security_with(Some("pdf"), Some("a.pdf"), Some(150)) {
        Err(AppError::Validation(m)) => {
            assert_eq!(m, "文件大小超过限制: 150 bytes (最大: 100 bytes)")
        }
        other => panic!("unexpected {other:?}"),
    }
    match d.validate_file_security_with(Some("pdf"), Some("..a.pdf"), None) {
        Err(AppError::Validation(m)) => assert_eq!(m, "文件名包含危险字符: ..a.pdf"),
        other => panic!("unexpected {other:?}"),
    }
    match d.validate_file_security("/tmp/run.Bat", Some(1)) {
        Err(AppError::Validation(m)) => assert_eq!(m, "危险文件扩展名: Bat"),
        other => panic!("unexpected {other:?}"),
    }
    match d.assess_security_status(&DocumentFormat::Text, "/tmp/notes.JS") {
        SecurityStatus::Dangerous(m) => assert_eq!(m, "危险文件扩展名: JS"),
        other => panic!("unexpected {other:?}"),
    }
    assert!(d.validate_file_security("/tmp/report.pdf", Some(10)).is_ok());
}

#[test]
fn cache_key_is_prefixed_sha256_hex() {
    let p = MarkdownProcessor;
    assert_eq!(
        p.generate_cache_key("hello"),
        "md_2cf24dba5fb0a30e26e83b2ac5b9e29e1b161e5c1fa7425e73043362938b9824"
    );
    assert_eq!(p.generate_cache_key("hello"), p.generate_cache_key("hello"));
    assert_ne!(p.generate_cache_key("hello"), p.generate_cache_key("hello!"));
}

#[test]
fn content_by_title_runs_to_the_next_heading() {
    let p = MarkdownProcessor;
    let doc = "# A\nintro\n## B\nline1\nline2\n## C\nlast";
    assert_eq!(p.extract_content_by_title(doc, "B", 2), "line1\nline2");
    assert_eq!(p.extract_content_by_title(doc, "Z", 2), "Content for: Z");
    let item = TocItem {
        id: "b".to_string(),
        title: "B".to_string(),
        level: 2,
        start_pos: 3,
        end_pos: 5,
    };
    assert_eq!(p.extract_section_content(doc, &item), "line1\nline2");
}

#[test]
fn context_is_marked_with_ellipses() {
    let p = MarkdownProcessor;
    assert_eq!(p.extract_context("abc", 1, 1), "abc...");
    let long: String = "x".repeat(60) + "HIT" + &"y".repeat(60);
    let ctx = p.extract_context(&long, 60, 3);
    assert!(ctx.starts_with("..."));
    assert!(ctx.ends_with("..."));
    assert_eq!(ctx.chars().count(), 3 + 50 + 3 + 50 + 3);
}

#[test]
fn block_sizes_are_powers_of_two_from_64() {
    assert_eq!(calculate_block_size(0), 64);
    assert_eq!(calculate_block_size(64), 64);
    assert_eq!(calculate_block_size(65), 128);
    assert_eq!(calculate_block_size(1000), 1024);
    assert_eq!(calculate_block_size(4096), 4096);
}

#[test]
fn monitor_tracks_peak_and_ceiling() {
    let mut m = MemoryMonitor::new(100);
    assert!(m.can_allocate(100));
    assert!(!m.can_allocate(101));
    m.record_allocation(60);
    m.record_allocation(30);
    m.record_deallocation(50);
    assert_eq!(m.total_allocated(), 40);
    assert_eq!(m.peak_memory(), 90);
    assert_eq!(m.available_memory(), 60);
}

#[test]
fn pool_reuses_returned_blocks() {
    let mut pool: MemoryPool<Vec<u8>> = MemoryPool::new(2);
    let (size, block) = pool.allocate(100);
    assert_eq!(size, 128);
    assert!(block.is_none());
    assert!(pool.deallocate(128, vec![1u8; 128]));
    assert!(pool.deallocate(128, vec![2u8; 128]));
    assert!(!pool.deallocate(128, vec![3u8; 128]));
    let (size, block) = pool.allocate(120);
    assert_eq!(size, 128);
    assert_eq!(block.unwrap()[0], 1);
    let usage = pool.usage();
    assert_eq!(usage.total_pools, 1);
    assert_eq!(usage.total_blocks, 1);
    assert_eq!(usage.total_memory, 128);
}

#[test]
fn acquire_then_release_restores_usage() {
    let limits = ResourceLimits {
        max_memory_usage: 1000,
        max_disk_usage: 0,
        max_network_bandwidth: 0,
        max_connections: 2,
        max_file_descriptors: 10,
    };
    let req = ResourceRequirement { memory: 600, connections: 1, file_descriptors: 3 };
    let mut u = ResourceUsage::default();
    assert!(u.acquire(&req, &limits).is_ok());
    assert_eq!(u.memory_usage, 600);
    match u.acquire(&req, &limits) {
        Err(AppError::Config(m)) => assert_eq!(m, "Resource limit exceeded"),
        other => panic!("unexpected {other:?}"),
    }
    assert_eq!(u.memory_usage, 600);
    u.release(&req);
    assert_eq!(u.memory_usage, 0);
    assert_eq!(u.connection_count, 0);
    assert_eq!(u.file_descriptor_count, 0);
    u.release(&req);
    assert_eq!(u.memory_usage, 0);
    assert!(u.check_limits(&limits).is_ok());
}

#[test]
fn histories_keep_the_newest_points() {
    let mut h: Vec<u32> = (0..10).collect();
    trim_history(&mut h, 4);
    assert_eq!(h, vec![6, 7, 8, 9]);
    trim_history(&mut h, 10);
    assert_eq!(h, vec![6, 7, 8, 9]);
    let mut big: Vec<u8> = vec![0; HISTORY_LIMIT + 5];
    trim_history(&mut big, HISTORY_LIMIT);
    assert_eq!(big.len(), 1440);
}

#[test]
fn predictions_average_the_last_ten() {
    assert_eq!(predict_from_recent(&Vec::new()), 0);
    assert_eq!(predict_from_recent(&vec![10, 20]), 15);
    let v: Vec<u64> = (1..=20).collect();
    assert_eq!(predict_from_recent(&v), 15);
}

#[test]
fn section_content_is_looked_up_by_id() {
    let p = MarkdownProcessor;
    let doc = DocumentStructure {
        title: "T".to_string(),
        toc: Vec::new(),
        sections: vec![
            ("s1".to_string(), "first".to_string()),
            ("s2".to_string(), "second".to_string()),
        ],
    };
    assert_eq!(p.get_section_content(&doc, "s2"), Some("second".to_string()));
    assert_eq!(p.get_section_content(&doc, "s1"), Some("first".to_string()));
    assert_eq!(p.get_section_content(&doc, "s3"), None);
}
