use docparse::error::AppError;
use docparse::mineru::{
    check_markdown_output, choose_markdown_output, environment_wait_step, is_markdown_extension,
    mineru_help_verdict, parse_cancelled, phase_report, word_count, MinerUConfig, ParseStage,
    QualityLevel,
};

#[test]
fn test_mineru_config_default() {
    let config = MinerUConfig::default();
    // The platform of this build is told apart by the path separator.
    if std::path::MAIN_SEPARATOR == '\\' {
        assert_eq!(config.python_path, "./venv/Scripts/python.exe");
    } else {
        assert_eq!(config.python_path, "./venv/bin/python");
    }
    assert_eq!(config.backend, "pipeline");
    assert_eq!(config.timeout, 0);
    assert_eq!(config.quality_level, QualityLevel::Balanced);
    assert_eq!(config.device, "cpu");
}

#[test]
fn test_mineru_config_default_for_each_platform() {
    let win = MinerUConfig::default_for(true, false);
    assert_eq!(win.python_path, "./venv/Scripts/python.exe");
    assert_eq!(win.device, "cpu");
    let mac = MinerUConfig::default_for(false, true);
    assert_eq!(mac.python_path, "./venv/bin/python");
    assert_eq!(mac.device, "mps");
    assert_eq!(mac.max_concurrent, 3);
    assert_eq!(mac.queue_size, 100);
    assert_eq!(mac.batch_size, 1);
    assert_eq!(mac.vram, 0);
}

#[test]
fn test_effective_timeout_defaults_to_an_hour() {
    let mut c = MinerUConfig::default_for(false, false);
    assert_eq!(c.effective_timeout_secs(), 3600);
    c.timeout = 120;
    assert_eq!(c.effective_timeout_secs(), 120);
}

#[test]
fn test_quality_level_variants() {
    assert_eq!(QualityLevel::Fast, QualityLevel::Fast);
    assert_ne!(QualityLevel::Fast, QualityLevel::Balanced);
    assert_ne!(QualityLevel::Balanced, QualityLevel::HighQuality);
}

#[test]
fn test_parse_stage_variants() {
    let stages = vec![
        ParseStage::Initializing,
        ParseStage::PreProcessing,
        ParseStage::Parsing,
        ParseStage::PostProcessing,
        ParseStage::Finalizing,
        ParseStage::Completed,
        ParseStage::Failed,
        ParseStage::Cancelled,
    ];

    for stage in stages {
        let debug_str = format!("{stage:?}");
        assert!(!debug_str.is_empty());
    }
}

#[test]
fn largest_markdown_output_is_chosen() {
    assert_eq!(choose_markdown_output(&vec![10, 30, 20]).unwrap(), 1);
    assert_eq!(choose_markdown_output(&vec![30, 10, 30]).unwrap(), 2);
    match choose_markdown_output(&Vec::new()) {
        Err(AppError::MinerU(m)) => assert_eq!(m, "未找到Markdown输出文件"),
        other => panic!("unexpected {other:?}"),
    }
}

#[test]
fn markdown_output_checks() {
    assert!(is_markdown_extension("MD"));
    assert!(!is_markdown_extension("markdown"));
    assert!(check_markdown_output("# x").is_ok());
    match check_markdown_output(" \n\t ") {
        Err(AppError::MinerU(m)) => assert_eq!(m, "Markdown文件内容为空"),
        other => panic!("unexpected {other:?}"),
    }
}

#[test]
fn waiting_for_the_environment() {
    assert_eq!(environment_wait_step(&Ok(true), 999_999).unwrap(), true);
    assert_eq!(environment_wait_step(&Ok(false), 5_000).unwrap(), false);
    assert!(matches!(environment_wait_step(&Ok(false), 600_000), Err(AppError::MinerU(_))));
    assert_eq!(environment_wait_step(&Err("x".to_string()), 900_000).unwrap(), false);
    assert!(mineru_help_verdict(None, true, "").is_ok());
    match mineru_help_verdict(None, false, "boom") {
        Err(AppError::MinerU(m)) => {
            assert_eq!(m, "MinerU命令不可用: boom. 请运行 'pip install magic-pdf[full]' 安装MinerU")
        }
        other => panic!("unexpected {other:?}"),
    }
    assert!(matches!(mineru_help_verdict(Some("no such file"), false, ""), Err(AppError::MinerU(_))));
}

#[test]
fn phase_reports_and_word_count() {
    assert_eq!(phase_report(ParseStage::Initializing), Some((0, "初始化解析环境")));
    assert_eq!(phase_report(ParseStage::Parsing), Some((20, "正在解析PDF文档")));
    assert_eq!(phase_report(ParseStage::Finalizing), Some((95, "生成最终结果")));
    assert_eq!(phase_report(ParseStage::Completed), None);
    assert_eq!(word_count("  one two\tthree\n  "), 3);
    assert_eq!(word_count(""), 0);
    assert_eq!(word_count("词 语"), 2);
    match parse_cancelled() {
        AppError::MinerU(m) => assert_eq!(m, "解析已取消"),
        other => panic!("unexpected {other:?}"),
    }
}
