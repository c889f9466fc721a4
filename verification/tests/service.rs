use docparse::formats::{DocumentFormat, DocumentParser};
use docparse::mineru::{MinerUConfig, MinerUParser};
use docparse::service::{
    choose_binary, service_install_plan, DocumentParserSettings, DocumentServiceConfig,
    InstallParams, TempFileGuard,
};
use docparse::shutdown::{DatabaseShutdownHandler, HttpServerShutdownHandler, ShutdownHandler};

#[test]
fn service_config_from_settings() {
    let c = DocumentServiceConfig::from_app_config(&DocumentParserSettings {
        max_concurrent: 4,
        processing_timeout: 1800,
        download_timeout: 30,
    });
    assert_eq!(c.max_concurrent_tasks, 4);
    assert_eq!(c.task_timeout_ms, 1_800_000);
    assert_eq!(c.download_timeout_ms, 30_000);
    assert!(c.enable_cache);
    let d = DocumentServiceConfig::default();
    assert_eq!(d.max_concurrent_tasks, 10);
    assert_eq!(d.task_timeout_ms, 3_600_000);
}

#[test]
fn temp_file_guard_keeps_its_path() {
    let g = TempFileGuard::new("/tmp/x.pdf".to_string());
    assert_eq!(g.path(), "/tmp/x.pdf");
}

#[test]
fn binary_choice_and_install_plan() {
    assert_eq!(choose_binary("/opt/d/document-parser", true, false, None).unwrap(), "/opt/d/document-parser");
    assert_eq!(
        choose_binary("/opt/d/document-parser", false, true, Some("/usr/bin/x".to_string())).unwrap(),
        "/usr/bin/x"
    );
    let err = choose_binary("/opt/d/document-parser", false, false, None).unwrap_err();
    assert_eq!(
        err,
        "binary not found at /opt/d/document-parser — copy the release binary into install_dir before install"
    );

    let params = InstallParams {
        install_dir: "/opt/d".to_string(),
        user: None,
        no_start: true,
        dry_run: true,
    };
    let plan = service_install_plan(&params, "/opt/d/config.yml", false, "/bin/dp", "/opt/d/.env", 8087);
    assert_eq!(plan.exec_start, vec!["/bin/dp", "--config", "/opt/d/config.yml", "server"]);
    assert!(plan.required_paths.is_empty());
    assert!(!plan.start);
    assert!(plan.dry_run);
    assert_eq!(plan.listen_port, 8087);
    let real = InstallParams { dry_run: false, no_start: false, ..params };
    let plan = service_install_plan(&real, "/opt/d/config.yml", false, "/bin/dp", "/opt/d/.env", 80);
    assert_eq!(plan.required_paths, vec!["/opt/d/config.yml", "/bin/dp", "/opt/d/.env"]);
    assert!(plan.start && plan.enable);
    assert_eq!(plan.kill_signal, "SIGINT");
    assert_eq!(plan.timeout_stop_sec, 60);
}

#[test]
fn mineru_parser_takes_pdf_only() {
    let config = MinerUConfig::default_for(false, false);
    let parser = MinerUParser::new(config.clone());
    assert_eq!(parser.config().python_path, config.python_path);
    assert!(parser.supports_format(&DocumentFormat::PDF));
    assert!(!parser.supports_format(&DocumentFormat::Word));
    assert_eq!(parser.get_name(), "MinerU");
    assert!(!parser.get_description().is_empty());
}

#[test]
fn shutdown_handlers_name_and_priority() {
    let db = DatabaseShutdownHandler::new();
    let http = HttpServerShutdownHandler::new();
    assert_eq!(db.name(), "database");
    assert_eq!(db.priority(), 50);
    assert_eq!(http.name(), "http_server");
    assert_eq!(http.priority(), 5);
}
