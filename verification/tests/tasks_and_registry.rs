use docparse::cancel_registry::CancelRegistry;
use docparse::error::AppError;
use docparse::shutdown::{get_ordered_handlers, shutdown_verdict, ShutdownFlag};
use docparse::task_state::{
    abort_status, plan_task_processing, task_not_found, SourceType, TaskAction,
    is_terminal, stage_update_allowed, status_update_allowed, ParserEngine, ProcessingStage,
    StatusKind, TaskError, TaskRecord, TaskStats, TaskStatus,
};

fn failed(code: &str) -> TaskStatus {
    TaskStatus::Failed {
        error: TaskError {
            error_code: code.to_string(),
            error_message: "boom".to_string(),
            stage: Some(ProcessingStage::Converting),
        },
        retry_count: 0,
    }
}

#[test]
fn registry_roundtrip_register_request_unregister() {
    let mut reg: CancelRegistry<u32> = CancelRegistry::new();
    reg.clear_for_test();
    reg.register("task-1", 7);
    assert_eq!(reg.active_count(), 1);
    assert_eq!(reg.get("task-1"), Some(&7));
    assert_eq!(reg.get("nope"), None);
    reg.unregister("task-1");
    assert_eq!(reg.active_count(), 0);
    assert_eq!(reg.get("task-1"), None);
}

#[test]
fn registry_register_twice_keeps_the_latest() {
    let mut reg: CancelRegistry<u32> = CancelRegistry::new();
    reg.register("a", 1);
    reg.register("b", 2);
    reg.register("a", 3);
    assert_eq!(reg.active_count(), 2);
    assert_eq!(reg.get("a"), Some(&3));
    reg.clear_for_test();
    assert_eq!(reg.active_count(), 0);
}

#[test]
fn set_task_error_does_not_overwrite_cancelled() {
    let cancelled = TaskStatus::Cancelled { reason: Some("user".to_string()) };
    assert!(!status_update_allowed(&cancelled, &failed("E")));
    assert!(!status_update_allowed(&cancelled, &TaskStatus::Completed { processing_time_ms: 5 }));
    assert!(is_terminal(&cancelled));
}

#[test]
fn terminal_states_accept_no_stage_update() {
    assert!(!stage_update_allowed(&TaskStatus::Completed { processing_time_ms: 1 }));
    assert!(stage_update_allowed(&failed("E")));
    assert!(stage_update_allowed(&TaskStatus::Pending));
    assert!(stage_update_allowed(&TaskStatus::Processing {
        stage: ProcessingStage::FormatDetection
    }));
    assert!(status_update_allowed(&TaskStatus::Pending, &failed("E")));
}

#[test]
fn status_kind_and_current_stage() {
    let p = TaskStatus::Processing { stage: ProcessingStage::UploadingImages };
    assert_eq!(p.kind(), StatusKind::Processing);
    assert_eq!(p.get_current_stage(), Some(ProcessingStage::UploadingImages));
    assert_eq!(failed("E").get_current_stage(), Some(ProcessingStage::Converting));
    assert_eq!(TaskStatus::Pending.get_current_stage(), None);
}

#[test]
fn task_stats_count_and_average() {
    let tasks = vec![
        TaskRecord {
            id: "a".to_string(),
            status: TaskStatus::Completed { processing_time_ms: 100 },
            parser_engine: Some(ParserEngine::MinerU),
            document_format: None,
            created_at_ms: 0,
        },
        TaskRecord {
            id: "b".to_string(),
            status: TaskStatus::Completed { processing_time_ms: 301 },
            parser_engine: Some(ParserEngine::MarkItDown),
            document_format: None,
            created_at_ms: 0,
        },
        TaskRecord {
            id: "c".to_string(),
            status: failed("X1"),
            parser_engine: None,
            document_format: None,
            created_at_ms: 0,
        },
        TaskRecord {
            id: "d".to_string(),
            status: TaskStatus::Pending,
            parser_engine: None,
            document_format: None,
            created_at_ms: 0,
        },
    ];
    let st = TaskStats::from_tasks(&tasks);
    assert_eq!(st.total_count, 4);
    assert_eq!(st.completed_count, 2);
    assert_eq!(st.failed_count, 1);
    assert_eq!(st.pending_count, 1);
    assert_eq!(st.processing_count, 0);
    assert_eq!(st.cancelled_count, 0);
    assert_eq!(st.mineru_count, 1);
    assert_eq!(st.markitdown_count, 1);
    assert_eq!(st.completed_ids, vec!["a".to_string(), "b".to_string()]);
    assert_eq!(st.failed_details.len(), 1);
    assert_eq!(st.failed_details[0].error_code, "X1");
    assert_eq!(st.average_processing_time_ms, Some(200));
    let empty = TaskStats::from_tasks(&Vec::new());
    assert_eq!(empty.average_processing_time_ms, None);
}

#[test]
fn shutdown_handlers_run_in_priority_order() {
    let handlers = vec![
        ("cache".to_string(), 100),
        ("database".to_string(), 50),
        ("http_server".to_string(), 5),
        ("metrics".to_string(), 100),
        ("urgent".to_string(), 1),
        ("resource_cleaner".to_string(), 90),
        ("app_state".to_string(), 10),
    ];
    assert_eq!(
        get_ordered_handlers(&handlers),
        vec![
            "urgent".to_string(),
            "http_server".to_string(),
            "app_state".to_string(),
            "database".to_string(),
            "resource_cleaner".to_string(),
            "cache".to_string(),
            "metrics".to_string()
        ]
    );
    assert!(get_ordered_handlers(&Vec::new()).is_empty());
}

#[test]
fn shutdown_verdict_names_failed_handlers() {
    assert!(shutdown_verdict(&vec![("a".to_string(), true)]).is_ok());
    match shutdown_verdict(&vec![
        ("a".to_string(), false),
        ("b".to_string(), true),
        ("c".to_string(), false),
    ]) {
        Err(AppError::Config(m)) => assert_eq!(m, "Shutdown handlers failed: [\"a\", \"c\"]"),
        other => panic!("unexpected {other:?}"),
    }
}

#[test]
fn shutdown_flag_is_set_once() {
    let mut f = ShutdownFlag { is_shutting_down: false };
    assert!(!f.begin());
    assert!(f.begin());
    assert!(f.is_shutting_down);
}

#[test]
fn aborted_tasks_fail_with_e010_in_their_stage() {
    let running = TaskStatus::Processing { stage: ProcessingStage::UploadingImages };
    match abort_status(&running, 2, "stopped") {
        TaskStatus::Failed { error, retry_count } => {
            assert_eq!(error.error_code, "E010");
            assert_eq!(error.error_message, "stopped");
            assert_eq!(error.stage, Some(ProcessingStage::UploadingImages));
            assert_eq!(retry_count, 2);
        }
        other => panic!("unexpected {other:?}"),
    }
    match abort_status(&TaskStatus::Pending, 0, "x") {
        TaskStatus::Failed { error, .. } => assert_eq!(error.stage, None),
        other => panic!("unexpected {other:?}"),
    }
    match task_not_found("t9") {
        AppError::Task(m) => assert_eq!(m, "任务不存在: t9"),
        other => panic!("unexpected {other:?}"),
    }
}

#[test]
fn queued_tasks_pick_file_or_url() {
    match plan_task_processing(SourceType::Upload, Some("/tmp/a.pdf".to_string()), None) {
        Ok(TaskAction::ParseFile(p)) => assert_eq!(p, "/tmp/a.pdf"),
        other => panic!("unexpected {other:?}"),
    }
    match plan_task_processing(SourceType::Upload, None, Some("https://x".to_string())) {
        Err(AppError::Task(m)) => assert_eq!(m, "上传任务缺少文件路径"),
        other => panic!("unexpected {other:?}"),
    }
    match plan_task_processing(SourceType::Url, Some("p".to_string()), Some("https://x".to_string())) {
        Ok(TaskAction::ParseUrl(u)) => assert_eq!(u, "https://x"),
        other => panic!("unexpected {other:?}"),
    }
    match plan_task_processing(SourceType::Url, Some("p".to_string()), None) {
        Ok(TaskAction::ParseUrl(u)) => assert_eq!(u, "p"),
        other => panic!("unexpected {other:?}"),
    }
    match plan_task_processing(SourceType::Url, None, None) {
        Err(AppError::Task(m)) => assert_eq!(m, "URL 任务缺少下载地址"),
        other => panic!("unexpected {other:?}"),
    }
}

#[test]
fn shutdown_stats_record_the_finish() {
    let mut st = docparse::shutdown::ShutdownStats::default();
    st.record_finish(1_000, 1_250, true);
    assert_eq!(st.shutdown_started_at_ms, Some(1_000));
    assert_eq!(st.shutdown_completed_at_ms, Some(1_250));
    assert_eq!(st.shutdown_duration_ms, Some(250));
    assert!(st.shutdown_successful);
    st.record_finish(2_000, 1_999, false);
    assert_eq!(st.shutdown_duration_ms, None);
    assert!(!st.shutdown_successful);
}
