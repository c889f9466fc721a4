use docparse::env_types::InstallStage;
use docparse::error::AppError;
use docparse::image_select::{path_lt, select_images, text_lt};
use docparse::mineru::{complete_parse, mineru_invocation, MinerUConfig};
use docparse::formats::DocumentFormat;
use docparse::pipeline::{next_pipeline_step, pipeline_progress, plan_document_parse, PipelineStep};
use docparse::task_state::{cancel_status, ParserEngine, ProcessingStage, TaskStatus};
use docparse::venv_setup::{
    event_fits, uv_venv_args, venv_creation_error, venv_failure_text, venv_plan, venv_start,
    venv_step, VenvAction, VenvEvent, VenvPlan, VenvState,
};

fn comps(p: &str) -> Vec<String> {
    p.split('/').map(|s| s.to_string()).collect()
}

#[test]
fn venv_plan_follows_what_is_there() {
    assert_eq!(venv_plan(true, true, true), VenvPlan::AlreadyComplete);
    assert_eq!(venv_plan(true, true, false), VenvPlan::CleanThenCreate);
    assert_eq!(venv_plan(true, false, true), VenvPlan::Create);
    assert_eq!(venv_plan(false, false, false), VenvPlan::Create);
}

#[test]
fn uv_creates_a_venv_named_venv_with_python3() {
    assert_eq!(uv_venv_args(), vec!["venv", "venv", "--python", "python3"]);
}

#[test]
fn venv_failure_text_prefers_stderr_then_stdout() {
    assert_eq!(venv_failure_text("boom", "out"), "boom");
    assert_eq!(venv_failure_text("", "out"), "out");
    assert_eq!(venv_failure_text("", ""), "未知错误");
}

#[test]
fn venv_errors_are_classified_by_their_text() {
    let msg = |e: AppError| match e {
        AppError::Environment(m) => m,
        other => panic!("unexpected {other:?}"),
    };
    assert_eq!(msg(venv_creation_error("Permission denied")), "虚拟环境创建权限错误: Permission denied");
    assert_eq!(msg(venv_creation_error("No space left on device")), "磁盘空间不足导致虚拟环境创建失败: No space left on device");
    assert_eq!(msg(venv_creation_error("venv already EXISTS")), "虚拟环境路径冲突: venv already EXISTS");
    assert_eq!(msg(venv_creation_error("bad path")), "虚拟环境路径错误: bad path");
    assert_eq!(msg(venv_creation_error("虚拟环境创建超时")), "虚拟环境创建超时: 虚拟环境创建超时");
    assert_eq!(msg(venv_creation_error("weird")), "虚拟环境创建失败: weird");
}

#[test]
fn venv_run_reports_growing_progress_to_completion() {
    let t = venv_start();
    assert_eq!(t.state, VenvState::Validating);
    assert!(matches!(t.action, VenvAction::CheckPreconditions));
    assert_eq!(t.reports[0].progress, 5);
    let ev = VenvEvent::Found { exists: true, is_dir: true, python_exists: false };
    assert!(event_fits(t.state, &ev));
    let t = venv_step(t.state, ev);
    assert_eq!(t.state, VenvState::Cleaning);
    assert_eq!(t.reports[0].progress, 10);
    assert_eq!(t.reports[0].message, "清理损坏的虚拟环境");
    let t = venv_step(t.state, VenvEvent::Cleaned);
    assert_eq!(t.state, VenvState::Creating);
    assert_eq!(t.reports.iter().map(|r| r.progress).collect::<Vec<_>>(), vec![15, 50]);
    match &t.action {
        VenvAction::RunUv(a) => assert_eq!(a, &vec!["venv", "venv", "--python", "python3"]),
        other => panic!("unexpected {other:?}"),
    }
    let done = VenvEvent::UvFinished { success: true, stderr: String::new(), stdout: String::new() };
    let t = venv_step(t.state, done);
    assert_eq!(t.state, VenvState::Verifying);
    assert_eq!(t.reports[0].progress, 90);
    let t = venv_step(t.state, VenvEvent::Verified);
    assert_eq!(t.state, VenvState::Finished);
    assert!(matches!(t.action, VenvAction::Finish(Ok(()))));
    assert_eq!(t.reports[0].progress, 100);
    assert_eq!(t.reports[0].message, "虚拟环境创建完成");
    assert!(!event_fits(VenvState::Finished, &VenvEvent::Verified));
}

#[test]
fn failed_uv_run_reports_its_error_text() {
    let failed = VenvEvent::UvFinished { success: false, stderr: String::new(), stdout: "nope".to_string() };
    let t = venv_step(VenvState::Creating, failed);
    assert_eq!(t.state, VenvState::Finished);
    assert!(matches!(&t.reports[0].stage, InstallStage::Failed(m) if m == "nope"));
    assert_eq!(t.reports[0].progress, 0);
    assert_eq!(t.reports[0].message, "创建失败");
    match t.action {
        VenvAction::Finish(Err(AppError::Environment(m))) => assert_eq!(m, "虚拟环境创建失败: nope"),
        other => panic!("unexpected {other:?}"),
    }
    let t = venv_step(VenvState::Validating, VenvEvent::Found { exists: true, is_dir: true, python_exists: true });
    assert!(matches!(t.action, VenvAction::Finish(Ok(()))));
    assert_eq!(t.reports[0].message, "虚拟环境已存在");
    let t = venv_step(VenvState::Cleaning, VenvEvent::CleanupFailed("busy".to_string()));
    assert!(t.reports.is_empty());
    match t.action {
        VenvAction::Finish(Err(AppError::Environment(m))) => assert_eq!(m, "清理虚拟环境失败: busy"),
        other => panic!("unexpected {other:?}"),
    }
}

#[test]
fn images_are_selected_sorted_and_once() {
    let files = vec![
        (comps("auto/images/b.PNG"), Some("PNG".to_string())),
        (comps("auto/images/a.jpg"), Some("jpg".to_string())),
        (comps("auto/other/c.png"), Some("png".to_string())),
        (comps("auto/images/notes.txt"), Some("txt".to_string())),
        (comps("images"), None),
        (comps("auto/images/a.jpg"), Some("jpg".to_string())),
        (comps("images/deep/z.gif"), Some("gif".to_string())),
        (comps("a-b/images/x.png"), Some("png".to_string())),
    ];
    let got = select_images(&files);
    assert_eq!(
        got,
        vec![
            comps("a-b/images/x.png"),
            comps("auto/images/a.jpg"),
            comps("auto/images/b.PNG"),
            comps("images/deep/z.gif"),
        ]
    );
}

#[test]
fn paths_compare_component_by_component() {
    assert!(text_lt("a", "b"));
    assert!(text_lt("a", "ab"));
    assert!(!text_lt("b", "a"));
    assert!(!text_lt("a", "a"));
    // As components, `a` comes before `a-b`, though `a/` sorts after `a-` as text.
    assert!(path_lt(&comps("a/z"), &comps("a-b")));
    assert!(!path_lt(&comps("a-b"), &comps("a/z")));
}

#[test]
fn completed_parse_carries_its_directories_and_report() {
    let c = complete_parse("one two  three".to_string(), "/out".to_string(), "/work".to_string(), 1_500_000_000);
    assert_eq!(c.output_dir, Some("/out".to_string()));
    assert_eq!(c.work_dir, Some("/work".to_string()));
    assert_eq!(c.progress, 100);
    assert_eq!(c.error_count, 0);
    assert_eq!(c.message, "解析完成，耗时: 1.5s，字数: 3");
}

#[test]
fn gpu_share_is_passed_to_engines_other_than_pipeline() {
    let mut config = MinerUConfig::default_for(false, false);
    let inv = mineru_invocation(&config, "in.pdf", "out", false, false, Some("0.4"));
    assert_eq!(inv.args, vec!["-p", "in.pdf", "-o", "out", "-b", "pipeline"]);
    config.backend = "vlm-engine".to_string();
    let inv = mineru_invocation(&config, "in.pdf", "out", false, false, Some("0.4"));
    assert_eq!(
        inv.args,
        vec!["-p", "in.pdf", "-o", "out", "-b", "vlm-engine", "--gpu-memory-utilization", "0.4"]
    );
    let inv = mineru_invocation(&config, "in.pdf", "out", false, false, None);
    assert_eq!(inv.args.len(), 6);
}

#[test]
fn cancelling_is_refused_for_terminal_tasks() {
    assert!(cancel_status(&TaskStatus::Completed { processing_time_ms: 5 }, None).is_none());
    assert!(cancel_status(&TaskStatus::Cancelled { reason: None }, Some("x".to_string())).is_none());
    match cancel_status(&TaskStatus::Pending, Some("用户取消".to_string())) {
        Some(TaskStatus::Cancelled { reason }) => assert_eq!(reason, Some("用户取消".to_string())),
        other => panic!("unexpected {other:?}"),
    }
}

#[test]
fn document_parse_is_planned_by_size_and_format() {
    let p = plan_document_parse(10, 100, &DocumentFormat::PDF).unwrap();
    assert_eq!(p.engine, ParserEngine::MinerU);
    assert_eq!(p.stage, ProcessingStage::MinerUExecuting);
    assert_eq!(p.progress, 10);
    let p = plan_document_parse(100, 100, &DocumentFormat::Word).unwrap();
    assert_eq!(p.engine, ParserEngine::MarkItDown);
    assert_eq!(p.stage, ProcessingStage::MarkItDownExecuting);
    match plan_document_parse(101, 100, &DocumentFormat::PDF) {
        Err(AppError::File(m)) => assert_eq!(m, "文件大小超过限制: 101 > 100 bytes"),
        other => panic!("unexpected {other:?}"),
    }
    let mut s = PipelineStep::Detected;
    let mut seen = vec![pipeline_progress(s)];
    while let Some(t) = next_pipeline_step(s) {
        s = t;
        seen.push(pipeline_progress(s));
    }
    assert_eq!(seen, vec![10, 80, 90, 95, 100]);
}
