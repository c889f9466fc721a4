use docparse::env_report::{generate_recommendations, DiagnosticReport};
use docparse::env_status::EnvironmentStatus;
use docparse::mineru::{next_parse_stage, phase_report, ParseStage};

#[test]
fn uncancelled_parse_reports_growing_progress() {
    let mut stage = ParseStage::Initializing;
    let mut seen = vec![stage];
    let mut percents = vec![phase_report(stage).unwrap().0];
    while stage != ParseStage::Completed {
        stage = next_parse_stage(stage, false);
        seen.push(stage);
        if let Some((p, _)) = phase_report(stage) {
            percents.push(p);
        }
    }
    assert_eq!(
        seen,
        vec![
            ParseStage::Initializing,
            ParseStage::PreProcessing,
            ParseStage::Parsing,
            ParseStage::PostProcessing,
            ParseStage::Finalizing,
            ParseStage::Completed,
        ]
    );
    assert_eq!(percents, vec![0, 10, 20, 80, 95]);
}

#[test]
fn cancellation_is_honoured_up_to_the_engine_run() {
    assert_eq!(next_parse_stage(ParseStage::Initializing, true), ParseStage::Cancelled);
    assert_eq!(next_parse_stage(ParseStage::Parsing, true), ParseStage::Cancelled);
    assert_eq!(next_parse_stage(ParseStage::PostProcessing, true), ParseStage::Finalizing);
    assert_eq!(next_parse_stage(ParseStage::Failed, false), ParseStage::Failed);
}

#[test]
fn recommendations_are_appended_to_a_report() {
    let status = EnvironmentStatus::default();
    let mut report = DiagnosticReport {
        overall_status: "Not Ready".to_string(),
        health_score: 0,
        components: Vec::new(),
        recommendations: vec!["r".to_string()],
        next_steps: vec!["a".to_string()],
    };
    generate_recommendations(&status, &mut report);
    assert_eq!(
        report.recommendations,
        vec![
            "r".to_string(),
            "Install Python 3.8+ to enable document parsing functionality".to_string(),
            "Create and activate a virtual environment for isolated dependency management"
                .to_string(),
            "Install UV tool for fast Python package management".to_string(),
            "Install MinerU for PDF document parsing capabilities".to_string(),
            "Install MarkItDown for multi-format document parsing".to_string(),
        ]
    );
    assert_eq!(
        report.next_steps,
        vec![
            "a".to_string(),
            "1. Install Python 3.8 or higher".to_string(),
            "2. Run 'document-parser uv-init' to set up the environment".to_string(),
        ]
    );
}

#[test]
fn install_steps_are_listed_while_no_step_mentions_uv_init() {
    let mut status = EnvironmentStatus::default();
    status.python_available = true;
    status.virtual_env_active = true;
    status.uv_available = true;
    let mut report = DiagnosticReport {
        overall_status: String::new(),
        health_score: 0,
        components: Vec::new(),
        recommendations: Vec::new(),
        next_steps: Vec::new(),
    };
    generate_recommendations(&status, &mut report);
    assert_eq!(
        report.next_steps,
        vec![
            "3. Install MinerU with: uv pip install magic-pdf[full]".to_string(),
            "4. Install MarkItDown with: uv pip install markitdown".to_string(),
        ]
    );
}
