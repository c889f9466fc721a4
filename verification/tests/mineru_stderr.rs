use docparse::mineru_stderr::{classify_mineru_stderr, StderrKind};

#[test]
fn test_classify_mineru_stderr_progress_bars() {
    assert_eq!(
        classify_mineru_stderr("Layout Predict: 100%|██████████| 1/1 [00:00<00:00, 1.49it/s]"),
        StderrKind::Progress
    );
    assert_eq!(
        classify_mineru_stderr("OCR-det ch:   0%|          | 0/6 [00:00<?, ?it/s]"),
        StderrKind::Progress
    );
    assert_eq!(
        classify_mineru_stderr("MFR Predict: 100%|██████████| 1/1 [00:00<00:02, 2.45s/it]"),
        StderrKind::Progress
    );
    assert_eq!(
        classify_mineru_stderr("\x1b[AITER: 100%|████| 1/1"),
        StderrKind::Progress
    );
}

#[test]
fn test_classify_mineru_stderr_errors() {
    assert_eq!(
        classify_mineru_stderr("Traceback (most recent call last):"),
        StderrKind::Error
    );
    assert_eq!(
        classify_mineru_stderr("RuntimeError: Expected one of cpu, cuda, mps, meta device"),
        StderrKind::Error
    );
    assert_eq!(
        classify_mineru_stderr("ModuleNotFoundError: No module named 'vllm'"),
        StderrKind::Error
    );
    assert_eq!(
        classify_mineru_stderr("ValueError: invalid argument"),
        StderrKind::Error
    );
    assert_eq!(
        classify_mineru_stderr("2026-07-06 | ERROR | mineru.cli - something failed"),
        StderrKind::Error
    );
}

#[test]
fn test_classify_mineru_stderr_warnings() {
    assert_eq!(
        classify_mineru_stderr("UserWarning: torch.meshgrid is deprecated"),
        StderrKind::Warning
    );
    assert_eq!(
        classify_mineru_stderr("2026-07-06 | WARNING | mineru - low memory"),
        StderrKind::Warning
    );
    assert_eq!(
        classify_mineru_stderr("DeprecationWarning: use new API"),
        StderrKind::Warning
    );
}

#[test]
fn test_classify_mineru_stderr_info() {
    assert_eq!(
        classify_mineru_stderr("2026-07-06 | INFO | mineru.backend.pipeline - init done!"),
        StderrKind::Info
    );
    assert_eq!(
        classify_mineru_stderr("INFO:     Application shutdown complete."),
        StderrKind::Info
    );
    assert_eq!(
        classify_mineru_stderr("INFO:     Finished server process [72373]"),
        StderrKind::Info
    );
    assert_eq!(classify_mineru_stderr(""), StderrKind::Info);
}

#[test]
fn classify_leading_whitespace_is_ignored() {
    assert_eq!(classify_mineru_stderr("   \tERROR here"), StderrKind::Error);
    assert_eq!(classify_mineru_stderr("\u{3000}Warning"), StderrKind::Warning);
}

#[test]
fn classify_progress_wins_over_error() {
    assert_eq!(
        classify_mineru_stderr("ERROR 50%|#####"),
        StderrKind::Progress
    );
}
