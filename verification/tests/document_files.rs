use docparse::document_files::{
    check_document_size, detect_mime_type, execution_stage, filename_from_url,
    mime_type_for_extension, task_temp_file_name, temp_file_name_for_task,
};
use docparse::error::AppError;
use docparse::task_state::{ParserEngine, ProcessingStage};

#[test]
fn mime_types_by_extension() {
    assert_eq!(mime_type_for_extension("PDF"), "application/pdf");
    assert_eq!(
        mime_type_for_extension("docx"),
        "application/vnd.openxmlformats-officedocument.wordprocessingml.document"
    );
    assert_eq!(mime_type_for_extension("htm"), "text/html");
    assert_eq!(mime_type_for_extension("zzz"), "application/octet-stream");
    assert_eq!(detect_mime_type("/tmp/a.Md"), "text/markdown");
    assert_eq!(detect_mime_type("/tmp/noext"), "application/octet-stream");
}

#[test]
fn download_names_drop_the_query() {
    assert_eq!(filename_from_url("https://h.example.com/a/b/report.pdf?x=1&y=2"), "report.pdf");
    assert_eq!(filename_from_url("https://h.example.com/a/"), "");
    assert_eq!(filename_from_url("report.pdf"), "report.pdf");
    assert_eq!(filename_from_url("https://h/x?a=/b/c"), "x");
}

#[test]
fn temp_names_are_cleaned() {
    assert_eq!(
        temp_file_name_for_task("t1", Some("my report (v2)"), Some("pdf")),
        "task_t1_myreportv2.pdf"
    );
    assert_eq!(temp_file_name_for_task("t2", None, None), "task_t2_file.tmp");
    assert_eq!(temp_file_name_for_task("t3", Some("报告-1"), Some("docx")), "task_t3_报告-1.docx");
    assert_eq!(task_temp_file_name("t4", "a b.PDF"), "task_t4_ab.PDF");
    assert_eq!(task_temp_file_name("t5", "noext"), "task_t5_noext.tmp");
}

#[test]
fn size_ceiling_and_stage() {
    assert!(check_document_size(10, 10).is_ok());
    match check_document_size(11, 10) {
        Err(AppError::File(m)) => assert_eq!(m, "文件大小超过限制: 11 > 10 bytes"),
        other => panic!("unexpected {other:?}"),
    }
    assert_eq!(execution_stage(ParserEngine::MinerU), ProcessingStage::MinerUExecuting);
    assert_eq!(execution_stage(ParserEngine::MarkItDown), ProcessingStage::MarkItDownExecuting);
}
