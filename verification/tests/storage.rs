use docparse::formats::DocumentFormat;
use docparse::storage::{
    delete_task_ops, query_tasks, same_status, save_task_ops, task_index_key, task_key,
    task_matches_filter, QueryFilter, StorageConfig, TransactionOp,
};
use docparse::task_state::{TaskRecord, TaskStatus};

fn task(id: &str, status: TaskStatus, format: Option<DocumentFormat>, at: u64) -> TaskRecord {
    TaskRecord {
        id: id.to_string(),
        status,
        parser_engine: None,
        document_format: format,
        created_at_ms: at,
    }
}

fn sample() -> Vec<TaskRecord> {
    vec![
        task("a", TaskStatus::Pending, Some(DocumentFormat::PDF), 10),
        task("b", TaskStatus::Completed { processing_time_ms: 5 }, Some(DocumentFormat::Word), 20),
        task("c", TaskStatus::Pending, Some(DocumentFormat::Word), 30),
        task("d", TaskStatus::Pending, None, 40),
        task("e", TaskStatus::Pending, Some(DocumentFormat::PDF), 50),
    ]
}

#[test]
fn filters_combine_status_format_and_time() {
    let tasks = sample();
    let mut f = QueryFilter::default();
    f.status = Some(TaskStatus::Pending);
    assert_eq!(query_tasks(&tasks, &f), vec![0, 2, 3, 4]);
    f.format = Some(DocumentFormat::PDF);
    assert_eq!(query_tasks(&tasks, &f), vec![0, 4]);
    f.created_after_ms = Some(11);
    assert_eq!(query_tasks(&tasks, &f), vec![4]);
    f.created_before_ms = Some(49);
    assert!(query_tasks(&tasks, &f).is_empty());
    assert!(task_matches_filter(&tasks[1], &QueryFilter::default()));
}

#[test]
fn pages_skip_offset_and_stop_at_limit() {
    let tasks = sample();
    let mut f = QueryFilter::default();
    f.offset = Some(1);
    f.limit = Some(2);
    assert_eq!(query_tasks(&tasks, &f), vec![1, 2]);
    f.limit = Some(0);
    assert_eq!(query_tasks(&tasks, &f), vec![1]);
    f.offset = Some(9);
    assert!(query_tasks(&tasks, &f).is_empty());
    f.offset = None;
    f.limit = None;
    assert_eq!(query_tasks(&tasks, &f).len(), 5);
}

#[test]
fn status_equality_looks_at_the_data() {
    assert!(same_status(
        &TaskStatus::Cancelled { reason: Some("x".to_string()) },
        &TaskStatus::Cancelled { reason: Some("x".to_string()) }
    ));
    assert!(!same_status(
        &TaskStatus::Cancelled { reason: Some("x".to_string()) },
        &TaskStatus::Cancelled { reason: None }
    ));
    assert!(!same_status(&TaskStatus::Pending, &TaskStatus::Completed { processing_time_ms: 0 }));
}

#[test]
fn save_and_delete_batches_touch_data_and_index() {
    assert_eq!(task_key("t1"), b"task:t1".to_vec());
    assert_eq!(task_index_key("t1"), b"index:task:t1".to_vec());
    let ops = save_task_ops("t1", b"{}".to_vec());
    assert_eq!(ops.len(), 2);
    match &ops[0] {
        TransactionOp::Insert { key, value } => {
            assert_eq!(key, &b"task:t1".to_vec());
            assert_eq!(value, &b"{}".to_vec());
        }
        other => panic!("unexpected {other:?}"),
    }
    match &ops[1] {
        TransactionOp::IndexUpdate { index_key, task_id } => {
            assert_eq!(index_key, &b"index:task:t1".to_vec());
            assert_eq!(task_id, "t1");
        }
        other => panic!("unexpected {other:?}"),
    }
    let del = delete_task_ops("t1");
    assert!(matches!(&del[0], TransactionOp::Delete { key } if key == &b"task:t1".to_vec()));
    assert!(matches!(&del[1], TransactionOp::IndexDelete { index_key } if index_key == &b"index:task:t1".to_vec()));
}

#[test]
fn storage_defaults() {
    let c = StorageConfig::default();
    assert_eq!(c.cache_ttl_ms, 3_600_000);
    assert_eq!(c.retention_period_ms, 30 * 24 * 3600 * 1000);
    assert_eq!(c.max_cache_size, 10000);
    assert_eq!(QueryFilter::default().limit, Some(100));
}

#[test]
fn listing_is_newest_first_and_stable() {
    let tasks = vec![
        task("a", TaskStatus::Pending, None, 10),
        task("b", TaskStatus::Pending, None, 30),
        task("c", TaskStatus::Pending, None, 10),
        task("d", TaskStatus::Pending, None, 20),
    ];
    assert_eq!(docparse::storage::list_tasks_order(&tasks, None), vec![1, 3, 0, 2]);
    assert_eq!(docparse::storage::list_tasks_order(&tasks, Some(3)), vec![1, 0, 2]);
    assert_eq!(docparse::storage::list_tasks_order(&tasks, Some(0)), Vec::<usize>::new());
    assert_eq!(docparse::storage::list_tasks_order(&tasks, Some(9)).len(), 4);
}
