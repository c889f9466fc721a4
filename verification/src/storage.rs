//! The task store's own logic: its settings, the query filter and the page
//! of results a query returns, and the write batches that save or delete a
//! task together with its index entry. Reading and writing the database
//! itself is left to the caller.

use vstd::prelude::*;
use vstd::string::StrSliceExecFns;
use crate::env_types::opt_view;
use crate::formats::DocumentFormat;
use crate::task_state::{
    current_stage_spec, kind_spec, ProcessingStage, TaskError, TaskRecord, TaskStatus,
};
use crate::text::{push_str, str_eq};

verus! {

/// An index a task can be found by; times are seconds since the Unix
/// epoch.
#[derive(Debug, Clone)]
pub enum IndexType {
    ByStatus(TaskStatus),
    ByFormat(DocumentFormat),
    ByCreatedTime(u64),
    ByUpdatedTime(u64),
}

/// What a task query asks for; times are milliseconds since the Unix
/// epoch, bounds inclusive.
#[derive(Debug, Clone)]
pub struct QueryFilter {
    pub status: Option<TaskStatus>,
    pub format: Option<DocumentFormat>,
    pub created_after_ms: Option<u64>,
    pub created_before_ms: Option<u64>,
    pub limit: Option<usize>,
    pub offset: Option<usize>,
}

impl Default for QueryFilter {
    /// No condition, at most 100 results.
    fn default() -> (f: Self)
        ensures
            f.status is None && f.format is None,
            f.created_after_ms is None && f.created_before_ms is None,
            f.limit == Some(100usize) && f.offset is None,
    {
        QueryFilter {
            status: None,
            format: None,
            created_after_ms: None,
            created_before_ms: None,
            limit: Some(100),
            offset: None,
        }
    }
}

/// Settings of the task store; durations in milliseconds.
#[derive(Debug, Clone, Copy)]
pub struct StorageConfig {
    pub cache_ttl_ms: u64,
    pub max_cache_size: usize,
    pub cleanup_interval_ms: u64,
    pub retention_period_ms: u64,
    pub batch_size: usize,
    pub enable_compression: bool,
    pub sync_interval_ms: u64,
}

impl Default for StorageConfig {
    /// An hour of cache life and between clean-ups, thirty days of
    /// retention, a sync every minute.
    fn default() -> (c: Self)
        ensures
            c.cache_ttl_ms == 3_600_000 && c.max_cache_size == 10000,
            c.cleanup_interval_ms == 3_600_000 && c.retention_period_ms == 2_592_000_000,
            c.batch_size == 100 && c.enable_compression && c.sync_interval_ms == 60_000,
    {
        StorageConfig {
            cache_ttl_ms: 3_600_000,
            max_cache_size: 10000,
            cleanup_interval_ms: 3_600_000,
            retention_period_ms: 2_592_000_000,
            batch_size: 100,
            enable_compression: true,
            sync_interval_ms: 60_000,
        }
    }
}

/// One write of a batch that the store applies atomically.
#[derive(Debug, Clone)]
pub enum TransactionOp {
    Insert { key: Vec<u8>, value: Vec<u8> },
    Update { key: Vec<u8>, value: Vec<u8> },
    Delete { key: Vec<u8> },
    IndexUpdate { index_key: Vec<u8>, task_id: String },
    IndexDelete { index_key: Vec<u8> },
}

/// Two task errors carry the same data.
pub open spec fn error_same(a: TaskError, b: TaskError) -> bool {
    &&& a.error_code@ == b.error_code@
    &&& a.error_message@ == b.error_message@
    &&& a.stage == b.stage
}

/// Two statuses carry the same data.
pub open spec fn status_same(a: TaskStatus, b: TaskStatus) -> bool {
    match (a, b) {
        (TaskStatus::Pending, TaskStatus::Pending) => true,
        (TaskStatus::Processing { stage: x }, TaskStatus::Processing { stage: y }) => x == y,
        (
            TaskStatus::Completed { processing_time_ms: x },
            TaskStatus::Completed { processing_time_ms: y },
        ) => x == y,
        (
            TaskStatus::Failed { error: e1, retry_count: r1 },
            TaskStatus::Failed { error: e2, retry_count: r2 },
        ) => error_same(e1, e2) && r1 == r2,
        (TaskStatus::Cancelled { reason: r1 }, TaskStatus::Cancelled { reason: r2 }) => opt_view(
            r1,
        ) == opt_view(r2),
        _ => false,
    }
}

/// The variant of a format, as a number.
pub open spec fn format_tag(f: DocumentFormat) -> int {
    match f {
        DocumentFormat::PDF => 0,
        DocumentFormat::Word => 1,
        DocumentFormat::Excel => 2,
        DocumentFormat::PowerPoint => 3,
        DocumentFormat::Image => 4,
        DocumentFormat::Audio => 5,
        DocumentFormat::HTML => 6,
        DocumentFormat::Text => 7,
        DocumentFormat::Txt => 8,
        DocumentFormat::Md => 9,
        DocumentFormat::Other(_) => 10,
    }
}

/// Two formats are the same.
pub open spec fn format_same(a: DocumentFormat, b: DocumentFormat) -> bool {
    match (a, b) {
        (DocumentFormat::Other(x), DocumentFormat::Other(y)) => x@ == y@,
        _ => format_tag(a) == format_tag(b),
    }
}

fn format_tag_exec(f: &DocumentFormat) -> (t: u8)
    ensures
        t == format_tag(*f),
{
    match f {
        DocumentFormat::PDF => 0,
        DocumentFormat::Word => 1,
        DocumentFormat::Excel => 2,
        DocumentFormat::PowerPoint => 3,
        DocumentFormat::Image => 4,
        DocumentFormat::Audio => 5,
        DocumentFormat::HTML => 6,
        DocumentFormat::Text => 7,
        DocumentFormat::Txt => 8,
        DocumentFormat::Md => 9,
        DocumentFormat::Other(_) => 10,
    }
}

/// Whether two formats are the same.
pub fn same_format(a: &DocumentFormat, b: &DocumentFormat) -> (r: bool)
    ensures
        r == format_same(*a, *b),
{
    match (a, b) {
        (DocumentFormat::Other(x), DocumentFormat::Other(y)) => str_eq(x.as_str(), y.as_str()),
        _ => format_tag_exec(a) == format_tag_exec(b),
    }
}

fn same_opt_stage(a: &Option<ProcessingStage>, b: &Option<ProcessingStage>) -> (r: bool)
    ensures
        r == (*a == *b),
{
    match (a, b) {
        (Some(x), Some(y)) => *x == *y,
        (None, None) => true,
        _ => false,
    }
}

fn same_opt_str(a: &Option<String>, b: &Option<String>) -> (r: bool)
    ensures
        r == (opt_view(*a) == opt_view(*b)),
{
    match (a, b) {
        (Some(x), Some(y)) => str_eq(x.as_str(), y.as_str()),
        (None, None) => true,
        _ => false,
    }
}

/// Whether two statuses carry the same data.
pub fn same_status(a: &TaskStatus, b: &TaskStatus) -> (r: bool)
    ensures
        r == status_same(*a, *b),
{
    match (a, b) {
        (TaskStatus::Pending, TaskStatus::Pending) => true,
        (TaskStatus::Processing { stage: x }, TaskStatus::Processing { stage: y }) => *x == *y,
        (
            TaskStatus::Completed { processing_time_ms: x },
            TaskStatus::Completed { processing_time_ms: y },
        ) => *x == *y,
        (
            TaskStatus::Failed { error: e1, retry_count: r1 },
            TaskStatus::Failed { error: e2, retry_count: r2 },
        ) => str_eq(e1.error_code.as_str(), e2.error_code.as_str()) && str_eq(
            e1.error_message.as_str(),
            e2.error_message.as_str(),
        ) && same_opt_stage(&e1.stage, &e2.stage) && *r1 == *r2,
        (TaskStatus::Cancelled { reason: r1 }, TaskStatus::Cancelled { reason: r2 }) => same_opt_str(
            r1,
            r2,
        ),
        _ => false,
    }
}

/// A task meets every condition of a filter.
pub open spec fn matches_filter(t: TaskRecord, f: QueryFilter) -> bool {
    &&& (f.status matches Some(s) ==> status_same(t.status, s))
    &&& (f.format matches Some(fm) ==> (t.document_format matches Some(tf) && format_same(
        tf,
        fm,
    )))
    &&& (f.created_after_ms matches Some(a) ==> t.created_at_ms >= a)
    &&& (f.created_before_ms matches Some(b) ==> t.created_at_ms <= b)
}

/// Whether a task meets every condition of a filter.
pub fn task_matches_filter(task: &TaskRecord, filter: &QueryFilter) -> (b: bool)
    ensures
        b == matches_filter(*task, *filter),
{
    if let Some(status) = &filter.status {
        if !same_status(&task.status, status) {
            return false;
        }
    }
    if let Some(format) = &filter.format {
        match &task.document_format {
            Some(tf) => {
                if !same_format(tf, format) {
                    return false;
                }
            },
            None => {
                return false;
            },
        }
    }
    if let Some(after) = filter.created_after_ms {
        if task.created_at_ms < after {
            return false;
        }
    }
    if let Some(before) = filter.created_before_ms {
        if task.created_at_ms > before {
            return false;
        }
    }
    true
}

/// Positions, in order, of the first `n` tasks that meet the filter.
pub open spec fn matching_upto(tasks: Seq<TaskRecord>, f: QueryFilter, n: int) -> Seq<int>
    decreases n,
{
    if n <= 0 {
        Seq::empty()
    } else {
        let p = matching_upto(tasks, f, n - 1);
        if matches_filter(tasks[n - 1], f) {
            p.push(n - 1)
        } else {
            p
        }
    }
}

/// The matches after the first `k`.
pub open spec fn skip_first(s: Seq<int>, k: int) -> Seq<int> {
    if s.len() <= k {
        Seq::empty()
    } else {
        s.subrange(k, s.len() as int)
    }
}

/// The page a query returns: past `offset` matches, at most `limit` of
/// them (100 without a limit), and at least one whenever any is left.
pub open spec fn query_page(tasks: Seq<TaskRecord>, f: QueryFilter) -> Seq<int> {
    let offset = match f.offset {
        Some(o) => o as int,
        None => 0,
    };
    let limit = match f.limit {
        Some(l) => l as int,
        None => 100,
    };
    let take = if limit < 1 {
        1
    } else {
        limit
    };
    let rest = skip_first(matching_upto(tasks, f, tasks.len() as int), offset);
    if rest.len() <= take {
        rest
    } else {
        rest.take(take)
    }
}

/// The matches among fewer tasks are a prefix of those among more.
pub proof fn lemma_matching_prefix(tasks: Seq<TaskRecord>, f: QueryFilter, i: int, n: int)
    requires
        0 <= i <= n,
    ensures
        matching_upto(tasks, f, i).len() <= matching_upto(tasks, f, n).len(),
        matching_upto(tasks, f, n).take(matching_upto(tasks, f, i).len() as int)
            == matching_upto(tasks, f, i),
    decreases n - i,
{
    if i < n {
        lemma_matching_prefix(tasks, f, i, n - 1);
        let a = matching_upto(tasks, f, i);
        let b = matching_upto(tasks, f, n - 1);
        let c = matching_upto(tasks, f, n);
        assert(c.take(b.len() as int) =~= b);
        assert(c.take(a.len() as int) =~= b.take(a.len() as int));
    } else {
        let a = matching_upto(tasks, f, i);
        assert(a.take(a.len() as int) =~= a);
    }
}

/// Every match is a position of the list.
pub proof fn lemma_matching_in_range(tasks: Seq<TaskRecord>, f: QueryFilter, n: int, j: int)
    requires
        0 <= j < matching_upto(tasks, f, n).len(),
    ensures
        0 <= matching_upto(tasks, f, n)[j] < n,
        matches_filter(tasks[matching_upto(tasks, f, n)[j]], f),
    decreases n,
{
    if n > 0 {
        let p = matching_upto(tasks, f, n - 1);
        if j < p.len() {
            lemma_matching_in_range(tasks, f, n - 1, j);
        }
    }
}

/// The positions of the tasks a query returns, in store order: the
/// matches past `offset`, at most `limit` of them (100 without a limit;
/// a limit of 0 still lets the first one through).
pub fn query_tasks(tasks: &Vec<TaskRecord>, filter: &QueryFilter) -> (r: Vec<usize>)
    ensures
        r@.map_values(|i: usize| i as int) == query_page(tasks@, *filter),
{
    let offset: usize = match filter.offset {
        Some(o) => o,
        None => 0,
    };
    let limit: usize = match filter.limit {
        Some(l) => l,
        None => 100,
    };
    let ghost take: int = if limit < 1 {
        1
    } else {
        limit as int
    };
    let ghost n = tasks@.len() as int;
    let mut results: Vec<usize> = Vec::new();
    let mut count: usize = 0;
    let mut i: usize = 0;
    let mut done = false;
    while i < tasks.len() && !done
        invariant
            i <= tasks@.len(),
            n == tasks@.len(),
            offset as int == (match filter.offset {
                Some(o) => o as int,
                None => 0,
            }),
            limit as int == (match filter.limit {
                Some(l) => l as int,
                None => 100,
            }),
            take == (if limit < 1 {
                1
            } else {
                limit as int
            }),
            !done ==> count as int == matching_upto(tasks@, *filter, i as int).len(),
            results@.map_values(|k: usize| k as int) == skip_first(
                matching_upto(tasks@, *filter, i as int),
                offset as int,
            ),
            !done ==> results@.len() < take,
            done ==> results@.len() == take,
        decreases tasks@.len() - i,
    {
        let ghost before = matching_upto(tasks@, *filter, i as int);
        proof {
            lemma_matching_prefix(tasks@, *filter, i as int, n);
            assert(matching_upto(tasks@, *filter, n).len() <= n) by {
                lemma_matching_len(tasks@, *filter, n);
            }
        }
        if task_matches_filter(&tasks[i], filter) {
            if count >= offset {
                let ghost old_r = results@.map_values(|k: usize| k as int);
                results.push(i);
                proof {
                    let after = matching_upto(tasks@, *filter, i + 1);
                    assert(after == before.push(i as int));
                    assert(results@.map_values(|k: usize| k as int) =~= old_r.push(i as int));
                    assert(skip_first(after, offset as int) =~= skip_first(before, offset as int).push(
                        i as int,
                    ));
                }
                if results.len() >= limit {
                    done = true;
                }
            } else {
                proof {
                    let after = matching_upto(tasks@, *filter, i + 1);
                    assert(after == before.push(i as int));
                    assert(skip_first(after, offset as int) =~= Seq::<int>::empty());
                    assert(skip_first(before, offset as int) =~= Seq::<int>::empty());
                }
            }
            proof {
                lemma_matching_len(tasks@, *filter, i + 1);
            }
            if !done {
                count = count + 1;
            }
        }
        i = i + 1;
    }
    proof {
        let m = matching_upto(tasks@, *filter, n);
        let mi = matching_upto(tasks@, *filter, i as int);
        lemma_matching_prefix(tasks@, *filter, i as int, n);
        let rest = skip_first(m, offset as int);
        if done {
            assert(skip_first(mi, offset as int) =~= rest.take(take));
        } else {
            assert(i == tasks@.len());
        }
    }
    results
}

/// There are never more matches than tasks looked at.
pub proof fn lemma_matching_len(tasks: Seq<TaskRecord>, f: QueryFilter, n: int)
    requires
        0 <= n,
    ensures
        matching_upto(tasks, f, n).len() <= n,
    decreases n,
{
    if n > 0 {
        lemma_matching_len(tasks, f, n - 1);
    }
}

/// Every task a query returns meets its filter.
pub proof fn lemma_query_page_matches(tasks: Seq<TaskRecord>, f: QueryFilter, j: int)
    requires
        0 <= j < query_page(tasks, f).len(),
    ensures
        0 <= query_page(tasks, f)[j] < tasks.len(),
        matches_filter(tasks[query_page(tasks, f)[j]], f),
{
    let offset = match f.offset {
        Some(o) => o as int,
        None => 0,
    };
    let m = matching_upto(tasks, f, tasks.len() as int);
    assert(query_page(tasks, f)[j] == m[offset + j]);
    lemma_matching_in_range(tasks, f, tasks.len() as int, offset + j);
}

/// A query never returns more than its limit (100 without one), nor
/// fewer than one task while matches remain past its offset.
pub proof fn lemma_query_page_size(tasks: Seq<TaskRecord>, f: QueryFilter)
    ensures
        query_page(tasks, f).len() <= (match f.limit {
            Some(l) => if l < 1 {
                1
            } else {
                l as int
            },
            None => 100,
        }),
        skip_first(
            matching_upto(tasks, f, tasks.len() as int),
            match f.offset {
                Some(o) => o as int,
                None => 0,
            },
        ).len() > 0 ==> query_page(tasks, f).len() >= 1,
{
}


/// `a` comes before `b` in a listing: newer first, and in store order
/// among tasks created at the same time.
pub open spec fn listed_before(tasks: Seq<TaskRecord>, a: int, b: int) -> bool {
    tasks[a].created_at_ms > tasks[b].created_at_ms || (tasks[a].created_at_ms
        == tasks[b].created_at_ms && a < b)
}

/// The listing of the first `k` tasks: each once, newest first.
pub open spec fn is_listing(tasks: Seq<TaskRecord>, k: int, r: Seq<usize>) -> bool {
    &&& r.len() == k
    &&& forall|a: int| 0 <= a < r.len() ==> r[a] < k
    &&& forall|a: int, b: int| 0 <= a < b < r.len() ==> listed_before(tasks, r[a] as int, r[b] as int)
}

/// The positions of the tasks a listing shows, in the order shown: the
/// first `limit` tasks of the store (all without a limit), newest first,
/// in store order among tasks created at the same time.
pub fn list_tasks_order(tasks: &Vec<TaskRecord>, limit: Option<usize>) -> (r: Vec<usize>)
    ensures
        is_listing(
            tasks@,
            match limit {
                Some(l) => if l < tasks@.len() {
                    l as int
                } else {
                    tasks@.len() as int
                },
                None => tasks@.len() as int,
            },
            r@,
        ),
{
    let k: usize = match limit {
        Some(l) => if l < tasks.len() {
            l
        } else {
            tasks.len()
        },
        None => tasks.len(),
    };
    let mut r: Vec<usize> = Vec::new();
    let mut i: usize = 0;
    while i < k
        invariant
            k <= tasks@.len(),
            i <= k,
            is_listing(tasks@, i as int, r@),
        decreases k - i,
    {
        let mut p: usize = 0;
        while p < r.len() && tasks[r[p]].created_at_ms >= tasks[i].created_at_ms
            invariant
                k <= tasks@.len(),
                i < k,
                p <= r@.len(),
                is_listing(tasks@, i as int, r@),
                forall|a: int| 0 <= a < p ==> listed_before(tasks@, r@[a] as int, i as int),
            decreases r.len() - p,
        {
            p = p + 1;
        }
        let ghost before = r@;
        proof {
            assert forall|a: int| p <= a < before.len() implies listed_before(
                tasks@,
                i as int,
                #[trigger] before[a] as int,
            ) by {
                if a > p {
                    assert(listed_before(tasks@, before[p as int] as int, before[a] as int));
                }
            }
        }
        r.insert(p, i);
        proof {
            assert(r@ =~= before.insert(p as int, i));
            assert forall|a: int, b: int| 0 <= a < b < r@.len() implies listed_before(
                tasks@,
                r@[a] as int,
                r@[b] as int,
            ) by {
                if b < p {
                } else if b == p {
                    assert(r@[a] == before[a]);
                } else if a < p {
                    assert(r@[b] == before[b - 1]);
                } else if a == p {
                    assert(r@[b] == before[b - 1]);
                } else {
                    assert(r@[a] == before[a - 1] && r@[b] == before[b - 1]);
                }
            }
        }
        i = i + 1;
    }
    r
}

/// A listing of the first `k` tasks shows each of them exactly once.
pub proof fn lemma_listing_shows_each_once(tasks: Seq<TaskRecord>, k: int, r: Seq<usize>)
    requires
        is_listing(tasks, k, r),
    ensures
        r.no_duplicates(),
        forall|j: usize| j < k ==> #[trigger] r.contains(j),
{
    let ri = r.map_values(|x: usize| x as int);
    assert forall|a: int, b: int| 0 <= a < r.len() && 0 <= b < r.len() && a != b implies r[a]
        != r[b] by {
        if a < b {
            assert(listed_before(tasks, r[a] as int, r[b] as int));
        } else {
            assert(listed_before(tasks, r[b] as int, r[a] as int));
        }
    }
    assert(ri.no_duplicates());
    ri.unique_seq_to_set();
    vstd::seq_lib::seq_to_set_is_finite(ri);
    vstd::set_lib::lemma_int_range(0, k);
    let range = vstd::set_lib::set_int_range(0, k);
    assert(ri.to_set().subset_of(range)) by {
        assert forall|x: int| ri.to_set().contains(x) implies range.contains(x) by {
            let a = choose|a: int| 0 <= a < ri.len() && ri[a] == x;
            assert(r[a] < k);
        }
    }
    vstd::set_lib::lemma_subset_equality(ri.to_set(), range);
    assert forall|j: usize| j < k implies #[trigger] r.contains(j) by {
        assert(range.contains(j as int));
        assert(ri.to_set().contains(j as int));
        let a = choose|a: int| 0 <= a < ri.len() && ri[a] == j as int;
        assert(r[a] == j);
    }
}

/// Bytes of a text, as the store keeps them.
pub open spec fn key_bytes(prefix: Seq<char>, task_id: Seq<char>) -> Seq<u8> {
    vstd::utf8::encode_utf8(prefix + task_id)
}

fn prefixed_key(prefix: &str, task_id: &str) -> (k: Vec<u8>)
    ensures
        k@ == key_bytes(prefix@, task_id@),
{
    let mut s = String::from_str(prefix);
    push_str(&mut s, task_id);
    s.as_str().as_bytes_vec()
}

/// Key under which a task is stored.
pub fn task_key(task_id: &str) -> (k: Vec<u8>)
    ensures
        k@ == key_bytes("task:"@, task_id@),
{
    prefixed_key("task:", task_id)
}

/// Key of a task's index entry.
pub fn task_index_key(task_id: &str) -> (k: Vec<u8>)
    ensures
        k@ == key_bytes("index:task:"@, task_id@),
{
    prefixed_key("index:task:", task_id)
}

/// The write that points a task's index entry at it.
pub open spec fn is_index_update(op: TransactionOp, task_id: Seq<char>) -> bool {
    op matches TransactionOp::IndexUpdate { index_key, task_id: t } && index_key@ == key_bytes(
        "index:task:"@,
        task_id,
    ) && t@ == task_id
}

/// The write that removes a task's index entry.
pub open spec fn is_index_delete(op: TransactionOp, task_id: Seq<char>) -> bool {
    op matches TransactionOp::IndexDelete { index_key } && index_key@ == key_bytes(
        "index:task:"@,
        task_id,
    )
}

/// Appends the index write of a task to a batch.
pub fn add_index_operations(task_id: &str, tx_ops: &mut Vec<TransactionOp>)
    ensures
        final(tx_ops)@.len() == old(tx_ops)@.len() + 1,
        final(tx_ops)@.take(old(tx_ops)@.len() as int) == old(tx_ops)@,
        is_index_update(final(tx_ops)@.last(), task_id@),
{
    let index_key = task_index_key(task_id);
    tx_ops.push(TransactionOp::IndexUpdate { index_key, task_id: String::from_str(task_id) });
    proof {
        assert(tx_ops@.take(old(tx_ops)@.len() as int) =~= old(tx_ops)@);
    }
}

/// Appends the removal of a task's index entry to a batch.
pub fn add_index_delete_operations(task_id: &str, tx_ops: &mut Vec<TransactionOp>)
    ensures
        final(tx_ops)@.len() == old(tx_ops)@.len() + 1,
        final(tx_ops)@.take(old(tx_ops)@.len() as int) == old(tx_ops)@,
        is_index_delete(final(tx_ops)@.last(), task_id@),
{
    let index_key = task_index_key(task_id);
    tx_ops.push(TransactionOp::IndexDelete { index_key });
    proof {
        assert(tx_ops@.take(old(tx_ops)@.len() as int) =~= old(tx_ops)@);
    }
}

/// The batch that saves a task: its serialized data under its key, then
/// its index entry.
pub fn save_task_ops(task_id: &str, task_data: Vec<u8>) -> (ops: Vec<TransactionOp>)
    ensures
        ops@.len() == 2,
        ops@[0] matches TransactionOp::Insert { key, value } && key@ == key_bytes(
            "task:"@,
            task_id@,
        ) && value@ == task_data@,
        is_index_update(ops@[1], task_id@),
{
    let mut ops: Vec<TransactionOp> = Vec::new();
    ops.push(TransactionOp::Insert { key: task_key(task_id), value: task_data });
    let ghost first = ops@;
    add_index_operations(task_id, &mut ops);
    proof {
        assert(ops@.take(1)[0] == first[0]);
    }
    ops
}

/// The batch that deletes a task: its data, then its index entry.
pub fn delete_task_ops(task_id: &str) -> (ops: Vec<TransactionOp>)
    ensures
        ops@.len() == 2,
        ops@[0] matches TransactionOp::Delete { key } && key@ == key_bytes("task:"@, task_id@),
        is_index_delete(ops@[1], task_id@),
{
    let mut ops: Vec<TransactionOp> = Vec::new();
    ops.push(TransactionOp::Delete { key: task_key(task_id) });
    let ghost first = ops@;
    add_index_delete_operations(task_id, &mut ops);
    proof {
        assert(ops@.take(1)[0] == first[0]);
    }
    ops
}

/// Statuses that count as the same are of one variant and record the same
/// stage (the running one, or the one a failure happened in); two
/// processing statuses are the same exactly when their stages are, and a
/// status filter only lets through tasks of its variant and stage.
pub proof fn lemma_same_status_keeps_variant_and_stage(
    a: TaskStatus,
    b: TaskStatus,
    s1: ProcessingStage,
    s2: ProcessingStage,
    t: TaskRecord,
    f: QueryFilter,
)
    ensures
        status_same(a, b) ==> kind_spec(a) == kind_spec(b) && current_stage_spec(a)
            == current_stage_spec(b),
        status_same(TaskStatus::Processing { stage: s1 }, TaskStatus::Processing { stage: s2 })
            <==> s1 == s2,
        status_same(a, b) <==> status_same(b, a),
        f.status is Some && matches_filter(t, f) ==> kind_spec(t.status) == kind_spec(
            f.status->0,
        ) && current_stage_spec(t.status) == current_stage_spec(f.status->0),
{
}

} // verus!
