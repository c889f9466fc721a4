//! Task lifecycle states, the guards that keep terminal states terminal,
//! and the statistics over a set of tasks.

use vstd::prelude::*;
use crate::error::AppError;
use crate::formats::DocumentFormat;
use crate::text::push_str;

verus! {

/// Stage of the processing pipeline a task is in.
#[derive(Debug, Clone, Copy, PartialEq, Eq, Structural)]
pub enum ProcessingStage {
    DownloadingDocument,
    FormatDetection,
    MinerUExecuting,
    MarkItDownExecuting,
    Converting,
    ProcessingMarkdown,
    UploadingImages,
    ReplacingImagePaths,
}

/// Engine that parses a document.
#[derive(Debug, Clone, Copy, PartialEq, Eq, Structural)]
pub enum ParserEngine {
    MinerU,
    MarkItDown,
}

/// Why a task failed.
#[derive(Debug, Clone)]
pub struct TaskError {
    pub error_code: String,
    pub error_message: String,
    pub stage: Option<ProcessingStage>,
}

/// Lifecycle state of a task; processing time in milliseconds.
#[derive(Debug, Clone)]
pub enum TaskStatus {
    Pending,
    Processing { stage: ProcessingStage },
    Completed { processing_time_ms: u64 },
    Failed { error: TaskError, retry_count: u32 },
    Cancelled { reason: Option<String> },
}

/// The variant of a task status, without its data.
#[derive(Debug, Clone, Copy, PartialEq, Eq, Structural)]
pub enum StatusKind {
    Pending,
    Processing,
    Completed,
    Failed,
    Cancelled,
}

/// The variant of a status.
pub open spec fn kind_spec(s: TaskStatus) -> StatusKind {
    match s {
        TaskStatus::Pending => StatusKind::Pending,
        TaskStatus::Processing { .. } => StatusKind::Processing,
        TaskStatus::Completed { .. } => StatusKind::Completed,
        TaskStatus::Failed { .. } => StatusKind::Failed,
        TaskStatus::Cancelled { .. } => StatusKind::Cancelled,
    }
}

/// Completed and Cancelled are one-way: a failed task may still be retried
/// or cancelled.
pub open spec fn terminal_spec(s: TaskStatus) -> bool {
    kind_spec(s) == StatusKind::Completed || kind_spec(s) == StatusKind::Cancelled
}

/// Whether `new` may replace `current`: never a terminal state by another
/// variant; rewriting the same variant is allowed.
pub open spec fn update_allowed_spec(current: TaskStatus, new: TaskStatus) -> bool {
    !terminal_spec(current) || kind_spec(current) == kind_spec(new)
}

impl TaskStatus {
    /// The variant of this status.
    pub fn kind(&self) -> (k: StatusKind)
        ensures
            k == kind_spec(*self),
    {
        match self {
            TaskStatus::Pending => StatusKind::Pending,
            TaskStatus::Processing { .. } => StatusKind::Processing,
            TaskStatus::Completed { .. } => StatusKind::Completed,
            TaskStatus::Failed { .. } => StatusKind::Failed,
            TaskStatus::Cancelled { .. } => StatusKind::Cancelled,
        }
    }

    /// The stage a task was in: that of a processing task, or the stage of
    /// a failure.
    pub fn get_current_stage(&self) -> (r: Option<ProcessingStage>)
        ensures
            r == current_stage_spec(*self),
    {
        match self {
            TaskStatus::Processing { stage } => Some(*stage),
            TaskStatus::Failed { error, .. } => error.stage,
            _ => None,
        }
    }
}

/// The stage a status records: the running one, or the one a failure
/// happened in.
pub open spec fn current_stage_spec(s: TaskStatus) -> Option<ProcessingStage> {
    match s {
        TaskStatus::Processing { stage } => Some(stage),
        TaskStatus::Failed { error, .. } => error.stage,
        _ => None,
    }
}

/// Whether a status is one-way terminal (Cancelled or Completed).
pub fn is_terminal(status: &TaskStatus) -> (b: bool)
    ensures
        b == terminal_spec(*status),
{
    match status {
        TaskStatus::Completed { .. } => true,
        TaskStatus::Cancelled { .. } => true,
        _ => false,
    }
}

/// Whether a status update from `current` to `new` is applied; a refused
/// update leaves the task as it was.
pub fn status_update_allowed(current: &TaskStatus, new: &TaskStatus) -> (b: bool)
    ensures
        b == update_allowed_spec(*current, *new),
{
    !is_terminal(current) || current.kind() == new.kind()
}

/// Whether a stage change, a progress-driven move to processing or a late
/// error is applied: only to a task that is not terminal.
pub fn stage_update_allowed(current: &TaskStatus) -> (b: bool)
    ensures
        b == !terminal_spec(*current),
{
    !is_terminal(current)
}

/// The status a task is given when it is aborted: failed with code
/// `E010`, the message, and the stage it was in, keeping its retry count.
pub fn abort_status(current: &TaskStatus, retry_count: u32, message: &str) -> (s: TaskStatus)
    ensures
        s matches TaskStatus::Failed { error, retry_count: n } && error.error_code@ == "E010"@
            && error.error_message@ == message@ && error.stage == current_stage_spec(*current)
            && n == retry_count,
{
    TaskStatus::Failed {
        error: TaskError {
            error_code: String::from_str("E010"),
            error_message: String::from_str(message),
            stage: current.get_current_stage(),
        },
        retry_count,
    }
}

/// The status of a task after a request to cancel it with an optional
/// reason: `None` where the task is terminal and refuses it, else
/// cancelled with that reason.
pub open spec fn cancel_spec(current: TaskStatus, reason: Option<String>) -> Option<TaskStatus> {
    if terminal_spec(current) {
        None
    } else {
        Some(TaskStatus::Cancelled { reason })
    }
}

/// The status after a request to cancel (see [`cancel_spec`]).
pub fn cancel_status(current: &TaskStatus, reason: Option<String>) -> (r: Option<TaskStatus>)
    ensures
        r == cancel_spec(*current, reason),
{
    if is_terminal(current) {
        None
    } else {
        Some(TaskStatus::Cancelled { reason })
    }
}

/// Cancelling never turns a terminal task into another state, and a task
/// that is cancelled is terminal afterwards.
pub proof fn lemma_cancel_is_one_way(current: TaskStatus, reason: Option<String>)
    ensures
        cancel_spec(current, reason) matches Some(s) ==> terminal_spec(s) && update_allowed_spec(
            current,
            s,
        ),
        terminal_spec(current) ==> cancel_spec(current, reason) is None,
{
}

/// Where a task's document comes from.
#[derive(Debug, Clone, Copy, PartialEq, Eq, Structural)]
pub enum SourceType {
    Upload,
    Url,
}

/// What processing a task means: parsing a local file or a download.
#[derive(Debug, Clone)]
pub enum TaskAction {
    ParseFile(String),
    ParseUrl(String),
}

/// The processing a queued task calls for: an upload parses its stored
/// file; a URL task downloads its URL (or, lacking one, its source path).
/// A task missing what it needs is an error.
pub fn plan_task_processing(
    source_type: SourceType,
    source_path: Option<String>,
    source_url: Option<String>,
) -> (r: Result<TaskAction, AppError>)
    ensures
        match source_type {
            SourceType::Upload => match source_path {
                Some(p) => r matches Ok(TaskAction::ParseFile(f)) && f@ == p@,
                None => r matches Err(e) && e is Task && e.message() == "上传任务缺少文件路径"@,
            },
            SourceType::Url => match (source_url, source_path) {
                (Some(u), _) => r matches Ok(TaskAction::ParseUrl(f)) && f@ == u@,
                (None, Some(p)) => r matches Ok(TaskAction::ParseUrl(f)) && f@ == p@,
                (None, None) => r matches Err(e) && e is Task && e.message()
                    == "URL 任务缺少下载地址"@,
            },
        },
{
    match source_type {
        SourceType::Upload => match source_path {
            Some(p) => Ok(TaskAction::ParseFile(p)),
            None => Err(AppError::Task(String::from_str("上传任务缺少文件路径"))),
        },
        SourceType::Url => match source_url {
            Some(u) => Ok(TaskAction::ParseUrl(u)),
            None => match source_path {
                Some(p) => Ok(TaskAction::ParseUrl(p)),
                None => Err(AppError::Task(String::from_str("URL 任务缺少下载地址"))),
            },
        },
    }
}

/// The error for a task id that the store does not know.
pub fn task_not_found(task_id: &str) -> (e: AppError)
    ensures
        e is Task && e.message() == "任务不存在: "@ + task_id@,
{
    let mut m = String::from_str("任务不存在: ");
    push_str(&mut m, task_id);
    AppError::Task(m)
}

/// A terminal status stays in its variant under every allowed update, and
/// the result is terminal again.
pub proof fn lemma_terminal_is_sticky(current: TaskStatus, new: TaskStatus)
    requires
        terminal_spec(current),
        update_allowed_spec(current, new),
    ensures
        kind_spec(new) == kind_spec(current),
        terminal_spec(new),
{
}

/// A status that is not terminal accepts every update.
pub proof fn lemma_open_accepts_all(current: TaskStatus, new: TaskStatus)
    requires
        !terminal_spec(current),
    ensures
        update_allowed_spec(current, new),
{
}

/// What the library reads of a stored task; `created_at_ms` is
/// milliseconds since the Unix epoch.
#[derive(Debug, Clone)]
pub struct TaskRecord {
    pub id: String,
    pub status: TaskStatus,
    pub parser_engine: Option<ParserEngine>,
    pub document_format: Option<DocumentFormat>,
    pub created_at_ms: u64,
}

/// Short description of a failed task.
#[derive(Debug, Clone)]
pub struct FailedTaskSummary {
    pub task_id: String,
    pub error_code: String,
    pub error_message: String,
    pub stage: Option<ProcessingStage>,
}

/// Processing time of a completed task, in milliseconds.
#[derive(Debug, Clone)]
pub struct CompletedTaskTime {
    pub task_id: String,
    pub processing_time_ms: u64,
}

impl View for FailedTaskSummary {
    type V = (Seq<char>, Seq<char>, Seq<char>, Option<ProcessingStage>);

    open spec fn view(&self) -> Self::V {
        (self.task_id@, self.error_code@, self.error_message@, self.stage)
    }
}

impl View for CompletedTaskTime {
    type V = (Seq<char>, u64);

    open spec fn view(&self) -> Self::V {
        (self.task_id@, self.processing_time_ms)
    }
}

/// Statistics over the stored tasks.
#[derive(Debug, Clone)]
pub struct TaskStats {
    pub total_count: usize,
    pub pending_count: usize,
    pub processing_count: usize,
    pub completed_count: usize,
    pub failed_count: usize,
    pub cancelled_count: usize,
    pub mineru_count: usize,
    pub markitdown_count: usize,
    pub pending_ids: Vec<String>,
    pub processing_ids: Vec<String>,
    pub completed_ids: Vec<String>,
    pub cancelled_ids: Vec<String>,
    pub failed_ids: Vec<String>,
    pub failed_details: Vec<FailedTaskSummary>,
    pub completed_task_times: Vec<CompletedTaskTime>,
    pub average_processing_time_ms: Option<u64>,
}

/// Ids of the tasks in a given state, in order.
pub open spec fn ids_of_kind(tasks: Seq<TaskRecord>, k: StatusKind) -> Seq<Seq<char>>
    decreases tasks.len(),
{
    if tasks.len() == 0 {
        Seq::empty()
    } else if kind_spec(tasks.last().status) == k {
        ids_of_kind(tasks.drop_last(), k).push(tasks.last().id@)
    } else {
        ids_of_kind(tasks.drop_last(), k)
    }
}

/// Number of tasks parsed by a given engine.
pub open spec fn engine_count(tasks: Seq<TaskRecord>, e: ParserEngine) -> nat
    decreases tasks.len(),
{
    if tasks.len() == 0 {
        0
    } else if tasks.last().parser_engine == Some(e) {
        engine_count(tasks.drop_last(), e) + 1
    } else {
        engine_count(tasks.drop_last(), e)
    }
}

/// Processing times of the completed tasks, in order.
pub open spec fn completed_times(tasks: Seq<TaskRecord>) -> Seq<(Seq<char>, u64)>
    decreases tasks.len(),
{
    if tasks.len() == 0 {
        Seq::empty()
    } else {
        match tasks.last().status {
            TaskStatus::Completed { processing_time_ms } => completed_times(tasks.drop_last()).push(
                (tasks.last().id@, processing_time_ms),
            ),
            _ => completed_times(tasks.drop_last()),
        }
    }
}

/// Summaries of the failed tasks, in order.
pub open spec fn failed_summaries(tasks: Seq<TaskRecord>) -> Seq<
    (Seq<char>, Seq<char>, Seq<char>, Option<ProcessingStage>),
>
    decreases tasks.len(),
{
    if tasks.len() == 0 {
        Seq::empty()
    } else {
        match tasks.last().status {
            TaskStatus::Failed { error, .. } => failed_summaries(tasks.drop_last()).push(
                (tasks.last().id@, error.error_code@, error.error_message@, error.stage),
            ),
            _ => failed_summaries(tasks.drop_last()),
        }
    }
}

/// Sum of processing times.
pub open spec fn time_sum(times: Seq<(Seq<char>, u64)>) -> nat
    decreases times.len(),
{
    if times.len() == 0 {
        0
    } else {
        time_sum(times.drop_last()) + times.last().1 as nat
    }
}

/// Whether `st` is the statistics of `tasks`.
pub open spec fn stats_match(st: TaskStats, tasks: Seq<TaskRecord>) -> bool {
    &&& st.total_count == tasks.len()
    &&& st.pending_ids.deep_view() == ids_of_kind(tasks, StatusKind::Pending)
    &&& st.processing_ids.deep_view() == ids_of_kind(tasks, StatusKind::Processing)
    &&& st.completed_ids.deep_view() == ids_of_kind(tasks, StatusKind::Completed)
    &&& st.failed_ids.deep_view() == ids_of_kind(tasks, StatusKind::Failed)
    &&& st.cancelled_ids.deep_view() == ids_of_kind(tasks, StatusKind::Cancelled)
    &&& st.pending_count == st.pending_ids@.len()
    &&& st.processing_count == st.processing_ids@.len()
    &&& st.completed_count == st.completed_ids@.len()
    &&& st.failed_count == st.failed_ids@.len()
    &&& st.cancelled_count == st.cancelled_ids@.len()
    &&& st.mineru_count == engine_count(tasks, ParserEngine::MinerU)
    &&& st.markitdown_count == engine_count(tasks, ParserEngine::MarkItDown)
    &&& st.failed_details@.map_values(|f: FailedTaskSummary| f@) == failed_summaries(tasks)
    &&& st.completed_task_times@.map_values(|c: CompletedTaskTime| c@) == completed_times(tasks)
    &&& st.average_processing_time_ms == if completed_times(tasks).len() == 0 {
        None::<u64>
    } else {
        Some((time_sum(completed_times(tasks)) / completed_times(tasks).len()) as u64)
    }
}

/// The sum of the processing times of a prefix is at most the whole sum.
pub proof fn lemma_time_sum_prefix(tasks: Seq<TaskRecord>, i: int)
    requires
        0 <= i <= tasks.len(),
    ensures
        time_sum(completed_times(tasks.take(i))) <= time_sum(completed_times(tasks)),
    decreases tasks.len(),
{
    if i < tasks.len() {
        assert(tasks.drop_last().take(i) =~= tasks.take(i));
        lemma_time_sum_prefix(tasks.drop_last(), i);
        let r = completed_times(tasks.drop_last());
        match tasks.last().status {
            TaskStatus::Completed { processing_time_ms } => {
                assert(r.push((tasks.last().id@, processing_time_ms)).drop_last() =~= r);
            },
            _ => {},
        }
    } else {
        assert(tasks.take(i) =~= tasks);
    }
}

/// Every task is counted in exactly one state.
pub proof fn lemma_counts_partition(tasks: Seq<TaskRecord>)
    ensures
        ids_of_kind(tasks, StatusKind::Pending).len() + ids_of_kind(
            tasks,
            StatusKind::Processing,
        ).len() + ids_of_kind(tasks, StatusKind::Completed).len() + ids_of_kind(
            tasks,
            StatusKind::Failed,
        ).len() + ids_of_kind(tasks, StatusKind::Cancelled).len() == tasks.len(),
        completed_times(tasks).len() == ids_of_kind(tasks, StatusKind::Completed).len(),
        failed_summaries(tasks).len() == ids_of_kind(tasks, StatusKind::Failed).len(),
        engine_count(tasks, ParserEngine::MinerU) + engine_count(tasks, ParserEngine::MarkItDown)
            <= tasks.len(),
    decreases tasks.len(),
{
    if tasks.len() > 0 {
        lemma_counts_partition(tasks.drop_last());
    }
}

fn push_id(ids: &mut Vec<String>, id: &String)
    ensures
        final(ids).deep_view() == old(ids).deep_view().push(id@),
        final(ids)@.len() == old(ids)@.len() + 1,
{
    let ghost before = ids.deep_view();
    ids.push(id.clone());
    proof {
        assert(ids.deep_view() =~= before.push(id@));
    }
}

impl TaskStats {
    /// Statistics of the given tasks.
    #[verifier::rlimit(40)]
    pub fn from_tasks(tasks: &Vec<TaskRecord>) -> (st: TaskStats)
        requires
            time_sum(completed_times(tasks@)) <= u64::MAX,
        ensures
            stats_match(st, tasks@),
            st.pending_count + st.processing_count + st.completed_count + st.failed_count
                + st.cancelled_count == st.total_count,
    {
        let mut st = TaskStats {
            total_count: 0,
            pending_count: 0,
            processing_count: 0,
            completed_count: 0,
            failed_count: 0,
            cancelled_count: 0,
            mineru_count: 0,
            markitdown_count: 0,
            pending_ids: Vec::new(),
            processing_ids: Vec::new(),
            completed_ids: Vec::new(),
            cancelled_ids: Vec::new(),
            failed_ids: Vec::new(),
            failed_details: Vec::new(),
            completed_task_times: Vec::new(),
            average_processing_time_ms: None,
        };
        let mut total_time: u64 = 0;
        let mut i: usize = 0;
        proof {
            assert(tasks@.take(0) =~= Seq::<TaskRecord>::empty());
            assert(st.pending_ids.deep_view() =~= Seq::<Seq<char>>::empty());
            assert(st.processing_ids.deep_view() =~= Seq::<Seq<char>>::empty());
            assert(st.completed_ids.deep_view() =~= Seq::<Seq<char>>::empty());
            assert(st.failed_ids.deep_view() =~= Seq::<Seq<char>>::empty());
            assert(st.cancelled_ids.deep_view() =~= Seq::<Seq<char>>::empty());
            assert(st.failed_details@.map_values(|f: FailedTaskSummary| f@) =~= Seq::<
                (Seq<char>, Seq<char>, Seq<char>, Option<ProcessingStage>),
            >::empty());
            assert(st.completed_task_times@.map_values(|c: CompletedTaskTime| c@) =~= Seq::<
                (Seq<char>, u64),
            >::empty());
        }
        while i < tasks.len()
            invariant
                i <= tasks.len(),
                time_sum(completed_times(tasks@)) <= u64::MAX,
                st.total_count == i,
                st.pending_ids.deep_view() == ids_of_kind(tasks@.take(i as int), StatusKind::Pending),
                st.processing_ids.deep_view() == ids_of_kind(
                    tasks@.take(i as int),
                    StatusKind::Processing,
                ),
                st.completed_ids.deep_view() == ids_of_kind(
                    tasks@.take(i as int),
                    StatusKind::Completed,
                ),
                st.failed_ids.deep_view() == ids_of_kind(tasks@.take(i as int), StatusKind::Failed),
                st.cancelled_ids.deep_view() == ids_of_kind(
                    tasks@.take(i as int),
                    StatusKind::Cancelled,
                ),
                st.pending_count == st.pending_ids@.len(),
                st.processing_count == st.processing_ids@.len(),
                st.completed_count == st.completed_ids@.len(),
                st.failed_count == st.failed_ids@.len(),
                st.cancelled_count == st.cancelled_ids@.len(),
                st.mineru_count == engine_count(tasks@.take(i as int), ParserEngine::MinerU),
                st.markitdown_count == engine_count(tasks@.take(i as int), ParserEngine::MarkItDown),
                st.failed_details@.map_values(|f: FailedTaskSummary| f@) == failed_summaries(
                    tasks@.take(i as int),
                ),
                st.completed_task_times@.map_values(|c: CompletedTaskTime| c@) == completed_times(
                    tasks@.take(i as int),
                ),
                total_time == time_sum(completed_times(tasks@.take(i as int))),
                st.average_processing_time_ms is None,
            decreases tasks.len() - i,
        {
            let ghost pre = tasks@.take(i as int);
            let ghost cur = tasks@.take(i + 1);
            proof {
                assert(cur.drop_last() =~= pre);
                assert(cur.last() == tasks@[i as int]);
                lemma_counts_partition(pre);
                lemma_time_sum_prefix(tasks@, i + 1);
            }
            let t = &tasks[i];
            st.total_count = st.total_count + 1;
            match &t.status {
                TaskStatus::Pending => {
                    push_id(&mut st.pending_ids, &t.id);
                    st.pending_count = st.pending_count + 1;
                },
                TaskStatus::Processing { .. } => {
                    push_id(&mut st.processing_ids, &t.id);
                    st.processing_count = st.processing_count + 1;
                },
                TaskStatus::Completed { processing_time_ms } => {
                    push_id(&mut st.completed_ids, &t.id);
                    st.completed_count = st.completed_count + 1;
                    let ghost before = st.completed_task_times@.map_values(
                        |c: CompletedTaskTime| c@,
                    );
                    st.completed_task_times.push(
                        CompletedTaskTime {
                            task_id: t.id.clone(),
                            processing_time_ms: *processing_time_ms,
                        },
                    );
                    proof {
                        let r = completed_times(pre);
                        assert(r.push((t.id@, *processing_time_ms)).drop_last() =~= r);
                        assert(completed_times(cur) == r.push((t.id@, *processing_time_ms)));
                    }
                    total_time = total_time + *processing_time_ms;
                    proof {
                        assert(st.completed_task_times@.map_values(|c: CompletedTaskTime| c@)
                            =~= before.push((t.id@, *processing_time_ms)));
                    }
                },
                TaskStatus::Failed { error, .. } => {
                    push_id(&mut st.failed_ids, &t.id);
                    st.failed_count = st.failed_count + 1;
                    let ghost before = st.failed_details@.map_values(|f: FailedTaskSummary| f@);
                    st.failed_details.push(
                        FailedTaskSummary {
                            task_id: t.id.clone(),
                            error_code: error.error_code.clone(),
                            error_message: error.error_message.clone(),
                            stage: error.stage,
                        },
                    );
                    proof {
                        assert(st.failed_details@.map_values(|f: FailedTaskSummary| f@) =~= before.push(
                            (t.id@, error.error_code@, error.error_message@, error.stage),
                        ));
                    }
                },
                TaskStatus::Cancelled { .. } => {
                    push_id(&mut st.cancelled_ids, &t.id);
                    st.cancelled_count = st.cancelled_count + 1;
                },
            }
            match t.parser_engine {
                Some(ParserEngine::MinerU) => {
                    st.mineru_count = st.mineru_count + 1;
                },
                Some(ParserEngine::MarkItDown) => {
                    st.markitdown_count = st.markitdown_count + 1;
                },
                None => {},
            }
            i = i + 1;
        }
        proof {
            assert(tasks@.take(tasks.len() as int) =~= tasks@);
            lemma_counts_partition(tasks@);
        }
        let n = st.completed_task_times.len();
        if n > 0 {
            st.average_processing_time_ms = Some(total_time / (n as u64));
        }
        st
    }
}

} // verus!
