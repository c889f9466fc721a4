//! Creating the project's Python virtual environment with `uv`: what to do
//! with a directory that is already there, the command line, how a failure
//! is reported, and the steps of the whole run with their progress reports.

use vstd::prelude::*;
use crate::env_types::InstallStage;
use crate::error::AppError;
use crate::formats::{lowercase, to_lowercase};
use crate::text::{contains_spec, push_str, str_contains};

verus! {

/// What to do about the `venv` directory before creating it.
#[derive(Debug, Clone, Copy, PartialEq, Eq, Structural)]
pub enum VenvPlan {
    /// A complete environment is there: nothing to do.
    AlreadyComplete,
    /// A directory without an interpreter is there: remove it, then create.
    CleanThenCreate,
    /// Nothing usable is there: create.
    Create,
}

/// The plan for a `venv` path, given whether it exists, whether it is a
/// directory and whether its interpreter exists.
pub open spec fn venv_plan_spec(exists: bool, is_dir: bool, python_exists: bool) -> VenvPlan {
    if exists && is_dir {
        if python_exists {
            VenvPlan::AlreadyComplete
        } else {
            VenvPlan::CleanThenCreate
        }
    } else {
        VenvPlan::Create
    }
}

/// Decides what to do about the `venv` path.
pub fn venv_plan(exists: bool, is_dir: bool, python_exists: bool) -> (p: VenvPlan)
    ensures
        p == venv_plan_spec(exists, is_dir, python_exists),
{
    if exists && is_dir {
        if python_exists {
            VenvPlan::AlreadyComplete
        } else {
            VenvPlan::CleanThenCreate
        }
    } else {
        VenvPlan::Create
    }
}

fn lit(s: &str) -> (r: String)
    ensures
        r@ == s@,
{
    String::from_str(s)
}

/// The arguments of `uv` that create an environment named `venv` in the
/// working directory with `python3`.
pub open spec fn uv_venv_args_spec() -> Seq<Seq<char>> {
    seq!["venv"@, "venv"@, "--python"@, "python3"@]
}

/// The arguments of `uv` for creating the environment.
pub fn uv_venv_args() -> (a: Vec<String>)
    ensures
        a.deep_view() == uv_venv_args_spec(),
{
    let mut a: Vec<String> = Vec::new();
    a.push(lit("venv"));
    a.push(lit("venv"));
    a.push(lit("--python"));
    a.push(lit("python3"));
    proof {
        assert(a.deep_view() =~= uv_venv_args_spec());
    }
    a
}

/// The text of a failed `uv` run: its error output, else its output,
/// else a placeholder.
pub open spec fn venv_failure_text_spec(stderr: Seq<char>, stdout: Seq<char>) -> Seq<char> {
    if stderr.len() > 0 {
        stderr
    } else if stdout.len() > 0 {
        stdout
    } else {
        "未知错误"@
    }
}

/// The text of a failed `uv` run.
pub fn venv_failure_text(stderr: &str, stdout: &str) -> (m: String)
    ensures
        m@ == venv_failure_text_spec(stderr@, stdout@),
{
    if stderr.unicode_len() > 0 {
        lit(stderr)
    } else if stdout.unicode_len() > 0 {
        lit(stdout)
    } else {
        lit("未知错误")
    }
}

/// The message of a failed creation, by what the failure text mentions
/// (compared in lower case): permissions, disk space, a path conflict, a
/// path, a timeout, or anything else.
pub open spec fn venv_error_message(error: Seq<char>) -> Seq<char> {
    let l = lowercase(error);
    if contains_spec(l, "permission"@) || contains_spec(l, "权限"@) {
        "虚拟环境创建权限错误: "@ + error
    } else if contains_spec(l, "space"@) || contains_spec(l, "空间"@) || contains_spec(l, "disk"@) {
        "磁盘空间不足导致虚拟环境创建失败: "@ + error
    } else if contains_spec(l, "exists"@) || contains_spec(l, "存在"@) {
        "虚拟环境路径冲突: "@ + error
    } else if contains_spec(l, "path"@) || contains_spec(l, "路径"@) {
        "虚拟环境路径错误: "@ + error
    } else if contains_spec(l, "timeout"@) || contains_spec(l, "超时"@) {
        "虚拟环境创建超时: "@ + error
    } else {
        "虚拟环境创建失败: "@ + error
    }
}

/// The error of a failed creation: an environment error with the message
/// [`venv_error_message`] gives.
pub fn venv_creation_error(error: &str) -> (e: AppError)
    ensures
        e is Environment,
        e.message() == venv_error_message(error@),
{
    let l = to_lowercase(error);
    let ls = l.as_str();
    let prefix = if str_contains(ls, "permission") || str_contains(ls, "权限") {
        "虚拟环境创建权限错误: "
    } else if str_contains(ls, "space") || str_contains(ls, "空间") || str_contains(ls, "disk") {
        "磁盘空间不足导致虚拟环境创建失败: "
    } else if str_contains(ls, "exists") || str_contains(ls, "存在") {
        "虚拟环境路径冲突: "
    } else if str_contains(ls, "path") || str_contains(ls, "路径") {
        "虚拟环境路径错误: "
    } else if str_contains(ls, "timeout") || str_contains(ls, "超时") {
        "虚拟环境创建超时: "
    } else {
        "虚拟环境创建失败: "
    };
    let mut m = lit(prefix);
    push_str(&mut m, error);
    AppError::Environment(m)
}

/// Where a creation run stands.
#[derive(Debug, Clone, Copy, PartialEq, Eq, Structural)]
pub enum VenvState {
    /// The preconditions are being checked.
    Validating,
    /// A broken environment is being removed.
    Cleaning,
    /// `uv` is creating the environment.
    Creating,
    /// The new environment is being checked.
    Verifying,
    /// The run is over.
    Finished,
}

/// What the caller found out while doing the last action.
#[derive(Debug, Clone)]
pub enum VenvEvent {
    /// The preconditions do not hold.
    PreconditionsFailed(AppError),
    /// The preconditions hold; what is at the `venv` path.
    Found { exists: bool, is_dir: bool, python_exists: bool },
    /// Removing the broken environment failed, with the reason.
    CleanupFailed(String),
    /// The broken environment is gone.
    Cleaned,
    /// `uv` did not finish in time.
    UvTimedOut,
    /// `uv` could not be run, with the reason.
    UvNotRun(String),
    /// `uv` finished, successfully or not, with its outputs.
    UvFinished { success: bool, stderr: String, stdout: String },
    /// The new environment is not usable.
    VerifyFailed(AppError),
    /// The new environment is usable.
    Verified,
}

/// What the caller does next.
#[derive(Debug)]
pub enum VenvAction {
    /// Check the preconditions and look at the `venv` path.
    CheckPreconditions,
    /// Remove the `venv` directory.
    Clean,
    /// Run `uv` with these arguments in the base directory.
    RunUv(Vec<String>),
    /// Check the new environment.
    Verify,
    /// Stop with this outcome.
    Finish(Result<(), AppError>),
}

/// A progress report of the run (component `虚拟环境`).
#[derive(Debug, Clone)]
pub struct VenvReport {
    pub stage: InstallStage,
    pub progress: u32,
    pub message: String,
}

/// The state entered, the next action and the reports to send, in order.
#[derive(Debug)]
pub struct VenvTransition {
    pub state: VenvState,
    pub action: VenvAction,
    pub reports: Vec<VenvReport>,
}

/// A report at a stage without a reason.
pub open spec fn is_report(r: VenvReport, stage: InstallStage, progress: u32, message: Seq<char>) -> bool {
    r.stage == stage && r.progress == progress && r.message@ == message
}

/// A failure report carrying `reason`, at 0 percent.
pub open spec fn is_failure_report(r: VenvReport, reason: Seq<char>, message: Seq<char>) -> bool {
    &&& r.stage matches InstallStage::Failed(t) && t@ == reason
    &&& r.progress == 0
    &&& r.message@ == message
}

/// The two reports sent when `uv` is about to run, and that action.
pub open spec fn starts_uv(t: VenvTransition) -> bool {
    &&& t.state == VenvState::Creating
    &&& t.action matches VenvAction::RunUv(a) && a.deep_view() == uv_venv_args_spec()
    &&& t.reports@.len() == 2
    &&& is_report(t.reports@[0], InstallStage::Preparing, 15, "准备创建虚拟环境"@)
    &&& is_report(t.reports@[1], InstallStage::Installing, 50, "创建虚拟环境"@)
}

/// The run stops with an environment error carrying `message`, and no
/// report.
pub open spec fn fails_quietly(t: VenvTransition, message: Seq<char>) -> bool {
    &&& t.state == VenvState::Finished
    &&& t.action matches VenvAction::Finish(Err(e)) && e is Environment && e.message() == message
    &&& t.reports@.len() == 0
}

/// The run stops with one report.
pub open spec fn finishes_with(t: VenvTransition, outcome: Result<(), AppError>) -> bool {
    &&& t.state == VenvState::Finished
    &&& t.action matches VenvAction::Finish(o) && o == outcome
    &&& t.reports@.len() == 1
}

/// Whether an event answers the action of a state.
pub open spec fn venv_event_fits(s: VenvState, e: VenvEvent) -> bool {
    match s {
        VenvState::Validating => e is PreconditionsFailed || e is Found,
        VenvState::Cleaning => e is CleanupFailed || e is Cleaned,
        VenvState::Creating => e is UvTimedOut || e is UvNotRun || e is UvFinished,
        VenvState::Verifying => e is VerifyFailed || e is Verified,
        VenvState::Finished => false,
    }
}

/// Whether an event answers the action of a state (see
/// [`venv_event_fits`]).
pub fn event_fits(s: VenvState, e: &VenvEvent) -> (b: bool)
    ensures
        b == venv_event_fits(s, *e),
{
    match s {
        VenvState::Validating => match e {
            VenvEvent::PreconditionsFailed(_) | VenvEvent::Found { .. } => true,
            _ => false,
        },
        VenvState::Cleaning => match e {
            VenvEvent::CleanupFailed(_) | VenvEvent::Cleaned => true,
            _ => false,
        },
        VenvState::Creating => match e {
            VenvEvent::UvTimedOut | VenvEvent::UvNotRun(_) | VenvEvent::UvFinished { .. } => true,
            _ => false,
        },
        VenvState::Verifying => match e {
            VenvEvent::VerifyFailed(_) | VenvEvent::Verified => true,
            _ => false,
        },
        VenvState::Finished => false,
    }
}

/// The transition of a state on an event that answers its action.
pub open spec fn venv_step_spec(s: VenvState, e: VenvEvent, t: VenvTransition) -> bool {
    match e {
        VenvEvent::PreconditionsFailed(err) => {
            &&& finishes_with(t, Err(err))
            &&& is_failure_report(t.reports@[0], err.message(), "前置条件检查失败"@)
        },
        VenvEvent::Found { exists, is_dir, python_exists } => match venv_plan_spec(
            exists,
            is_dir,
            python_exists,
        ) {
            VenvPlan::AlreadyComplete => {
                &&& finishes_with(t, Ok(()))
                &&& is_report(t.reports@[0], InstallStage::Completed, 100, "虚拟环境已存在"@)
            },
            VenvPlan::CleanThenCreate => {
                &&& t.state == VenvState::Cleaning
                &&& t.action is Clean
                &&& t.reports@.len() == 1
                &&& is_report(t.reports@[0], InstallStage::Preparing, 10, "清理损坏的虚拟环境"@)
            },
            VenvPlan::Create => starts_uv(t),
        },
        VenvEvent::CleanupFailed(reason) => fails_quietly(t, "清理虚拟环境失败: "@ + reason@),
        VenvEvent::Cleaned => starts_uv(t),
        VenvEvent::UvTimedOut => fails_quietly(t, venv_error_message("虚拟环境创建超时"@)),
        VenvEvent::UvNotRun(reason) => fails_quietly(
            t,
            venv_error_message("命令执行失败: "@ + reason@),
        ),
        VenvEvent::UvFinished { success, stderr, stdout } => if success {
            &&& t.state == VenvState::Verifying
            &&& t.action is Verify
            &&& t.reports@.len() == 1
            &&& is_report(t.reports@[0], InstallStage::Verifying, 90, "验证虚拟环境"@)
        } else {
            let text = venv_failure_text_spec(stderr@, stdout@);
            &&& t.state == VenvState::Finished
            &&& t.action matches VenvAction::Finish(Err(x)) && x is Environment && x.message()
                == venv_error_message(text)
            &&& t.reports@.len() == 1
            &&& is_failure_report(t.reports@[0], text, "创建失败"@)
        },
        VenvEvent::VerifyFailed(err) => {
            &&& finishes_with(t, Err(err))
            &&& is_failure_report(t.reports@[0], err.message(), "验证失败"@)
        },
        VenvEvent::Verified => {
            &&& finishes_with(t, Ok(()))
            &&& is_report(t.reports@[0], InstallStage::Completed, 100, "虚拟环境创建完成"@)
        },
    }
}

fn report(stage: InstallStage, progress: u32, message: &str) -> (r: VenvReport)
    ensures
        r.stage == stage && r.progress == progress && r.message@ == message@,
{
    VenvReport { stage, progress, message: lit(message) }
}

fn error_message(e: &AppError) -> (m: String)
    ensures
        m@ == e.message(),
{
    match e {
        AppError::Environment(m) => m.clone(),
        AppError::Validation(m) => m.clone(),
        AppError::File(m) => m.clone(),
        AppError::UnsupportedFormat(m) => m.clone(),
        AppError::Task(m) => m.clone(),
        AppError::MinerU(m) => m.clone(),
        AppError::Config(m) => m.clone(),
        AppError::MarkItDown(m) => m.clone(),
    }
}

fn start_uv() -> (t: VenvTransition)
    ensures
        starts_uv(t),
{
    let mut reports: Vec<VenvReport> = Vec::new();
    reports.push(report(InstallStage::Preparing, 15, "准备创建虚拟环境"));
    reports.push(report(InstallStage::Installing, 50, "创建虚拟环境"));
    VenvTransition { state: VenvState::Creating, action: VenvAction::RunUv(uv_venv_args()), reports }
}

fn one(state: VenvState, action: VenvAction, r: VenvReport) -> (t: VenvTransition)
    ensures
        t.state == state && t.action == action && t.reports@ == seq![r],
{
    let mut reports: Vec<VenvReport> = Vec::new();
    reports.push(r);
    proof {
        assert(reports@ =~= seq![r]);
    }
    VenvTransition { state, action, reports }
}

fn quiet_failure(message: String) -> (t: VenvTransition)
    ensures
        fails_quietly(t, message@),
{
    VenvTransition {
        state: VenvState::Finished,
        action: VenvAction::Finish(Err(AppError::Environment(message))),
        reports: Vec::new(),
    }
}

/// How a run begins: check the preconditions, reporting 5 percent.
pub fn venv_start() -> (t: VenvTransition)
    ensures
        t.state == VenvState::Validating,
        t.action is CheckPreconditions,
        t.reports@.len() == 1,
        is_report(t.reports@[0], InstallStage::Preparing, 5, "验证创建条件"@),
{
    one(
        VenvState::Validating,
        VenvAction::CheckPreconditions,
        report(InstallStage::Preparing, 5, "验证创建条件"),
    )
}

/// The next step of a run in state `s` once the caller reports `e`.
pub fn venv_step(s: VenvState, e: VenvEvent) -> (t: VenvTransition)
    requires
        venv_event_fits(s, e),
    ensures
        venv_step_spec(s, e, t),
{
    match e {
        VenvEvent::PreconditionsFailed(err) => {
            let reason = error_message(&err);
            one(
                VenvState::Finished,
                VenvAction::Finish(Err(err)),
                VenvReport { stage: InstallStage::Failed(reason), progress: 0, message: lit("前置条件检查失败") },
            )
        },
        VenvEvent::Found { exists, is_dir, python_exists } => match venv_plan(
            exists,
            is_dir,
            python_exists,
        ) {
            VenvPlan::AlreadyComplete => one(
                VenvState::Finished,
                VenvAction::Finish(Ok(())),
                report(InstallStage::Completed, 100, "虚拟环境已存在"),
            ),
            VenvPlan::CleanThenCreate => one(
                VenvState::Cleaning,
                VenvAction::Clean,
                report(InstallStage::Preparing, 10, "清理损坏的虚拟环境"),
            ),
            VenvPlan::Create => start_uv(),
        },
        VenvEvent::CleanupFailed(reason) => {
            let mut m = lit("清理虚拟环境失败: ");
            push_str(&mut m, reason.as_str());
            quiet_failure(m)
        },
        VenvEvent::Cleaned => start_uv(),
        VenvEvent::UvTimedOut => {
            let err = venv_creation_error("虚拟环境创建超时");
            VenvTransition {
                state: VenvState::Finished,
                action: VenvAction::Finish(Err(err)),
                reports: Vec::new(),
            }
        },
        VenvEvent::UvNotRun(reason) => {
            let mut m = lit("命令执行失败: ");
            push_str(&mut m, reason.as_str());
            let err = venv_creation_error(m.as_str());
            VenvTransition {
                state: VenvState::Finished,
                action: VenvAction::Finish(Err(err)),
                reports: Vec::new(),
            }
        },
        VenvEvent::UvFinished { success, stderr, stdout } => {
            if success {
                one(
                    VenvState::Verifying,
                    VenvAction::Verify,
                    report(InstallStage::Verifying, 90, "验证虚拟环境"),
                )
            } else {
                let text = venv_failure_text(stderr.as_str(), stdout.as_str());
                let err = venv_creation_error(text.as_str());
                one(
                    VenvState::Finished,
                    VenvAction::Finish(Err(err)),
                    VenvReport { stage: InstallStage::Failed(text), progress: 0, message: lit("创建失败") },
                )
            }
        },
        VenvEvent::VerifyFailed(err) => {
            let reason = error_message(&err);
            one(
                VenvState::Finished,
                VenvAction::Finish(Err(err)),
                VenvReport { stage: InstallStage::Failed(reason), progress: 0, message: lit("验证失败") },
            )
        },
        VenvEvent::Verified => one(
            VenvState::Finished,
            VenvAction::Finish(Ok(())),
            report(InstallStage::Completed, 100, "虚拟环境创建完成"),
        ),
    }
}

/// The progress reported on entering a state that is not the last.
pub open spec fn state_progress(s: VenvState) -> u32 {
    match s {
        VenvState::Validating => 5,
        VenvState::Cleaning => 10,
        VenvState::Creating => 50,
        VenvState::Verifying => 90,
        VenvState::Finished => 100,
    }
}

/// The order in which a run passes through the states.
pub open spec fn state_rank(s: VenvState) -> nat {
    match s {
        VenvState::Validating => 0,
        VenvState::Cleaning => 1,
        VenvState::Creating => 2,
        VenvState::Verifying => 3,
        VenvState::Finished => 4,
    }
}

/// A run only moves forward, so it ends after at most four steps; while
/// it goes on, each report is above the progress already reported, and
/// the last one is that of the state entered. Finishing without a failure
/// reports 100 percent, and a run that fails quietly sends no report.
pub proof fn lemma_venv_run_moves_forward(s: VenvState, e: VenvEvent, t: VenvTransition)
    requires
        venv_event_fits(s, e),
        venv_step_spec(s, e, t),
    ensures
        state_rank(t.state) > state_rank(s),
        t.state != VenvState::Finished ==> {
            &&& t.reports@.len() > 0
            &&& forall|i: int|
                0 <= i < t.reports@.len() ==> (#[trigger] t.reports@[i]).progress > state_progress(s)
            &&& t.reports@.last().progress == state_progress(t.state)
        },
        t.action matches VenvAction::Finish(Ok(_)) ==> t.reports@.len() == 1
            && t.reports@[0].progress == 100,
{
}

} // verus!
