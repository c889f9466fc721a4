//! The MinerU engine: its settings, the command line and environment of a
//! run, the input checks, and the decisions taken while a run proceeds.

use vstd::prelude::*;
use crate::env_status::is_windows;
use crate::error::AppError;
use crate::formats::{lowercase, to_lowercase, DocumentFormat, DocumentParser, MIB};
use crate::text::{
    chars_of, contains_spec, decimal, push_decimal, push_signed, push_str, signed_decimal,
    is_ws, is_ws_spec, str_contains, str_eq, trim_chars, trim_spec,
};

verus! {

/// Speed against accuracy of a parse.
#[derive(Debug, Clone, Copy, PartialEq, Eq, Structural)]
pub enum QualityLevel {
    Fast,
    Balanced,
    HighQuality,
}

/// Stage of a parse as reported to progress listeners.
#[derive(Debug, Clone, Copy, PartialEq, Eq, Structural)]
pub enum ParseStage {
    Initializing,
    PreProcessing,
    Parsing,
    PostProcessing,
    Finalizing,
    Completed,
    Failed,
    Cancelled,
}

/// Settings of the MinerU engine (the GPU memory share, a fraction, is
/// kept by the caller). `timeout` is in seconds, 0 meaning the default;
/// `vram` in GB, 0 meaning no limit.
#[derive(Debug, Clone)]
pub struct MinerUConfig {
    pub backend: String,
    pub python_path: String,
    pub max_concurrent: usize,
    pub queue_size: usize,
    pub timeout: u32,
    pub batch_size: usize,
    pub quality_level: QualityLevel,
    pub device: String,
    pub vram: u32,
}

/// Default interpreter of the project virtual environment.
pub open spec fn default_python(windows: bool) -> Seq<char> {
    if windows {
        "./venv/Scripts/python.exe"@
    } else {
        "./venv/bin/python"@
    }
}

/// Default device: Apple's Metal on macOS, the CPU elsewhere.
pub open spec fn default_device(macos: bool) -> Seq<char> {
    if macos {
        "mps"@
    } else {
        "cpu"@
    }
}

/// The default settings on the described platform.
pub open spec fn is_default_config(c: MinerUConfig, windows: bool, macos: bool) -> bool {
    &&& c.python_path@ == default_python(windows)
    &&& c.backend@ == "pipeline"@
    &&& c.timeout == 0
    &&& c.quality_level == QualityLevel::Balanced
    &&& c.device@ == default_device(macos)
    &&& c.max_concurrent == 3
    &&& c.queue_size == 100
    &&& c.batch_size == 1
    &&& c.vram == 0
}

impl MinerUConfig {
    /// The default settings on the described platform.
    pub fn default_for(windows: bool, macos: bool) -> (c: Self)
        ensures
            is_default_config(c, windows, macos),
    {
        MinerUConfig {
            backend: String::from_str("pipeline"),
            python_path: if windows {
                String::from_str("./venv/Scripts/python.exe")
            } else {
                String::from_str("./venv/bin/python")
            },
            max_concurrent: 3,
            queue_size: 100,
            timeout: 0,
            batch_size: 1,
            quality_level: QualityLevel::Balanced,
            device: if macos {
                String::from_str("mps")
            } else {
                String::from_str("cpu")
            },
            vram: 0,
        }
    }

    /// Seconds a run may take: the configured timeout, or an hour when
    /// none is set.
    pub fn effective_timeout_secs(&self) -> (t: u32)
        ensures
            t == if self.timeout == 0 {
                3600
            } else {
                self.timeout
            },
    {
        if self.timeout == 0 {
            3600
        } else {
            self.timeout
        }
    }
}

impl Default for MinerUConfig {
    /// The defaults of this platform; the separator tells Windows apart,
    /// and the device is the CPU (macOS callers use `default_for`).
    fn default() -> (c: Self)
        ensures
            is_default_config(c, true, false) || is_default_config(c, false, false),
    {
        MinerUConfig::default_for(is_windows(), false)
    }
}

/// The MinerU engine with its settings.
#[derive(Debug, Clone)]
pub struct MinerUParser {
    config: MinerUConfig,
}

impl MinerUParser {
    /// An engine with the given settings.
    pub fn new(config: MinerUConfig) -> (p: Self)
        ensures
            p.config_spec() == config,
    {
        MinerUParser { config }
    }

    /// Its settings.
    pub closed spec fn config_spec(&self) -> MinerUConfig {
        self.config
    }

    /// Its settings.
    pub fn config(&self) -> (c: &MinerUConfig)
        ensures
            *c == self.config_spec(),
    {
        &self.config
    }
}

impl DocumentParser for MinerUParser {
    fn supports_format(&self, format: &DocumentFormat) -> (b: bool)
        ensures
            b == format is PDF,
    {
        match format {
            DocumentFormat::PDF => true,
            _ => false,
        }
    }

    fn get_name(&self) -> (s: &'static str)
        ensures
            s@ == "MinerU"@,
    {
        "MinerU"
    }

    fn get_description(&self) -> (s: &'static str)
        ensures
            s@ == "高精度PDF文档解析引擎，支持复杂布局和公式识别"@,
    {
        "高精度PDF文档解析引擎，支持复杂布局和公式识别"
    }
}

/// Arguments and environment of a MinerU run.
#[derive(Debug, Clone)]
pub struct MinerUInvocation {
    pub args: Vec<String>,
    pub envs: Vec<(String, String)>,
}

/// Command-line arguments of a run.
pub open spec fn mineru_args(
    c: MinerUConfig,
    input: Seq<char>,
    output: Seq<char>,
    gpu_share: Option<Seq<char>>,
) -> Seq<Seq<char>> {
    seq!["-p"@, input, "-o"@, output] + (if c.backend@.len() > 0 {
        seq!["-b"@, c.backend@]
    } else {
        Seq::empty()
    }) + match gpu_share {
        Some(g) => if c.backend@ != "pipeline"@ {
            seq!["--gpu-memory-utilization"@, g]
        } else {
            Seq::empty()
        },
        None => Seq::empty(),
    }
}

/// Device a run uses: CUDA when it is there and the CPU was configured.
pub open spec fn run_device(c: MinerUConfig, cuda: bool) -> Seq<char> {
    if cuda && c.device@ == "cpu"@ {
        "cuda"@
    } else {
        c.device@
    }
}

/// Environment variables of a run, in order.
pub open spec fn mineru_envs(c: MinerUConfig, cuda: bool, china: bool) -> Seq<(Seq<char>, Seq<char>)> {
    seq![("MINERU_DEVICE_MODE"@, run_device(c, cuda))] + (if c.vram > 0 {
        seq![("MINERU_VIRTUAL_VRAM_SIZE"@, decimal(c.vram as nat))]
    } else {
        Seq::empty()
    }) + if china {
        seq![("MINERU_MODEL_SOURCE"@, "modelscope"@)]
    } else {
        Seq::empty()
    }
}

fn lit(s: &str) -> (r: String)
    ensures
        r@ == s@,
{
    String::from_str(s)
}

/// The arguments and environment of a MinerU run on `input` writing to
/// `output`, given whether CUDA is there and whether models come from the
/// China mirror. `gpu_share` is the printed GPU memory share where the
/// configured one is above zero (engines other than `pipeline` take it).
pub fn mineru_invocation(
    config: &MinerUConfig,
    input: &str,
    output: &str,
    cuda_available: bool,
    china_region: bool,
    gpu_share: Option<&str>,
) -> (inv: MinerUInvocation)
    ensures
        inv.args.deep_view() == mineru_args(
            *config,
            input@,
            output@,
            match gpu_share {
                Some(g) => Some(g@),
                None => None,
            },
        ),
        inv.envs@.map_values(|e: (String, String)| (e.0@, e.1@)) == mineru_envs(
            *config,
            cuda_available,
            china_region,
        ),
{
    let mut args: Vec<String> = Vec::new();
    args.push(lit("-p"));
    args.push(lit(input));
    args.push(lit("-o"));
    args.push(lit(output));
    if !config.backend.as_str().is_empty() {
        args.push(lit("-b"));
        args.push(config.backend.clone());
    }
    let ghost gs = match gpu_share {
        Some(g) => Some(g@),
        None => None,
    };
    match gpu_share {
        Some(g) => {
            if !str_eq(config.backend.as_str(), "pipeline") {
                args.push(lit("--gpu-memory-utilization"));
                args.push(lit(g));
            }
        },
        None => {},
    }
    proof {
        assert(args.deep_view() =~= mineru_args(*config, input@, output@, gs));
    }
    let mut envs: Vec<(String, String)> = Vec::new();
    let device = if cuda_available && str_eq(config.device.as_str(), "cpu") {
        lit("cuda")
    } else {
        config.device.clone()
    };
    envs.push((lit("MINERU_DEVICE_MODE"), device));
    if config.vram > 0 {
        let mut v = String::new();
        push_decimal(&mut v, config.vram as u64);
        envs.push((lit("MINERU_VIRTUAL_VRAM_SIZE"), v));
    }
    if china_region {
        envs.push((lit("MINERU_MODEL_SOURCE"), lit("modelscope")));
    }
    proof {
        assert(envs@.map_values(|e: (String, String)| (e.0@, e.1@)) =~= mineru_envs(
            *config,
            cuda_available,
            china_region,
        ));
    }
    MinerUInvocation { args, envs }
}

/// The MinerU command: the one of the virtual environment when it exists,
/// else `mineru` from the search path.
pub fn mineru_command_path(venv_command: &str, venv_command_exists: bool) -> (c: String)
    ensures
        c@ == if venv_command_exists {
            venv_command@
        } else {
            "mineru"@
        },
{
    if venv_command_exists {
        lit(venv_command)
    } else {
        lit("mineru")
    }
}

/// The outcome of the input checks for a file of `size` bytes under the
/// ceiling `max`, with the given extension.
pub open spec fn mineru_input_check(size: u64, max: u64, ext: Option<Seq<char>>) -> Result<
    (),
    (Seq<char>, bool),
> {
    if size > max {
        Err(
            (
                "文件大小超过限制: "@ + decimal((size / MIB) as nat) + "MB > "@ + decimal(
                    (max / MIB) as nat,
                ) + "MB"@,
                false,
            ),
        )
    } else {
        match ext {
            Some(e) => if lowercase(e) != "pdf"@ {
                Err(("MinerU只支持PDF格式，当前文件: "@ + e, true))
            } else {
                Ok(())
            },
            None => Err(("无法确定文件格式"@, true)),
        }
    }
}

/// Whether an error is the one the checks describe: a file error, or an
/// unsupported format error when the flag is set, with that message.
pub open spec fn is_check_error(r: Result<(), AppError>, o: Result<(), (Seq<char>, bool)>) -> bool {
    match o {
        Ok(_) => r is Ok,
        Err((m, unsupported)) => r matches Err(e) && e.message() == m && if unsupported {
            e is UnsupportedFormat
        } else {
            e is File
        },
    }
}

/// Checks a PDF input: its size against the ceiling, then its extension.
pub fn mineru_check_input(file_size: u64, max_size: u64, extension: Option<&str>) -> (r: Result<
    (),
    AppError,
>)
    ensures
        is_check_error(
            r,
            mineru_input_check(
                file_size,
                max_size,
                match extension {
                    Some(e) => Some(e@),
                    None => None,
                },
            ),
        ),
{
    if file_size > max_size {
        let mut m = lit("文件大小超过限制: ");
        push_decimal(&mut m, file_size / MIB);
        push_str(&mut m, "MB > ");
        push_decimal(&mut m, max_size / MIB);
        push_str(&mut m, "MB");
        return Err(AppError::File(m));
    }
    match extension {
        Some(e) => {
            let lower = to_lowercase(e);
            if !str_eq(lower.as_str(), "pdf") {
                let mut m = lit("MinerU只支持PDF格式，当前文件: ");
                push_str(&mut m, e);
                return Err(AppError::UnsupportedFormat(m));
            }
            Ok(())
        },
        None => Err(AppError::UnsupportedFormat(lit("无法确定文件格式"))),
    }
}


/// The output file whose size is the largest, the last such one where
/// several share that size.
pub open spec fn is_chosen_output(sizes: Seq<u64>, i: int) -> bool {
    &&& 0 <= i < sizes.len()
    &&& forall|j: int| 0 <= j < sizes.len() ==> sizes[j] <= sizes[i]
    &&& forall|j: int| i < j < sizes.len() ==> sizes[j] < sizes[i]
}

/// Picks the Markdown file a MinerU run produced, given the size of each
/// file found (0 where it could not be read): the largest, which holds
/// the main content; an error when none was found.
pub fn choose_markdown_output(sizes: &Vec<u64>) -> (r: Result<usize, AppError>)
    ensures
        match r {
            Ok(i) => is_chosen_output(sizes@, i as int),
            Err(e) => sizes@.len() == 0 && e is MinerU && e.message() == "未找到Markdown输出文件"@,
        },
{
    if sizes.len() == 0 {
        return Err(AppError::MinerU(lit("未找到Markdown输出文件")));
    }
    let mut best: usize = 0;
    let mut k: usize = 1;
    while k < sizes.len()
        invariant
            1 <= k <= sizes@.len(),
            best < k,
            forall|j: int| 0 <= j < k ==> sizes@[j] <= sizes@[best as int],
            forall|j: int| best < j < k ==> sizes@[j] < sizes@[best as int],
        decreases sizes.len() - k,
    {
        if sizes[k] >= sizes[best] {
            best = k;
        }
        k = k + 1;
    }
    Ok(best)
}

/// Whether a file is a Markdown output (extension `md`, any case).
pub fn is_markdown_extension(ext: &str) -> (b: bool)
    ensures
        b == (lowercase(ext@) == "md"@),
{
    let l = to_lowercase(ext);
    str_eq(l.as_str(), "md")
}

/// Refuses a Markdown output that holds nothing but white space.
pub fn check_markdown_output(content: &str) -> (r: Result<(), AppError>)
    ensures
        r is Ok <==> trim_spec(content@).len() > 0,
        r matches Err(e) ==> e is MinerU && e.message() == "Markdown文件内容为空"@,
{
    let v = chars_of(content);
    let t = trim_chars(&v);
    if t.len() == 0 {
        Err(AppError::MinerU(lit("Markdown文件内容为空")))
    } else {
        Ok(())
    }
}

/// How long to wait at most for MinerU's installation, in milliseconds.
pub const MINERU_READY_MAX_WAIT_MS: u64 = 600_000;

/// Pause between two readiness checks, in milliseconds.
pub const MINERU_READY_CHECK_INTERVAL_MS: u64 = 5_000;

/// One step of waiting for MinerU's installation, given the outcome of a
/// check (whether MinerU is available, or why the check failed) and the
/// time waited so far: `Ok(true)` when ready, `Ok(false)` to check again
/// after the pause, an error once the wait has run out. A failed check
/// always waits on.
pub fn environment_wait_step(check: &Result<bool, String>, elapsed_ms: u64) -> (r: Result<
    bool,
    AppError,
>)
    ensures
        match check {
            Ok(true) => r == Ok::<bool, AppError>(true),
            Ok(false) => if elapsed_ms >= MINERU_READY_MAX_WAIT_MS {
                r matches Err(e) && e is MinerU && e.message() == "等待MinerU依赖安装超时，请检查安装状态"@
            } else {
                r == Ok::<bool, AppError>(false)
            },
            Err(_) => r == Ok::<bool, AppError>(false),
        },
{
    match check {
        Ok(true) => Ok(true),
        Ok(false) => {
            if elapsed_ms >= MINERU_READY_MAX_WAIT_MS {
                Err(AppError::MinerU(lit("等待MinerU依赖安装超时，请检查安装状态")))
            } else {
                Ok(false)
            }
        },
        Err(_) => Ok(false),
    }
}

/// The verdict on `mineru --help`: it could not be started (with the
/// reason), it failed (with its error output), or it worked.
pub fn mineru_help_verdict(spawn_error: Option<&str>, succeeded: bool, stderr: &str) -> (r: Result<
    (),
    AppError,
>)
    ensures
        match spawn_error {
            Some(e) => r matches Err(x) && x is MinerU && x.message() == "检查MinerU命令失败: "@ + e@
                + ". 请确保已安装MinerU并且mineru命令在虚拟环境中可用"@,
            None => if succeeded {
                r is Ok
            } else {
                r matches Err(x) && x is MinerU && x.message() == "MinerU命令不可用: "@ + stderr@
                    + ". 请运行 'pip install magic-pdf[full]' 安装MinerU"@
            },
        },
{
    match spawn_error {
        Some(e) => {
            let mut m = lit("检查MinerU命令失败: ");
            push_str(&mut m, e);
            push_str(&mut m, ". 请确保已安装MinerU并且mineru命令在虚拟环境中可用");
            Err(AppError::MinerU(m))
        },
        None => {
            if succeeded {
                Ok(())
            } else {
                let mut m = lit("MinerU命令不可用: ");
                push_str(&mut m, stderr);
                push_str(&mut m, ". 请运行 'pip install magic-pdf[full]' 安装MinerU");
                Err(AppError::MinerU(m))
            }
        },
    }
}

/// The progress (percent) and message reported on entering a stage of a
/// MinerU parse; the completion report carries the elapsed time and the
/// word count instead (see [`word_count`]).
pub open spec fn phase_report_spec(stage: ParseStage) -> Option<(u32, Seq<char>)> {
    match stage {
        ParseStage::Initializing => Some((0u32, "初始化解析环境"@)),
        ParseStage::PreProcessing => Some((10u32, "准备工作环境"@)),
        ParseStage::Parsing => Some((20u32, "正在解析PDF文档"@)),
        ParseStage::PostProcessing => Some((80u32, "处理解析结果"@)),
        ParseStage::Finalizing => Some((95u32, "生成最终结果"@)),
        _ => None,
    }
}

/// The progress and message of a stage of a parse.
pub fn phase_report(stage: ParseStage) -> (r: Option<(u32, &'static str)>)
    ensures
        match r {
            Some((p, m)) => phase_report_spec(stage) == Some((p, m@)),
            None => phase_report_spec(stage) is None,
        },
{
    match stage {
        ParseStage::Initializing => Some((0, "初始化解析环境")),
        ParseStage::PreProcessing => Some((10, "准备工作环境")),
        ParseStage::Parsing => Some((20, "正在解析PDF文档")),
        ParseStage::PostProcessing => Some((80, "处理解析结果")),
        ParseStage::Finalizing => Some((95, "生成最终结果")),
        _ => None,
    }
}

/// The stage a parse enters on leaving `stage`, told whether cancellation
/// was requested meanwhile: the run checks for it after initializing,
/// after preparing and after the engine ran, and then goes on through
/// post-processing and finalizing to completion. Stages that end a parse
/// are left as they are.
pub open spec fn next_stage_spec(stage: ParseStage, cancelled: bool) -> ParseStage {
    match stage {
        ParseStage::Initializing => if cancelled {
            ParseStage::Cancelled
        } else {
            ParseStage::PreProcessing
        },
        ParseStage::PreProcessing => if cancelled {
            ParseStage::Cancelled
        } else {
            ParseStage::Parsing
        },
        ParseStage::Parsing => if cancelled {
            ParseStage::Cancelled
        } else {
            ParseStage::PostProcessing
        },
        ParseStage::PostProcessing => ParseStage::Finalizing,
        ParseStage::Finalizing => ParseStage::Completed,
        other => other,
    }
}

/// The stage after `stage` (see [`next_stage_spec`]).
pub fn next_parse_stage(stage: ParseStage, cancelled: bool) -> (r: ParseStage)
    ensures
        r == next_stage_spec(stage, cancelled),
{
    match stage {
        ParseStage::Initializing => if cancelled {
            ParseStage::Cancelled
        } else {
            ParseStage::PreProcessing
        },
        ParseStage::PreProcessing => if cancelled {
            ParseStage::Cancelled
        } else {
            ParseStage::Parsing
        },
        ParseStage::Parsing => if cancelled {
            ParseStage::Cancelled
        } else {
            ParseStage::PostProcessing
        },
        ParseStage::PostProcessing => ParseStage::Finalizing,
        ParseStage::Finalizing => ParseStage::Completed,
        other => other,
    }
}

/// The percentage reported on entering a stage (0 where none is).
pub open spec fn stage_percent(stage: ParseStage) -> u32 {
    match phase_report_spec(stage) {
        Some(r) => r.0,
        None => 0,
    }
}

/// The stages a parse that is never cancelled passes through from
/// `stage`, at most `n` steps on.
pub open spec fn stages_from(stage: ParseStage, n: nat) -> Seq<ParseStage>
    decreases n,
{
    if n == 0 {
        seq![stage]
    } else {
        seq![stage] + stages_from(next_stage_spec(stage, false), (n - 1) as nat)
    }
}

/// A parse reports strictly growing progress: each stage it enters with a
/// progress report comes after one with a smaller percentage, a request
/// to cancel is honoured only up to the engine run, and a run that is not
/// cancelled reports 0, 10, 20, 80 and 95 percent in that order before it
/// completes.
pub proof fn lemma_parse_stages_in_order(stage: ParseStage, cancelled: bool)
    ensures
        ({
            let next = next_stage_spec(stage, cancelled);
            phase_report_spec(stage) is Some && phase_report_spec(next) is Some
                ==> stage_percent(stage) < stage_percent(next)
        }),
        next_stage_spec(stage, cancelled) == ParseStage::Cancelled ==> stage
            == ParseStage::Cancelled || (cancelled && (stage == ParseStage::Initializing || stage
            == ParseStage::PreProcessing || stage == ParseStage::Parsing)),
        stages_from(ParseStage::Initializing, 5) == seq![
            ParseStage::Initializing,
            ParseStage::PreProcessing,
            ParseStage::Parsing,
            ParseStage::PostProcessing,
            ParseStage::Finalizing,
            ParseStage::Completed,
        ],
        stages_from(ParseStage::Initializing, 5).take(5).map_values(
            |st: ParseStage| stage_percent(st),
        ) == seq![0u32, 10u32, 20u32, 80u32, 95u32],
{
    reveal_with_fuel(stages_from, 6);
    let s = stages_from(ParseStage::Initializing, 5);
    assert(s =~= seq![
        ParseStage::Initializing,
        ParseStage::PreProcessing,
        ParseStage::Parsing,
        ParseStage::PostProcessing,
        ParseStage::Finalizing,
        ParseStage::Completed,
    ]);
    assert(s.take(5).map_values(|st: ParseStage| stage_percent(st)) =~= seq![
        0u32,
        10u32,
        20u32,
        80u32,
        95u32,
    ]);
}

/// How `Debug` prints a `std::time::Duration` of some nanoseconds.
pub uninterp spec fn duration_debug(nanos: u64) -> Seq<char>;

/// Prints `std::time::Duration::from_nanos(nanos)` with its `Debug` impl.
#[verifier::external_body]
fn duration_debug_text(nanos: u64) -> (r: String)
    ensures
        r@ == duration_debug(nanos),
{
    format!("{:?}", std::time::Duration::from_nanos(nanos))
}

/// What a finished MinerU parse hands back: the Markdown it produced, the
/// engine's output directory and the task's working directory (kept for
/// the image upload that follows), no errors, and the completion report.
#[derive(Debug, Clone)]
pub struct ParseCompletion {
    pub markdown_content: String,
    pub output_dir: Option<String>,
    pub work_dir: Option<String>,
    pub error_count: u32,
    pub progress: u32,
    pub message: String,
}

/// The message of the completion report: the elapsed time and the word
/// count of the Markdown.
pub open spec fn completion_message(elapsed_nanos: u64, markdown: Seq<char>) -> Seq<char> {
    "解析完成，耗时: "@ + duration_debug(elapsed_nanos) + "，字数: "@ + decimal(
        words_upto(markdown, markdown.len() as int),
    )
}

/// The result of a parse that ran to the end in `elapsed_nanos`: the
/// report is at 100 percent.
pub fn complete_parse(
    markdown_content: String,
    output_dir: String,
    work_dir: String,
    elapsed_nanos: u64,
) -> (c: ParseCompletion)
    ensures
        c.markdown_content == markdown_content,
        c.output_dir == Some(output_dir),
        c.work_dir == Some(work_dir),
        c.error_count == 0,
        c.progress == 100,
        c.message@ == completion_message(elapsed_nanos, markdown_content@),
{
    let words = word_count(markdown_content.as_str());
    let mut message = lit("解析完成，耗时: ");
    let d = duration_debug_text(elapsed_nanos);
    push_str(&mut message, d.as_str());
    push_str(&mut message, "，字数: ");
    push_decimal(&mut message, words as u64);
    ParseCompletion {
        markdown_content,
        output_dir: Some(output_dir),
        work_dir: Some(work_dir),
        error_count: 0,
        progress: 100,
        message,
    }
}

/// The error of a parse stopped on request.
pub fn parse_cancelled() -> (e: AppError)
    ensures
        e is MinerU && e.message() == "解析已取消"@,
{
    AppError::MinerU(lit("解析已取消"))
}

/// Whether a word starts at `i`: a character that is not white space,
/// at the start or after white space.
pub open spec fn word_starts_at(s: Seq<char>, i: int) -> bool {
    !is_ws_spec(s[i]) && (i == 0 || is_ws_spec(s[i - 1]))
}

/// The number of words among the first `n` characters.
pub open spec fn words_upto(s: Seq<char>, n: int) -> nat
    decreases n,
{
    if n <= 0 {
        0
    } else {
        words_upto(s, n - 1) + if word_starts_at(s, n - 1) {
            1nat
        } else {
            0nat
        }
    }
}

/// The number of white-space separated words of a text.
pub fn word_count(text: &str) -> (n: usize)
    ensures
        n == words_upto(text@, text@.len() as int),
{
    let v = chars_of(text);
    let mut n: usize = 0;
    let mut i: usize = 0;
    let mut prev_ws = true;
    while i < v.len()
        invariant
            i <= v@.len(),
            v@ == text@,
            n == words_upto(v@, i as int),
            n <= i,
            prev_ws == (i == 0 || is_ws_spec(v@[i - 1])),
        decreases v.len() - i,
    {
        let w = is_ws(v[i]);
        if !w && prev_ws {
            n = n + 1;
        }
        prev_ws = w;
        i = i + 1;
    }
    n
}

/// Whether an output line tells of parsing progress.
pub open spec fn mineru_progress_line(line: Seq<char>) -> bool {
    contains_spec(line, "Processing"@) || contains_spec(line, "解析"@)
}

/// What a MinerU run has gathered so far: its progress (percent) and its
/// error output.
#[derive(Debug, Clone)]
pub struct MinerURun {
    pub progress: u32,
    pub stderr_output: String,
}

impl MinerURun {
    /// A run that has just started (20%).
    pub fn new() -> (r: Self)
        ensures
            r.progress == 20 && r.stderr_output@.len() == 0,
    {
        MinerURun { progress: 20, stderr_output: String::new() }
    }

    /// Takes one output line: error output is kept, and a progress line
    /// moves progress on by one point, up to 75, and is reported.
    pub fn on_output_line(&mut self, from_stderr: bool, line: &str) -> (report: Option<u32>)
        requires
            old(self).progress <= 75,
        ensures
            final(self).stderr_output@ == if from_stderr {
                old(self).stderr_output@ + line@ + "\n"@
            } else {
                old(self).stderr_output@
            },
            mineru_progress_line(line@) ==> {
                &&& final(self).progress == if old(self).progress + 1 <= 75 {
                    old(self).progress + 1
                } else {
                    75
                }
                &&& report == Some(final(self).progress)
            },
            !mineru_progress_line(line@) ==> final(self).progress == old(self).progress
                && report is None,
            final(self).progress <= 75,
    {
        if from_stderr {
            push_str(&mut self.stderr_output, line);
            push_str(&mut self.stderr_output, "\n");
        }
        if str_contains(line, "Processing") || str_contains(line, "解析") {
            self.progress = if self.progress + 1 <= 75 {
                self.progress + 1
            } else {
                75
            };
            Some(self.progress)
        } else {
            None
        }
    }

    /// The error of a run that ended badly: by a signal when one killed
    /// it, else by its exit code (-1 when there is none).
    pub fn failure_message(&self, exit_code: Option<i32>, signal: Option<i32>) -> (m: String)
        ensures
            m@ == match signal {
                Some(s) => "MinerU执行失败，进程被信号 "@ + signed_decimal(s as int) + " 终止，错误输出: "@
                    + self.stderr_output@,
                None => "MinerU执行失败，退出码: "@ + signed_decimal(
                    match exit_code {
                        Some(c) => c as int,
                        None => -1,
                    },
                ) + "，错误输出: "@ + self.stderr_output@,
            },
    {
        match signal {
            Some(s) => {
                let mut m = lit("MinerU执行失败，进程被信号 ");
                push_signed(&mut m, s as i64);
                push_str(&mut m, " 终止，错误输出: ");
                push_str(&mut m, self.stderr_output.as_str());
                m
            },
            None => {
                let code: i64 = match exit_code {
                    Some(c) => c as i64,
                    None => -1,
                };
                let mut m = lit("MinerU执行失败，退出码: ");
                push_signed(&mut m, code);
                push_str(&mut m, "，错误输出: ");
                push_str(&mut m, self.stderr_output.as_str());
                m
            },
        }
    }
}

/// The error of a run that took longer than `secs` seconds.
pub fn mineru_timeout_message(secs: u32) -> (m: String)
    ensures
        m@ == "MinerU执行超时（"@ + decimal(secs as nat)
            + "秒）。可能的原因：\n1. 模型下载时间过长\n2. 文档处理时间过长\n3. 系统资源不足\n4. 网络连接问题\n建议：\n- 检查网络连接\n- 增加超时时间\n- 检查系统资源"@,
{
    let mut m = lit("MinerU执行超时（");
    push_decimal(&mut m, secs as u64);
    push_str(
        &mut m,
        "秒）。可能的原因：\n1. 模型下载时间过长\n2. 文档处理时间过长\n3. 系统资源不足\n4. 网络连接问题\n建议：\n- 检查网络连接\n- 增加超时时间\n- 检查系统资源",
    );
    m
}

} // verus!
