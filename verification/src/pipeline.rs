//! The course of a document parse in the service: the checks before the
//! engine runs, the engine and task stage chosen for the format, and the
//! progress the task reports after each step.

use vstd::prelude::*;
use crate::document_files::{check_document_size, execution_stage};
use crate::error::AppError;
use crate::formats::{DocumentFormat, ParserFactory};
use crate::task_state::{ParserEngine, ProcessingStage};
use crate::text::decimal;

verus! {

/// A step of the parse that the task's progress reports.
#[derive(Debug, Clone, Copy, PartialEq, Eq, Structural)]
pub enum PipelineStep {
    /// The format is known and the engine chosen.
    Detected,
    /// The engine produced Markdown.
    Parsed,
    /// The images were uploaded and their paths replaced.
    ImagesProcessed,
    /// The final Markdown was uploaded.
    MarkdownUploaded,
    /// The result is complete.
    Finished,
}

/// The progress (percent) reported once a step is done.
pub open spec fn step_progress(s: PipelineStep) -> u32 {
    match s {
        PipelineStep::Detected => 10,
        PipelineStep::Parsed => 80,
        PipelineStep::ImagesProcessed => 90,
        PipelineStep::MarkdownUploaded => 95,
        PipelineStep::Finished => 100,
    }
}

/// The step that follows a step; none after the last.
pub open spec fn next_step_spec(s: PipelineStep) -> Option<PipelineStep> {
    match s {
        PipelineStep::Detected => Some(PipelineStep::Parsed),
        PipelineStep::Parsed => Some(PipelineStep::ImagesProcessed),
        PipelineStep::ImagesProcessed => Some(PipelineStep::MarkdownUploaded),
        PipelineStep::MarkdownUploaded => Some(PipelineStep::Finished),
        PipelineStep::Finished => None,
    }
}

/// The progress reported once a step is done.
pub fn pipeline_progress(s: PipelineStep) -> (p: u32)
    ensures
        p == step_progress(s),
{
    match s {
        PipelineStep::Detected => 10,
        PipelineStep::Parsed => 80,
        PipelineStep::ImagesProcessed => 90,
        PipelineStep::MarkdownUploaded => 95,
        PipelineStep::Finished => 100,
    }
}

/// The step after `s`.
pub fn next_pipeline_step(s: PipelineStep) -> (r: Option<PipelineStep>)
    ensures
        r == next_step_spec(s),
{
    match s {
        PipelineStep::Detected => Some(PipelineStep::Parsed),
        PipelineStep::Parsed => Some(PipelineStep::ImagesProcessed),
        PipelineStep::ImagesProcessed => Some(PipelineStep::MarkdownUploaded),
        PipelineStep::MarkdownUploaded => Some(PipelineStep::Finished),
        PipelineStep::Finished => None,
    }
}

/// How a document that passed the checks is parsed: the engine, the task
/// stage while it runs, and the progress reported on choosing it.
#[derive(Debug, Clone, Copy, PartialEq, Eq)]
pub struct ParsePlan {
    pub engine: ParserEngine,
    pub stage: ProcessingStage,
    pub progress: u32,
}

/// Plans the parse of a document of `file_size` bytes in a format: refused
/// above the ceiling `max_size`, else MinerU for PDF and MarkItDown for the
/// rest, in the matching execution stage, at 10 percent.
pub fn plan_document_parse(file_size: u64, max_size: u64, format: &DocumentFormat) -> (r: Result<
    ParsePlan,
    AppError,
>)
    ensures
        r is Ok <==> file_size <= max_size,
        r matches Err(e) ==> e is File && e.message() == "文件大小超过限制: "@ + decimal(
            file_size as nat,
        ) + " > "@ + decimal(max_size as nat) + " bytes"@,
        r matches Ok(p) ==> {
            &&& p.engine == (if *format is PDF {
                ParserEngine::MinerU
            } else {
                ParserEngine::MarkItDown
            })
            &&& p.stage == (if *format is PDF {
                ProcessingStage::MinerUExecuting
            } else {
                ProcessingStage::MarkItDownExecuting
            })
            &&& p.progress == step_progress(PipelineStep::Detected)
        },
{
    check_document_size(file_size, max_size)?;
    let engine = ParserFactory::get_parser_for_format(format);
    Ok(ParsePlan { engine, stage: execution_stage(engine), progress: pipeline_progress(PipelineStep::Detected) })
}

/// The steps from `s` on, as far as they go.
pub open spec fn steps_from(s: PipelineStep, n: nat) -> Seq<PipelineStep>
    decreases n,
{
    if n == 0 {
        seq![s]
    } else {
        match next_step_spec(s) {
            Some(t) => seq![s] + steps_from(t, (n - 1) as nat),
            None => seq![s],
        }
    }
}

/// The progress of a parse only grows, step by step, from 10 percent once
/// the engine is chosen through 80, 90 and 95 to 100 when it is finished.
pub proof fn lemma_pipeline_progress_grows(s: PipelineStep)
    ensures
        next_step_spec(s) matches Some(t) ==> step_progress(s) < step_progress(t),
        steps_from(PipelineStep::Detected, 4).map_values(|x: PipelineStep| step_progress(x))
            == seq![10u32, 80u32, 90u32, 95u32, 100u32],
        steps_from(PipelineStep::Detected, 4).last() == PipelineStep::Finished,
{
    reveal_with_fuel(steps_from, 5);
    assert(steps_from(PipelineStep::Detected, 4) =~= seq![
        PipelineStep::Detected,
        PipelineStep::Parsed,
        PipelineStep::ImagesProcessed,
        PipelineStep::MarkdownUploaded,
        PipelineStep::Finished,
    ]);
    assert(steps_from(PipelineStep::Detected, 4).map_values(|x: PipelineStep| step_progress(x))
        =~= seq![10u32, 80u32, 90u32, 95u32, 100u32]);
}

} // verus!
