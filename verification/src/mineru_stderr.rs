//! Grading of the lines that the MinerU subprocess writes to stderr.
//!
//! MinerU (with loguru, tqdm and uvicorn underneath) writes progress bars,
//! informational logs and shutdown notices to stderr. The grade picks the
//! log level of a line; it never drops the line itself.

use vstd::prelude::*;
use crate::text::{chars_of, contains_exec, contains_spec, trim_start_chars, trim_start_spec};

verus! {

/// Log grade of one stderr line.
#[derive(Debug, Clone, Copy, PartialEq, Eq, Structural)]
pub enum StderrKind {
    /// tqdm progress bars and ANSI escape noise.
    Progress,
    /// Python tracebacks, exceptions, loguru ERROR lines.
    Error,
    /// WARNING lines and `*Warning` classes.
    Warning,
    /// Everything else (INFO logs, server shutdown notices).
    Info,
}

/// The line carries a progress-bar marker.
pub open spec fn is_progress_line(l: Seq<char>) -> bool {
    ||| contains_spec(l, "%|"@)
    ||| contains_spec(l, "it/s"@)
    ||| contains_spec(l, "s/it"@)
    ||| contains_spec(l, seq!['\x1b'])
    ||| contains_spec(l, seq!['█'])
}

/// The line carries an error marker.
pub open spec fn is_error_line(l: Seq<char>) -> bool {
    ||| contains_spec(l, "Traceback"@)
    ||| contains_spec(l, "Error:"@)
    ||| contains_spec(l, "ERROR"@)
    ||| contains_spec(l, "Exception"@)
    ||| contains_spec(l, "FATAL"@)
}

/// The line carries a warning marker.
pub open spec fn is_warning_line(l: Seq<char>) -> bool {
    contains_spec(l, "WARNING"@) || contains_spec(l, "Warning"@)
}

/// The grade of a line: markers are looked for after the leading white
/// space, progress first, then errors, then warnings.
pub open spec fn classify_spec(line: Seq<char>) -> StderrKind {
    let l = trim_start_spec(line);
    if is_progress_line(l) {
        StderrKind::Progress
    } else if is_error_line(l) {
        StderrKind::Error
    } else if is_warning_line(l) {
        StderrKind::Warning
    } else {
        StderrKind::Info
    }
}

fn has(l: &Vec<char>, p: &str) -> (b: bool)
    ensures
        b == contains_spec(l@, p@),
{
    let pv = chars_of(p);
    contains_exec(l, &pv)
}

fn has_char(l: &Vec<char>, c: char) -> (b: bool)
    ensures
        b == contains_spec(l@, seq![c]),
{
    let mut pv: Vec<char> = Vec::new();
    pv.push(c);
    proof {
        assert(pv@ =~= seq![c]);
    }
    contains_exec(l, &pv)
}

/// Grades one line of MinerU stderr output.
pub fn classify_mineru_stderr(line: &str) -> (k: StderrKind)
    ensures
        k == classify_spec(line@),
{
    let all = chars_of(line);
    let l = trim_start_chars(&all);
    if has(&l, "%|") || has(&l, "it/s") || has(&l, "s/it") || has_char(&l, '\x1b') || has_char(
        &l,
        '█',
    ) {
        return StderrKind::Progress;
    }
    if has(&l, "Traceback") || has(&l, "Error:") || has(&l, "ERROR") || has(&l, "Exception")
        || has(&l, "FATAL") {
        return StderrKind::Error;
    }
    if has(&l, "WARNING") || has(&l, "Warning") {
        return StderrKind::Warning;
    }
    StderrKind::Info
}

/// The grade of a line, read after its leading white space: a line with a
/// progress-bar marker (`%|`, `it/s`, `s/it`, an escape or a block) is
/// progress; otherwise one that mentions `Traceback`, `Error:`, `ERROR`,
/// `Exception` or `FATAL` is an error; otherwise one that mentions
/// `WARNING` or `Warning` is a warning; every other line is information.
/// Indenting a line does not change its grade.
pub proof fn lemma_stderr_grades(line: Seq<char>)
    ensures
        classify_spec(seq![' '] + line) == classify_spec(line),
        classify_spec(seq!['\t'] + line) == classify_spec(line),
        ({
            let l = trim_start_spec(line);
            let progress = contains_spec(l, "%|"@) || contains_spec(l, "it/s"@) || contains_spec(
                l,
                "s/it"@,
            ) || contains_spec(l, seq!['\x1b']) || contains_spec(l, seq!['█']);
            let error = contains_spec(l, "Traceback"@) || contains_spec(l, "Error:"@)
                || contains_spec(l, "ERROR"@) || contains_spec(l, "Exception"@) || contains_spec(
                l,
                "FATAL"@,
            );
            let warning = contains_spec(l, "WARNING"@) || contains_spec(l, "Warning"@);
            &&& progress ==> classify_spec(line) == StderrKind::Progress
            &&& !progress && error ==> classify_spec(line) == StderrKind::Error
            &&& !progress && !error && warning ==> classify_spec(line) == StderrKind::Warning
            &&& !progress && !error && !warning ==> classify_spec(line) == StderrKind::Info
        }),
{
    assert((seq![' '] + line).drop_first() =~= line);
    assert((seq!['\t'] + line).drop_first() =~= line);
}

} // verus!
