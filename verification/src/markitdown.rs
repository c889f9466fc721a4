//! The MarkItDown engine: the command line of a run, the decisions taken
//! while it proceeds, the checks of its output, and the clean-up of the
//! Markdown it produces for each document kind.

use vstd::prelude::*;
use crate::error::AppError;
use crate::formats::DocumentFormat;
use crate::text::{
    chars_of, contains_spec, decimal, is_ws, is_ws_spec, occurs_at, occurs_at_exec, push_chars,
    push_decimal, push_signed, push_str, signed_decimal, slice_chars, str_contains, string_of,
    trim_chars, trim_char_end_spec, trim_spec,
};
use crate::text_ops::{join_chars, join_spec, lines_spec, replace_chars, replace_spec, split_lines};

verus! {

fn lit(s: &str) -> (r: String)
    ensures
        r@ == s@,
{
    String::from_str(s)
}

/// Arguments of a run converting `input` into `output`.
pub open spec fn markitdown_args_spec(
    input: Seq<char>,
    output: Seq<char>,
    plugins: bool,
    keep_data_uris: bool,
) -> Seq<Seq<char>> {
    seq!["-m"@, "markitdown"@, input, "-o"@, output] + (if plugins {
        seq!["-p"@]
    } else {
        Seq::empty()
    }) + if keep_data_uris {
        seq!["--keep-data-uris"@]
    } else {
        Seq::empty()
    }
}

/// The interpreter arguments of a MarkItDown run.
pub fn markitdown_args(input: &str, output: &str, enable_plugins: bool, extract_images: bool) -> (a:
    Vec<String>)
    ensures
        a.deep_view() == markitdown_args_spec(input@, output@, enable_plugins, extract_images),
{
    let mut a: Vec<String> = Vec::new();
    a.push(lit("-m"));
    a.push(lit("markitdown"));
    a.push(lit(input));
    a.push(lit("-o"));
    a.push(lit(output));
    if enable_plugins {
        a.push(lit("-p"));
    }
    if extract_images {
        a.push(lit("--keep-data-uris"));
    }
    proof {
        assert(a.deep_view() =~= markitdown_args_spec(
            input@,
            output@,
            enable_plugins,
            extract_images,
        ));
    }
    a
}

/// Index of the first occurrence of `p` in `s` at or after `i`, or -1.
pub open spec fn find_from(s: Seq<char>, p: Seq<char>, i: int) -> int
    decreases s.len() + 1 - i,
{
    if i < 0 || i + p.len() > s.len() {
        -1
    } else if occurs_at(s, p, i) {
        i
    } else {
        find_from(s, p, i + 1)
    }
}

/// A found index is an occurrence at or after the start.
pub proof fn lemma_find_from(s: Seq<char>, p: Seq<char>, i: int)
    ensures
        find_from(s, p, i) >= 0 ==> find_from(s, p, i) >= i && occurs_at(s, p, find_from(s, p, i)),
    decreases s.len() + 1 - i,
{
    if i < 0 || i + p.len() > s.len() {
    } else if occurs_at(s, p, i) {
    } else {
        lemma_find_from(s, p, i + 1);
    }
}

fn find_exec(s: &Vec<char>, p: &Vec<char>, from: usize) -> (r: Option<usize>)
    ensures
        match r {
            Some(i) => i as int == find_from(s@, p@, from as int),
            None => find_from(s@, p@, from as int) == -1,
        },
{
    let mut i = from;
    while i <= s.len() && p.len() <= s.len() - i
        invariant
            from <= i,
            find_from(s@, p@, from as int) == find_from(s@, p@, i as int),
        decreases s.len() + 1 - i,
    {
        if occurs_at_exec(s, p, i) {
            return Some(i);
        }
        proof {
            if p@.len() == 0 {
                assert(s@.subrange(i as int, i as int) =~= p@);
            }
        }
        i = i + 1;
    }
    None
}

/// The marker of a temporary file in the output.
pub open spec fn temp_marker() -> Seq<char> {
    "Created temp file:"@
}

/// The temporary file a line announces: the text after the first marker,
/// up to a second one, trimmed.
pub open spec fn temp_file_of(line: Seq<char>) -> Option<Seq<char>> {
    let m = temp_marker();
    let i = find_from(line, m, 0);
    if i < 0 {
        None
    } else {
        let rest = line.skip(i + m.len());
        let j = find_from(rest, m, 0);
        Some(trim_spec(if j < 0 { rest } else { rest.take(j) }))
    }
}

/// Whether a line tells of conversion progress.
pub open spec fn markitdown_progress_line(line: Seq<char>) -> bool {
    contains_spec(line, "Processing"@) || contains_spec(line, "Converting"@)
}

/// What a MarkItDown run has gathered so far.
#[derive(Debug, Clone)]
pub struct MarkItDownRun {
    pub progress: u32,
    pub stderr_output: String,
    pub temp_files: Vec<String>,
}

impl MarkItDownRun {
    /// A run that has just started (30%).
    pub fn new() -> (r: Self)
        ensures
            r.progress == 30 && r.stderr_output@.len() == 0 && r.temp_files@.len() == 0,
    {
        MarkItDownRun { progress: 30, stderr_output: String::new(), temp_files: Vec::new() }
    }

    /// Takes one output line: error output is kept, a progress line moves
    /// progress on by two points, up to 75, and is reported, and an
    /// announced temporary file is recorded.
    pub fn on_output_line(&mut self, from_stderr: bool, line: &str) -> (report: Option<u32>)
        requires
            old(self).progress <= 75,
        ensures
            final(self).stderr_output@ == if from_stderr {
                old(self).stderr_output@ + line@ + "\n"@
            } else {
                old(self).stderr_output@
            },
            markitdown_progress_line(line@) ==> {
                &&& final(self).progress == if old(self).progress + 2 <= 75 {
                    old(self).progress + 2
                } else {
                    75
                }
                &&& report == Some(final(self).progress)
            },
            !markitdown_progress_line(line@) ==> final(self).progress == old(self).progress
                && report is None,
            final(self).progress <= 75,
            final(self).temp_files.deep_view() == match temp_file_of(line@) {
                Some(f) => old(self).temp_files.deep_view().push(f),
                None => old(self).temp_files.deep_view(),
            },
    {
        if from_stderr {
            push_str(&mut self.stderr_output, line);
            push_str(&mut self.stderr_output, "\n");
        }
        let report = if str_contains(line, "Processing") || str_contains(line, "Converting") {
            self.progress = if self.progress + 2 <= 75 {
                self.progress + 2
            } else {
                75
            };
            Some(self.progress)
        } else {
            None
        };
        let lv = chars_of(line);
        let mv = chars_of("Created temp file:");
        match find_exec(&lv, &mv, 0) {
            Some(i) => {
                proof {
                    lemma_find_from(lv@, mv@, 0);
                    assert(i as int == find_from(lv@, mv@, 0));
                    assert(occurs_at(lv@, mv@, i as int));
                }
                let total = lv.len();
                let start = i + mv.len();
                let rest = slice_chars(&lv, start, lv.len());
                proof {
                    assert(rest@ =~= lv@.skip(start as int));
                }
                let piece = match find_exec(&rest, &mv, 0) {
                    Some(j) => {
                        proof {
                            lemma_find_from(rest@, mv@, 0);
                        }
                        slice_chars(&rest, 0, j)
                    },
                    None => rest,
                };
                proof {
                    if find_from(rest@, mv@, 0) >= 0 {
                        assert(piece@ =~= rest@.take(find_from(rest@, mv@, 0)));
                    }
                }
                let t = trim_chars(&piece);
                let ghost before = self.temp_files.deep_view();
                self.temp_files.push(string_of(&t));
                proof {
                    assert(self.temp_files.deep_view() =~= before.push(t@));
                }
            },
            None => {},
        }
        report
    }

    /// The error of a run that ended with an exit code (-1 when there is
    /// none).
    pub fn failure_message(&self, exit_code: Option<i32>) -> (m: String)
        ensures
            m@ == "MarkItDown执行失败，退出码: "@ + signed_decimal(
                match exit_code {
                    Some(c) => c as int,
                    None => -1,
                },
            ) + "，错误输出: "@ + self.stderr_output@,
    {
        let code: i64 = match exit_code {
            Some(c) => c as i64,
            None => -1,
        };
        let mut m = lit("MarkItDown执行失败，退出码: ");
        push_signed(&mut m, code);
        push_str(&mut m, "，错误输出: ");
        push_str(&mut m, self.stderr_output.as_str());
        m
    }
}

/// The error of a run that took longer than `secs` seconds.
pub fn markitdown_timeout_message(secs: u64) -> (m: String)
    ensures
        m@ == "MarkItDown执行超时（"@ + decimal(secs as nat) + "秒）"@,
{
    let mut m = lit("MarkItDown执行超时（");
    push_decimal(&mut m, secs);
    push_str(&mut m, "秒）");
    m
}

/// Checks the output of a run: it must exist and hold more than white
/// space.
pub fn check_markitdown_output(content: Option<&str>) -> (r: Result<(), AppError>)
    ensures
        match content {
            None => r matches Err(e) && e is MarkItDown && e.message() == "未生成输出文件"@,
            Some(c) => if trim_spec(c@).len() == 0 {
                r matches Err(e) && e is MarkItDown && e.message() == "生成的内容为空"@
            } else {
                r is Ok
            },
        },
{
    match content {
        None => Err(AppError::MarkItDown(lit("未生成输出文件"))),
        Some(c) => {
            let v = chars_of(c);
            let t = trim_chars(&v);
            if t.len() == 0 {
                Err(AppError::MarkItDown(lit("生成的内容为空")))
            } else {
                Ok(())
            }
        },
    }
}

/// The general clean-up: lines re-joined, triple blank lines reduced
/// once, and doubled heading marks merged.
pub open spec fn clean_spec(s: Seq<char>) -> Seq<char> {
    let joined = join_spec(lines_spec(s), "\n"@);
    let a = replace_spec(joined, "\n\n\n"@, "\n\n"@);
    let b = replace_spec(a, "# #"@, "#"@);
    let c = replace_spec(b, "## ##"@, "##"@);
    replace_spec(c, "### ###"@, "###"@)
}

/// Spreadsheet output gets a title when it has a table and no heading.
pub open spec fn excel_spec(s: Seq<char>) -> Seq<char> {
    if !contains_spec(s, "# "@) && contains_spec(s, "|"@) {
        "# Excel数据\n\n"@ + s
    } else {
        s
    }
}

/// Slides are set apart by rules and headings.
pub open spec fn powerpoint_spec(s: Seq<char>) -> Seq<char> {
    replace_spec(s, "Slide "@, "\n---\n\n# Slide "@)
}

/// What `char::is_uppercase` returns (Unicode Uppercase property).
pub uninterp spec fn is_uppercase(c: char) -> bool;

/// What `char::is_numeric` returns (Unicode numeric categories).
pub uninterp spec fn is_numeric(c: char) -> bool;

/// `char::is_uppercase`.
#[verifier::external_body]
fn char_is_uppercase(c: char) -> (b: bool)
    ensures
        b == is_uppercase(c),
{
    c.is_uppercase()
}

/// `char::is_numeric`.
#[verifier::external_body]
fn char_is_numeric(c: char) -> (b: bool)
    ensures
        b == is_numeric(c),
{
    c.is_numeric()
}

/// Bytes that a character takes in UTF-8.
pub open spec fn utf8_width(c: char) -> nat {
    if (c as u32) < 0x80 {
        1
    } else if (c as u32) < 0x800 {
        2
    } else if (c as u32) < 0x10000 {
        3
    } else {
        4
    }
}

/// Bytes that a text takes in UTF-8 (`str::len`).
pub open spec fn utf8_len(s: Seq<char>) -> nat
    decreases s.len(),
{
    if s.len() == 0 {
        0
    } else {
        utf8_len(s.drop_last()) + utf8_width(s.last())
    }
}

/// A line that reads like a heading: upper case, digits and spaces only.
pub open spec fn shouting(l: Seq<char>) -> bool {
    forall|i: int| 0 <= i < l.len() ==> is_uppercase(#[trigger] l[i]) || is_ws_spec(l[i])
        || is_numeric(l[i])
}

/// How the Word clean-up rewrites one line.
pub open spec fn word_line(l: Seq<char>) -> Seq<char> {
    if trim_spec(l).len() == 0 {
        l
    } else if utf8_len(l) < 100 && !(l.len() > 0 && l[0] == '#') && (shouting(l) || (l.len() > 0
        && l.last() == ':')) {
        "## "@ + trim_char_end_spec(l, ':')
    } else {
        l
    }
}

/// In Word output, a line that is not blank, takes under 100 bytes and
/// does not start with `#` becomes a level-two heading (`## ` and the line
/// without its trailing colons) when it is made only of upper-case
/// letters, digits and white space, and also when it ends in `:`; a line
/// that starts with `#`, is blank or takes 100 bytes or more is kept, and
/// so is any line that is neither all capitals nor ends in `:`.
pub proof fn lemma_word_headings(l: Seq<char>)
    ensures
        ({
            let candidate = trim_spec(l).len() > 0 && utf8_len(l) < 100 && !(l.len() > 0 && l[0]
                == '#');
            let capitals = forall|i: int|
                0 <= i < l.len() ==> is_uppercase(#[trigger] l[i]) || is_ws_spec(l[i])
                    || is_numeric(l[i]);
            let colon = l.len() > 0 && l.last() == ':';
            &&& candidate && capitals ==> word_line(l) == "## "@ + trim_char_end_spec(l, ':')
            &&& candidate && colon ==> word_line(l) == "## "@ + trim_char_end_spec(l, ':')
            &&& !candidate ==> word_line(l) == l
            &&& !capitals && !colon ==> word_line(l) == l
        }),
{
}

/// The Word clean-up: heading-like lines become level-two headings.
pub open spec fn word_spec(s: Seq<char>) -> Seq<char> {
    join_spec(lines_spec(s).map_values(|l: Seq<char>| word_line(l)), "\n"@)
}

/// The whole post-processing of MarkItDown output for a document format.
pub open spec fn post_process_spec(s: Seq<char>, f: DocumentFormat, clean: bool) -> Seq<char> {
    let c = if clean {
        clean_spec(s)
    } else {
        s
    };
    match f {
        DocumentFormat::Excel => excel_spec(c),
        DocumentFormat::PowerPoint => powerpoint_spec(c),
        DocumentFormat::Word => word_spec(c),
        _ => c,
    }
}

fn replace_lit(s: &Vec<char>, p: &str, r: &str) -> (out: Vec<char>)
    requires
        p@.len() > 0,
    ensures
        out@ == replace_spec(s@, p@, r@),
{
    let pv = chars_of(p);
    let rv = chars_of(r);
    replace_chars(s, &pv, &rv)
}

fn clean_chars(s: &Vec<char>) -> (out: Vec<char>)
    ensures
        out@ == clean_spec(s@),
{
    let lines = split_lines(s);
    let nl = chars_of("\n");
    let joined = join_chars(&lines, &nl);
    proof {
        reveal_strlit("\n\n\n");
        reveal_strlit("# #");
        reveal_strlit("## ##");
        reveal_strlit("### ###");
    }
    let a = replace_lit(&joined, "\n\n\n", "\n\n");
    let b = replace_lit(&a, "# #", "#");
    let c = replace_lit(&b, "## ##", "##");
    replace_lit(&c, "### ###", "###")
}

fn contains_lit(s: &Vec<char>, p: &str) -> (b: bool)
    ensures
        b == contains_spec(s@, p@),
{
    let pv = chars_of(p);
    crate::text::contains_exec(s, &pv)
}

fn excel_chars(s: Vec<char>) -> (out: Vec<char>)
    ensures
        out@ == excel_spec(s@),
{
    if !contains_lit(&s, "# ") && contains_lit(&s, "|") {
        let mut out = chars_of("# Excel数据\n\n");
        let mut i: usize = 0;
        let ghost head = out@;
        while i < s.len()
            invariant
                i <= s@.len(),
                out@ == head + s@.take(i as int),
            decreases s.len() - i,
        {
            out.push(s[i]);
            proof {
                assert(s@.take(i + 1) =~= s@.take(i as int).push(s@[i as int]));
            }
            i = i + 1;
        }
        proof {
            assert(s@.take(s@.len() as int) =~= s@);
        }
        out
    } else {
        s
    }
}

/// The UTF-8 length of a prefix is at most that of the whole text.
proof fn lemma_utf8_len_prefix(s: Seq<char>, i: int)
    requires
        0 <= i <= s.len(),
    ensures
        utf8_len(s.take(i)) <= utf8_len(s),
    decreases s.len(),
{
    if i < s.len() {
        assert(s.drop_last().take(i) =~= s.take(i));
        lemma_utf8_len_prefix(s.drop_last(), i);
    } else {
        assert(s.take(i) =~= s);
    }
}

fn utf8_len_below_100(l: &Vec<char>) -> (b: bool)
    ensures
        b == (utf8_len(l@) < 100),
{
    let mut n: usize = 0;
    let mut i: usize = 0;
    while i < l.len()
        invariant
            i <= l@.len(),
            n == utf8_len(l@.take(i as int)),
            n < 100,
        decreases l.len() - i,
    {
        proof {
            assert(l@.take(i + 1).drop_last() =~= l@.take(i as int));
        }
        let u = l[i] as u32;
        let w: usize = if u < 0x80 {
            1
        } else if u < 0x800 {
            2
        } else if u < 0x10000 {
            3
        } else {
            4
        };
        n = n + w;
        i = i + 1;
        if n >= 100 {
            proof {
                lemma_utf8_len_prefix(l@, i as int);
            }
            return false;
        }
    }
    proof {
        assert(l@.take(l@.len() as int) =~= l@);
    }
    true
}

fn shouting_exec(l: &Vec<char>) -> (b: bool)
    ensures
        b == shouting(l@),
{
    let mut i: usize = 0;
    while i < l.len()
        invariant
            i <= l@.len(),
            forall|j: int|
                0 <= j < i ==> is_uppercase(#[trigger] l@[j]) || is_ws_spec(l@[j]) || is_numeric(
                    l@[j],
                ),
        decreases l.len() - i,
    {
        let c = l[i];
        if !(char_is_uppercase(c) || is_ws(c) || char_is_numeric(c)) {
            return false;
        }
        i = i + 1;
    }
    true
}

fn trim_end_colons(l: &Vec<char>) -> (r: Vec<char>)
    ensures
        r@ == trim_char_end_spec(l@, ':'),
{
    let mut e = l.len();
    proof {
        assert(l@.take(e as int) =~= l@);
    }
    while e > 0 && l[e - 1] == ':'
        invariant
            e <= l@.len(),
            trim_char_end_spec(l@.take(e as int), ':') == trim_char_end_spec(l@, ':'),
        decreases e,
    {
        proof {
            assert(l@.take(e as int).drop_last() =~= l@.take(e - 1));
        }
        e = e - 1;
    }
    proof {
        assert(trim_char_end_spec(l@.take(e as int), ':') == l@.take(e as int));
        if e == l@.len() {
            assert(l@.take(e as int) =~= l@);
        }
    }
    let r = slice_chars(l, 0, e);
    proof {
        assert(r@ =~= l@.take(e as int));
    }
    r
}

fn word_line_exec(l: &Vec<char>) -> (r: Vec<char>)
    ensures
        r@ == word_line(l@),
{
    let t = trim_chars(l);
    if t.len() == 0 {
        return slice_chars(l, 0, l.len());
    }
    let short = utf8_len_below_100(l);
    let hashed = l.len() > 0 && l[0] == '#';
    let colon = l.len() > 0 && l[l.len() - 1] == ':';
    if short && !hashed && (shouting_exec(l) || colon) {
        let mut out = chars_of("## ");
        let body = trim_end_colons(l);
        let ghost head = out@;
        let mut i: usize = 0;
        while i < body.len()
            invariant
                i <= body@.len(),
                out@ == head + body@.take(i as int),
            decreases body.len() - i,
        {
            out.push(body[i]);
            proof {
                assert(body@.take(i + 1) =~= body@.take(i as int).push(body@[i as int]));
            }
            i = i + 1;
        }
        proof {
            assert(body@.take(body@.len() as int) =~= body@);
        }
        out
    } else {
        let r = slice_chars(l, 0, l.len());
        proof {
            assert(r@ =~= l@);
        }
        r
    }
}

fn word_chars(s: &Vec<char>) -> (out: Vec<char>)
    ensures
        out@ == word_spec(s@),
{
    let lines = split_lines(s);
    let ghost lv = lines@.map_values(|l: Vec<char>| l@);
    let mut rewritten: Vec<Vec<char>> = Vec::new();
    let mut i: usize = 0;
    while i < lines.len()
        invariant
            i <= lines@.len(),
            lv == lines@.map_values(|l: Vec<char>| l@),
            lv == lines_spec(s@),
            rewritten@.map_values(|l: Vec<char>| l@) == lv.take(i as int).map_values(
                |l: Seq<char>| word_line(l),
            ),
        decreases lines.len() - i,
    {
        proof {
            assert(lv[i as int] == lines@[i as int]@);
        }
        let w = word_line_exec(&lines[i]);
        let ghost before = rewritten@.map_values(|l: Vec<char>| l@);
        rewritten.push(w);
        proof {
            assert(rewritten@.map_values(|l: Vec<char>| l@) =~= before.push(w@));
            assert(lv.take(i + 1).map_values(|l: Seq<char>| word_line(l)) =~= lv.take(
                i as int,
            ).map_values(|l: Seq<char>| word_line(l)).push(word_line(lv[i as int])));
            assert(rewritten@.map_values(|l: Vec<char>| l@) =~= lv.take(i + 1).map_values(
                |l: Seq<char>| word_line(l),
            ));
        }
        i = i + 1;
    }
    proof {
        assert(lv.take(lines@.len() as int) =~= lv);
    }
    let nl = chars_of("\n");
    join_chars(&rewritten, &nl)
}

/// Cleans MarkItDown output for a document format; `clean_output` enables
/// the general clean-up.
pub fn post_process_content(content: &str, format: &DocumentFormat, clean_output: bool) -> (out:
    String)
    ensures
        out@ == post_process_spec(content@, *format, clean_output),
{
    let v = chars_of(content);
    let c = if clean_output {
        clean_chars(&v)
    } else {
        v
    };
    let r = match format {
        DocumentFormat::Excel => excel_chars(c),
        DocumentFormat::PowerPoint => {
            proof {
                reveal_strlit("Slide ");
            }
            replace_lit(&c, "Slide ", "\n---\n\n# Slide ")
        },
        DocumentFormat::Word => word_chars(&c),
        _ => c,
    };
    string_of(&r)
}

} // verus!
