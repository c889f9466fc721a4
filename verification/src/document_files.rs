//! What the document service decides about the files it handles: their
//! MIME type, the name of a download, the temporary file of a task, the
//! size ceiling, and the stage a parse runs under.

use vstd::prelude::*;
use crate::error::AppError;
use crate::formats::{lowercase, path_extension, path_file_stem, to_lowercase};
use crate::markitdown::is_numeric;
use crate::task_state::{ParserEngine, ProcessingStage};
use crate::text::{chars_of, decimal, push_char, push_decimal, push_str, string_of, str_eq};

verus! {

/// The MIME type the service gives a file by its lower-cased extension.
pub open spec fn mime_for(ext: Seq<char>) -> Seq<char> {
    if ext == "pdf"@ {
        "application/pdf"@
    } else if ext == "doc"@ {
        "application/msword"@
    } else if ext == "docx"@ {
        "application/vnd.openxmlformats-officedocument.wordprocessingml.document"@
    } else if ext == "ppt"@ {
        "application/vnd.ms-powerpoint"@
    } else if ext == "pptx"@ {
        "application/vnd.openxmlformats-officedocument.presentationml.presentation"@
    } else if ext == "xls"@ {
        "application/vnd.ms-excel"@
    } else if ext == "xlsx"@ {
        "application/vnd.openxmlformats-officedocument.spreadsheetml.sheet"@
    } else if ext == "txt"@ {
        "text/plain"@
    } else if ext == "md"@ {
        "text/markdown"@
    } else if ext == "html"@ || ext == "htm"@ {
        "text/html"@
    } else if ext == "xml"@ {
        "application/xml"@
    } else if ext == "json"@ {
        "application/json"@
    } else if ext == "csv"@ {
        "text/csv"@
    } else if ext == "rtf"@ {
        "application/rtf"@
    } else if ext == "odt"@ {
        "application/vnd.oasis.opendocument.text"@
    } else if ext == "ods"@ {
        "application/vnd.oasis.opendocument.spreadsheet"@
    } else if ext == "odp"@ {
        "application/vnd.oasis.opendocument.presentation"@
    } else {
        "application/octet-stream"@
    }
}

/// The MIME type of a file with the given extension (any case).
pub fn mime_type_for_extension(ext: &str) -> (m: String)
    ensures
        m@ == mime_for(lowercase(ext@)),
{
    let l = to_lowercase(ext);
    let e = l.as_str();
    let m = if str_eq(e, "pdf") {
        "application/pdf"
    } else if str_eq(e, "doc") {
        "application/msword"
    } else if str_eq(e, "docx") {
        "application/vnd.openxmlformats-officedocument.wordprocessingml.document"
    } else if str_eq(e, "ppt") {
        "application/vnd.ms-powerpoint"
    } else if str_eq(e, "pptx") {
        "application/vnd.openxmlformats-officedocument.presentationml.presentation"
    } else if str_eq(e, "xls") {
        "application/vnd.ms-excel"
    } else if str_eq(e, "xlsx") {
        "application/vnd.openxmlformats-officedocument.spreadsheetml.sheet"
    } else if str_eq(e, "txt") {
        "text/plain"
    } else if str_eq(e, "md") {
        "text/markdown"
    } else if str_eq(e, "html") || str_eq(e, "htm") {
        "text/html"
    } else if str_eq(e, "xml") {
        "application/xml"
    } else if str_eq(e, "json") {
        "application/json"
    } else if str_eq(e, "csv") {
        "text/csv"
    } else if str_eq(e, "rtf") {
        "application/rtf"
    } else if str_eq(e, "odt") {
        "application/vnd.oasis.opendocument.text"
    } else if str_eq(e, "ods") {
        "application/vnd.oasis.opendocument.spreadsheet"
    } else if str_eq(e, "odp") {
        "application/vnd.oasis.opendocument.presentation"
    } else {
        "application/octet-stream"
    };
    String::from_str(m)
}

/// The MIME type of the file at a path, by the extension the platform's
/// path rules find (none counts as the empty extension).
pub fn detect_mime_type(file_path: &str) -> (m: String)
    ensures
        exists|ext: Seq<char>| m@ == mime_for(lowercase(ext)),
{
    match path_extension(file_path) {
        Some(e) => mime_type_for_extension(e.as_str()),
        None => mime_type_for_extension(""),
    }
}

/// Position of the first `c` in `s`, or its length.
pub open spec fn first_index_of(s: Seq<char>, c: char) -> int
    decreases s.len(),
{
    if s.len() == 0 {
        0
    } else if s[0] == c {
        0
    } else {
        1 + first_index_of(s.drop_first(), c)
    }
}

/// What follows the last `c` in `s` (all of `s` without one).
pub open spec fn after_last(s: Seq<char>, c: char) -> Seq<char>
    decreases s.len(),
{
    if s.len() == 0 {
        s
    } else if s.last() == c {
        Seq::empty()
    } else {
        after_last(s.drop_last(), c).push(s.last())
    }
}

/// The name a downloaded file is given: the last path segment of the URL
/// without its query.
pub open spec fn url_file_name(url: Seq<char>) -> Seq<char> {
    after_last(url.take(first_index_of(url, '?')), '/')
}

proof fn lemma_first_index_bounds(s: Seq<char>, c: char)
    ensures
        0 <= first_index_of(s, c) <= s.len(),
        forall|j: int| 0 <= j < first_index_of(s, c) ==> s[j] != c,
        first_index_of(s, c) < s.len() ==> s[first_index_of(s, c)] == c,
    decreases s.len(),
{
    if s.len() > 0 && s[0] != c {
        lemma_first_index_bounds(s.drop_first(), c);
        assert forall|j: int| 0 <= j < first_index_of(s, c) implies s[j] != c by {
            if j > 0 {
                assert(s[j] == s.drop_first()[j - 1]);
            }
        }
    }
}

proof fn lemma_first_index_at(s: Seq<char>, c: char, k: int)
    requires
        0 <= k <= s.len(),
        forall|j: int| 0 <= j < k ==> s[j] != c,
        k < s.len() ==> s[k] == c,
    ensures
        first_index_of(s, c) == k,
    decreases s.len(),
{
    if s.len() > 0 && s[0] != c {
        lemma_first_index_at(s.drop_first(), c, k - 1);
    }
}

proof fn lemma_after_last_from(s: Seq<char>, c: char, k: int)
    requires
        0 <= k <= s.len(),
        k == 0 || s[k - 1] == c,
        forall|j: int| k <= j < s.len() ==> s[j] != c,
    ensures
        after_last(s, c) == s.subrange(k, s.len() as int),
    decreases s.len(),
{
    if s.len() > 0 {
        if s.last() == c {
            assert(k == s.len());
        } else {
            lemma_after_last_from(s.drop_last(), c, k);
            assert(s.drop_last().subrange(k, s.len() - 1).push(s.last()) =~= s.subrange(
                k,
                s.len() as int,
            ));
        }
    } else {
        assert(s.subrange(0, 0) =~= s);
    }
}

/// The name a file downloaded from `url` is given.
pub fn filename_from_url(url: &str) -> (r: String)
    ensures
        r@ == url_file_name(url@),
{
    let v = chars_of(url);
    let mut q: usize = 0;
    while q < v.len() && v[q] != '?'
        invariant
            q <= v@.len(),
            forall|j: int| 0 <= j < q ==> v@[j] != '?',
        decreases v.len() - q,
    {
        q = q + 1;
    }
    let mut start: usize = 0;
    let mut k: usize = 0;
    while k < q
        invariant
            q <= v@.len(),
            k <= q,
            start <= k,
            start == 0 || v@[start - 1] == '/',
            forall|j: int| start <= j < k ==> v@[j] != '/',
        decreases q - k,
    {
        if v[k] == '/' {
            start = k + 1;
        }
        k = k + 1;
    }
    let mut out: Vec<char> = Vec::new();
    let mut i: usize = start;
    while i < q
        invariant
            start <= i <= q,
            q <= v@.len(),
            out@ == v@.subrange(start as int, i as int),
        decreases q - i,
    {
        out.push(v[i]);
        proof {
            assert(out@ =~= v@.subrange(start as int, i + 1));
        }
        i = i + 1;
    }
    proof {
        lemma_first_index_at(v@, '?', q as int);
        let t = v@.take(q as int);
        lemma_after_last_from(t, '/', start as int);
        assert(t.subrange(start as int, t.len() as int) =~= v@.subrange(start as int, q as int));
    }
    string_of(&out)
}

/// What `char::is_alphabetic` returns (Unicode Alphabetic property).
pub uninterp spec fn is_alphabetic(c: char) -> bool;

/// `char::is_alphanumeric`, which the standard library documents as
/// `is_alphabetic() || is_numeric()`.
#[verifier::external_body]
fn char_is_alphanumeric(c: char) -> (b: bool)
    ensures
        b == (is_alphabetic(c) || is_numeric(c)),
{
    c.is_alphanumeric()
}

/// Characters kept in the name of a temporary file.
pub open spec fn keeps_char(c: char) -> bool {
    is_alphabetic(c) || is_numeric(c) || c == '_' || c == '-' || c == '.'
}

/// A name with every other character dropped.
pub open spec fn clean_name(s: Seq<char>) -> Seq<char> {
    s.filter(|c: char| keeps_char(c))
}

/// The name of a task's temporary file: `task_`, the task id, `_`, the
/// cleaned stem of the download's name (`file` without one), `.`, and its
/// extension (`tmp` without one).
pub open spec fn temp_name_spec(
    task_id: Seq<char>,
    stem: Option<Seq<char>>,
    ext: Option<Seq<char>>,
) -> Seq<char> {
    "task_"@ + task_id + "_"@ + clean_name(
        match stem {
            Some(s) => s,
            None => "file"@,
        },
    ) + "."@ + match ext {
        Some(e) => e,
        None => "tmp"@,
    }
}

/// The file name of a task's temporary copy of a download, given the
/// stem and extension of the download's name as the platform's path rules
/// find them.
pub fn temp_file_name_for_task(task_id: &str, stem: Option<&str>, extension: Option<&str>) -> (r:
    String)
    ensures
        r@ == temp_name_spec(
            task_id@,
            match stem {
                Some(s) => Some(s@),
                None => None,
            },
            match extension {
                Some(e) => Some(e@),
                None => None,
            },
        ),
{
    let st = match stem {
        Some(s) => s,
        None => "file",
    };
    let v = chars_of(st);
    let mut r = String::from_str("task_");
    push_str(&mut r, task_id);
    push_str(&mut r, "_");
    let ghost head = r@;
    let mut i: usize = 0;
    proof {
        assert(v@.take(0).filter(|c: char| keeps_char(c)) =~= Seq::<char>::empty());
        assert(r@ =~= head + v@.take(0).filter(|c: char| keeps_char(c)));
    }
    while i < v.len()
        invariant
            i <= v@.len(),
            r@ == head + v@.take(i as int).filter(|c: char| keeps_char(c)),
        decreases v.len() - i,
    {
        let c = v[i];
        proof {
            assert(v@.take(i + 1).drop_last() =~= v@.take(i as int));
            assert(v@.take(i + 1).last() == c);
            v@.take(i as int).lemma_filter_push(c, |c: char| keeps_char(c));
            assert(v@.take(i as int).push(c) =~= v@.take(i + 1));
        }
        if char_is_alphanumeric(c) || c == '_' || c == '-' || c == '.' {
            push_char(&mut r, c);
        }
        i = i + 1;
    }
    proof {
        assert(v@.take(v@.len() as int) =~= v@);
    }
    push_str(&mut r, ".");
    match extension {
        Some(e) => push_str(&mut r, e),
        None => push_str(&mut r, "tmp"),
    }
    r
}

/// The file name of a task's temporary copy of a download named
/// `filename`, with the stem and extension the platform's path rules find.
pub fn task_temp_file_name(task_id: &str, filename: &str) -> (r: String)
    ensures
        exists|stem: Option<Seq<char>>, ext: Option<Seq<char>>|
            r@ == #[trigger] temp_name_spec(task_id@, stem, ext),
{
    let stem = path_file_stem(filename);
    let ext = path_extension(filename);
    let s: Option<&str> = match &stem {
        Some(x) => Some(x.as_str()),
        None => None,
    };
    let e: Option<&str> = match &ext {
        Some(x) => Some(x.as_str()),
        None => None,
    };
    temp_file_name_for_task(task_id, s, e)
}

/// Refuses a document larger than the ceiling (in bytes).
pub fn check_document_size(file_size: u64, max_size: u64) -> (r: Result<(), AppError>)
    ensures
        r is Ok <==> file_size <= max_size,
        r matches Err(e) ==> e is File && e.message() == "文件大小超过限制: "@ + decimal(
            file_size as nat,
        ) + " > "@ + decimal(max_size as nat) + " bytes"@,
{
    if file_size > max_size {
        let mut m = String::from_str("文件大小超过限制: ");
        push_decimal(&mut m, file_size);
        push_str(&mut m, " > ");
        push_decimal(&mut m, max_size);
        push_str(&mut m, " bytes");
        return Err(AppError::File(m));
    }
    Ok(())
}

/// The stage a task is in while an engine parses it.
pub fn execution_stage(engine: ParserEngine) -> (s: ProcessingStage)
    ensures
        s == if engine == ParserEngine::MinerU {
            ProcessingStage::MinerUExecuting
        } else {
            ProcessingStage::MarkItDownExecuting
        },
{
    match engine {
        ParserEngine::MinerU => ProcessingStage::MinerUExecuting,
        _ => ProcessingStage::MarkItDownExecuting,
    }
}

} // verus!
