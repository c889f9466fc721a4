//! Document formats, the engine that parses each, and the security
//! verdicts on a file's name, extension and size.

use vstd::prelude::*;
use crate::env_types::opt_view;
use crate::error::AppError;
use crate::task_state::ParserEngine;
use crate::version::split_spec;
use crate::text::{contains_spec, push_decimal, push_str, str_contains, str_eq, decimal};

verus! {

/// Format of a document.
#[derive(Debug, Clone)]
pub enum DocumentFormat {
    PDF,
    Word,
    Excel,
    PowerPoint,
    Image,
    Audio,
    HTML,
    Text,
    Txt,
    Md,
    Other(String),
}

/// A parsing engine. Parsing itself runs an outside program and is
/// driven by the caller; what the library asks of an engine is which
/// formats it takes and how it is called.
pub trait DocumentParser {
    /// Whether the engine takes documents of this format.
    fn supports_format(&self, format: &DocumentFormat) -> bool;

    /// The engine's name.
    fn get_name(&self) -> &'static str;

    /// A one-line description of the engine.
    fn get_description(&self) -> &'static str;
}

/// Chooses the parsing engine for a format.
pub struct ParserFactory;

impl ParserFactory {
    /// MinerU for PDF, MarkItDown for everything else.
    pub fn get_parser_for_format(format: &DocumentFormat) -> (e: ParserEngine)
        ensures
            e == if format is PDF {
                ParserEngine::MinerU
            } else {
                ParserEngine::MarkItDown
            },
    {
        match format {
            DocumentFormat::PDF => ParserEngine::MinerU,
            _ => ParserEngine::MarkItDown,
        }
    }

    /// Every format, `Other` included, has an engine.
    pub fn is_format_supported(format: &DocumentFormat) -> (b: bool)
        ensures
            b,
    {
        match format {
            DocumentFormat::PDF | DocumentFormat::Word | DocumentFormat::Excel
            | DocumentFormat::PowerPoint | DocumentFormat::Image | DocumentFormat::Audio
            | DocumentFormat::HTML | DocumentFormat::Text | DocumentFormat::Txt
            | DocumentFormat::Md | DocumentFormat::Other(_) => true,
        }
    }
}

/// Security verdict on a file.
#[derive(Debug, Clone)]
pub enum SecurityStatus {
    Safe,
    Suspicious(String),
    Dangerous(String),
    Unknown,
}

/// Settings of the security checks.
#[derive(Debug, Clone)]
pub struct SecurityConfig {
    pub enable_size_check: bool,
    pub enable_malware_detection: bool,
    pub enable_filename_validation: bool,
    pub max_allowed_size: u64,
    pub dangerous_extensions: Vec<String>,
}

/// Extensions that are refused.
pub open spec fn default_dangerous() -> Seq<Seq<char>> {
    seq!["exe"@, "bat"@, "cmd"@, "scr"@, "com"@, "pif"@, "vbs"@, "js"@, "jar"@]
}

impl SecurityConfig {
    /// The standard checks with the given size ceiling.
    pub fn with_size_limit(max_allowed_size: u64) -> (c: Self)
        ensures
            c.enable_size_check && !c.enable_malware_detection && c.enable_filename_validation,
            c.max_allowed_size == max_allowed_size,
            c.dangerous_extensions.deep_view() == default_dangerous(),
    {
        let mut v: Vec<String> = Vec::new();
        v.push(String::from_str("exe"));
        v.push(String::from_str("bat"));
        v.push(String::from_str("cmd"));
        v.push(String::from_str("scr"));
        v.push(String::from_str("com"));
        v.push(String::from_str("pif"));
        v.push(String::from_str("vbs"));
        v.push(String::from_str("js"));
        v.push(String::from_str("jar"));
        proof {
            assert(v.deep_view() =~= default_dangerous());
        }
        SecurityConfig {
            enable_size_check: true,
            enable_malware_detection: false,
            enable_filename_validation: true,
            max_allowed_size,
            dangerous_extensions: v,
        }
    }
}

/// What `str::to_lowercase` returns (Unicode lowercase mapping).
pub uninterp spec fn lowercase(s: Seq<char>) -> Seq<char>;

/// Lowercases a string with `str::to_lowercase`.
#[verifier::external_body]
pub(crate) fn to_lowercase(s: &str) -> (r: String)
    ensures
        r@ == lowercase(s@),
{
    s.to_lowercase()
}

/// A path that splits the same way on every platform: no `\`, no
/// `:` (so no Windows prefix), and not starting with `//`; `/` is its only
/// separator.
pub open spec fn plain_path(p: Seq<char>) -> bool {
    &&& !p.contains('\\')
    &&& !p.contains(':')
    &&& !(p.len() >= 2 && p[0] == '/' && p[1] == '/')
}

/// The named components of a plain path: its `/`-separated pieces
/// without empty ones and `.` (which `Path::components` normalizes away;
/// a path that is only `.` has no name either).
pub open spec fn path_pieces(p: Seq<char>) -> Seq<Seq<char>> {
    split_spec(p, '/').filter(|c: Seq<char>| c.len() > 0 && c != seq!['.'])
}

/// The file name of a plain path: its last component, unless there is
/// none or it is `..`.
pub open spec fn file_name_spec(p: Seq<char>) -> Option<Seq<char>> {
    let ps = path_pieces(p);
    if ps.len() == 0 || ps.last() == seq!['.', '.'] {
        None
    } else {
        Some(ps.last())
    }
}

/// Position of the last `.` of a name, or -1.
pub open spec fn last_dot(n: Seq<char>) -> int
    decreases n.len(),
{
    if n.len() == 0 {
        -1
    } else if n.last() == '.' {
        n.len() - 1
    } else {
        last_dot(n.drop_last())
    }
}

/// The stem of a file name: the part before its last `.`, or all of it
/// when it has no `.` other than a leading one.
pub open spec fn stem_spec(n: Seq<char>) -> Seq<char> {
    if last_dot(n) <= 0 {
        n
    } else {
        n.take(last_dot(n))
    }
}

/// The extension of a file name: the part after its last `.`, none when
/// it has no `.` other than a leading one.
pub open spec fn extension_spec(n: Seq<char>) -> Option<Seq<char>> {
    if last_dot(n) <= 0 {
        None
    } else {
        Some(n.skip(last_dot(n) + 1))
    }
}

/// The extension of a path as `Path::extension` reports it: that of its
/// file name. How a path splits into components depends on the platform;
/// for a plain path (`/` the only separator, no prefix) it is stated.
#[verifier::external_body]
pub(crate) fn path_extension(p: &str) -> (r: Option<String>)
    ensures
        plain_path(p@) ==> opt_view(r) == match file_name_spec(p@) {
            Some(n) => extension_spec(n),
            None => None,
        },
{
    std::path::Path::new(p).extension().and_then(|e| e.to_str()).map(|e| e.to_string())
}

/// The file name of a path as `Path::file_name` reports it: its last
/// component, unless that is `..` (stated for a plain path; elsewhere
/// platform dependent).
#[verifier::external_body]
pub(crate) fn path_file_name(p: &str) -> (r: Option<String>)
    ensures
        plain_path(p@) ==> opt_view(r) == file_name_spec(p@),
{
    std::path::Path::new(p).file_name().and_then(|e| e.to_str()).map(|e| e.to_string())
}

/// The stem of a path as `Path::file_stem` reports it: its file name
/// before the last `.` (stated for a plain path; elsewhere platform
/// dependent).
#[verifier::external_body]
pub(crate) fn path_file_stem(p: &str) -> (r: Option<String>)
    ensures
        plain_path(p@) ==> opt_view(r) == match file_name_spec(p@) {
            Some(n) => Some(stem_spec(n)),
            None => None,
        },
{
    std::path::Path::new(p).file_stem().and_then(|e| e.to_str()).map(|e| e.to_string())
}

/// Whether an extension is on the refused list (compared in lower case).
pub open spec fn is_dangerous(ext: Seq<char>, list: Seq<Seq<char>>) -> bool {
    list.contains(lowercase(ext))
}

/// Verdict for a format when the extension is not refused.
pub open spec fn format_verdict_is(f: DocumentFormat, s: SecurityStatus) -> bool {
    match f {
        DocumentFormat::HTML => s matches SecurityStatus::Suspicious(m) && m@ == "HTML文件可能包含脚本"@,
        DocumentFormat::Other(_) => s is Unknown,
        _ => s is Safe,
    }
}

/// The security verdict for a format and the file's extension.
pub open spec fn security_status_is(
    f: DocumentFormat,
    ext: Option<Seq<char>>,
    list: Seq<Seq<char>>,
    s: SecurityStatus,
) -> bool {
    match ext {
        Some(e) => if is_dangerous(e, list) {
            s matches SecurityStatus::Dangerous(m) && m@ == "危险文件扩展名: "@ + e
        } else {
            format_verdict_is(f, s)
        },
        None => format_verdict_is(f, s),
    }
}

fn vec_contains(list: &Vec<String>, s: &str) -> (b: bool)
    ensures
        b == list.deep_view().contains(s@),
{
    let mut i: usize = 0;
    while i < list.len()
        invariant
            i <= list@.len(),
            forall|j: int| 0 <= j < i ==> list.deep_view()[j] != s@,
        decreases list.len() - i,
    {
        if str_eq(list[i].as_str(), s) {
            proof {
                assert(list.deep_view()[i as int] == s@);
            }
            return true;
        }
        i = i + 1;
    }
    false
}

fn concat(head: &str, tail: &str) -> (r: String)
    ensures
        r@ == head@ + tail@,
{
    let mut r = String::from_str(head);
    push_str(&mut r, tail);
    r
}

/// Bytes in a MiB.
pub const MIB: u64 = 1048576;

/// Detects document formats and judges their safety.
#[derive(Debug, Clone)]
pub struct FormatDetector {
    pub security_config: SecurityConfig,
}

impl FormatDetector {
    /// A detector with the given security settings.
    pub fn new(security_config: SecurityConfig) -> (d: Self)
        ensures
            d.security_config == security_config,
    {
        FormatDetector { security_config }
    }

    /// The security verdict for a document of `format` whose path has the
    /// given extension.
    pub fn assess_security_status_for_extension(
        &self,
        format: &DocumentFormat,
        extension: Option<&str>,
    ) -> (s: SecurityStatus)
        ensures
            security_status_is(
                *format,
                match extension {
                    Some(e) => Some(e@),
                    None => None,
                },
                self.security_config.dangerous_extensions.deep_view(),
                s,
            ),
    {
        match extension {
            Some(e) => {
                let lower = to_lowercase(e);
                if vec_contains(&self.security_config.dangerous_extensions, lower.as_str()) {
                    return SecurityStatus::Dangerous(concat("危险文件扩展名: ", e));
                }
            },
            None => {},
        }
        match format {
            DocumentFormat::HTML => SecurityStatus::Suspicious(
                String::from_str("HTML文件可能包含脚本"),
            ),
            DocumentFormat::Other(_) => SecurityStatus::Unknown,
            _ => SecurityStatus::Safe,
        }
    }

    /// The security verdict for a document of `format` at `file_path`; the
    /// verdict is that of the extension the platform's path rules find.
    pub fn assess_security_status(&self, format: &DocumentFormat, file_path: &str) -> (s:
        SecurityStatus)
        ensures
            exists|ext: Option<Seq<char>>|
                security_status_is(
                    *format,
                    ext,
                    self.security_config.dangerous_extensions.deep_view(),
                    s,
                ),
    {
        let ext = path_extension(file_path);
        match &ext {
            Some(e) => self.assess_security_status_for_extension(format, Some(e.as_str())),
            None => self.assess_security_status_for_extension(format, None),
        }
    }
}

/// Whether a file name holds a character sequence that could leave its
/// directory.
pub open spec fn bad_file_name(n: Seq<char>) -> bool {
    contains_spec(n, ".."@) || contains_spec(n, "/"@) || contains_spec(n, "\\"@)
}

/// The outcome of the file checks for the given extension, file name and
/// size (`None` where the path has none or the size could not be read).
pub open spec fn file_security_ok(
    c: SecurityConfig,
    ext: Option<Seq<char>>,
    name: Option<Seq<char>>,
    size: Option<u64>,
) -> Result<(), Seq<char>> {
    if !c.enable_size_check && !c.enable_filename_validation {
        Ok(())
    } else if c.enable_filename_validation && ext is Some && is_dangerous(
        ext->0,
        c.dangerous_extensions.deep_view(),
    ) {
        Err("危险文件扩展名: "@ + ext->0)
    } else if c.enable_filename_validation && name is Some && bad_file_name(name->0) {
        Err("文件名包含危险字符: "@ + name->0)
    } else if c.enable_size_check && size is Some && size->0 > c.max_allowed_size {
        Err(
            "文件大小超过限制: "@ + decimal(size->0 as nat) + " bytes (最大: "@ + decimal(
                c.max_allowed_size as nat,
            ) + " bytes)"@,
        )
    } else {
        Ok(())
    }
}

/// Whether an error result carries exactly the expected outcome.
pub open spec fn matches_outcome(r: Result<(), AppError>, o: Result<(), Seq<char>>) -> bool {
    match o {
        Ok(_) => r is Ok,
        Err(m) => r matches Err(e) && e is Validation && e.message() == m,
    }
}

impl FormatDetector {
    /// Checks a file against the security settings, given its extension,
    /// its file name and its size.
    pub fn validate_file_security_with(
        &self,
        extension: Option<&str>,
        file_name: Option<&str>,
        file_size: Option<u64>,
    ) -> (r: Result<(), AppError>)
        ensures
            matches_outcome(
                r,
                file_security_ok(
                    self.security_config,
                    match extension {
                        Some(e) => Some(e@),
                        None => None,
                    },
                    match file_name {
                        Some(e) => Some(e@),
                        None => None,
                    },
                    file_size,
                ),
            ),
    {
        let c = &self.security_config;
        if !c.enable_size_check && !c.enable_filename_validation {
            return Ok(());
        }
        if c.enable_filename_validation {
            match extension {
                Some(e) => {
                    let lower = to_lowercase(e);
                    if vec_contains(&c.dangerous_extensions, lower.as_str()) {
                        return Err(AppError::Validation(concat("危险文件扩展名: ", e)));
                    }
                },
                None => {},
            }
            match file_name {
                Some(n) => {
                    if str_contains(n, "..") || str_contains(n, "/") || str_contains(n, "\\") {
                        return Err(AppError::Validation(concat("文件名包含危险字符: ", n)));
                    }
                },
                None => {},
            }
        }
        if c.enable_size_check {
            match file_size {
                Some(size) => {
                    if size > c.max_allowed_size {
                        let mut m = String::from_str("文件大小超过限制: ");
                        push_decimal(&mut m, size);
                        push_str(&mut m, " bytes (最大: ");
                        push_decimal(&mut m, c.max_allowed_size);
                        push_str(&mut m, " bytes)");
                        return Err(AppError::Validation(m));
                    }
                },
                None => {},
            }
        }
        Ok(())
    }

    /// Checks a file at `file_path` (of the given size, if it could be
    /// read) against the security settings; the extension and file name
    /// are those the platform's path rules find.
    pub fn validate_file_security(&self, file_path: &str, file_size: Option<u64>) -> (r: Result<
        (),
        AppError,
    >)
        ensures
            exists|ext: Option<Seq<char>>, name: Option<Seq<char>>|
                matches_outcome(
                    r,
                    file_security_ok(self.security_config, ext, name, file_size),
                ),
    {
        let ext = path_extension(file_path);
        let name = path_file_name(file_path);
        let e = match &ext {
            Some(x) => Some(x.as_str()),
            None => None,
        };
        let n = match &name {
            Some(x) => Some(x.as_str()),
            None => None,
        };
        self.validate_file_security_with(e, n, file_size)
    }
}


} // verus!
