//! Checks of the working directory before a virtual environment is made
//! there: what blocks it, what to warn of, what can be cleaned up, and the
//! report of it all.

use vstd::prelude::*;
use crate::dep_report::dash_lines;
use crate::env_report::{numbered_lines, push_numbered};
use crate::text::{
    contains_spec, decimal, push_decimal, push_str, str_contains,
};
use vstd::utf8::encode_utf8;

verus! {

/// What blocks the directory.
#[derive(Debug, Clone, Copy, PartialEq, Eq, Structural)]
pub enum DirectoryIssueType {
    PermissionDenied,
    InsufficientSpace,
    PathConflict,
    PathTooLong,
}

/// What the directory should be warned of.
#[derive(Debug, Clone, Copy, PartialEq, Eq, Structural)]
pub enum DirectoryWarningType {
    ExistingVenv,
    CorruptedVenv,
    PathWithSpaces,
}

/// How bad a directory issue is.
#[derive(Debug, Clone, Copy, PartialEq, Eq, Structural)]
pub enum ValidationSeverity {
    Critical,
    High,
    Medium,
    Low,
}

/// A clean-up that resolves an issue.
#[derive(Debug, Clone, Copy, PartialEq, Eq, Structural)]
pub enum CleanupType {
    RemoveConflictingFile,
    RemoveCorruptedVenv,
    CreateBackup,
}

/// How risky a clean-up is.
#[derive(Debug, Clone, Copy, PartialEq, Eq, Structural)]
pub enum CleanupRisk {
    Low,
    Medium,
    High,
}

/// A problem that blocks the directory.
#[derive(Debug, Clone)]
pub struct DirectoryValidationIssue {
    pub issue_type: DirectoryIssueType,
    pub message: String,
    pub severity: ValidationSeverity,
    pub auto_fixable: bool,
    pub fix_suggestion: String,
}

/// Something to be warned of.
#[derive(Debug, Clone)]
pub struct DirectoryValidationWarning {
    pub warning_type: DirectoryWarningType,
    pub message: String,
    pub impact: String,
}

/// A clean-up that can be run.
#[derive(Debug, Clone)]
pub struct CleanupOption {
    pub option_type: CleanupType,
    pub description: String,
    pub risk_level: CleanupRisk,
    pub command: String,
}

/// The outcome of the directory checks (paths as displayed).
#[derive(Debug, Clone)]
pub struct DirectoryValidationResult {
    pub is_valid: bool,
    pub current_directory: String,
    pub venv_path: String,
    pub issues: Vec<DirectoryValidationIssue>,
    pub warnings: Vec<DirectoryValidationWarning>,
    pub cleanup_options: Vec<CleanupOption>,
    pub recommendations: Vec<String>,
}

/// What is at the virtual environment path.
#[derive(Debug, Clone)]
pub enum VenvPathState {
    /// Nothing.
    Absent,
    /// A file.
    File,
    /// A directory without the Python executable.
    MissingPython,
    /// A complete directory that activates.
    Activates,
    /// A complete directory that does not activate.
    DoesNotActivate,
    /// A complete directory whose activation test failed with this error.
    ActivationFailed(String),
}

/// What the file system told of the directory.
#[derive(Debug, Clone)]
pub struct DirectoryFacts {
    pub write_error: Option<String>,
    pub venv: VenvPathState,
}

/// View of an issue.
pub open spec fn issue_view(i: DirectoryValidationIssue) -> (
    DirectoryIssueType,
    Seq<char>,
    ValidationSeverity,
    bool,
    Seq<char>,
) {
    (i.issue_type, i.message@, i.severity, i.auto_fixable, i.fix_suggestion@)
}

/// View of a warning.
pub open spec fn warning_view(w: DirectoryValidationWarning) -> (
    DirectoryWarningType,
    Seq<char>,
    Seq<char>,
) {
    (w.warning_type, w.message@, w.impact@)
}

/// View of a clean-up option.
pub open spec fn option_view(o: CleanupOption) -> (CleanupType, Seq<char>, CleanupRisk, Seq<char>) {
    (o.option_type, o.description@, o.risk_level, o.command@)
}

/// Whether a path is too long for Windows (over 260 bytes there).
pub open spec fn too_long(venv: Seq<char>, windows: bool) -> bool {
    windows && encode_utf8(venv).len() > 260
}

/// The issues the checks find, in order.
pub open spec fn issues_spec(f: DirectoryFacts, venv: Seq<char>, windows: bool) -> Seq<
    (DirectoryIssueType, Seq<char>, ValidationSeverity, bool, Seq<char>),
> {
    (match f.write_error {
        Some(e) => seq![
            (
                DirectoryIssueType::PermissionDenied,
                "当前目录不可写: "@ + e@,
                ValidationSeverity::Critical,
                false,
                "检查目录权限，确保当前用户有写入权限"@,
            ),
        ],
        None => Seq::empty(),
    }) + (if f.venv is File {
        seq![
            (
                DirectoryIssueType::PathConflict,
                "虚拟环境路径被文件占用"@,
                ValidationSeverity::High,
                true,
                "删除冲突的文件"@,
            ),
        ]
    } else {
        Seq::empty()
    }) + if too_long(venv, windows) {
        seq![
            (
                DirectoryIssueType::PathTooLong,
                "虚拟环境路径过长 ("@ + decimal(encode_utf8(venv).len()) + " 字符)，Windows限制为260字符"@,
                ValidationSeverity::High,
                false,
                "移动项目到路径较短的目录"@,
            ),
        ]
    } else {
        Seq::empty()
    }
}

/// The warnings the checks find, in order.
pub open spec fn warnings_spec(f: DirectoryFacts, venv: Seq<char>) -> Seq<
    (DirectoryWarningType, Seq<char>, Seq<char>),
> {
    (match f.venv {
        VenvPathState::MissingPython => seq![
            (DirectoryWarningType::CorruptedVenv, "检测到损坏的虚拟环境"@, "虚拟环境无法正常使用"@),
        ],
        VenvPathState::Activates => seq![
            (
                DirectoryWarningType::ExistingVenv,
                "检测到现有的虚拟环境"@,
                "将使用现有虚拟环境，可能需要更新依赖"@,
            ),
        ],
        VenvPathState::DoesNotActivate => seq![
            (DirectoryWarningType::CorruptedVenv, "现有虚拟环境无法激活"@, "虚拟环境可能已损坏"@),
        ],
        VenvPathState::ActivationFailed(e) => seq![
            (DirectoryWarningType::CorruptedVenv, "虚拟环境测试失败: "@ + e@, "无法确定虚拟环境状态"@),
        ],
        _ => Seq::empty(),
    }) + if contains_spec(venv, " "@) {
        seq![
            (
                DirectoryWarningType::PathWithSpaces,
                "路径包含空格"@,
                "某些工具可能无法正确处理包含空格的路径"@,
            ),
        ]
    } else {
        Seq::empty()
    }
}

/// The clean-up options the checks offer.
pub open spec fn options_spec(f: DirectoryFacts, venv: Seq<char>) -> Seq<
    (CleanupType, Seq<char>, CleanupRisk, Seq<char>),
> {
    match f.venv {
        VenvPathState::File => seq![
            (
                CleanupType::RemoveConflictingFile,
                "删除冲突文件: "@ + venv,
                CleanupRisk::Low,
                "rm "@ + venv,
            ),
        ],
        VenvPathState::MissingPython => seq![
            (
                CleanupType::RemoveCorruptedVenv,
                "清理损坏的虚拟环境: "@ + venv,
                CleanupRisk::Medium,
                "rm -rf "@ + venv,
            ),
        ],
        VenvPathState::DoesNotActivate => seq![
            (
                CleanupType::RemoveCorruptedVenv,
                "清理无法激活的虚拟环境: "@ + venv,
                CleanupRisk::Medium,
                "rm -rf "@ + venv,
            ),
        ],
        _ => Seq::empty(),
    }
}

/// Debug name of a risk level.
pub open spec fn risk_name(r: CleanupRisk) -> Seq<char> {
    match r {
        CleanupRisk::Low => "Low"@,
        CleanupRisk::Medium => "Medium"@,
        CleanupRisk::High => "High"@,
    }
}

/// Advice for one issue on the platform (Unix or Windows or neither).
pub open spec fn issue_advice(t: DirectoryIssueType, unix: bool, windows: bool) -> Seq<Seq<char>> {
    match t {
        DirectoryIssueType::PermissionDenied => if unix {
            seq!["使用 'chmod 755 .' 修改目录权限"@, "使用 'chown $USER .' 修改目录所有者"@]
        } else if windows {
            seq!["以管理员身份运行命令"@, "检查Windows用户账户控制(UAC)设置"@]
        } else {
            Seq::empty()
        },
        DirectoryIssueType::InsufficientSpace => seq![
            "清理不需要的文件释放磁盘空间"@,
            "考虑移动项目到有更多可用空间的磁盘"@,
        ],
        DirectoryIssueType::PathConflict => seq!["删除或重命名冲突的文件/目录"@],
        DirectoryIssueType::PathTooLong => seq!["移动项目到路径较短的目录"@, "使用较短的目录名称"@],
    }
}

/// Advice for a list of issues, in order.
pub open spec fn issues_advice(
    issues: Seq<(DirectoryIssueType, Seq<char>, ValidationSeverity, bool, Seq<char>)>,
    unix: bool,
    windows: bool,
) -> Seq<Seq<char>>
    decreases issues.len(),
{
    if issues.len() == 0 {
        Seq::empty()
    } else {
        issues_advice(issues.drop_last(), unix, windows) + issue_advice(
            issues.last().0,
            unix,
            windows,
        )
    }
}

/// One line per clean-up option.
pub open spec fn option_lines(opts: Seq<(CleanupType, Seq<char>, CleanupRisk, Seq<char>)>) -> Seq<
    Seq<char>,
>
    decreases opts.len(),
{
    if opts.len() == 0 {
        Seq::empty()
    } else {
        option_lines(opts.drop_last()).push(
            "  - "@ + opts.last().1 + " (风险: "@ + risk_name(opts.last().2) + ")"@,
        )
    }
}

/// The recommendations for a checked directory.
pub open spec fn recommendations_spec(
    valid: bool,
    issues: Seq<(DirectoryIssueType, Seq<char>, ValidationSeverity, bool, Seq<char>)>,
    warnings_empty: bool,
    opts: Seq<(CleanupType, Seq<char>, CleanupRisk, Seq<char>)>,
    unix: bool,
    windows: bool,
) -> Seq<Seq<char>> {
    if valid && warnings_empty {
        seq!["当前目录设置良好，可以安全创建虚拟环境"@]
    } else {
        (if !valid {
            seq!["请先解决关键问题后再创建虚拟环境"@]
        } else {
            Seq::empty()
        }) + issues_advice(issues, unix, windows) + if opts.len() > 0 {
            seq!["可以使用以下清理选项解决问题:"@] + option_lines(opts)
        } else {
            Seq::empty()
        }
    }
}

/// Whether a result is the outcome of the checks on these facts.
pub open spec fn validation_is(
    r: DirectoryValidationResult,
    f: DirectoryFacts,
    dir: Seq<char>,
    venv: Seq<char>,
    unix: bool,
    windows: bool,
) -> bool {
    &&& r.current_directory@ == dir
    &&& r.venv_path@ == venv
    &&& r.is_valid == !(f.write_error is Some || f.venv is File || too_long(venv, windows))
    &&& r.issues@.map_values(|i: DirectoryValidationIssue| issue_view(i)) == issues_spec(
        f,
        venv,
        windows,
    )
    &&& r.warnings@.map_values(|w: DirectoryValidationWarning| warning_view(w)) == warnings_spec(
        f,
        venv,
    )
    &&& r.cleanup_options@.map_values(|o: CleanupOption| option_view(o)) == options_spec(f, venv)
    &&& r.recommendations.deep_view() == recommendations_spec(
        r.is_valid,
        issues_spec(f, venv, windows),
        warnings_spec(f, venv).len() == 0,
        options_spec(f, venv),
        unix,
        windows,
    )
}

fn lit(s: &str) -> (r: String)
    ensures
        r@ == s@,
{
    String::from_str(s)
}

fn cat(a: &str, b: &str) -> (r: String)
    ensures
        r@ == a@ + b@,
{
    let mut r = lit(a);
    push_str(&mut r, b);
    r
}

fn push_lit(v: &mut Vec<String>, s: &str)
    ensures
        final(v).deep_view() == old(v).deep_view().push(s@),
{
    let ghost before = v.deep_view();
    v.push(lit(s));
    proof {
        assert(v.deep_view() =~= before.push(s@));
    }
}

fn risk_text(r: CleanupRisk) -> (s: &'static str)
    ensures
        s@ == risk_name(r),
{
    match r {
        CleanupRisk::Low => "Low",
        CleanupRisk::Medium => "Medium",
        CleanupRisk::High => "High",
    }
}

fn push_issue_advice(v: &mut Vec<String>, t: DirectoryIssueType, unix: bool, windows: bool)
    ensures
        final(v).deep_view() == old(v).deep_view() + issue_advice(t, unix, windows),
{
    let ghost before = v.deep_view();
    match t {
        DirectoryIssueType::PermissionDenied => {
            if unix {
                push_lit(v, "使用 'chmod 755 .' 修改目录权限");
                push_lit(v, "使用 'chown $USER .' 修改目录所有者");
            } else if windows {
                push_lit(v, "以管理员身份运行命令");
                push_lit(v, "检查Windows用户账户控制(UAC)设置");
            }
        },
        DirectoryIssueType::InsufficientSpace => {
            push_lit(v, "清理不需要的文件释放磁盘空间");
            push_lit(v, "考虑移动项目到有更多可用空间的磁盘");
        },
        DirectoryIssueType::PathConflict => {
            push_lit(v, "删除或重命名冲突的文件/目录");
        },
        DirectoryIssueType::PathTooLong => {
            push_lit(v, "移动项目到路径较短的目录");
            push_lit(v, "使用较短的目录名称");
        },
    }
    proof {
        assert(v.deep_view() =~= before + issue_advice(t, unix, windows));
    }
}

/// Adds the recommendations for a checked directory.
pub fn generate_directory_recommendations(
    result: &mut DirectoryValidationResult,
    unix: bool,
    windows: bool,
)
    ensures
        final(result).recommendations.deep_view() == old(result).recommendations.deep_view()
            + recommendations_spec(
            old(result).is_valid,
            old(result).issues@.map_values(|i: DirectoryValidationIssue| issue_view(i)),
            old(result).warnings@.len() == 0,
            old(result).cleanup_options@.map_values(|o: CleanupOption| option_view(o)),
            unix,
            windows,
        ),
        final(result).is_valid == old(result).is_valid,
        final(result).current_directory == old(result).current_directory,
        final(result).venv_path == old(result).venv_path,
        final(result).issues == old(result).issues,
        final(result).warnings == old(result).warnings,
        final(result).cleanup_options == old(result).cleanup_options,
{
    let ghost start = result.recommendations.deep_view();
    let ghost iv = result.issues@.map_values(|i: DirectoryValidationIssue| issue_view(i));
    let ghost ov = result.cleanup_options@.map_values(|o: CleanupOption| option_view(o));
    let ghost valid = result.is_valid;
    let ghost wlen = result.warnings@.len();
    let ghost orig = *result;
    if result.is_valid && result.warnings.len() == 0 {
        push_lit(&mut result.recommendations, "当前目录设置良好，可以安全创建虚拟环境");
        return ;
    }
    if !result.is_valid {
        push_lit(&mut result.recommendations, "请先解决关键问题后再创建虚拟环境");
    }
    let ghost head = result.recommendations.deep_view();
    let mut i: usize = 0;
    proof {
        assert(iv.take(0) =~= Seq::<(DirectoryIssueType, Seq<char>, ValidationSeverity, bool, Seq<char>)>::empty());
        assert(result.recommendations.deep_view() =~= head + issues_advice(iv.take(0), unix, windows));
    }
    while i < result.issues.len()
        invariant
            i <= result.issues@.len(),
            iv == result.issues@.map_values(|i: DirectoryValidationIssue| issue_view(i)),
            ov == result.cleanup_options@.map_values(|o: CleanupOption| option_view(o)),
            valid == result.is_valid,
            wlen == result.warnings@.len(),
            result.current_directory == orig.current_directory,
            result.venv_path == orig.venv_path,
            result.issues == orig.issues,
            result.warnings == orig.warnings,
            result.cleanup_options == orig.cleanup_options,
            result.recommendations.deep_view() == head + issues_advice(iv.take(i as int), unix, windows),
        decreases result.issues.len() - i,
    {
        let t = result.issues[i].issue_type;
        proof {
            assert(iv.take(i + 1).drop_last() =~= iv.take(i as int));
            assert(iv.take(i + 1).last().0 == t);
        }
        push_issue_advice(&mut result.recommendations, t, unix, windows);
        proof {
            assert(result.recommendations.deep_view() =~= head + issues_advice(iv.take(i + 1), unix, windows));
        }
        i = i + 1;
    }
    proof {
        assert(iv.take(result.issues@.len() as int) =~= iv);
    }
    let ghost mid = result.recommendations.deep_view();
    if result.cleanup_options.len() > 0 {
        push_lit(&mut result.recommendations, "可以使用以下清理选项解决问题:");
        let ghost head2 = result.recommendations.deep_view();
        let mut k: usize = 0;
        proof {
            assert(ov.take(0) =~= Seq::<(CleanupType, Seq<char>, CleanupRisk, Seq<char>)>::empty());
            assert(result.recommendations.deep_view() =~= head2 + option_lines(ov.take(0)));
        }
        while k < result.cleanup_options.len()
            invariant
                k <= result.cleanup_options@.len(),
                ov == result.cleanup_options@.map_values(|o: CleanupOption| option_view(o)),
                iv == result.issues@.map_values(|i: DirectoryValidationIssue| issue_view(i)),
                valid == result.is_valid,
                wlen == result.warnings@.len(),
                result.current_directory == orig.current_directory,
                result.venv_path == orig.venv_path,
                result.issues == orig.issues,
                result.warnings == orig.warnings,
                result.cleanup_options == orig.cleanup_options,
                result.recommendations.deep_view() == head2 + option_lines(ov.take(k as int)),
            decreases result.cleanup_options.len() - k,
        {
            let mut line = lit("  - ");
            push_str(&mut line, result.cleanup_options[k].description.as_str());
            push_str(&mut line, " (风险: ");
            push_str(&mut line, risk_text(result.cleanup_options[k].risk_level));
            push_str(&mut line, ")");
            let ghost before = result.recommendations.deep_view();
            result.recommendations.push(line);
            proof {
                assert(ov.take(k + 1).drop_last() =~= ov.take(k as int));
                assert(result.recommendations.deep_view() =~= before.push(line@));
                assert(result.recommendations.deep_view() =~= head2 + option_lines(ov.take(k + 1)));
            }
            k = k + 1;
        }
        proof {
            assert(ov.take(result.cleanup_options@.len() as int) =~= ov);
        }
    }
    proof {
        assert(valid == result.is_valid);
        let recs = recommendations_spec(
            result.is_valid,
            iv,
            result.warnings@.len() == 0,
            ov,
            unix,
            windows,
        );
        assert(result.recommendations.deep_view() =~= start + recs);
    }
}

fn push_issue_item(
    v: &mut Vec<DirectoryValidationIssue>,
    t: DirectoryIssueType,
    message: String,
    severity: ValidationSeverity,
    auto_fixable: bool,
    fix: &str,
)
    ensures
        final(v)@.map_values(|i: DirectoryValidationIssue| issue_view(i)) == old(v)@.map_values(
            |i: DirectoryValidationIssue| issue_view(i),
        ).push((t, message@, severity, auto_fixable, fix@)),
{
    let ghost before = v@.map_values(|i: DirectoryValidationIssue| issue_view(i));
    v.push(
        DirectoryValidationIssue {
            issue_type: t,
            message,
            severity,
            auto_fixable,
            fix_suggestion: lit(fix),
        },
    );
    proof {
        assert(v@.map_values(|i: DirectoryValidationIssue| issue_view(i)) =~= before.push(
            (t, message@, severity, auto_fixable, fix@),
        ));
    }
}

fn push_warning_item(
    v: &mut Vec<DirectoryValidationWarning>,
    t: DirectoryWarningType,
    message: String,
    impact: &str,
)
    ensures
        final(v)@.map_values(|w: DirectoryValidationWarning| warning_view(w)) == old(
            v,
        )@.map_values(|w: DirectoryValidationWarning| warning_view(w)).push((t, message@, impact@)),
{
    let ghost before = v@.map_values(|w: DirectoryValidationWarning| warning_view(w));
    v.push(DirectoryValidationWarning { warning_type: t, message, impact: lit(impact) });
    proof {
        assert(v@.map_values(|w: DirectoryValidationWarning| warning_view(w)) =~= before.push(
            (t, message@, impact@),
        ));
    }
}

fn push_option_item(
    v: &mut Vec<CleanupOption>,
    t: CleanupType,
    description: String,
    risk: CleanupRisk,
    command: String,
)
    ensures
        final(v)@.map_values(|o: CleanupOption| option_view(o)) == old(v)@.map_values(
            |o: CleanupOption| option_view(o),
        ).push((t, description@, risk, command@)),
{
    let ghost before = v@.map_values(|o: CleanupOption| option_view(o));
    v.push(CleanupOption { option_type: t, description, risk_level: risk, command });
    proof {
        assert(v@.map_values(|o: CleanupOption| option_view(o)) =~= before.push(
            (t, description@, risk, command@),
        ));
    }
}

/// Checks the directory from what the file system told of it: the
/// issues, warnings and clean-up options found, whether it can take a
/// virtual environment, and the recommendations.
pub fn validate_current_directory_setup(
    facts: &DirectoryFacts,
    current_dir: &str,
    venv_path: &str,
    unix: bool,
    windows: bool,
) -> (r: DirectoryValidationResult)
    ensures
        validation_is(r, *facts, current_dir@, venv_path@, unix, windows),
{
    let mut issues: Vec<DirectoryValidationIssue> = Vec::new();
    let mut warnings: Vec<DirectoryValidationWarning> = Vec::new();
    let mut options: Vec<CleanupOption> = Vec::new();
    let mut valid = true;
    match &facts.write_error {
        Some(e) => {
            valid = false;
            push_issue_item(
                &mut issues,
                DirectoryIssueType::PermissionDenied,
                cat("当前目录不可写: ", e.as_str()),
                ValidationSeverity::Critical,
                false,
                "检查目录权限，确保当前用户有写入权限",
            );
        },
        None => {},
    }
    match &facts.venv {
        VenvPathState::File => {
            valid = false;
            push_issue_item(
                &mut issues,
                DirectoryIssueType::PathConflict,
                lit("虚拟环境路径被文件占用"),
                ValidationSeverity::High,
                true,
                "删除冲突的文件",
            );
            push_option_item(
                &mut options,
                CleanupType::RemoveConflictingFile,
                cat("删除冲突文件: ", venv_path),
                CleanupRisk::Low,
                cat("rm ", venv_path),
            );
        },
        VenvPathState::MissingPython => {
            push_warning_item(
                &mut warnings,
                DirectoryWarningType::CorruptedVenv,
                lit("检测到损坏的虚拟环境"),
                "虚拟环境无法正常使用",
            );
            push_option_item(
                &mut options,
                CleanupType::RemoveCorruptedVenv,
                cat("清理损坏的虚拟环境: ", venv_path),
                CleanupRisk::Medium,
                cat("rm -rf ", venv_path),
            );
        },
        VenvPathState::Activates => {
            push_warning_item(
                &mut warnings,
                DirectoryWarningType::ExistingVenv,
                lit("检测到现有的虚拟环境"),
                "将使用现有虚拟环境，可能需要更新依赖",
            );
        },
        VenvPathState::DoesNotActivate => {
            push_warning_item(
                &mut warnings,
                DirectoryWarningType::CorruptedVenv,
                lit("现有虚拟环境无法激活"),
                "虚拟环境可能已损坏",
            );
            push_option_item(
                &mut options,
                CleanupType::RemoveCorruptedVenv,
                cat("清理无法激活的虚拟环境: ", venv_path),
                CleanupRisk::Medium,
                cat("rm -rf ", venv_path),
            );
        },
        VenvPathState::ActivationFailed(e) => {
            push_warning_item(
                &mut warnings,
                DirectoryWarningType::CorruptedVenv,
                cat("虚拟环境测试失败: ", e.as_str()),
                "无法确定虚拟环境状态",
            );
        },
        VenvPathState::Absent => {},
    }
    let blen = venv_path.as_bytes().len();
    if windows && blen > 260 {
        valid = false;
        let mut m = lit("虚拟环境路径过长 (");
        push_decimal(&mut m, blen as u64);
        push_str(&mut m, " 字符)，Windows限制为260字符");
        push_issue_item(
            &mut issues,
            DirectoryIssueType::PathTooLong,
            m,
            ValidationSeverity::High,
            false,
            "移动项目到路径较短的目录",
        );
    }
    if str_contains(venv_path, " ") {
        push_warning_item(
            &mut warnings,
            DirectoryWarningType::PathWithSpaces,
            lit("路径包含空格"),
            "某些工具可能无法正确处理包含空格的路径",
        );
    }
    proof {
        assert(issues@.map_values(|i: DirectoryValidationIssue| issue_view(i)) =~= issues_spec(
            *facts,
            venv_path@,
            windows,
        ));
        assert(warnings@.map_values(|w: DirectoryValidationWarning| warning_view(w))
            =~= warnings_spec(*facts, venv_path@));
        assert(options@.map_values(|o: CleanupOption| option_view(o)) =~= options_spec(
            *facts,
            venv_path@,
        ));
    }
    let mut result = DirectoryValidationResult {
        is_valid: valid,
        current_directory: lit(current_dir),
        venv_path: lit(venv_path),
        issues,
        warnings,
        cleanup_options: options,
        recommendations: Vec::new(),
    };
    proof {
        assert(result.recommendations.deep_view() =~= Seq::<Seq<char>>::empty());
    }
    generate_directory_recommendations(&mut result, unix, windows);
    proof {
        assert(result.recommendations.deep_view() =~= recommendations_spec(
            result.is_valid,
            issues_spec(*facts, venv_path@, windows),
            warnings_spec(*facts, venv_path@).len() == 0,
            options_spec(*facts, venv_path@),
            unix,
            windows,
        ));
    }
    result
}

/// Upper-case name of a severity (`{:?}` upper-cased).
pub open spec fn severity_upper(s: ValidationSeverity) -> Seq<char> {
    match s {
        ValidationSeverity::Critical => "CRITICAL"@,
        ValidationSeverity::High => "HIGH"@,
        ValidationSeverity::Medium => "MEDIUM"@,
        ValidationSeverity::Low => "LOW"@,
    }
}

/// The numbered blocks of the issues.
pub open spec fn issue_blocks(
    items: Seq<(DirectoryIssueType, Seq<char>, ValidationSeverity, bool, Seq<char>)>,
) -> Seq<char>
    decreases items.len(),
{
    if items.len() == 0 {
        Seq::empty()
    } else {
        issue_blocks(items.drop_last()) + issue_block(items.len(), items.last())
    }
}

/// The block of the `n`-th issue.
pub open spec fn issue_block(
    n: nat,
    x: (DirectoryIssueType, Seq<char>, ValidationSeverity, bool, Seq<char>),
) -> Seq<char> {
    decimal(n) + ". ["@ + severity_upper(x.2) + "] "@ + x.1 + "\n"@ + "   建议: "@ + x.4 + "\n"@
        + (if x.3 {
        "   状态: 可自动修复\n"@
    } else {
        Seq::empty()
    }) + "\n"@
}

fn push_issue_block(out: &mut String, n: u64, it: &DirectoryValidationIssue)
    ensures
        final(out)@ == old(out)@ + issue_block(n as nat, issue_view(*it)),
{
    push_decimal(out, n);
    push_str(out, ". [");
    push_str(out, severity_text(it.severity));
    push_str(out, "] ");
    push_str(out, it.message.as_str());
    push_str(out, "\n");
    push_str(out, "   建议: ");
    push_str(out, it.fix_suggestion.as_str());
    push_str(out, "\n");
    let ghost mid = out@;
    if it.auto_fixable {
        push_str(out, "   状态: 可自动修复\n");
    }
    let ghost mid2 = out@;
    push_str(out, "\n");
    proof {
        let x = issue_view(*it);
        let auto = if x.3 {
            "   状态: 可自动修复\n"@
        } else {
            Seq::<char>::empty()
        };
        assert(mid2 =~= mid + auto);
        assert(out@ =~= old(out)@ + issue_block(n as nat, x));
    }
}

/// The numbered blocks of the warnings.
pub open spec fn warning_blocks(items: Seq<(DirectoryWarningType, Seq<char>, Seq<char>)>) -> Seq<
    char,
>
    decreases items.len(),
{
    if items.len() == 0 {
        Seq::empty()
    } else {
        warning_blocks(items.drop_last()) + decimal(items.len()) + ". "@ + items.last().1 + "\n"@
            + "   影响: "@ + items.last().2 + "\n\n"@
    }
}

/// The numbered blocks of the clean-up options.
pub open spec fn option_blocks(items: Seq<(CleanupType, Seq<char>, CleanupRisk, Seq<char>)>) -> Seq<
    char,
>
    decreases items.len(),
{
    if items.len() == 0 {
        Seq::empty()
    } else {
        let x = items.last();
        option_blocks(items.drop_last()) + decimal(items.len()) + ". "@ + x.1 + " (风险: "@
            + risk_name(x.2) + ")\n"@ + "   命令: "@ + x.3 + "\n\n"@
    }
}

/// The text of a directory check report.
pub open spec fn dir_report_text(r: DirectoryValidationResult) -> Seq<char> {
    let iv = r.issues@.map_values(|i: DirectoryValidationIssue| issue_view(i));
    let wv = r.warnings@.map_values(|w: DirectoryValidationWarning| warning_view(w));
    let ov = r.cleanup_options@.map_values(|o: CleanupOption| option_view(o));
    "=== 当前目录验证报告 ===\n"@ + "目录: "@ + r.current_directory@ + "\n"@ + "虚拟环境路径: "@
        + r.venv_path@ + "\n"@ + "验证状态: "@ + (if r.is_valid {
        "✓ 通过"@
    } else {
        "✗ 失败"@
    }) + "\n\n"@ + (if iv.len() > 0 {
        "=== 发现的问题 ===\n"@ + issue_blocks(iv)
    } else {
        Seq::empty()
    }) + (if wv.len() > 0 {
        "=== 警告信息 ===\n"@ + warning_blocks(wv)
    } else {
        Seq::empty()
    }) + (if ov.len() > 0 {
        "=== 可用的清理选项 ===\n"@ + option_blocks(ov)
    } else {
        Seq::empty()
    }) + if r.recommendations@.len() > 0 {
        "=== 推荐操作 ===\n"@ + numbered_lines(r.recommendations.deep_view())
    } else {
        Seq::empty()
    }
}

fn severity_text(s: ValidationSeverity) -> (t: &'static str)
    ensures
        t@ == severity_upper(s),
{
    match s {
        ValidationSeverity::Critical => "CRITICAL",
        ValidationSeverity::High => "HIGH",
        ValidationSeverity::Medium => "MEDIUM",
        ValidationSeverity::Low => "LOW",
    }
}

fn push_issue_blocks(out: &mut String, items: &Vec<DirectoryValidationIssue>)
    ensures
        final(out)@ == old(out)@ + issue_blocks(
            items@.map_values(|i: DirectoryValidationIssue| issue_view(i)),
        ),
{
    let ghost iv = items@.map_values(|i: DirectoryValidationIssue| issue_view(i));
    let ghost start = out@;
    let mut k: usize = 0;
    proof {
        assert(iv.take(0) =~= Seq::<(DirectoryIssueType, Seq<char>, ValidationSeverity, bool, Seq<char>)>::empty());
        assert(out@ =~= start + issue_blocks(iv.take(0)));
    }
    while k < items.len()
        invariant
            k <= items@.len(),
            iv == items@.map_values(|i: DirectoryValidationIssue| issue_view(i)),
            out@ == start + issue_blocks(iv.take(k as int)),
        decreases items.len() - k,
    {
        let it = &items[k];
        push_issue_block(out, (k + 1) as u64, it);
        proof {
            let t = iv.take(k + 1);
            assert(t.drop_last() =~= iv.take(k as int));
            assert(t.last() == issue_view(*it));
            assert(out@ =~= start + issue_blocks(t));
        }
        k = k + 1;
    }
    proof {
        assert(iv.take(items@.len() as int) =~= iv);
    }
}

fn push_warning_blocks(out: &mut String, items: &Vec<DirectoryValidationWarning>)
    ensures
        final(out)@ == old(out)@ + warning_blocks(
            items@.map_values(|w: DirectoryValidationWarning| warning_view(w)),
        ),
{
    let ghost wv = items@.map_values(|w: DirectoryValidationWarning| warning_view(w));
    let ghost start = out@;
    let mut k: usize = 0;
    proof {
        assert(wv.take(0) =~= Seq::<(DirectoryWarningType, Seq<char>, Seq<char>)>::empty());
        assert(out@ =~= start + warning_blocks(wv.take(0)));
    }
    while k < items.len()
        invariant
            k <= items@.len(),
            wv == items@.map_values(|w: DirectoryValidationWarning| warning_view(w)),
            out@ == start + warning_blocks(wv.take(k as int)),
        decreases items.len() - k,
    {
        let it = &items[k];
        let ghost before = out@;
        push_decimal(out, (k + 1) as u64);
        push_str(out, ". ");
        push_str(out, it.message.as_str());
        push_str(out, "\n");
        push_str(out, "   影响: ");
        push_str(out, it.impact.as_str());
        push_str(out, "\n\n");
        proof {
            let t = wv.take(k + 1);
            assert(t.drop_last() =~= wv.take(k as int));
            assert(t.last() == warning_view(*it));
            assert(out@ =~= start + warning_blocks(t));
        }
        k = k + 1;
    }
    proof {
        assert(wv.take(items@.len() as int) =~= wv);
    }
}

fn push_option_blocks(out: &mut String, items: &Vec<CleanupOption>)
    ensures
        final(out)@ == old(out)@ + option_blocks(
            items@.map_values(|o: CleanupOption| option_view(o)),
        ),
{
    let ghost ov = items@.map_values(|o: CleanupOption| option_view(o));
    let ghost start = out@;
    let mut k: usize = 0;
    proof {
        assert(ov.take(0) =~= Seq::<(CleanupType, Seq<char>, CleanupRisk, Seq<char>)>::empty());
        assert(out@ =~= start + option_blocks(ov.take(0)));
    }
    while k < items.len()
        invariant
            k <= items@.len(),
            ov == items@.map_values(|o: CleanupOption| option_view(o)),
            out@ == start + option_blocks(ov.take(k as int)),
        decreases items.len() - k,
    {
        let it = &items[k];
        push_decimal(out, (k + 1) as u64);
        push_str(out, ". ");
        push_str(out, it.description.as_str());
        push_str(out, " (风险: ");
        push_str(out, risk_text(it.risk_level));
        push_str(out, ")\n");
        push_str(out, "   命令: ");
        push_str(out, it.command.as_str());
        push_str(out, "\n\n");
        proof {
            let t = ov.take(k + 1);
            assert(t.drop_last() =~= ov.take(k as int));
            assert(t.last() == option_view(*it));
            assert(out@ =~= start + option_blocks(t));
        }
        k = k + 1;
    }
    proof {
        assert(ov.take(items@.len() as int) =~= ov);
    }
}

/// Renders the report of a directory check.
pub fn format_directory_validation_report(result: &DirectoryValidationResult) -> (out: String)
    ensures
        out@ == dir_report_text(*result),
{
    let mut out = lit("=== 当前目录验证报告 ===\n");
    push_str(&mut out, "目录: ");
    push_str(&mut out, result.current_directory.as_str());
    push_str(&mut out, "\n");
    push_str(&mut out, "虚拟环境路径: ");
    push_str(&mut out, result.venv_path.as_str());
    push_str(&mut out, "\n");
    push_str(&mut out, "验证状态: ");
    if result.is_valid {
        push_str(&mut out, "✓ 通过");
    } else {
        push_str(&mut out, "✗ 失败");
    }
    push_str(&mut out, "\n\n");
    let ghost a = out@;
    if result.issues.len() > 0 {
        push_str(&mut out, "=== 发现的问题 ===\n");
        push_issue_blocks(&mut out, &result.issues);
    }
    let ghost b = out@;
    if result.warnings.len() > 0 {
        push_str(&mut out, "=== 警告信息 ===\n");
        push_warning_blocks(&mut out, &result.warnings);
    }
    let ghost c = out@;
    if result.cleanup_options.len() > 0 {
        push_str(&mut out, "=== 可用的清理选项 ===\n");
        push_option_blocks(&mut out, &result.cleanup_options);
    }
    let ghost d = out@;
    if result.recommendations.len() > 0 {
        push_str(&mut out, "=== 推荐操作 ===\n");
        push_numbered(&mut out, &result.recommendations);
    }
    proof {
        let iv = result.issues@.map_values(|i: DirectoryValidationIssue| issue_view(i));
        let wv = result.warnings@.map_values(|w: DirectoryValidationWarning| warning_view(w));
        let ov = result.cleanup_options@.map_values(|o: CleanupOption| option_view(o));
        let p1 = if iv.len() > 0 {
            "=== 发现的问题 ===\n"@ + issue_blocks(iv)
        } else {
            Seq::<char>::empty()
        };
        let p2 = if wv.len() > 0 {
            "=== 警告信息 ===\n"@ + warning_blocks(wv)
        } else {
            Seq::<char>::empty()
        };
        let p3 = if ov.len() > 0 {
            "=== 可用的清理选项 ===\n"@ + option_blocks(ov)
        } else {
            Seq::<char>::empty()
        };
        let p4 = if result.recommendations@.len() > 0 {
            "=== 推荐操作 ===\n"@ + numbered_lines(result.recommendations.deep_view())
        } else {
            Seq::<char>::empty()
        };
        assert(b =~= a + p1);
        assert(c =~= b + p2);
        assert(d =~= c + p3);
        assert(out@ =~= d + p4);
        assert(out@ =~= dir_report_text(*result));
    }
    out
}

/// What the file system told of the base directory.
#[derive(Debug, Clone)]
pub enum BaseDirState {
    Missing,
    NotADirectory,
    NotWritable(String),
    Usable,
}

/// The venv path problems found, in order.
pub open spec fn venv_path_issues_spec(
    base: BaseDirState,
    venv_state: VenvPathState,
    base_dir: Seq<char>,
    venv: Seq<char>,
    python_exe: Seq<char>,
    windows: bool,
) -> Seq<Seq<char>> {
    (match base {
        BaseDirState::Missing => seq!["基础目录不存在: "@ + base_dir],
        BaseDirState::NotADirectory => seq!["基础路径不是目录: "@ + base_dir],
        BaseDirState::NotWritable(e) => seq!["基础目录无写入权限: "@ + base_dir + " ("@ + e@ + ")"@],
        BaseDirState::Usable => Seq::empty(),
    }) + (match venv_state {
        VenvPathState::File => seq!["虚拟环境路径存在但不是目录: "@ + venv],
        VenvPathState::MissingPython => seq!["虚拟环境不完整，缺少Python可执行文件: "@ + python_exe],
        _ => Seq::empty(),
    }) + if too_long(venv, windows) {
        seq![
            "虚拟环境路径过长 ("@ + decimal(encode_utf8(venv).len()) + " 字符)，Windows限制为260字符"@,
        ]
    } else {
        Seq::empty()
    }
}

fn push_string(v: &mut Vec<String>, s: String)
    ensures
        final(v).deep_view() == old(v).deep_view().push(s@),
{
    let ghost before = v.deep_view();
    v.push(s);
    proof {
        assert(v.deep_view() =~= before.push(s@));
    }
}

/// The problems of the virtual environment path, from what the file
/// system told of the base directory and of the path.
pub fn diagnose_venv_path_issues(
    base: &BaseDirState,
    venv_state: &VenvPathState,
    base_dir: &str,
    venv_path: &str,
    python_exe: &str,
    windows: bool,
) -> (r: Vec<String>)
    ensures
        r.deep_view() == venv_path_issues_spec(
            *base,
            *venv_state,
            base_dir@,
            venv_path@,
            python_exe@,
            windows,
        ),
{
    let mut r: Vec<String> = Vec::new();
    match base {
        BaseDirState::Missing => push_string(&mut r, cat("基础目录不存在: ", base_dir)),
        BaseDirState::NotADirectory => push_string(&mut r, cat("基础路径不是目录: ", base_dir)),
        BaseDirState::NotWritable(e) => {
            let mut m = cat("基础目录无写入权限: ", base_dir);
            push_str(&mut m, " (");
            push_str(&mut m, e.as_str());
            push_str(&mut m, ")");
            push_string(&mut r, m);
        },
        BaseDirState::Usable => {},
    }
    match venv_state {
        VenvPathState::File => push_string(&mut r, cat("虚拟环境路径存在但不是目录: ", venv_path)),
        VenvPathState::MissingPython => push_string(
            &mut r,
            cat("虚拟环境不完整，缺少Python可执行文件: ", python_exe),
        ),
        _ => {},
    }
    let blen = venv_path.as_bytes().len();
    if windows && blen > 260 {
        let mut m = lit("虚拟环境路径过长 (");
        push_decimal(&mut m, blen as u64);
        push_str(&mut m, " 字符)，Windows限制为260字符");
        push_string(&mut r, m);
    }
    proof {
        assert(r.deep_view() =~= venv_path_issues_spec(
            *base,
            *venv_state,
            base_dir@,
            venv_path@,
            python_exe@,
            windows,
        ));
    }
    r
}

/// The advice lines for one problem.
pub open spec fn issue_remedy(issue: Seq<char>, unix: bool) -> Seq<Seq<char>> {
    if contains_spec(issue, "不存在"@) {
        seq!["1. 确保在正确的项目目录中运行命令"@, "2. 检查当前工作目录: pwd (Unix) 或 cd (Windows)"@]
    } else if contains_spec(issue, "权限"@) {
        seq!["1. 检查目录权限: ls -la (Unix)"@, "2. 使用管理员权限运行命令"@] + if unix {
            seq!["3. 修改目录权限: chmod 755 ."@, "4. 修改目录所有者: chown $USER ."@]
        } else {
            Seq::empty()
        }
    } else if contains_spec(issue, "不是目录"@) {
        seq!["1. 删除同名文件: rm venv (Unix) 或 del venv (Windows)"@, "2. 重新创建虚拟环境"@]
    } else if contains_spec(issue, "不完整"@) {
        seq!["1. 删除损坏的虚拟环境: rm -rf ./venv"@, "2. 重新运行 document-parser uv-init"@]
    } else if contains_spec(issue, "路径过长"@) {
        seq!["1. 移动项目到路径较短的目录"@, "2. 使用较短的目录名称"@]
    } else if contains_spec(issue, "磁盘空间"@) {
        seq!["1. 清理磁盘空间，至少保留500MB可用空间"@, "2. 删除不需要的文件和目录"@]
    } else {
        Seq::empty()
    }
}

/// The listed problems, one `  - ` line each.
pub open spec fn listed(issues: Seq<Seq<char>>) -> Seq<Seq<char>>
    decreases issues.len(),
{
    if issues.len() == 0 {
        Seq::empty()
    } else {
        listed(issues.drop_last()).push("  - "@ + issues.last())
    }
}

/// The advice for all problems, in order.
pub open spec fn remedies(issues: Seq<Seq<char>>, unix: bool) -> Seq<Seq<char>>
    decreases issues.len(),
{
    if issues.len() == 0 {
        Seq::empty()
    } else {
        remedies(issues.drop_last(), unix) + issue_remedy(issues.last(), unix)
    }
}

/// The recovery suggestions for a list of path problems.
pub open spec fn recovery_spec(issues: Seq<Seq<char>>, unix: bool) -> Seq<Seq<char>> {
    if issues.len() == 0 {
        seq!["虚拟环境路径检查通过，可以尝试创建虚拟环境"@]
    } else {
        seq!["检测到以下虚拟环境路径问题:"@] + listed(issues) + seq![Seq::empty(), "建议的解决方案:"@]
            + remedies(issues, unix) + seq![
            Seq::empty(),
            "如果问题仍然存在，请尝试:"@,
            "1. 重启终端或命令提示符"@,
            "2. 检查防病毒软件是否阻止文件操作"@,
            "3. 在不同的目录中尝试创建虚拟环境"@,
        ]
    }
}

fn push_remedy(v: &mut Vec<String>, issue: &str, unix: bool)
    ensures
        final(v).deep_view() == old(v).deep_view() + issue_remedy(issue@, unix),
{
    let ghost before = v.deep_view();
    if str_contains(issue, "不存在") {
        push_lit(v, "1. 确保在正确的项目目录中运行命令");
        push_lit(v, "2. 检查当前工作目录: pwd (Unix) 或 cd (Windows)");
    } else if str_contains(issue, "权限") {
        push_lit(v, "1. 检查目录权限: ls -la (Unix)");
        push_lit(v, "2. 使用管理员权限运行命令");
        if unix {
            push_lit(v, "3. 修改目录权限: chmod 755 .");
            push_lit(v, "4. 修改目录所有者: chown $USER .");
        }
    } else if str_contains(issue, "不是目录") {
        push_lit(v, "1. 删除同名文件: rm venv (Unix) 或 del venv (Windows)");
        push_lit(v, "2. 重新创建虚拟环境");
    } else if str_contains(issue, "不完整") {
        push_lit(v, "1. 删除损坏的虚拟环境: rm -rf ./venv");
        push_lit(v, "2. 重新运行 document-parser uv-init");
    } else if str_contains(issue, "路径过长") {
        push_lit(v, "1. 移动项目到路径较短的目录");
        push_lit(v, "2. 使用较短的目录名称");
    } else if str_contains(issue, "磁盘空间") {
        push_lit(v, "1. 清理磁盘空间，至少保留500MB可用空间");
        push_lit(v, "2. 删除不需要的文件和目录");
    }
    proof {
        assert(v.deep_view() =~= before + issue_remedy(issue@, unix));
    }
}

/// Recovery suggestions for the given virtual environment path problems.
pub fn get_venv_recovery_suggestions(issues: &Vec<String>, unix: bool) -> (r: Vec<String>)
    ensures
        r.deep_view() == recovery_spec(issues.deep_view(), unix),
{
    let ghost iv = issues.deep_view();
    let mut r: Vec<String> = Vec::new();
    if issues.len() == 0 {
        push_lit(&mut r, "虚拟环境路径检查通过，可以尝试创建虚拟环境");
        return r;
    }
    push_lit(&mut r, "检测到以下虚拟环境路径问题:");
    let ghost h1 = r.deep_view();
    let mut i: usize = 0;
    proof {
        assert(iv.take(0) =~= Seq::<Seq<char>>::empty());
        assert(r.deep_view() =~= h1 + listed(iv.take(0)));
    }
    while i < issues.len()
        invariant
            i <= issues@.len(),
            iv == issues.deep_view(),
            r.deep_view() == h1 + listed(iv.take(i as int)),
        decreases issues.len() - i,
    {
        push_string(&mut r, cat("  - ", issues[i].as_str()));
        proof {
            assert(iv.take(i + 1).drop_last() =~= iv.take(i as int));
            assert(iv[i as int] == issues@[i as int]@);
            assert(r.deep_view() =~= h1 + listed(iv.take(i + 1)));
        }
        i = i + 1;
    }
    proof {
        assert(iv.take(issues@.len() as int) =~= iv);
    }
    let ghost h15 = r.deep_view();
    push_lit(&mut r, "");
    push_lit(&mut r, "建议的解决方案:");
    let ghost h2 = r.deep_view();
    let mut i: usize = 0;
    proof {
        assert(r.deep_view() =~= h2 + remedies(iv.take(0), unix));
    }
    while i < issues.len()
        invariant
            i <= issues@.len(),
            iv == issues.deep_view(),
            r.deep_view() == h2 + remedies(iv.take(i as int), unix),
        decreases issues.len() - i,
    {
        push_remedy(&mut r, issues[i].as_str(), unix);
        proof {
            assert(iv.take(i + 1).drop_last() =~= iv.take(i as int));
            assert(iv[i as int] == issues@[i as int]@);
            assert(r.deep_view() =~= h2 + remedies(iv.take(i + 1), unix));
        }
        i = i + 1;
    }
    let ghost h3 = r.deep_view();
    push_lit(&mut r, "");
    push_lit(&mut r, "如果问题仍然存在，请尝试:");
    push_lit(&mut r, "1. 重启终端或命令提示符");
    push_lit(&mut r, "2. 检查防病毒软件是否阻止文件操作");
    push_lit(&mut r, "3. 在不同的目录中尝试创建虚拟环境");
    proof {
        reveal_strlit("");
        assert(""@ =~= Seq::<char>::empty());
        assert(iv.take(issues@.len() as int) =~= iv);
        assert(h15 == h1 + listed(iv));
        assert(h2 =~= h1 + listed(iv) + seq![Seq::<char>::empty(), "建议的解决方案:"@]);
        assert(h3 == h2 + remedies(iv, unix));
        assert(h1 =~= seq!["检测到以下虚拟环境路径问题:"@]);
        assert(r.deep_view() =~= recovery_spec(iv, unix));
    }
    r
}

} // verus!
