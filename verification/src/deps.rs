//! Dependency verdicts: uv, MinerU and MarkItDown version compatibility,
//! and the combined verification result.

use vstd::prelude::*;
use crate::env_report::numbered_lines;
use crate::env_types::{clone_opt, opt_view};
use crate::error::AppError;
use crate::text::{
    chars_of, contains_spec, push_decimal, push_str, str_contains, str_eq, string_of, trim_chars,
    trim_spec,
};
use crate::version::{
    extract_uv_version, is_version_compatible, uv_version_spec, version_compatible_spec,
    version_ge,
};

verus! {

/// Version of an installed Python package.
#[derive(Debug, Clone)]
pub struct PackageInfo {
    pub version: String,
}

/// Version compatibility of a package.
#[derive(Debug, Clone)]
pub struct PackageCompatibility {
    pub package_name: String,
    pub current_version: String,
    pub minimum_version: String,
    pub recommended_version: Option<String>,
    pub is_compatible: bool,
    pub compatibility_issues: Vec<String>,
    pub upgrade_available: bool,
    pub upgrade_recommendation: Option<String>,
}

/// Availability and compatibility of one dependency.
#[derive(Debug, Clone)]
pub struct DependencyStatus {
    pub package_name: String,
    pub is_available: bool,
    pub is_functional: bool,
    pub version_info: Option<PackageInfo>,
    pub compatibility: Option<PackageCompatibility>,
    pub issues: Vec<String>,
    pub path: Option<String>,
}

/// Verdict on both parsing engines.
#[derive(Debug, Clone)]
pub struct DependencyVerificationResult {
    pub mineru_status: DependencyStatus,
    pub markitdown_status: DependencyStatus,
    pub overall_compatible: bool,
    pub recommendations: Vec<String>,
    pub critical_issues: Vec<String>,
}

/// Compatibility of an installed uv.
#[derive(Debug, Clone)]
pub struct UvVersionCompatibility {
    pub is_compatible: bool,
    pub minimum_version: String,
    pub current_version: String,
    pub recommendation: Option<String>,
}

/// What a `uv --version` probe found.
#[derive(Debug, Clone)]
pub enum UvAvailabilityStatus {
    /// uv runs and its version was judged.
    Available { version: String, compatibility: UvVersionCompatibility },
    /// uv runs but its version could not be judged.
    IncompatibleVersion { version: String, issue: String },
    /// uv was found but failed.
    ExecutionFailed { error: String },
    /// uv could not be run.
    NotInstalled { error: String },
}

/// Ways to install uv.
#[derive(Debug, Clone, Copy, PartialEq, Eq, Structural)]
pub enum UvInstallationMethod {
    CurlScript,
    PowerShellScript,
    PipInstall,
    SystemPackageManager,
}

/// The view of an optional message list entry.
pub open spec fn strings(v: Vec<String>) -> Seq<Seq<char>> {
    v.deep_view()
}

/// The compatibility issues of a package at `current` with `minimum`.
pub open spec fn compat_issues_spec(
    current: Seq<char>,
    minimum: Seq<char>,
    check_early: bool,
) -> Seq<Seq<char>> {
    let a = if !version_compatible_spec(current, minimum) {
        seq!["当前版本 "@ + current + " 低于最低要求版本 "@ + minimum]
    } else {
        Seq::empty()
    };
    if check_early && contains_spec(current, "0.0."@) {
        a.push("检测到早期版本，可能存在稳定性问题"@)
    } else {
        a
    }
}

/// What the compatibility of a package states.
pub open spec fn compat_matches(
    c: PackageCompatibility,
    name: Seq<char>,
    current: Seq<char>,
    minimum: Seq<char>,
    upgrade_text: Seq<char>,
    check_early: bool,
) -> bool {
    let upgrade = current != "latest"@ && current != "available"@;
    &&& c.package_name@ == name
    &&& c.current_version@ == current
    &&& c.minimum_version@ == minimum
    &&& opt_view(c.recommended_version) == Some("latest"@)
    &&& c.is_compatible == version_compatible_spec(current, minimum)
    &&& strings(c.compatibility_issues) == compat_issues_spec(current, minimum, check_early)
    &&& c.upgrade_available == upgrade
    &&& opt_view(c.upgrade_recommendation) == (if upgrade {
        Some(upgrade_text)
    } else {
        None
    })
}

fn lit(s: &str) -> (r: String)
    ensures
        r@ == s@,
{
    String::from_str(s)
}

fn package_compatibility(
    name: &str,
    current: &str,
    minimum: &str,
    upgrade_text: &str,
    check_early: bool,
) -> (c: PackageCompatibility)
    ensures
        compat_matches(c, name@, current@, minimum@, upgrade_text@, check_early),
{
    let is_compatible = is_version_compatible(current, minimum);
    let upgrade_available = !str_eq(current, "latest") && !str_eq(current, "available");
    let mut issues: Vec<String> = Vec::new();
    if !is_compatible {
        let mut m = lit("当前版本 ");
        push_str(&mut m, current);
        push_str(&mut m, " 低于最低要求版本 ");
        push_str(&mut m, minimum);
        issues.push(m);
    }
    if check_early && str_contains(current, "0.0.") {
        issues.push(lit("检测到早期版本，可能存在稳定性问题"));
    }
    proof {
        assert(strings(issues) =~= compat_issues_spec(current@, minimum@, check_early));
    }
    PackageCompatibility {
        package_name: lit(name),
        current_version: lit(current),
        minimum_version: lit(minimum),
        recommended_version: Some(lit("latest")),
        is_compatible,
        compatibility_issues: issues,
        upgrade_available,
        upgrade_recommendation: if upgrade_available {
            Some(lit(upgrade_text))
        } else {
            None
        },
    }
}

/// Compatibility of a MinerU version (minimum `0.1.0`; `0.0.x` is flagged
/// as an early release).
pub fn check_mineru_version_compatibility(current_version: &str) -> (c: PackageCompatibility)
    ensures
        compat_matches(
            c,
            "MinerU"@,
            current_version@,
            "0.1.0"@,
            "升级MinerU到最新版本: uv pip install -U \"mineru[core]\""@,
            true,
        ),
{
    package_compatibility(
        "MinerU",
        current_version,
        "0.1.0",
        "升级MinerU到最新版本: uv pip install -U \"mineru[core]\"",
        true,
    )
}

/// Compatibility of a MarkItDown version (minimum `0.0.1`).
pub fn check_markitdown_version_compatibility(current_version: &str) -> (c: PackageCompatibility)
    ensures
        compat_matches(
            c,
            "MarkItDown"@,
            current_version@,
            "0.0.1"@,
            "升级MarkItDown到最新版本: uv pip install -U markitdown"@,
            false,
        ),
{
    package_compatibility(
        "MarkItDown",
        current_version,
        "0.0.1",
        "升级MarkItDown到最新版本: uv pip install -U markitdown",
        false,
    )
}

/// Advice attached to a uv version.
pub open spec fn uv_recommendation_spec(v: (u32, u32, u32)) -> Option<Seq<char>> {
    if !version_ge(v, (0, 1, 0)) {
        Some("请升级uv到0.1.0或更高版本，运行: curl -LsSf https://astral.sh/uv/install.sh | sh"@)
    } else if v.0 == 0 && v.1 < 5 {
        Some("建议升级到uv 0.5.0+以获得更好的性能和稳定性"@)
    } else {
        None
    }
}

/// Compatibility of the uv that printed `version_str` (minimum `0.1.0`);
/// an unparsable version is an error.
pub fn check_uv_version_compatibility(version_str: &str) -> (r: Result<
    UvVersionCompatibility,
    AppError,
>)
    ensures
        match r {
            Ok(c) => match uv_version_spec(version_str@) {
                Some(v) => {
                    &&& c.is_compatible == version_ge(v, (0, 1, 0))
                    &&& c.minimum_version@ == "0.1.0"@
                    &&& c.current_version@ == version_str@
                    &&& opt_view(c.recommendation) == uv_recommendation_spec(v)
                },
                None => false,
            },
            Err(e) => uv_version_spec(version_str@) is None && e.message() == "无法解析uv版本: "@
                + version_str@,
        },
{
    let current = match extract_uv_version(version_str) {
        Some(v) => v,
        None => {
            let mut m = lit("无法解析uv版本: ");
            push_str(&mut m, version_str);
            return Err(AppError::Environment(m));
        },
    };
    let is_compatible = crate::version::version_at_least(current, (0, 1, 0));
    let recommendation = if !is_compatible {
        Some(lit("请升级uv到0.1.0或更高版本，运行: curl -LsSf https://astral.sh/uv/install.sh | sh"))
    } else if current.0 == 0 && current.1 < 5 {
        Some(lit("建议升级到uv 0.5.0+以获得更好的性能和稳定性"))
    } else {
        None
    };
    Ok(
        UvVersionCompatibility {
            is_compatible,
            minimum_version: lit("0.1.0"),
            current_version: lit(version_str),
            recommendation,
        },
    )
}

/// How running a probe command went: its standard output, the error
/// output of a failed run, or why it could not be run.
#[derive(Debug, Clone)]
pub enum ProbeOutcome {
    Output(String),
    Failed(String),
    CannotRun(String),
}

/// What `uv --version` tells of uv: available with its compatibility,
/// present with a version that cannot be judged, failing, or absent.
pub fn uv_availability(outcome: &ProbeOutcome) -> (r: UvAvailabilityStatus)
    ensures
        match outcome {
            ProbeOutcome::Output(out) => match uv_version_spec(trim_spec(out@)) {
                Some(v) => r matches UvAvailabilityStatus::Available { version, compatibility }
                    && version@ == trim_spec(out@) && compatibility.is_compatible == version_ge(
                    v,
                    (0, 1, 0),
                ) && compatibility.current_version@ == trim_spec(out@),
                None => r matches UvAvailabilityStatus::IncompatibleVersion { version, issue }
                    && version@ == trim_spec(out@) && issue@ == "无法解析uv版本: "@ + trim_spec(
                    out@,
                ),
            },
            ProbeOutcome::Failed(err) => r matches UvAvailabilityStatus::ExecutionFailed { error }
                && error@ == if err@.len() == 0 {
                "uv命令执行失败，未知错误"@
            } else {
                "uv命令执行失败: "@ + err@
            },
            ProbeOutcome::CannotRun(e) => r matches UvAvailabilityStatus::NotInstalled { error }
                && error@ == "无法执行uv命令: "@ + e@,
        },
{
    match outcome {
        ProbeOutcome::Output(out) => {
            let v = chars_of(out.as_str());
            let t = trim_chars(&v);
            let version = string_of(&t);
            match check_uv_version_compatibility(version.as_str()) {
                Ok(compatibility) => UvAvailabilityStatus::Available { version, compatibility },
                Err(e) => {
                    let issue = match e {
                        AppError::Environment(m) => m,
                        AppError::Validation(m) => m,
                        AppError::File(m) => m,
                        AppError::UnsupportedFormat(m) => m,
                        AppError::Task(m) => m,
                        AppError::MinerU(m) => m,
                        AppError::Config(m) => m,
                        AppError::MarkItDown(m) => m,
                    };
                    UvAvailabilityStatus::IncompatibleVersion { version, issue }
                },
            }
        },
        ProbeOutcome::Failed(err) => {
            if err.as_str().is_empty() {
                UvAvailabilityStatus::ExecutionFailed { error: lit("uv命令执行失败，未知错误") }
            } else {
                let mut m = lit("uv命令执行失败: ");
                push_str(&mut m, err.as_str());
                UvAvailabilityStatus::ExecutionFailed { error: m }
            }
        },
        ProbeOutcome::CannotRun(e) => {
            let mut m = lit("无法执行uv命令: ");
            push_str(&mut m, e.as_str());
            UvAvailabilityStatus::NotInstalled { error: m }
        },
    }
}

/// How to install uv: on Windows PowerShell's script when PowerShell
/// runs, else the curl script; elsewhere the curl script when curl runs,
/// then pip, then the system package manager.
pub fn best_uv_installation_method(
    windows: bool,
    powershell_available: bool,
    curl_available: bool,
    pip_available: bool,
) -> (m: UvInstallationMethod)
    ensures
        m == if windows {
            if powershell_available {
                UvInstallationMethod::PowerShellScript
            } else {
                UvInstallationMethod::CurlScript
            }
        } else if curl_available {
            UvInstallationMethod::CurlScript
        } else if pip_available {
            UvInstallationMethod::PipInstall
        } else {
            UvInstallationMethod::SystemPackageManager
        },
{
    if windows {
        if powershell_available {
            UvInstallationMethod::PowerShellScript
        } else {
            UvInstallationMethod::CurlScript
        }
    } else if curl_available {
        UvInstallationMethod::CurlScript
    } else if pip_available {
        UvInstallationMethod::PipInstall
    } else {
        UvInstallationMethod::SystemPackageManager
    }
}

/// Status of a dependency whose check failed with `error_message`.
pub fn failed_dependency_status(package_name: &str, error_message: &str) -> (d: DependencyStatus)
    ensures
        d.package_name@ == package_name@,
        !d.is_available && !d.is_functional,
        d.version_info is None && d.compatibility is None && d.path is None,
        strings(d.issues) == seq![error_message@],
{
    let mut issues: Vec<String> = Vec::new();
    issues.push(lit(error_message));
    proof {
        assert(strings(issues) =~= seq![error_message@]);
    }
    DependencyStatus {
        package_name: lit(package_name),
        is_available: false,
        is_functional: false,
        version_info: None,
        compatibility: None,
        issues,
        path: None,
    }
}

/// The dependency has no known incompatibility.
pub open spec fn compat_ok(d: DependencyStatus) -> bool {
    match d.compatibility {
        Some(c) => c.is_compatible,
        None => true,
    }
}

/// Both engines are available, functional and compatible.
pub open spec fn overall_spec(m: DependencyStatus, k: DependencyStatus) -> bool {
    m.is_available && m.is_functional && k.is_available && k.is_functional && compat_ok(m)
        && compat_ok(k)
}

/// Critical issue of an incompatible dependency, if any.
pub open spec fn critical_of(d: DependencyStatus, label: Seq<char>) -> Seq<Seq<char>> {
    match d.compatibility {
        Some(c) => if !c.is_compatible {
            seq![label + "版本不兼容: "@ + c.current_version@ + " (最低要求: "@ + c.minimum_version@ + ")"@]
        } else {
            Seq::empty()
        },
        None => Seq::empty(),
    }
}

/// Upgrade advice of a dependency, if any.
pub open spec fn upgrade_of(d: DependencyStatus) -> Seq<Seq<char>> {
    match d.compatibility {
        Some(c) => if c.upgrade_available {
            match c.upgrade_recommendation {
                Some(r) => seq![r@],
                None => Seq::empty(),
            }
        } else {
            Seq::empty()
        },
        None => Seq::empty(),
    }
}

/// Recommendations of a verification: upgrades first, then installs.
pub open spec fn dependency_recommendations_spec(m: DependencyStatus, k: DependencyStatus) -> Seq<
    Seq<char>,
> {
    upgrade_of(m) + upgrade_of(k) + (if !m.is_available {
        seq!["安装MinerU: uv pip install -U \"mineru[core]\""@]
    } else {
        Seq::empty()
    }) + (if !k.is_available {
        seq!["安装MarkItDown: uv pip install markitdown"@]
    } else {
        Seq::empty()
    })
}

fn push_critical(out: &mut Vec<String>, d: &DependencyStatus, label: &str)
    ensures
        strings(*final(out)) == strings(*old(out)) + critical_of(*d, label@),
{
    match &d.compatibility {
        Some(c) => {
            if !c.is_compatible {
                let mut m = lit(label);
                push_str(&mut m, "版本不兼容: ");
                push_str(&mut m, c.current_version.as_str());
                push_str(&mut m, " (最低要求: ");
                push_str(&mut m, c.minimum_version.as_str());
                push_str(&mut m, ")");
                let ghost before = strings(*out);
                out.push(m);
                proof {
                    assert(strings(*out) =~= before + critical_of(*d, label@));
                }
            } else {
                proof {
                    assert(strings(*out) =~= strings(*out) + critical_of(*d, label@));
                }
            }
        },
        None => {
            proof {
                assert(strings(*out) =~= strings(*out) + critical_of(*d, label@));
            }
        },
    }
}

fn push_upgrade(out: &mut Vec<String>, d: &DependencyStatus)
    ensures
        strings(*final(out)) == strings(*old(out)) + upgrade_of(*d),
{
    let ghost before = strings(*out);
    match &d.compatibility {
        Some(c) => {
            if c.upgrade_available {
                match &c.upgrade_recommendation {
                    Some(r) => {
                        out.push(r.clone());
                    },
                    None => {},
                }
            }
        },
        None => {},
    }
    proof {
        assert(strings(*out) =~= before + upgrade_of(*d));
    }
}

fn push_line_if(out: &mut Vec<String>, c: bool, t: &str)
    ensures
        strings(*final(out)) == strings(*old(out)) + (if c {
            seq![t@]
        } else {
            Seq::empty()
        }),
{
    let ghost before = strings(*out);
    if c {
        out.push(lit(t));
    }
    proof {
        assert(strings(*out) =~= before + (if c {
            seq![t@]
        } else {
            Seq::<Seq<char>>::empty()
        }));
    }
}

/// Combines the statuses of MinerU and MarkItDown into one verdict.
pub fn summarize_dependencies(
    mineru_status: DependencyStatus,
    markitdown_status: DependencyStatus,
) -> (r: DependencyVerificationResult)
    ensures
        r.overall_compatible == overall_spec(mineru_status, markitdown_status),
        strings(r.critical_issues) == critical_of(mineru_status, "MinerU"@) + critical_of(
            markitdown_status,
            "MarkItDown"@,
        ),
        strings(r.recommendations) == dependency_recommendations_spec(
            mineru_status,
            markitdown_status,
        ),
        r.mineru_status == mineru_status,
        r.markitdown_status == markitdown_status,
{
    let m_ok = match &mineru_status.compatibility {
        Some(c) => c.is_compatible,
        None => true,
    };
    let k_ok = match &markitdown_status.compatibility {
        Some(c) => c.is_compatible,
        None => true,
    };
    let overall_compatible = mineru_status.is_available && mineru_status.is_functional
        && markitdown_status.is_available && markitdown_status.is_functional && m_ok && k_ok;
    let mut recommendations: Vec<String> = Vec::new();
    let mut critical_issues: Vec<String> = Vec::new();
    proof {
        assert(strings(recommendations) =~= Seq::<Seq<char>>::empty());
        assert(strings(critical_issues) =~= Seq::<Seq<char>>::empty());
    }
    push_critical(&mut critical_issues, &mineru_status, "MinerU");
    push_upgrade(&mut recommendations, &mineru_status);
    push_critical(&mut critical_issues, &markitdown_status, "MarkItDown");
    push_upgrade(&mut recommendations, &markitdown_status);
    push_line_if(
        &mut recommendations,
        !mineru_status.is_available,
        "安装MinerU: uv pip install -U \"mineru[core]\"",
    );
    push_line_if(
        &mut recommendations,
        !markitdown_status.is_available,
        "安装MarkItDown: uv pip install markitdown",
    );
    proof {
        assert(strings(critical_issues) =~= critical_of(mineru_status, "MinerU"@) + critical_of(
            markitdown_status,
            "MarkItDown"@,
        ));
        assert(strings(recommendations) =~= dependency_recommendations_spec(
            mineru_status,
            markitdown_status,
        ));
    }
    DependencyVerificationResult {
        mineru_status,
        markitdown_status,
        overall_compatible,
        recommendations,
        critical_issues,
    }
}

/// The suggestion for a failed Python check, chosen by its error message.
pub open spec fn python_suggestion_spec(e: Seq<char>) -> Seq<char> {
    if contains_spec(e, "command not found"@) || contains_spec(e, "not found"@) {
        "Python未安装。请安装Python 3.8+: https://www.python.org/downloads/"@
    } else if contains_spec(e, "版本过低"@) {
        "Python版本过低。请升级到Python 3.8或更高版本"@
    } else if contains_spec(e, "超时"@) {
        "Python命令执行超时。检查系统负载或Python安装是否正常"@
    } else {
        "Python环境问题: "@ + e + "。请检查Python安装并确保可以正常执行"@
    }
}

/// The suggestion for a failed uv check.
pub open spec fn uv_suggestion_spec(e: Seq<char>) -> Seq<char> {
    if contains_spec(e, "command not found"@) || contains_spec(e, "not found"@) {
        "UV工具未安装。安装命令: curl -LsSf https://astral.sh/uv/install.sh | sh"@
    } else if contains_spec(e, "版本"@) {
        "UV版本不兼容。请更新到最新版本: curl -LsSf https://astral.sh/uv/install.sh | sh"@
    } else {
        "UV工具问题: "@ + e + "。请重新安装UV工具"@
    }
}

/// The suggestion for a failed MinerU check.
pub open spec fn mineru_suggestion_spec(e: Seq<char>) -> Seq<char> {
    if contains_spec(e, "command not found"@) || contains_spec(e, "not found"@) {
        "MinerU未安装。在虚拟环境中安装: uv pip install magic-pdf[full]"@
    } else if contains_spec(e, "模块"@) || contains_spec(e, "module"@) {
        "MinerU模块缺失。重新安装: uv pip install --force-reinstall magic-pdf[full]"@
    } else if contains_spec(e, "版本"@) {
        "MinerU版本问题。更新到最新版本: uv pip install -U magic-pdf[full]"@
    } else {
        "MinerU问题: "@ + e + "。请检查安装或重新安装"@
    }
}

/// The suggestion for a failed MarkItDown check.
pub open spec fn markitdown_suggestion_spec(e: Seq<char>) -> Seq<char> {
    if contains_spec(e, "模块"@) || contains_spec(e, "module"@) {
        "MarkItDown模块未找到。在虚拟环境中安装: uv pip install markitdown"@
    } else if contains_spec(e, "版本"@) {
        "MarkItDown版本问题。更新到最新版本: uv pip install -U markitdown"@
    } else {
        "MarkItDown问题: "@ + e + "。请检查安装或重新安装"@
    }
}

fn wrap(head: &str, e: &str, tail: &str) -> (r: String)
    ensures
        r@ == head@ + e@ + tail@,
{
    let mut r = lit(head);
    push_str(&mut r, e);
    push_str(&mut r, tail);
    r
}

/// Installation advice after a failed Python check.
pub fn get_python_installation_suggestion(error_message: &str) -> (r: String)
    ensures
        r@ == python_suggestion_spec(error_message@),
{
    if str_contains(error_message, "command not found") || str_contains(error_message, "not found") {
        lit("Python未安装。请安装Python 3.8+: https://www.python.org/downloads/")
    } else if str_contains(error_message, "版本过低") {
        lit("Python版本过低。请升级到Python 3.8或更高版本")
    } else if str_contains(error_message, "超时") {
        lit("Python命令执行超时。检查系统负载或Python安装是否正常")
    } else {
        wrap("Python环境问题: ", error_message, "。请检查Python安装并确保可以正常执行")
    }
}

/// Installation advice after a failed uv check.
pub fn get_uv_installation_suggestion(error_message: &str) -> (r: String)
    ensures
        r@ == uv_suggestion_spec(error_message@),
{
    if str_contains(error_message, "command not found") || str_contains(error_message, "not found") {
        lit("UV工具未安装。安装命令: curl -LsSf https://astral.sh/uv/install.sh | sh")
    } else if str_contains(error_message, "版本") {
        lit("UV版本不兼容。请更新到最新版本: curl -LsSf https://astral.sh/uv/install.sh | sh")
    } else {
        wrap("UV工具问题: ", error_message, "。请重新安装UV工具")
    }
}

/// Installation advice after a failed MinerU check.
pub fn get_mineru_installation_suggestion(error_message: &str) -> (r: String)
    ensures
        r@ == mineru_suggestion_spec(error_message@),
{
    if str_contains(error_message, "command not found") || str_contains(error_message, "not found") {
        lit("MinerU未安装。在虚拟环境中安装: uv pip install magic-pdf[full]")
    } else if str_contains(error_message, "模块") || str_contains(error_message, "module") {
        lit("MinerU模块缺失。重新安装: uv pip install --force-reinstall magic-pdf[full]")
    } else if str_contains(error_message, "版本") {
        lit("MinerU版本问题。更新到最新版本: uv pip install -U magic-pdf[full]")
    } else {
        wrap("MinerU问题: ", error_message, "。请检查安装或重新安装")
    }
}

/// Installation advice after a failed MarkItDown check.
pub fn get_markitdown_installation_suggestion(error_message: &str) -> (r: String)
    ensures
        r@ == markitdown_suggestion_spec(error_message@),
{
    if str_contains(error_message, "模块") || str_contains(error_message, "module") {
        lit("MarkItDown模块未找到。在虚拟环境中安装: uv pip install markitdown")
    } else if str_contains(error_message, "版本") {
        lit("MarkItDown版本问题。更新到最新版本: uv pip install -U markitdown")
    } else {
        wrap("MarkItDown问题: ", error_message, "。请检查安装或重新安装")
    }
}

} // verus!
