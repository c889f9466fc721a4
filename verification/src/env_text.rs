//! The environment report and one-line summary of an environment status.

use vstd::prelude::*;
use vstd::seq_lib::lemma_concat_associative;
use crate::env_report::{debug_quoted, or_text, str_debug};
use crate::env_status::{
    auto_fixable_issues_spec, critical_issues_spec, health_score_spec, penalty_sum,
    EnvironmentStatus,
};
use crate::env_types::{opt_view, CudaDevice, EnvironmentIssue, EnvironmentWarning, IssueSeverity};
use crate::text::{decimal, push_decimal, push_str};

verus! {

/// `✓` or `✗`.
pub open spec fn tick(b: bool) -> Seq<char> {
    if b {
        "✓"@
    } else {
        "✗"@
    }
}

/// `就绪` or `未就绪`.
pub open spec fn readiness(b: bool) -> Seq<char> {
    if b {
        "就绪"@
    } else {
        "未就绪"@
    }
}

/// The one-line summary of a status.
pub open spec fn summary_text(s: EnvironmentStatus) -> Seq<char> {
    "环境状态: "@ + readiness(s.ready_spec()) + " | 健康评分: "@ + decimal(health_score_spec(s))
        + "/100 | Python: "@ + tick(s.python_available) + " | MinerU: "@ + tick(s.mineru_available)
        + " | MarkItDown: "@ + tick(s.markitdown_available) + " | CUDA: "@ + tick(s.cuda_available)
}

fn push_tick(out: &mut String, b: bool)
    ensures
        final(out)@ == old(out)@ + tick(b),
{
    if b {
        push_str(out, "✓");
    } else {
        push_str(out, "✗");
    }
}

fn push_readiness(out: &mut String, b: bool)
    ensures
        final(out)@ == old(out)@ + readiness(b),
{
    if b {
        push_str(out, "就绪");
    } else {
        push_str(out, "未就绪");
    }
}

impl EnvironmentStatus {
    /// One line: readiness, health score and the main components.
    pub fn get_environment_summary(&self) -> (out: String)
        requires
            penalty_sum(self.issues@) <= 255,
        ensures
            out@ == summary_text(*self),
    {
        let mut out = String::from_str("环境状态: ");
        push_readiness(&mut out, self.is_ready());
        push_str(&mut out, " | 健康评分: ");
        push_decimal(&mut out, self.health_score() as u64);
        push_str(&mut out, "/100 | Python: ");
        push_tick(&mut out, self.python_available);
        push_str(&mut out, " | MinerU: ");
        push_tick(&mut out, self.mineru_available);
        push_str(&mut out, " | MarkItDown: ");
        push_tick(&mut out, self.markitdown_available);
        push_str(&mut out, " | CUDA: ");
        push_tick(&mut out, self.cuda_available);
        proof {
            assert(out@ =~= summary_text(*self));
        }
        out
    }
}

/// `Name: ✓ ("version")` line of a component.
pub open spec fn component_line(name: Seq<char>, ok: bool, v: Option<Seq<char>>, none: Seq<char>) -> Seq<
    char,
> {
    name + ": "@ + tick(ok) + " ("@ + str_debug(or_text(v, none)) + ")\n"@
}

/// Lines of the CUDA devices.
pub open spec fn device_lines(ds: Seq<CudaDevice>) -> Seq<char>
    decreases ds.len(),
{
    if ds.len() == 0 {
        Seq::empty()
    } else {
        let d = ds.last();
        device_lines(ds.drop_last()) + "    - GPU "@ + decimal(d.id as nat) + ": "@ + d.name@ + " ("@
            + decimal((d.memory_free / 1024 / 1024) as nat) + "MB 可用)\n"@
    }
}

/// Icon of a severity.
pub open spec fn severity_icon(s: IssueSeverity) -> Seq<char> {
    match s {
        IssueSeverity::Critical => "🔴"@,
        IssueSeverity::High => "🟠"@,
        IssueSeverity::Medium => "🟡"@,
        IssueSeverity::Low => "🔵"@,
    }
}

/// Lines of the issues.
pub open spec fn issue_list(is: Seq<EnvironmentIssue>) -> Seq<char>
    decreases is.len(),
{
    if is.len() == 0 {
        Seq::empty()
    } else {
        let i = is.last();
        issue_list(is.drop_last()) + severity_icon(i.severity) + " ["@ + i.component@ + "] "@
            + i.message@ + ": "@ + i.suggestion@ + "\n"@ + if i.auto_fixable {
            "   ↳ 可自动修复\n"@
        } else {
            Seq::empty()
        }
    }
}

/// Lines of the warnings.
pub open spec fn warning_list(ws: Seq<EnvironmentWarning>) -> Seq<char>
    decreases ws.len(),
{
    if ws.len() == 0 {
        Seq::empty()
    } else {
        let w = ws.last();
        warning_list(ws.drop_last()) + "⚠️  ["@ + w.component@ + "] "@ + w.message@ + "\n"@
            + "   影响: "@ + w.impact@ + "\n"@
    }
}

/// `   - component: suggestion` lines of the issues that pass `keep`.
pub open spec fn advice_lines(is: Seq<EnvironmentIssue>, manual: bool) -> Seq<char>
    decreases is.len(),
{
    if is.len() == 0 {
        Seq::empty()
    } else {
        let i = is.last();
        let keep = if manual {
            i.severity == IssueSeverity::Critical && !i.auto_fixable
        } else {
            i.auto_fixable
        };
        advice_lines(is.drop_last(), manual) + if keep {
            "   - "@ + i.component@ + ": "@ + i.suggestion@ + "\n"@
        } else {
            Seq::empty()
        }
    }
}

/// The advice section.
pub open spec fn advice_text(s: EnvironmentStatus) -> Seq<char> {
    "\n=== 建议 ===\n"@ + if s.ready_spec() {
        "✅ 环境配置良好，可以正常使用文档解析服务\n"@
    } else {
        (if auto_fixable_issues_spec(s.issues@).len() > 0 {
            "🔧 可以运行自动修复来解决以下问题:\n"@ + advice_lines(s.issues@, false)
        } else {
            Seq::empty()
        }) + if critical_issues_spec(s.issues@).len() > 0 {
            "❌ 需要手动解决以下关键问题:\n"@ + advice_lines(s.issues@, true)
        } else {
            Seq::empty()
        }
    }
}

/// The line naming the active virtual environment, when there is one.
pub open spec fn venv_block(s: EnvironmentStatus) -> Seq<char> {
    if s.virtual_env_active {
        "  虚拟环境: ✓ ("@ + str_debug(or_text(opt_view(s.virtual_env_path), "未知路径"@)) + ")\n"@
    } else {
        Seq::empty()
    }
}

/// The list of CUDA devices, when there are any.
pub open spec fn devices_block(s: EnvironmentStatus) -> Seq<char> {
    if s.cuda_devices@.len() > 0 {
        "  CUDA设备:\n"@ + device_lines(s.cuda_devices@)
    } else {
        Seq::empty()
    }
}

/// The component section.
pub open spec fn components_section(s: EnvironmentStatus) -> Seq<char> {
    "=== 组件状态 ===\n"@ + component_line(
        "Python"@,
        s.python_available,
        opt_view(s.python_version),
        "未知"@,
    ) + venv_block(s) + component_line("uv工具"@, s.uv_available, opt_view(s.uv_version), "未安装"@)
        + component_line("CUDA"@, s.cuda_available, opt_view(s.cuda_version), "不可用"@)
        + devices_block(s) + component_line(
        "MinerU"@,
        s.mineru_available,
        opt_view(s.mineru_version),
        "未安装"@,
    ) + component_line(
        "MarkItDown"@,
        s.markitdown_available,
        opt_view(s.markitdown_version),
        "未安装"@,
    )
}

/// The full environment report; the check time and duration come as the
/// caller prints them.
pub open spec fn environment_report_text(
    s: EnvironmentStatus,
    checked_at: Seq<char>,
    took: Seq<char>,
) -> Seq<char> {
    "=== 环境检查报告 ===\n"@ + "检查时间: "@ + checked_at + "\n"@ + "检查耗时: "@ + took + "\n"@
        + "健康评分: "@ + decimal(health_score_spec(s)) + "/100\n"@ + "环境状态: "@ + readiness(
        s.ready_spec(),
    ) + "\n\n"@ + components_section(s) + (if s.issues@.len() > 0 {
        "\n=== 问题列表 ===\n"@ + issue_list(s.issues@)
    } else {
        Seq::empty()
    }) + (if s.warnings@.len() > 0 {
        "\n=== 警告列表 ===\n"@ + warning_list(s.warnings@)
    } else {
        Seq::empty()
    }) + advice_text(s)
}

fn push_component_line(out: &mut String, name: &str, ok: bool, v: &Option<String>, none: &str)
    ensures
        final(out)@ == old(out)@ + component_line(name@, ok, opt_view(*v), none@),
{
    push_str(out, name);
    push_str(out, ": ");
    push_tick(out, ok);
    push_str(out, " (");
    let q = match v {
        Some(x) => debug_quoted(x.as_str()),
        None => debug_quoted(none),
    };
    push_str(out, q.as_str());
    push_str(out, ")\n");
    proof {
        assert(out@ =~= old(out)@ + component_line(name@, ok, opt_view(*v), none@));
    }
}

fn push_devices(out: &mut String, ds: &Vec<CudaDevice>)
    ensures
        final(out)@ == old(out)@ + device_lines(ds@),
{
    let ghost start = out@;
    let mut k: usize = 0;
    proof {
        assert(ds@.take(0) =~= Seq::<CudaDevice>::empty());
    }
    while k < ds.len()
        invariant
            k <= ds@.len(),
            out@ == start + device_lines(ds@.take(k as int)),
        decreases ds.len() - k,
    {
        let d = &ds[k];
        push_str(out, "    - GPU ");
        push_decimal(out, d.id as u64);
        push_str(out, ": ");
        push_str(out, d.name.as_str());
        push_str(out, " (");
        push_decimal(out, d.memory_free / 1024 / 1024);
        push_str(out, "MB 可用)\n");
        proof {
            assert(ds@.take(k + 1).drop_last() =~= ds@.take(k as int));
            assert(ds@.take(k + 1).last() == *d);
            assert(out@ =~= start + device_lines(ds@.take(k + 1)));
        }
        k = k + 1;
    }
    proof {
        assert(ds@.take(ds@.len() as int) =~= ds@);
    }
}

fn push_severity_icon(out: &mut String, s: IssueSeverity)
    ensures
        final(out)@ == old(out)@ + severity_icon(s),
{
    match s {
        IssueSeverity::Critical => push_str(out, "🔴"),
        IssueSeverity::High => push_str(out, "🟠"),
        IssueSeverity::Medium => push_str(out, "🟡"),
        IssueSeverity::Low => push_str(out, "🔵"),
    }
}

fn push_issue_list(out: &mut String, is: &Vec<EnvironmentIssue>)
    ensures
        final(out)@ == old(out)@ + issue_list(is@),
{
    let ghost start = out@;
    let mut k: usize = 0;
    proof {
        assert(is@.take(0) =~= Seq::<EnvironmentIssue>::empty());
    }
    while k < is.len()
        invariant
            k <= is@.len(),
            out@ == start + issue_list(is@.take(k as int)),
        decreases is.len() - k,
    {
        let i = &is[k];
        let ghost before = out@;
        push_severity_icon(out, i.severity);
        push_str(out, " [");
        push_str(out, i.component.as_str());
        push_str(out, "] ");
        push_str(out, i.message.as_str());
        push_str(out, ": ");
        push_str(out, i.suggestion.as_str());
        push_str(out, "\n");
        let ghost mid = out@;
        if i.auto_fixable {
            push_str(out, "   ↳ 可自动修复\n");
        }
        proof {
            assert(is@.take(k + 1).drop_last() =~= is@.take(k as int));
            assert(is@.take(k + 1).last() == *i);
            assert(out@ =~= start + issue_list(is@.take(k + 1)));
        }
        k = k + 1;
    }
    proof {
        assert(is@.take(is@.len() as int) =~= is@);
    }
}

fn push_warning_list(out: &mut String, ws: &Vec<EnvironmentWarning>)
    ensures
        final(out)@ == old(out)@ + warning_list(ws@),
{
    let ghost start = out@;
    let mut k: usize = 0;
    proof {
        assert(ws@.take(0) =~= Seq::<EnvironmentWarning>::empty());
    }
    while k < ws.len()
        invariant
            k <= ws@.len(),
            out@ == start + warning_list(ws@.take(k as int)),
        decreases ws.len() - k,
    {
        let w = &ws[k];
        push_str(out, "⚠️  [");
        push_str(out, w.component.as_str());
        push_str(out, "] ");
        push_str(out, w.message.as_str());
        push_str(out, "\n");
        push_str(out, "   影响: ");
        push_str(out, w.impact.as_str());
        push_str(out, "\n");
        proof {
            assert(ws@.take(k + 1).drop_last() =~= ws@.take(k as int));
            assert(ws@.take(k + 1).last() == *w);
            assert(out@ =~= start + warning_list(ws@.take(k + 1)));
        }
        k = k + 1;
    }
    proof {
        assert(ws@.take(ws@.len() as int) =~= ws@);
    }
}

fn push_advice_lines(out: &mut String, is: &Vec<EnvironmentIssue>, manual: bool)
    ensures
        final(out)@ == old(out)@ + advice_lines(is@, manual),
{
    let ghost start = out@;
    let mut k: usize = 0;
    proof {
        assert(is@.take(0) =~= Seq::<EnvironmentIssue>::empty());
    }
    while k < is.len()
        invariant
            k <= is@.len(),
            out@ == start + advice_lines(is@.take(k as int), manual),
        decreases is.len() - k,
    {
        let i = &is[k];
        let keep = if manual {
            i.severity == IssueSeverity::Critical && !i.auto_fixable
        } else {
            i.auto_fixable
        };
        if keep {
            push_str(out, "   - ");
            push_str(out, i.component.as_str());
            push_str(out, ": ");
            push_str(out, i.suggestion.as_str());
            push_str(out, "\n");
        }
        proof {
            assert(is@.take(k + 1).drop_last() =~= is@.take(k as int));
            assert(is@.take(k + 1).last() == *i);
            assert(out@ =~= start + advice_lines(is@.take(k + 1), manual));
        }
        k = k + 1;
    }
    proof {
        assert(is@.take(is@.len() as int) =~= is@);
    }
}

impl EnvironmentStatus {
    fn push_venv_block(&self, out: &mut String)
        ensures
            final(out)@ == old(out)@ + venv_block(*self),
    {
        if self.virtual_env_active {
            push_str(out, "  虚拟环境: ✓ (");
            let q = match &self.virtual_env_path {
                Some(p) => debug_quoted(p.as_str()),
                None => debug_quoted("未知路径"),
            };
            push_str(out, q.as_str());
            push_str(out, ")\n");
        }
        proof {
            assert(out@ =~= old(out)@ + venv_block(*self));
        }
    }

    fn push_devices_block(&self, out: &mut String)
        ensures
            final(out)@ == old(out)@ + devices_block(*self),
    {
        if self.cuda_devices.len() > 0 {
            push_str(out, "  CUDA设备:\n");
            push_devices(out, &self.cuda_devices);
        }
        proof {
            assert(out@ =~= old(out)@ + devices_block(*self));
        }
    }

    fn push_components_section(&self, out: &mut String)
        ensures
            final(out)@ == old(out)@ + components_section(*self),
    {
        let ghost o = out@;
        let ghost c1 = "=== 组件状态 ===\n"@;
        let ghost c2 = component_line("Python"@, self.python_available, opt_view(self.python_version), "未知"@);
        let ghost c3 = venv_block(*self);
        let ghost c4 = component_line("uv工具"@, self.uv_available, opt_view(self.uv_version), "未安装"@);
        let ghost c5 = component_line("CUDA"@, self.cuda_available, opt_view(self.cuda_version), "不可用"@);
        let ghost c6 = devices_block(*self);
        let ghost c7 = component_line("MinerU"@, self.mineru_available, opt_view(self.mineru_version), "未安装"@);
        let ghost c8 = component_line(
            "MarkItDown"@,
            self.markitdown_available,
            opt_view(self.markitdown_version),
            "未安装"@,
        );
        push_str(out, "=== 组件状态 ===\n");
        push_component_line(out, "Python", self.python_available, &self.python_version, "未知");
        proof { lemma_concat_associative(o, c1, c2); }
        self.push_venv_block(out);
        proof { lemma_concat_associative(o, c1 + c2, c3); }
        push_component_line(out, "uv工具", self.uv_available, &self.uv_version, "未安装");
        proof { lemma_concat_associative(o, c1 + c2 + c3, c4); }
        push_component_line(out, "CUDA", self.cuda_available, &self.cuda_version, "不可用");
        proof { lemma_concat_associative(o, c1 + c2 + c3 + c4, c5); }
        self.push_devices_block(out);
        proof { lemma_concat_associative(o, c1 + c2 + c3 + c4 + c5, c6); }
        push_component_line(out, "MinerU", self.mineru_available, &self.mineru_version, "未安装");
        proof { lemma_concat_associative(o, c1 + c2 + c3 + c4 + c5 + c6, c7); }
        push_component_line(
            out,
            "MarkItDown",
            self.markitdown_available,
            &self.markitdown_version,
            "未安装",
        );
        proof {
            lemma_concat_associative(o, c1 + c2 + c3 + c4 + c5 + c6 + c7, c8);
            assert(components_section(*self) == c1 + c2 + c3 + c4 + c5 + c6 + c7 + c8);
        }
    }

    fn push_advice(&self, out: &mut String)
        ensures
            final(out)@ == old(out)@ + advice_text(*self),
    {
        push_str(out, "\n=== 建议 ===\n");
        let ghost a = out@;
        if self.is_ready() {
            push_str(out, "✅ 环境配置良好，可以正常使用文档解析服务\n");
        } else {
            let fixable = self.get_auto_fixable_issues();
            if fixable.len() > 0 {
                push_str(out, "🔧 可以运行自动修复来解决以下问题:\n");
                push_advice_lines(out, &self.issues, false);
            }
            let ghost b = out@;
            let critical = self.get_critical_issues();
            if critical.len() > 0 {
                push_str(out, "❌ 需要手动解决以下关键问题:\n");
                push_advice_lines(out, &self.issues, true);
            }
            proof {
                let p1 = if auto_fixable_issues_spec(self.issues@).len() > 0 {
                    "🔧 可以运行自动修复来解决以下问题:\n"@ + advice_lines(self.issues@, false)
                } else {
                    Seq::<char>::empty()
                };
                assert(fixable@.len() == auto_fixable_issues_spec(self.issues@).len());
                assert(critical@.len() == critical_issues_spec(self.issues@).len());
                assert(b =~= a + p1);
            }
        }
        proof {
            assert(out@ =~= old(out)@ + advice_text(*self));
        }
    }

    /// The environment report, given how the check time and its duration
    /// are printed.
    pub fn generate_environment_report(&self, checked_at: &str, took: &str) -> (out: String)
        requires
            penalty_sum(self.issues@) <= 255,
        ensures
            out@ == environment_report_text(*self, checked_at@, took@),
    {
        let mut out = String::from_str("=== 环境检查报告 ===\n");
        push_str(&mut out, "检查时间: ");
        push_str(&mut out, checked_at);
        push_str(&mut out, "\n");
        push_str(&mut out, "检查耗时: ");
        push_str(&mut out, took);
        push_str(&mut out, "\n");
        push_str(&mut out, "健康评分: ");
        push_decimal(&mut out, self.health_score() as u64);
        push_str(&mut out, "/100\n");
        push_str(&mut out, "环境状态: ");
        push_readiness(&mut out, self.is_ready());
        push_str(&mut out, "\n\n");
        let ghost a = out@;
        self.push_components_section(&mut out);
        let ghost b = out@;
        if self.issues.len() > 0 {
            push_str(&mut out, "\n=== 问题列表 ===\n");
            push_issue_list(&mut out, &self.issues);
        }
        let ghost c = out@;
        if self.warnings.len() > 0 {
            push_str(&mut out, "\n=== 警告列表 ===\n");
            push_warning_list(&mut out, &self.warnings);
        }
        let ghost d = out@;
        self.push_advice(&mut out);
        proof {
            let iss = if self.issues@.len() > 0 {
                "\n=== 问题列表 ===\n"@ + issue_list(self.issues@)
            } else {
                Seq::<char>::empty()
            };
            let wrn = if self.warnings@.len() > 0 {
                "\n=== 警告列表 ===\n"@ + warning_list(self.warnings@)
            } else {
                Seq::<char>::empty()
            };
            assert(c =~= b + iss);
            assert(d =~= c + wrn);
            assert(out@ =~= environment_report_text(*self, checked_at@, took@));
        }
        out
    }
}

} // verus!
