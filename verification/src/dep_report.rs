//! Text report of a dependency verification result.

use vstd::prelude::*;
use crate::deps::{DependencyStatus, DependencyVerificationResult, PackageCompatibility};
use crate::env_report::{numbered_lines, push_numbered};
use crate::env_types::opt_view;
use crate::text::push_str;

verus! {

/// `yes` when `b` holds, else `no`.
pub open spec fn mark(b: bool, yes: Seq<char>, no: Seq<char>) -> Seq<char> {
    if b {
        yes
    } else {
        no
    }
}

/// `  - item` lines.
pub open spec fn dash_lines(items: Seq<Seq<char>>) -> Seq<char>
    decreases items.len(),
{
    if items.len() == 0 {
        Seq::empty()
    } else {
        dash_lines(items.drop_last()) + "  - "@ + items.last() + "\n"@
    }
}

/// Warning lines, one per critical issue.
pub open spec fn warning_lines(items: Seq<Seq<char>>) -> Seq<char>
    decreases items.len(),
{
    if items.len() == 0 {
        Seq::empty()
    } else {
        warning_lines(items.drop_last()) + "⚠️  "@ + items.last() + "\n"@
    }
}

/// Upgrade advice line, present only when an upgrade is available and advised.
pub open spec fn upgrade_line(c: PackageCompatibility) -> Seq<char> {
    if c.upgrade_available {
        match opt_view(c.upgrade_recommendation) {
            Some(r) => "升级建议: "@ + r + "\n"@,
            None => Seq::empty(),
        }
    } else {
        Seq::empty()
    }
}

/// Text block of a version compatibility verdict.
pub open spec fn compat_text(c: PackageCompatibility) -> Seq<char> {
    "版本兼容性: "@ + mark(c.is_compatible, "✓ 兼容"@, "✗ 不兼容"@) + "\n"@ + "当前版本: "@
        + c.current_version@ + "\n"@ + "最低要求: "@ + c.minimum_version@ + "\n"@ + (
    if c.compatibility_issues.len() > 0 {
        "兼容性问题:\n"@ + dash_lines(c.compatibility_issues.deep_view())
    } else {
        Seq::empty()
    }) + upgrade_line(c)
}

/// Version line, when the version is known.
pub open spec fn version_line(v: Option<crate::deps::PackageInfo>) -> Seq<char> {
    match v {
        Some(p) => "版本: "@ + p.version@ + "\n"@,
        None => Seq::empty(),
    }
}

/// Path line, when the path is known.
pub open spec fn path_line(p: Option<Seq<char>>) -> Seq<char> {
    match p {
        Some(p) => "路径: "@ + p + "\n"@,
        None => Seq::empty(),
    }
}

/// Compatibility block, when a verdict exists.
pub open spec fn compat_block(c: Option<PackageCompatibility>) -> Seq<char> {
    match c {
        Some(c) => compat_text(c),
        None => Seq::empty(),
    }
}

/// The lines between the header and the compatibility block of a status.
pub open spec fn status_head_text(s: DependencyStatus) -> Seq<char> {
    "可用性: "@ + mark(s.is_available, "✓ 可用"@, "✗ 不可用"@) + "\n"@ + "功能性: "@ + mark(
        s.is_functional,
        "✓ 正常"@,
        "✗ 异常"@,
    ) + "\n"@ + version_line(s.version_info) + path_line(opt_view(s.path))
}

/// Text block of one dependency status under the given header line.
pub open spec fn status_text(header: Seq<char>, s: DependencyStatus) -> Seq<char> {
    header + status_head_text(s) + compat_block(s.compatibility) + (if s.issues.len() > 0 {
        "问题:\n"@ + dash_lines(s.issues.deep_view())
    } else {
        Seq::empty()
    }) + "\n"@
}

/// The whole report.
pub open spec fn dependency_report_text(r: DependencyVerificationResult) -> Seq<char> {
    "=== 增强依赖验证报告 ===\n\n"@ + "总体兼容性: "@ + mark(
        r.overall_compatible,
        "✓ 兼容"@,
        "✗ 不兼容"@,
    ) + "\n"@ + "\n"@ + status_text("=== MinerU 状态 ===\n"@, r.mineru_status) + status_text(
        "=== MarkItDown 状态 ===\n"@,
        r.markitdown_status,
    ) + (if r.critical_issues.len() > 0 {
        "=== 关键问题 ===\n"@ + warning_lines(r.critical_issues.deep_view()) + "\n"@
    } else {
        Seq::empty()
    }) + (if r.recommendations.len() > 0 {
        "=== 推荐操作 ===\n"@ + numbered_lines(r.recommendations.deep_view())
    } else {
        Seq::empty()
    })
}

fn push_mark(out: &mut String, b: bool, yes: &str, no: &str)
    ensures
        final(out)@ == old(out)@ + mark(b, yes@, no@),
{
    if b {
        push_str(out, yes);
    } else {
        push_str(out, no);
    }
}

fn push_dash_lines(out: &mut String, items: &Vec<String>)
    ensures
        final(out)@ == old(out)@ + dash_lines(items.deep_view()),
{
    let ghost start = out@;
    let mut i: usize = 0;
    proof {
        assert(items.deep_view().take(0) =~= Seq::<Seq<char>>::empty());
        assert(out@ =~= start + dash_lines(items.deep_view().take(0)));
    }
    while i < items.len()
        invariant
            i <= items.len(),
            out@ == start + dash_lines(items.deep_view().take(i as int)),
        decreases items.len() - i,
    {
        push_str(out, "  - ");
        push_str(out, items[i].as_str());
        push_str(out, "\n");
        proof {
            let t = items.deep_view().take(i + 1);
            assert(t.drop_last() =~= items.deep_view().take(i as int));
            assert(out@ =~= start + dash_lines(t));
        }
        i = i + 1;
    }
    proof {
        assert(items.deep_view().take(items.len() as int) =~= items.deep_view());
    }
}

fn push_warning_lines(out: &mut String, items: &Vec<String>)
    ensures
        final(out)@ == old(out)@ + warning_lines(items.deep_view()),
{
    let ghost start = out@;
    let mut i: usize = 0;
    proof {
        assert(items.deep_view().take(0) =~= Seq::<Seq<char>>::empty());
        assert(out@ =~= start + warning_lines(items.deep_view().take(0)));
    }
    while i < items.len()
        invariant
            i <= items.len(),
            out@ == start + warning_lines(items.deep_view().take(i as int)),
        decreases items.len() - i,
    {
        push_str(out, "⚠️  ");
        push_str(out, items[i].as_str());
        push_str(out, "\n");
        proof {
            let t = items.deep_view().take(i + 1);
            assert(t.drop_last() =~= items.deep_view().take(i as int));
            assert(out@ =~= start + warning_lines(t));
        }
        i = i + 1;
    }
    proof {
        assert(items.deep_view().take(items.len() as int) =~= items.deep_view());
    }
}

fn push_upgrade_line(out: &mut String, c: &PackageCompatibility)
    ensures
        final(out)@ == old(out)@ + upgrade_line(*c),
{
    if c.upgrade_available {
        match &c.upgrade_recommendation {
            Some(rec) => {
                push_str(out, "升级建议: ");
                push_str(out, rec.as_str());
                push_str(out, "\n");
                proof {
                    assert(out@ =~= old(out)@ + upgrade_line(*c));
                }
            },
            None => {
                proof {
                    assert(out@ =~= old(out)@ + upgrade_line(*c));
                }
            },
        }
    } else {
        proof {
            assert(out@ =~= old(out)@ + upgrade_line(*c));
        }
    }
}

fn push_compat(out: &mut String, c: &PackageCompatibility)
    ensures
        final(out)@ == old(out)@ + compat_text(*c),
{
    push_str(out, "版本兼容性: ");
    push_mark(out, c.is_compatible, "✓ 兼容", "✗ 不兼容");
    push_str(out, "\n");
    push_str(out, "当前版本: ");
    push_str(out, c.current_version.as_str());
    push_str(out, "\n");
    push_str(out, "最低要求: ");
    push_str(out, c.minimum_version.as_str());
    push_str(out, "\n");
    let ghost a = out@;
    if c.compatibility_issues.len() > 0 {
        push_str(out, "兼容性问题:\n");
        push_dash_lines(out, &c.compatibility_issues);
    }
    let ghost b = out@;
    push_upgrade_line(out, c);
    proof {
        let head = "版本兼容性: "@ + mark(c.is_compatible, "✓ 兼容"@, "✗ 不兼容"@) + "\n"@
            + "当前版本: "@ + c.current_version@ + "\n"@ + "最低要求: "@ + c.minimum_version@
            + "\n"@;
        let iss = if c.compatibility_issues.len() > 0 {
            "兼容性问题:\n"@ + dash_lines(c.compatibility_issues.deep_view())
        } else {
            Seq::<char>::empty()
        };
        assert(a =~= old(out)@ + head);
        assert(b =~= a + iss);
        assert(out@ =~= old(out)@ + head + iss + upgrade_line(*c));
        assert(compat_text(*c) =~= head + iss + upgrade_line(*c));
    }
}

fn push_mark_line(out: &mut String, label: &str, b: bool, yes: &str, no: &str)
    ensures
        final(out)@ == old(out)@ + (label@ + mark(b, yes@, no@) + "\n"@),
{
    push_str(out, label);
    push_mark(out, b, yes, no);
    push_str(out, "\n");
    proof {
        assert(out@ =~= old(out)@ + (label@ + mark(b, yes@, no@) + "\n"@));
    }
}

fn push_version_line(out: &mut String, v: &Option<crate::deps::PackageInfo>)
    ensures
        final(out)@ == old(out)@ + version_line(*v),
{
    match v {
        Some(p) => {
            push_str(out, "版本: ");
            push_str(out, p.version.as_str());
            push_str(out, "\n");
            proof {
                assert(out@ =~= old(out)@ + version_line(*v));
            }
        },
        None => {
            proof {
                assert(out@ =~= old(out)@ + version_line(*v));
            }
        },
    }
}

fn push_path_line(out: &mut String, path: &Option<String>)
    ensures
        final(out)@ == old(out)@ + path_line(opt_view(*path)),
{
    match path {
        Some(p) => {
            push_str(out, "路径: ");
            push_str(out, p.as_str());
            push_str(out, "\n");
            proof {
                assert(out@ =~= old(out)@ + path_line(opt_view(*path)));
            }
        },
        None => {
            proof {
                assert(out@ =~= old(out)@ + path_line(opt_view(*path)));
            }
        },
    }
}

fn push_status_head(out: &mut String, s: &DependencyStatus)
    ensures
        final(out)@ == old(out)@ + status_head_text(*s),
{
    push_mark_line(out, "可用性: ", s.is_available, "✓ 可用", "✗ 不可用");
    push_mark_line(out, "功能性: ", s.is_functional, "✓ 正常", "✗ 异常");
    push_version_line(out, &s.version_info);
    push_path_line(out, &s.path);
    proof {
        assert(out@ =~= old(out)@ + status_head_text(*s));
    }
}

fn push_status(out: &mut String, header: &str, s: &DependencyStatus)
    ensures
        final(out)@ == old(out)@ + status_text(header@, *s),
{
    push_str(out, header);
    push_status_head(out, s);
    let ghost a = out@;
    match &s.compatibility {
        Some(c) => push_compat(out, c),
        None => {},
    }
    let ghost b = out@;
    if s.issues.len() > 0 {
        push_str(out, "问题:\n");
        push_dash_lines(out, &s.issues);
    }
    let ghost d = out@;
    push_str(out, "\n");
    proof {
        let comp = compat_block(s.compatibility);
        let iss = if s.issues.len() > 0 {
            "问题:\n"@ + dash_lines(s.issues.deep_view())
        } else {
            Seq::<char>::empty()
        };
        assert(b =~= a + comp);
        assert(d =~= b + iss);
        assert(out@ =~= old(out)@ + header@ + status_head_text(*s) + comp + iss + "\n"@);
        assert(status_text(header@, *s) =~= header@ + status_head_text(*s) + comp + iss + "\n"@);
    }
}

impl DependencyVerificationResult {
    /// Renders this verification result as the enhanced dependency report.
    pub fn enhanced_report(&self) -> (out: String)
        ensures
            out@ == dependency_report_text(*self),
    {
        let mut out = String::new();
        push_str(&mut out, "=== 增强依赖验证报告 ===\n\n");
        push_str(&mut out, "总体兼容性: ");
        push_mark(&mut out, self.overall_compatible, "✓ 兼容", "✗ 不兼容");
        push_str(&mut out, "\n");
        push_str(&mut out, "\n");
        let ghost a = out@;
        push_status(&mut out, "=== MinerU 状态 ===\n", &self.mineru_status);
        push_status(&mut out, "=== MarkItDown 状态 ===\n", &self.markitdown_status);
        let ghost b = out@;
        if self.critical_issues.len() > 0 {
            push_str(&mut out, "=== 关键问题 ===\n");
            push_warning_lines(&mut out, &self.critical_issues);
            push_str(&mut out, "\n");
        }
        let ghost d = out@;
        if self.recommendations.len() > 0 {
            push_str(&mut out, "=== 推荐操作 ===\n");
            push_numbered(&mut out, &self.recommendations);
        }
        proof {
            let head = "=== 增强依赖验证报告 ===\n\n"@ + "总体兼容性: "@ + mark(
                self.overall_compatible,
                "✓ 兼容"@,
                "✗ 不兼容"@,
            ) + "\n"@ + "\n"@;
            let sts = status_text("=== MinerU 状态 ===\n"@, self.mineru_status) + status_text(
                "=== MarkItDown 状态 ===\n"@,
                self.markitdown_status,
            );
            let crit = if self.critical_issues.len() > 0 {
                "=== 关键问题 ===\n"@ + warning_lines(self.critical_issues.deep_view()) + "\n"@
            } else {
                Seq::<char>::empty()
            };
            let recs = if self.recommendations.len() > 0 {
                "=== 推荐操作 ===\n"@ + numbered_lines(self.recommendations.deep_view())
            } else {
                Seq::<char>::empty()
            };
            assert(a =~= head);
            assert(b =~= a + sts);
            assert(d =~= b + crit);
            assert(out@ =~= d + recs);
            assert(dependency_report_text(*self) =~= head + sts + crit + recs);
        }
        out
    }
}

} // verus!
