//! Folding the outcome of each environment probe (Python, uv, CUDA, MinerU,
//! MarkItDown) into an environment status, with the issues and warnings
//! that each failure adds.

use vstd::prelude::*;
use crate::deps::{
    get_markitdown_installation_suggestion, get_mineru_installation_suggestion,
    get_python_installation_suggestion, get_uv_installation_suggestion,
    markitdown_suggestion_spec, mineru_suggestion_spec, python_suggestion_spec,
    uv_suggestion_spec,
};
use crate::env_status::{activation_command_spec, EnvironmentStatus};
use crate::env_types::{clone_opt, opt_view, CudaInfo, EnvironmentIssue, EnvironmentWarning, IssueSeverity};
use crate::text::{contains_spec, push_str, str_contains};

verus! {

/// What a Python probe found.
#[derive(Debug, Clone)]
pub struct PythonInfo {
    pub version: Option<String>,
    pub path: String,
    pub virtual_env_active: bool,
    pub virtual_env_path: Option<String>,
}

/// Where the project virtual environment is expected, and whether its
/// Python executable exists.
#[derive(Debug, Clone)]
pub struct VenvExpectation {
    pub venv_dir: String,
    pub python_path: String,
    pub python_exists: bool,
}

/// `i` has exactly these fields.
pub open spec fn issue_is(
    i: EnvironmentIssue,
    component: Seq<char>,
    severity: IssueSeverity,
    message: Seq<char>,
    suggestion: Seq<char>,
    auto_fixable: bool,
) -> bool {
    &&& i.component@ == component
    &&& i.severity == severity
    &&& i.message@ == message
    &&& i.suggestion@ == suggestion
    &&& i.auto_fixable == auto_fixable
}

/// `w` has exactly these fields.
pub open spec fn warning_is(
    w: EnvironmentWarning,
    component: Seq<char>,
    message: Seq<char>,
    impact: Seq<char>,
) -> bool {
    &&& w.component@ == component
    &&& w.message@ == message
    &&& w.impact@ == impact
}

/// The Python fields of two statuses agree.
pub open spec fn python_same(a: EnvironmentStatus, b: EnvironmentStatus) -> bool {
    &&& a.python_available == b.python_available
    &&& opt_view(a.python_version) == opt_view(b.python_version)
    &&& opt_view(a.python_path) == opt_view(b.python_path)
    &&& a.virtual_env_active == b.virtual_env_active
    &&& opt_view(a.virtual_env_path) == opt_view(b.virtual_env_path)
}

/// The uv fields of two statuses agree.
pub open spec fn uv_same(a: EnvironmentStatus, b: EnvironmentStatus) -> bool {
    a.uv_available == b.uv_available && opt_view(a.uv_version) == opt_view(b.uv_version)
}

/// The CUDA fields of two statuses agree.
pub open spec fn cuda_same(a: EnvironmentStatus, b: EnvironmentStatus) -> bool {
    &&& a.cuda_available == b.cuda_available
    &&& opt_view(a.cuda_version) == opt_view(b.cuda_version)
    &&& a.cuda_devices@ == b.cuda_devices@
}

/// The MinerU fields of two statuses agree.
pub open spec fn mineru_same(a: EnvironmentStatus, b: EnvironmentStatus) -> bool {
    a.mineru_available == b.mineru_available && opt_view(a.mineru_version) == opt_view(
        b.mineru_version,
    )
}

/// The MarkItDown fields of two statuses agree.
pub open spec fn markitdown_same(a: EnvironmentStatus, b: EnvironmentStatus) -> bool {
    a.markitdown_available == b.markitdown_available && opt_view(a.markitdown_version)
        == opt_view(b.markitdown_version)
}

/// The time stamps of two statuses agree.
pub open spec fn times_same(a: EnvironmentStatus, b: EnvironmentStatus) -> bool {
    a.last_checked_ms == b.last_checked_ms && a.check_duration_ms == b.check_duration_ms
}

/// `b` is `a` with `added` appended to its issues.
pub open spec fn issues_extended(
    a: EnvironmentStatus,
    b: EnvironmentStatus,
    added: int,
) -> bool {
    &&& b.issues@.len() == a.issues@.len() + added
    &&& b.issues@.take(a.issues@.len() as int) == a.issues@
}

/// `b` is `a` with `added` appended to its warnings.
pub open spec fn warnings_extended(
    a: EnvironmentStatus,
    b: EnvironmentStatus,
    added: int,
) -> bool {
    &&& b.warnings@.len() == a.warnings@.len() + added
    &&& b.warnings@.take(a.warnings@.len() as int) == a.warnings@
}

/// Issues that the virtual environment check reports for a Python probe.
pub open spec fn venv_issues_ok(
    added: Seq<EnvironmentIssue>,
    p: PythonInfo,
    exp: VenvExpectation,
    windows: bool,
) -> bool {
    if !p.virtual_env_active {
        added.len() == 1 && issue_is(
            added[0],
            "Virtual Environment"@,
            IssueSeverity::High,
            "虚拟环境未激活"@,
            "创建并激活虚拟环境: 运行 'document-parser uv-init' 或手动运行 '"@
                + activation_command_spec(windows) + "'"@,
            true,
        )
    } else if !exp.python_exists {
        added.len() == 1 && issue_is(
            added[0],
            "Virtual Environment"@,
            IssueSeverity::Medium,
            "预期的Python可执行文件不存在: "@ + exp.python_path@,
            "重新创建虚拟环境: 运行 'document-parser uv-init'"@,
            true,
        )
    } else {
        added.len() == 0
    }
}

/// Whether an active virtual environment lies outside the expected place.
pub open spec fn venv_misplaced(p: PythonInfo, exp: VenvExpectation) -> bool {
    p.virtual_env_active && match opt_view(p.virtual_env_path) {
        Some(v) => !contains_spec(v, exp.venv_dir@),
        None => false,
    }
}

/// Warnings that the virtual environment check reports for a Python probe.
pub open spec fn venv_warnings_ok(
    added: Seq<EnvironmentWarning>,
    p: PythonInfo,
    exp: VenvExpectation,
) -> bool {
    if venv_misplaced(p, exp) {
        added.len() == 1 && warning_is(
            added[0],
            "Virtual Environment"@,
            "虚拟环境位于非预期位置: "@ + opt_view(p.virtual_env_path)->0,
            "可能影响依赖管理和路径解析"@,
        )
    } else {
        added.len() == 0
    }
}

fn concat(head: &str, tail: &str) -> (r: String)
    ensures
        r@ == head@ + tail@,
{
    let mut r = String::from_str(head);
    push_str(&mut r, tail);
    r
}

fn push_issue(
    issues: &mut Vec<EnvironmentIssue>,
    component: &str,
    severity: IssueSeverity,
    message: String,
    suggestion: String,
    auto_fixable: bool,
)
    ensures
        final(issues)@.len() == old(issues)@.len() + 1,
        final(issues)@.take(old(issues)@.len() as int) == old(issues)@,
        issue_is(
            final(issues)@.last(),
            component@,
            severity,
            message@,
            suggestion@,
            auto_fixable,
        ),
{
    let ghost before = issues@;
    issues.push(
        EnvironmentIssue {
            component: String::from_str(component),
            severity,
            message,
            suggestion,
            auto_fixable,
        },
    );
    proof {
        assert(issues@.take(before.len() as int) =~= before);
    }
}

fn push_warning(
    warnings: &mut Vec<EnvironmentWarning>,
    component: &str,
    message: String,
    impact: &str,
)
    ensures
        final(warnings)@.len() == old(warnings)@.len() + 1,
        final(warnings)@.take(old(warnings)@.len() as int) == old(warnings)@,
        warning_is(final(warnings)@.last(), component@, message@, impact@),
{
    let ghost before = warnings@;
    warnings.push(
        EnvironmentWarning {
            component: String::from_str(component),
            message,
            impact: String::from_str(impact),
        },
    );
    proof {
        assert(warnings@.take(before.len() as int) =~= before);
    }
}

impl EnvironmentStatus {
    /// Checks the virtual environment that a successful Python probe
    /// reported against where the project expects it.
    pub fn validate_virtual_environment_status(
        &mut self,
        p: &PythonInfo,
        exp: &VenvExpectation,
        windows: bool,
    )
        ensures
            python_same(*final(self), *old(self)),
            uv_same(*final(self), *old(self)),
            cuda_same(*final(self), *old(self)),
            mineru_same(*final(self), *old(self)),
            markitdown_same(*final(self), *old(self)),
            times_same(*final(self), *old(self)),
            final(self).issues@.take(old(self).issues@.len() as int) == old(self).issues@,
            final(self).issues@.len() >= old(self).issues@.len(),
            venv_issues_ok(
                final(self).issues@.skip(old(self).issues@.len() as int),
                *p,
                *exp,
                windows,
            ),
            final(self).warnings@.take(old(self).warnings@.len() as int) == old(self).warnings@,
            final(self).warnings@.len() >= old(self).warnings@.len(),
            venv_warnings_ok(
                final(self).warnings@.skip(old(self).warnings@.len() as int),
                *p,
                *exp,
            ),
    {
        let ghost old_issues = self.issues@;
        let ghost old_warnings = self.warnings@;
        if !p.virtual_env_active {
            let cmd = EnvironmentStatus::activation_command_for(windows);
            let mut suggestion = String::from_str(
                "创建并激活虚拟环境: 运行 'document-parser uv-init' 或手动运行 '",
            );
            push_str(&mut suggestion, cmd.as_str());
            push_str(&mut suggestion, "'");
            push_issue(
                &mut self.issues,
                "Virtual Environment",
                IssueSeverity::High,
                String::from_str("虚拟环境未激活"),
                suggestion,
                true,
            );
        } else {
            match &p.virtual_env_path {
                Some(v) => {
                    if !str_contains(v.as_str(), exp.venv_dir.as_str()) {
                        push_warning(
                            &mut self.warnings,
                            "Virtual Environment",
                            concat("虚拟环境位于非预期位置: ", v.as_str()),
                            "可能影响依赖管理和路径解析",
                        );
                    }
                },
                None => {},
            }
            if !exp.python_exists {
                push_issue(
                    &mut self.issues,
                    "Virtual Environment",
                    IssueSeverity::Medium,
                    concat("预期的Python可执行文件不存在: ", exp.python_path.as_str()),
                    String::from_str("重新创建虚拟环境: 运行 'document-parser uv-init'"),
                    true,
                );
            }
        }
        proof {
            let ai = self.issues@.skip(old_issues.len() as int);
            let aw = self.warnings@.skip(old_warnings.len() as int);
            if self.issues@.len() > old_issues.len() {
                assert(ai[0] == self.issues@.last());
            }
            if self.warnings@.len() > old_warnings.len() {
                assert(aw[0] == self.warnings@.last());
            }
        }
    }

    /// Records the outcome of the Python probe; `Err` holds the error text.
    pub fn record_python_probe(
        &mut self,
        probe: &Result<PythonInfo, String>,
        exp: &VenvExpectation,
        windows: bool,
    )
        ensures
            uv_same(*final(self), *old(self)),
            cuda_same(*final(self), *old(self)),
            mineru_same(*final(self), *old(self)),
            markitdown_same(*final(self), *old(self)),
            times_same(*final(self), *old(self)),
            final(self).issues@.take(old(self).issues@.len() as int) == old(self).issues@,
            final(self).warnings@.take(old(self).warnings@.len() as int) == old(self).warnings@,
            final(self).issues@.len() >= old(self).issues@.len(),
            final(self).warnings@.len() >= old(self).warnings@.len(),
            match probe {
                Ok(p) => {
                    &&& final(self).python_available
                    &&& opt_view(final(self).python_version) == opt_view(p.version)
                    &&& opt_view(final(self).python_path) == Some(p.path@)
                    &&& final(self).virtual_env_active == p.virtual_env_active
                    &&& opt_view(final(self).virtual_env_path) == opt_view(p.virtual_env_path)
                    &&& venv_issues_ok(
                        final(self).issues@.skip(old(self).issues@.len() as int),
                        *p,
                        *exp,
                        windows,
                    )
                    &&& venv_warnings_ok(
                        final(self).warnings@.skip(old(self).warnings@.len() as int),
                        *p,
                        *exp,
                    )
                },
                Err(e) => {
                    &&& python_same(*final(self), *old(self))
                    &&& final(self).warnings@ == old(self).warnings@
                    &&& final(self).issues@.len() == old(self).issues@.len() + 1
                    &&& issue_is(
                        final(self).issues@.last(),
                        "Python"@,
                        IssueSeverity::Critical,
                        "Python环境检查失败: "@ + e@,
                        python_suggestion_spec(e@),
                        false,
                    )
                },
            },
    {
        match probe {
            Ok(p) => {
                self.python_available = true;
                self.python_version = clone_opt(&p.version);
                self.python_path = Some(p.path.clone());
                self.virtual_env_active = p.virtual_env_active;
                self.virtual_env_path = clone_opt(&p.virtual_env_path);
                self.validate_virtual_environment_status(p, exp, windows);
            },
            Err(e) => {
                push_issue(
                    &mut self.issues,
                    "Python",
                    IssueSeverity::Critical,
                    concat("Python环境检查失败: ", e.as_str()),
                    get_python_installation_suggestion(e.as_str()),
                    false,
                );
            },
        }
    }

    /// Records the outcome of the uv probe: its version, or the error text.
    pub fn record_uv_probe(&mut self, probe: &Result<String, String>)
        ensures
            python_same(*final(self), *old(self)),
            cuda_same(*final(self), *old(self)),
            mineru_same(*final(self), *old(self)),
            markitdown_same(*final(self), *old(self)),
            times_same(*final(self), *old(self)),
            final(self).warnings@ == old(self).warnings@,
            match probe {
                Ok(v) => {
                    &&& final(self).uv_available
                    &&& opt_view(final(self).uv_version) == Some(v@)
                    &&& final(self).issues@ == old(self).issues@
                },
                Err(e) => {
                    &&& uv_same(*final(self), *old(self))
                    &&& issues_extended(*old(self), *final(self), 1)
                    &&& issue_is(
                        final(self).issues@.last(),
                        "UV"@,
                        IssueSeverity::High,
                        "uv工具检查失败: "@ + e@,
                        uv_suggestion_spec(e@),
                        true,
                    )
                },
            },
    {
        match probe {
            Ok(v) => {
                self.uv_available = true;
                self.uv_version = Some(v.clone());
            },
            Err(e) => {
                push_issue(
                    &mut self.issues,
                    "UV",
                    IssueSeverity::High,
                    concat("uv工具检查失败: ", e.as_str()),
                    get_uv_installation_suggestion(e.as_str()),
                    true,
                );
            },
        }
    }

    /// Records the outcome of the CUDA probe; a failed probe or one that
    /// found no device only adds a warning.
    pub fn record_cuda_probe(&mut self, probe: Result<CudaInfo, String>)
        ensures
            python_same(*final(self), *old(self)),
            uv_same(*final(self), *old(self)),
            mineru_same(*final(self), *old(self)),
            markitdown_same(*final(self), *old(self)),
            times_same(*final(self), *old(self)),
            final(self).issues@ == old(self).issues@,
            warnings_extended(
                *old(self),
                *final(self),
                if probe matches Ok(info) && info.available {
                    0
                } else {
                    1
                },
            ),
            match probe {
                Ok(info) => {
                    &&& final(self).cuda_available == info.available
                    &&& opt_view(final(self).cuda_version) == opt_view(info.version)
                    &&& final(self).cuda_devices@ == info.devices@
                    &&& !info.available ==> warning_is(
                        final(self).warnings@.last(),
                        "CUDA"@,
                        "CUDA环境不可用"@,
                        "PDF处理性能可能较慢"@,
                    )
                },
                Err(e) => {
                    &&& cuda_same(*final(self), *old(self))
                    &&& warning_is(
                        final(self).warnings@.last(),
                        "CUDA"@,
                        "CUDA环境检查失败: "@ + e@,
                        "将使用CPU进行PDF处理"@,
                    )
                },
            },
    {
        let ghost before = self.warnings@;
        match probe {
            Ok(info) => {
                let available = info.available;
                self.cuda_available = available;
                self.cuda_version = info.version;
                self.cuda_devices = info.devices;
                if !available {
                    push_warning(
                        &mut self.warnings,
                        "CUDA",
                        String::from_str("CUDA环境不可用"),
                        "PDF处理性能可能较慢",
                    );
                } else {
                    proof {
                        assert(self.warnings@.take(before.len() as int) =~= before);
                    }
                }
            },
            Err(e) => {
                push_warning(
                    &mut self.warnings,
                    "CUDA",
                    concat("CUDA环境检查失败: ", e.as_str()),
                    "将使用CPU进行PDF处理",
                );
            },
        }
    }

    /// Whether the Python packages can be probed: only with a working Python.
    pub fn needs_package_probes(&self) -> (b: bool)
        ensures
            b == self.python_available,
    {
        self.python_available
    }

    /// Records the outcome of the MinerU probe: its version, or the error text.
    pub fn record_mineru_probe(&mut self, probe: &Result<String, String>)
        ensures
            python_same(*final(self), *old(self)),
            uv_same(*final(self), *old(self)),
            cuda_same(*final(self), *old(self)),
            markitdown_same(*final(self), *old(self)),
            times_same(*final(self), *old(self)),
            final(self).warnings@ == old(self).warnings@,
            match probe {
                Ok(v) => {
                    &&& final(self).mineru_available
                    &&& opt_view(final(self).mineru_version) == Some(v@)
                    &&& final(self).issues@ == old(self).issues@
                },
                Err(e) => {
                    &&& mineru_same(*final(self), *old(self))
                    &&& issues_extended(*old(self), *final(self), 1)
                    &&& issue_is(
                        final(self).issues@.last(),
                        "MinerU"@,
                        IssueSeverity::Critical,
                        "MinerU环境检查失败: "@ + e@,
                        mineru_suggestion_spec(e@),
                        true,
                    )
                },
            },
    {
        match probe {
            Ok(v) => {
                self.mineru_available = true;
                self.mineru_version = Some(v.clone());
            },
            Err(e) => {
                push_issue(
                    &mut self.issues,
                    "MinerU",
                    IssueSeverity::Critical,
                    concat("MinerU环境检查失败: ", e.as_str()),
                    get_mineru_installation_suggestion(e.as_str()),
                    true,
                );
            },
        }
    }

    /// Records the outcome of the MarkItDown probe: its version, or the error text.
    pub fn record_markitdown_probe(&mut self, probe: &Result<String, String>)
        ensures
            python_same(*final(self), *old(self)),
            uv_same(*final(self), *old(self)),
            cuda_same(*final(self), *old(self)),
            mineru_same(*final(self), *old(self)),
            times_same(*final(self), *old(self)),
            final(self).warnings@ == old(self).warnings@,
            match probe {
                Ok(v) => {
                    &&& final(self).markitdown_available
                    &&& opt_view(final(self).markitdown_version) == Some(v@)
                    &&& final(self).issues@ == old(self).issues@
                },
                Err(e) => {
                    &&& markitdown_same(*final(self), *old(self))
                    &&& issues_extended(*old(self), *final(self), 1)
                    &&& issue_is(
                        final(self).issues@.last(),
                        "MarkItDown"@,
                        IssueSeverity::Critical,
                        "MarkItDown环境检查失败: "@ + e@,
                        markitdown_suggestion_spec(e@),
                        true,
                    )
                },
            },
    {
        match probe {
            Ok(v) => {
                self.markitdown_available = true;
                self.markitdown_version = Some(v.clone());
            },
            Err(e) => {
                push_issue(
                    &mut self.issues,
                    "MarkItDown",
                    IssueSeverity::Critical,
                    concat("MarkItDown环境检查失败: ", e.as_str()),
                    get_markitdown_installation_suggestion(e.as_str()),
                    true,
                );
            },
        }
    }

    /// Records that the packages could not be probed for want of Python:
    /// one critical issue for MinerU and one for MarkItDown.
    pub fn record_packages_unchecked(&mut self)
        ensures
            python_same(*final(self), *old(self)),
            uv_same(*final(self), *old(self)),
            cuda_same(*final(self), *old(self)),
            mineru_same(*final(self), *old(self)),
            markitdown_same(*final(self), *old(self)),
            times_same(*final(self), *old(self)),
            final(self).warnings@ == old(self).warnings@,
            issues_extended(*old(self), *final(self), 2),
            issue_is(
                final(self).issues@[final(self).issues@.len() - 2],
                "MinerU"@,
                IssueSeverity::Critical,
                "无法检查MinerU：Python环境不可用"@,
                "首先修复Python环境问题"@,
                false,
            ),
            issue_is(
                final(self).issues@.last(),
                "MarkItDown"@,
                IssueSeverity::Critical,
                "无法检查MarkItDown：Python环境不可用"@,
                "首先修复Python环境问题"@,
                false,
            ),
    {
        let ghost before = self.issues@;
        push_issue(
            &mut self.issues,
            "MinerU",
            IssueSeverity::Critical,
            String::from_str("无法检查MinerU：Python环境不可用"),
            String::from_str("首先修复Python环境问题"),
            false,
        );
        let ghost mid = self.issues@;
        push_issue(
            &mut self.issues,
            "MarkItDown",
            IssueSeverity::Critical,
            String::from_str("无法检查MarkItDown：Python环境不可用"),
            String::from_str("首先修复Python环境问题"),
            false,
        );
        proof {
            assert(self.issues@[self.issues@.len() - 2] == mid.last());
            assert(self.issues@.take(before.len() as int) =~= before);
        }
    }

    /// Stamps the status with the check's start time and duration.
    pub fn record_check_time(&mut self, started_ms: u64, duration_ms: u64)
        ensures
            final(self).last_checked_ms == started_ms,
            final(self).check_duration_ms == duration_ms,
            python_same(*final(self), *old(self)),
            uv_same(*final(self), *old(self)),
            cuda_same(*final(self), *old(self)),
            mineru_same(*final(self), *old(self)),
            markitdown_same(*final(self), *old(self)),
            final(self).issues@ == old(self).issues@,
            final(self).warnings@ == old(self).warnings@,
    {
        self.last_checked_ms = started_ms;
        self.check_duration_ms = duration_ms;
    }
}

} // verus!
