//! The result of an environment check and everything derived from it:
//! readiness, health score, virtual environment state and the diagnostic
//! report.

use vstd::prelude::*;
use crate::env_types::{
    clone_opt, opt_view, CudaDevice, EnvironmentIssue, EnvironmentWarning, IssueSeverity,
    VirtualEnvStatus,
};
use crate::text::{contains_spec, ends_with_spec, str_contains, str_ends_with};

verus! {

/// Outcome of an environment check.
///
/// `last_checked_ms` is the check time in milliseconds since the Unix epoch,
/// `check_duration_ms` the time the check took.
#[derive(Debug, Clone)]
pub struct EnvironmentStatus {
    pub python_available: bool,
    pub python_version: Option<String>,
    pub python_path: Option<String>,
    pub uv_available: bool,
    pub uv_version: Option<String>,
    pub cuda_available: bool,
    pub cuda_version: Option<String>,
    pub cuda_devices: Vec<CudaDevice>,
    pub mineru_available: bool,
    pub mineru_version: Option<String>,
    pub markitdown_available: bool,
    pub markitdown_version: Option<String>,
    pub virtual_env_active: bool,
    pub virtual_env_path: Option<String>,
    pub issues: Vec<EnvironmentIssue>,
    pub warnings: Vec<EnvironmentWarning>,
    pub last_checked_ms: u64,
    pub check_duration_ms: u64,
}

/// The wall clock in milliseconds since the Unix epoch (0 before it).
///
/// Nothing is stated of the value: it is the time of the call.
#[verifier::external_body]
pub(crate) fn now_unix_millis() -> u64 {
    match std::time::SystemTime::now().duration_since(std::time::UNIX_EPOCH) {
        Ok(d) => d.as_millis() as u64,
        Err(_) => 0,
    }
}

/// The platform path separator (`std::path::MAIN_SEPARATOR`): `\` on
/// Windows, `/` elsewhere.
#[verifier::external_body]
pub(crate) fn main_separator() -> (c: char)
    ensures
        c == '/' || c == '\\',
{
    std::path::MAIN_SEPARATOR
}

/// Whether the library runs on Windows.
pub fn is_windows() -> bool {
    main_separator() == '\\'
}

/// Score lost to an issue of a given severity.
pub open spec fn penalty(s: IssueSeverity) -> nat {
    match s {
        IssueSeverity::Critical => 10,
        IssueSeverity::High => 5,
        IssueSeverity::Medium => 2,
        IssueSeverity::Low => 1,
    }
}

/// Total penalty of a list of issues.
pub open spec fn penalty_sum(issues: Seq<EnvironmentIssue>) -> nat
    decreases issues.len(),
{
    if issues.len() == 0 {
        0
    } else {
        penalty_sum(issues.drop_last()) + penalty(issues.last().severity)
    }
}

/// The issues whose severity is `Critical`, in order.
pub open spec fn critical_issues_spec(issues: Seq<EnvironmentIssue>) -> Seq<EnvironmentIssue>
    decreases issues.len(),
{
    if issues.len() == 0 {
        Seq::empty()
    } else if issues.last().severity == IssueSeverity::Critical {
        critical_issues_spec(issues.drop_last()).push(issues.last())
    } else {
        critical_issues_spec(issues.drop_last())
    }
}

/// The issues that can be fixed automatically, in order.
pub open spec fn auto_fixable_issues_spec(issues: Seq<EnvironmentIssue>) -> Seq<
    EnvironmentIssue,
>
    decreases issues.len(),
{
    if issues.len() == 0 {
        Seq::empty()
    } else if issues.last().auto_fixable {
        auto_fixable_issues_spec(issues.drop_last()).push(issues.last())
    } else {
        auto_fixable_issues_spec(issues.drop_last())
    }
}

/// Index of the last device with the most free memory; -1 when there is
/// none (`Iterator::max_by_key` keeps the last of equal maxima).
pub open spec fn best_device_index(d: Seq<CudaDevice>) -> int
    decreases d.len(),
{
    if d.len() == 0 {
        -1
    } else {
        let k = best_device_index(d.drop_last());
        if k < 0 || d[k].memory_free <= d.last().memory_free {
            d.len() - 1
        } else {
            k
        }
    }
}

/// The values behind a sequence of references.
pub open spec fn derefs<T>(s: Seq<&T>) -> Seq<T> {
    s.map_values(|x: &T| *x)
}

/// Points given for available components and tools.
pub open spec fn base_score(s: EnvironmentStatus) -> nat {
    (if s.python_available { 20nat } else { 0nat }) + (if s.mineru_available { 20nat } else {
        0nat
    }) + (if s.markitdown_available { 20nat } else { 0nat }) + (if s.uv_available { 10nat } else {
        0nat
    }) + (if s.virtual_env_active { 10nat } else { 0nat }) + (if s.cuda_available
        && s.cuda_devices@.len() > 0 { 10nat } else { 0nat })
}

/// Health score: the base points minus the issue penalty, which is capped
/// at 30 and cannot take the score below 0.
pub open spec fn health_score_spec(s: EnvironmentStatus) -> nat {
    let p = if penalty_sum(s.issues@) < 30 { penalty_sum(s.issues@) } else { 30 };
    if base_score(s) >= p { (base_score(s) - p) as nat } else { 0 }
}

/// Whether a virtual environment path looks like the project `venv`.
pub open spec fn venv_path_ok(p: Seq<char>) -> bool {
    ends_with_spec(p, "venv"@) || contains_spec(p, "/venv"@) || contains_spec(p, "\\venv"@)
}

/// The shell command that activates `./venv` on the given platform.
pub open spec fn activation_command_spec(windows: bool) -> Seq<char> {
    if windows {
        ".\\venv\\Scripts\\activate.bat"@
    } else {
        "source ./venv/bin/activate"@
    }
}

impl EnvironmentStatus {
    /// Python, MinerU and MarkItDown are all available.
    pub open spec fn ready_spec(self) -> bool {
        self.python_available && self.mineru_available && self.markitdown_available
    }

    /// The virtual environment is active and located at a `venv` path.
    pub open spec fn venv_configured_spec(self) -> bool {
        self.virtual_env_active && match self.virtual_env_path {
            Some(p) => venv_path_ok(p@),
            None => false,
        }
    }

    /// Whether the environment can run the service.
    pub fn is_ready(&self) -> (b: bool)
        ensures
            b == self.ready_spec(),
    {
        self.python_available && self.mineru_available && self.markitdown_available
    }

    /// All issues found.
    pub fn get_issues(&self) -> (r: &Vec<EnvironmentIssue>)
        ensures
            r@ == self.issues@,
    {
        &self.issues
    }

    /// All warnings found.
    pub fn get_warnings(&self) -> (r: &Vec<EnvironmentWarning>)
        ensures
            r@ == self.warnings@,
    {
        &self.warnings
    }

    /// The issues that block the service (severity `Critical`).
    pub fn get_critical_issues(&self) -> (r: Vec<&EnvironmentIssue>)
        ensures
            derefs(r@) == critical_issues_spec(self.issues@),
    {
        let mut r: Vec<&EnvironmentIssue> = Vec::new();
        let mut i: usize = 0;
        while i < self.issues.len()
            invariant
                i <= self.issues.len(),
                derefs(r@) == critical_issues_spec(self.issues@.take(i as int)),
            decreases self.issues.len() - i,
        {
            let issue = &self.issues[i];
            proof {
                assert(self.issues@.take(i + 1).drop_last() =~= self.issues@.take(i as int));
            }
            if issue.severity == IssueSeverity::Critical {
                r.push(issue);
                proof {
                    assert(derefs(r@) =~= critical_issues_spec(self.issues@.take(i as int)).push(
                        *issue,
                    ));
                }
            }
            i = i + 1;
        }
        proof {
            assert(self.issues@.take(self.issues.len() as int) =~= self.issues@);
        }
        r
    }

    /// The issues that can be fixed automatically.
    pub fn get_auto_fixable_issues(&self) -> (r: Vec<&EnvironmentIssue>)
        ensures
            derefs(r@) == auto_fixable_issues_spec(self.issues@),
    {
        let mut r: Vec<&EnvironmentIssue> = Vec::new();
        let mut i: usize = 0;
        while i < self.issues.len()
            invariant
                i <= self.issues.len(),
                derefs(r@) == auto_fixable_issues_spec(self.issues@.take(i as int)),
            decreases self.issues.len() - i,
        {
            let issue = &self.issues[i];
            proof {
                assert(self.issues@.take(i + 1).drop_last() =~= self.issues@.take(i as int));
            }
            if issue.auto_fixable {
                r.push(issue);
                proof {
                    assert(derefs(r@) =~= auto_fixable_issues_spec(
                        self.issues@.take(i as int),
                    ).push(*issue));
                }
            }
            i = i + 1;
        }
        proof {
            assert(self.issues@.take(self.issues.len() as int) =~= self.issues@);
        }
        r
    }

    /// CUDA is available and at least one device was found.
    pub fn has_cuda_support(&self) -> (b: bool)
        ensures
            b == (self.cuda_available && self.cuda_devices@.len() > 0),
    {
        self.cuda_available && self.cuda_devices.len() > 0
    }

    /// The device with the most free memory (the last of equals).
    pub fn get_recommended_cuda_device(&self) -> (r: Option<&CudaDevice>)
        ensures
            match r {
                Some(d) => best_device_index(self.cuda_devices@) >= 0 && *d
                    == self.cuda_devices@[best_device_index(self.cuda_devices@)],
                None => self.cuda_devices@.len() == 0,
            },
    {
        if self.cuda_devices.len() == 0 {
            return None;
        }
        let mut best: usize = 0;
        let mut i: usize = 1;
        proof {
            assert(self.cuda_devices@.take(1).drop_last() =~= self.cuda_devices@.take(0));
            assert(best_device_index(self.cuda_devices@.take(0)) == -1);
        }
        while i < self.cuda_devices.len()
            invariant
                1 <= i <= self.cuda_devices.len(),
                best < i,
                best_device_index(self.cuda_devices@.take(i as int)) == best as int,
            decreases self.cuda_devices.len() - i,
        {
            proof {
                let t = self.cuda_devices@.take(i + 1);
                assert(t.drop_last() =~= self.cuda_devices@.take(i as int));
                assert(t[best as int] == self.cuda_devices@[best as int]);
            }
            if self.cuda_devices[best].memory_free <= self.cuda_devices[i].memory_free {
                best = i;
            }
            i = i + 1;
        }
        proof {
            assert(self.cuda_devices@.take(self.cuda_devices.len() as int) =~= self.cuda_devices@);
        }
        Some(&self.cuda_devices[best])
    }

    /// Whether a check made at `last_checked_ms` is older than `ttl_ms` at
    /// time `now_ms`; a check from the future counts as infinitely old.
    pub fn is_cache_expired_at(&self, now_ms: u64, ttl_ms: u64) -> (b: bool)
        ensures
            b == (if now_ms >= self.last_checked_ms {
                now_ms - self.last_checked_ms > ttl_ms
            } else {
                ttl_ms < u64::MAX
            }),
    {
        if now_ms >= self.last_checked_ms {
            now_ms - self.last_checked_ms > ttl_ms
        } else {
            ttl_ms < u64::MAX
        }
    }

    /// Whether the check is older than `ttl_ms` now.
    pub fn is_cache_expired(&self, ttl_ms: u64) -> (b: bool)
        ensures
            exists|now: u64| b == self.is_cache_expired_at_spec(now, ttl_ms),
    {
        let now = now_unix_millis();
        let b = self.is_cache_expired_at(now, ttl_ms);
        proof {
            assert(b == self.is_cache_expired_at_spec(now, ttl_ms));
        }
        b
    }

    /// The rule that `is_cache_expired_at` applies.
    pub open spec fn is_cache_expired_at_spec(self, now_ms: u64, ttl_ms: u64) -> bool {
        if now_ms >= self.last_checked_ms {
            now_ms - self.last_checked_ms > ttl_ms
        } else {
            ttl_ms < u64::MAX
        }
    }

    /// The virtual environment is active and lives at a `venv` path.
    pub fn is_virtual_env_properly_configured(&self) -> (b: bool)
        ensures
            b == self.venv_configured_spec(),
    {
        if !self.virtual_env_active {
            return false;
        }
        match &self.virtual_env_path {
            Some(p) => {
                str_ends_with(p.as_str(), "venv") || str_contains(p.as_str(), "/venv")
                    || str_contains(p.as_str(), "\\venv")
            },
            None => false,
        }
    }

    /// Command that activates `./venv` on the given platform.
    pub fn activation_command_for(windows: bool) -> (s: String)
        ensures
            s@ == activation_command_spec(windows),
    {
        if windows {
            String::from_str(".\\venv\\Scripts\\activate.bat")
        } else {
            String::from_str("source ./venv/bin/activate")
        }
    }

    /// Command that activates `./venv` on this platform.
    pub fn get_activation_command(&self) -> (s: String)
        ensures
            s@ == activation_command_spec(true) || s@ == activation_command_spec(false),
    {
        Self::activation_command_for(is_windows())
    }

    /// PowerShell activation command on the given platform (Windows only).
    pub fn powershell_activation_command_for(windows: bool) -> (s: Option<String>)
        ensures
            opt_view(s) == (if windows {
                Some(".\\venv\\Scripts\\Activate.ps1"@)
            } else {
                None::<Seq<char>>
            }),
    {
        if windows {
            Some(String::from_str(".\\venv\\Scripts\\Activate.ps1"))
        } else {
            None
        }
    }

    /// PowerShell activation command on this platform (Windows only).
    pub fn get_powershell_activation_command(&self) -> (s: Option<String>)
        ensures
            opt_view(s) == Some(".\\venv\\Scripts\\Activate.ps1"@) || s is None,
    {
        Self::powershell_activation_command_for(is_windows())
    }

    /// Detailed virtual environment state on the given platform.
    pub fn virtual_env_status_for(&self, windows: bool) -> (v: VirtualEnvStatus)
        ensures
            v.is_active == self.virtual_env_active,
            opt_view(v.path) == opt_view(self.virtual_env_path),
            opt_view(v.expected_path) == Some("./venv"@),
            opt_view(v.python_executable) == opt_view(self.python_path),
            v.is_properly_configured == self.venv_configured_spec(),
            v.activation_command@ == activation_command_spec(windows),
    {
        VirtualEnvStatus {
            is_active: self.virtual_env_active,
            path: clone_opt(&self.virtual_env_path),
            expected_path: Some(String::from_str("./venv")),
            python_executable: clone_opt(&self.python_path),
            is_properly_configured: self.is_virtual_env_properly_configured(),
            activation_command: Self::activation_command_for(windows),
        }
    }

    /// Detailed virtual environment state on this platform.
    pub fn get_virtual_env_status(&self) -> (v: VirtualEnvStatus)
        ensures
            v.is_active == self.virtual_env_active,
            opt_view(v.path) == opt_view(self.virtual_env_path),
            opt_view(v.expected_path) == Some("./venv"@),
            opt_view(v.python_executable) == opt_view(self.python_path),
            v.is_properly_configured == self.venv_configured_spec(),
            v.activation_command@ == activation_command_spec(true) || v.activation_command@
                == activation_command_spec(false),
    {
        self.virtual_env_status_for(is_windows())
    }

    /// Health score between 0 and 100.
    pub fn health_score(&self) -> (score: u8)
        requires
            penalty_sum(self.issues@) <= 255,
        ensures
            score == health_score_spec(*self),
            score <= 100,
    {
        let mut score: u8 = 0;
        if self.python_available {
            score = score + 20;
        }
        if self.mineru_available {
            score = score + 20;
        }
        if self.markitdown_available {
            score = score + 20;
        }
        if self.uv_available {
            score = score + 10;
        }
        if self.virtual_env_active {
            score = score + 10;
        }
        if self.has_cuda_support() {
            score = score + 10;
        }
        let mut sum: u8 = 0;
        let mut i: usize = 0;
        while i < self.issues.len()
            invariant
                i <= self.issues.len(),
                penalty_sum(self.issues@) <= 255,
                sum as nat == penalty_sum(self.issues@.take(i as int)),
            decreases self.issues.len() - i,
        {
            proof {
                assert(self.issues@.take(i + 1).drop_last() =~= self.issues@.take(i as int));
                lemma_penalty_sum_prefix(self.issues@, i as int + 1);
            }
            let p: u8 = match self.issues[i].severity {
                IssueSeverity::Critical => 10,
                IssueSeverity::High => 5,
                IssueSeverity::Medium => 2,
                IssueSeverity::Low => 1,
            };
            sum = sum + p;
            i = i + 1;
        }
        proof {
            assert(self.issues@.take(self.issues.len() as int) =~= self.issues@);
        }
        let capped = if sum < 30 { sum } else { 30 };
        if score >= capped { score - capped } else { 0 }
    }
}

/// The penalty of a prefix of a list of issues is at most that of the list.
pub proof fn lemma_penalty_sum_prefix(issues: Seq<EnvironmentIssue>, n: int)
    requires
        0 <= n <= issues.len(),
    ensures
        penalty_sum(issues.take(n)) <= penalty_sum(issues),
    decreases issues.len(),
{
    if n < issues.len() {
        assert(issues.drop_last().take(n) =~= issues.take(n));
        lemma_penalty_sum_prefix(issues.drop_last(), n);
    } else {
        assert(issues.take(n) =~= issues);
    }
}

impl Default for EnvironmentStatus {
    fn default() -> (s: Self)
        ensures
            !s.python_available && !s.uv_available && !s.cuda_available && !s.mineru_available
                && !s.markitdown_available && !s.virtual_env_active,
            s.python_version is None && s.python_path is None && s.uv_version is None
                && s.cuda_version is None && s.mineru_version is None && s.markitdown_version is None
                && s.virtual_env_path is None,
            s.cuda_devices@.len() == 0 && s.issues@.len() == 0 && s.warnings@.len() == 0,
            s.check_duration_ms == 0,
    {
        EnvironmentStatus {
            python_available: false,
            python_version: None,
            python_path: None,
            uv_available: false,
            uv_version: None,
            cuda_available: false,
            cuda_version: None,
            cuda_devices: Vec::new(),
            mineru_available: false,
            mineru_version: None,
            markitdown_available: false,
            markitdown_version: None,
            virtual_env_active: false,
            virtual_env_path: None,
            issues: Vec::new(),
            warnings: Vec::new(),
            last_checked_ms: now_unix_millis(),
            check_duration_ms: 0,
        }
    }
}

} // verus!
