//! Diagnostic report of an environment check: one entry per component,
//! recommendations, next steps, and its rendering as text.

use vstd::prelude::*;
use crate::env_status::{health_score_spec, is_windows, penalty_sum, EnvironmentStatus};
use crate::env_types::{clone_opt, opt_view, EnvironmentIssue};
use crate::text::{contains_spec, decimal, push_decimal, push_str, str_contains, str_eq};

verus! {

/// Diagnostic of one component.
#[derive(Debug, Clone)]
pub struct ComponentDiagnostic {
    pub name: String,
    pub status: String,
    pub version: Option<String>,
    pub path: Option<String>,
    pub issues: Vec<String>,
    pub details: String,
}

/// Full diagnostic report.
#[derive(Debug, Clone)]
pub struct DiagnosticReport {
    pub overall_status: String,
    pub health_score: u8,
    pub components: Vec<ComponentDiagnostic>,
    pub recommendations: Vec<String>,
    pub next_steps: Vec<String>,
}

/// Mathematical content of a component diagnostic.
pub struct ComponentView {
    pub name: Seq<char>,
    pub status: Seq<char>,
    pub version: Option<Seq<char>>,
    pub path: Option<Seq<char>>,
    pub issues: Seq<Seq<char>>,
    pub details: Seq<char>,
}

impl View for ComponentDiagnostic {
    type V = ComponentView;

    open spec fn view(&self) -> ComponentView {
        ComponentView {
            name: self.name@,
            status: self.status@,
            version: opt_view(self.version),
            path: opt_view(self.path),
            issues: self.issues.deep_view(),
            details: self.details@,
        }
    }
}

/// What `{:?}` prints for a string slice: the text quoted, with escapes.
pub uninterp spec fn str_debug(s: Seq<char>) -> Seq<char>;

/// Formats a string slice with `{:?}`.
#[verifier::external_body]
pub(crate) fn debug_quoted(s: &str) -> (r: String)
    ensures
        r@ == str_debug(s@),
{
    format!("{:?}", s)
}

/// The value of an optional string, or a fallback.
pub open spec fn or_text(o: Option<Seq<char>>, fallback: Seq<char>) -> Seq<char> {
    match o {
        Some(v) => v,
        None => fallback,
    }
}

/// `message: suggestion` of every issue of a component, in order.
pub open spec fn component_issues_spec(issues: Seq<EnvironmentIssue>, name: Seq<char>) -> Seq<
    Seq<char>,
>
    decreases issues.len(),
{
    if issues.len() == 0 {
        Seq::empty()
    } else {
        let rest = component_issues_spec(issues.drop_last(), name);
        let i = issues.last();
        if i.component@ == name {
            rest.push(i.message@ + ": "@ + i.suggestion@)
        } else {
            rest
        }
    }
}

pub open spec fn avail(b: bool) -> Seq<char> {
    if b {
        "Available"@
    } else {
        "Missing"@
    }
}

pub open spec fn python_component(s: EnvironmentStatus) -> ComponentView {
    ComponentView {
        name: "Python"@,
        status: avail(s.python_available),
        version: opt_view(s.python_version),
        path: opt_view(s.python_path),
        issues: component_issues_spec(s.issues@, "Python"@),
        details: if s.python_available {
            "Python "@ + or_text(opt_view(s.python_version), "unknown"@) + " is available at "@
                + str_debug(or_text(opt_view(s.python_path), "unknown"@))
        } else {
            "Python is not available or not properly configured"@
        },
    }
}

pub open spec fn venv_component(s: EnvironmentStatus, windows: bool) -> ComponentView {
    ComponentView {
        name: "Virtual Environment"@,
        status: if s.virtual_env_active {
            "Active"@
        } else {
            "Inactive"@
        },
        version: None,
        path: opt_view(s.virtual_env_path),
        issues: component_issues_spec(s.issues@, "Virtual Environment"@),
        details: if s.virtual_env_active {
            "Virtual environment is active at "@ + str_debug(
                or_text(opt_view(s.virtual_env_path), "unknown"@),
            )
        } else {
            "Virtual environment is not active. Expected at ./venv. Use: "@
                + crate::env_status::activation_command_spec(windows)
        },
    }
}

pub open spec fn uv_component(s: EnvironmentStatus) -> ComponentView {
    ComponentView {
        name: "UV Tool"@,
        status: avail(s.uv_available),
        version: opt_view(s.uv_version),
        path: None,
        issues: component_issues_spec(s.issues@, "UV"@),
        details: if s.uv_available {
            "UV "@ + or_text(opt_view(s.uv_version), "unknown"@) + " is available"@
        } else {
            "UV tool is not installed. Install with: curl -LsSf https://astral.sh/uv/install.sh | sh"@
        },
    }
}

pub open spec fn mineru_component(s: EnvironmentStatus) -> ComponentView {
    ComponentView {
        name: "MinerU"@,
        status: avail(s.mineru_available),
        version: opt_view(s.mineru_version),
        path: None,
        issues: component_issues_spec(s.issues@, "MinerU"@),
        details: if s.mineru_available {
            "MinerU "@ + or_text(opt_view(s.mineru_version), "unknown"@) + " is available"@
        } else {
            "MinerU is not installed. Install with: uv pip install magic-pdf[full]"@
        },
    }
}

pub open spec fn markitdown_component(s: EnvironmentStatus) -> ComponentView {
    ComponentView {
        name: "MarkItDown"@,
        status: avail(s.markitdown_available),
        version: opt_view(s.markitdown_version),
        path: None,
        issues: component_issues_spec(s.issues@, "MarkItDown"@),
        details: if s.markitdown_available {
            "MarkItDown "@ + or_text(opt_view(s.markitdown_version), "unknown"@)
                + " is available"@
        } else {
            "MarkItDown is not installed. Install with: uv pip install markitdown"@
        },
    }
}

pub open spec fn cuda_component(s: EnvironmentStatus) -> ComponentView {
    ComponentView {
        name: "CUDA"@,
        status: if s.cuda_available {
            "Available"@
        } else {
            "Not Available"@
        },
        version: opt_view(s.cuda_version),
        path: None,
        issues: component_issues_spec(s.issues@, "CUDA"@),
        details: if s.cuda_available {
            "CUDA "@ + or_text(opt_view(s.cuda_version), "unknown"@) + " is available with "@
                + decimal(s.cuda_devices@.len()) + " device(s)"@
        } else {
            "CUDA is not available. GPU acceleration will not be used."@
        },
    }
}

/// The six component diagnostics, in report order.
pub open spec fn components_spec(s: EnvironmentStatus, windows: bool) -> Seq<ComponentView> {
    seq![
        python_component(s),
        venv_component(s, windows),
        uv_component(s),
        mineru_component(s),
        markitdown_component(s),
        cuda_component(s),
    ]
}

pub open spec fn push_if(r: Seq<Seq<char>>, c: bool, t: Seq<char>) -> Seq<Seq<char>> {
    if c {
        r.push(t)
    } else {
        r
    }
}

/// The recommendations a status adds after `prev`, in order.
pub open spec fn recommendations_after(prev: Seq<Seq<char>>, s: EnvironmentStatus) -> Seq<
    Seq<char>,
> {
    let r0 = push_if(
        prev,
        !s.python_available,
        "Install Python 3.8+ to enable document parsing functionality"@,
    );
    let r1 = push_if(
        r0,
        !s.virtual_env_active,
        "Create and activate a virtual environment for isolated dependency management"@,
    );
    let r2 = push_if(r1, !s.uv_available, "Install UV tool for fast Python package management"@);
    let r3 = push_if(
        r2,
        !s.mineru_available,
        "Install MinerU for PDF document parsing capabilities"@,
    );
    let r4 = push_if(
        r3,
        !s.markitdown_available,
        "Install MarkItDown for multi-format document parsing"@,
    );
    let r5 = push_if(
        r4,
        s.ready_spec(),
        "Environment is ready! You can start the document parsing server"@,
    );
    let r6 = push_if(
        r5,
        !s.cuda_available && s.python_available,
        "Consider installing CUDA for improved PDF processing performance"@,
    );
    push_if(
        r6,
        s.virtual_env_active && !s.venv_configured_spec(),
        "Virtual environment detected but may not be in the expected location (./venv)"@,
    )
}

/// Recommendations of a report, in order.
pub open spec fn recommendations_spec(s: EnvironmentStatus) -> Seq<Seq<char>> {
    recommendations_after(Seq::empty(), s)
}

/// Some step mentions `uv-init`.
pub open spec fn mentions_uv_init(steps: Seq<Seq<char>>) -> bool {
    exists|i: int| 0 <= i < steps.len() && contains_spec(#[trigger] steps[i], "uv-init"@)
}

/// The next steps a status adds after `prev`, in order: the install steps
/// for UV, MinerU and MarkItDown only while no step mentions `uv-init`.
pub open spec fn next_steps_after(prev: Seq<Seq<char>>, s: EnvironmentStatus) -> Seq<Seq<char>> {
    let n0 = push_if(prev, !s.python_available, "1. Install Python 3.8 or higher"@);
    let n1 = push_if(
        n0,
        !s.virtual_env_active,
        "2. Run 'document-parser uv-init' to set up the environment"@,
    );
    let n2 = push_if(
        n1,
        !s.uv_available && !mentions_uv_init(n1),
        "2. Run 'document-parser uv-init' to install UV and set up dependencies"@,
    );
    let n3 = push_if(
        n2,
        !s.mineru_available && !mentions_uv_init(n2),
        "3. Install MinerU with: uv pip install magic-pdf[full]"@,
    );
    let n4 = push_if(
        n3,
        !s.markitdown_available && !mentions_uv_init(n3),
        "4. Install MarkItDown with: uv pip install markitdown"@,
    );
    push_if(n4, s.ready_spec(), "Run 'document-parser server' to start the service"@)
}

/// Next steps of a report, in order.
pub open spec fn next_steps_spec(s: EnvironmentStatus) -> Seq<Seq<char>> {
    next_steps_after(Seq::empty(), s)
}

/// The report a status yields on a platform.
pub open spec fn report_matches(r: DiagnosticReport, s: EnvironmentStatus, windows: bool) -> bool {
    &&& r.overall_status@ == (if s.ready_spec() {
        "Ready"@
    } else {
        "Not Ready"@
    })
    &&& r.health_score == health_score_spec(s)
    &&& r.components@.map_values(|c: ComponentDiagnostic| c@) == components_spec(s, windows)
    &&& r.recommendations.deep_view() == recommendations_spec(s)
    &&& r.next_steps.deep_view() == next_steps_spec(s)
}

/// `message: suggestion` of every issue of the named component.
pub fn get_component_issues(status: &EnvironmentStatus, component_name: &str) -> (r: Vec<String>)
    ensures
        r.deep_view() == component_issues_spec(status.issues@, component_name@),
{
    let mut r: Vec<String> = Vec::new();
    let mut i: usize = 0;
    while i < status.issues.len()
        invariant
            i <= status.issues.len(),
            r.deep_view() == component_issues_spec(status.issues@.take(i as int), component_name@),
        decreases status.issues.len() - i,
    {
        let issue = &status.issues[i];
        proof {
            assert(status.issues@.take(i + 1).drop_last() =~= status.issues@.take(i as int));
        }
        if str_eq(issue.component.as_str(), component_name) {
            let mut line = String::new();
            push_str(&mut line, issue.message.as_str());
            push_str(&mut line, ": ");
            push_str(&mut line, issue.suggestion.as_str());
            let ghost before = r.deep_view();
            r.push(line);
            proof {
                assert(r.deep_view() =~= before.push(issue.message@ + ": "@ + issue.suggestion@));
            }
        }
        i = i + 1;
    }
    proof {
        assert(status.issues@.take(status.issues.len() as int) =~= status.issues@);
    }
    r
}

fn lit(s: &str) -> (r: String)
    ensures
        r@ == s@,
{
    String::from_str(s)
}

fn avail_text(b: bool) -> (r: String)
    ensures
        r@ == avail(b),
{
    if b {
        lit("Available")
    } else {
        lit("Missing")
    }
}

fn or_str<'a>(o: &'a Option<String>, fallback: &'a str) -> (r: &'a str)
    ensures
        r@ == or_text(opt_view(*o), fallback@),
{
    match o {
        Some(v) => v.as_str(),
        None => fallback,
    }
}

/// `head`, the value or `unknown`, then `tail`.
fn text3(head: &str, o: &Option<String>, tail: &str) -> (r: String)
    ensures
        r@ == head@ + or_text(opt_view(*o), "unknown"@) + tail@,
{
    let mut r = String::new();
    push_str(&mut r, head);
    push_str(&mut r, or_str(o, "unknown"));
    push_str(&mut r, tail);
    proof {
        assert(r@ =~= head@ + or_text(opt_view(*o), "unknown"@) + tail@);
    }
    r
}

fn python_diag(s: &EnvironmentStatus) -> (c: ComponentDiagnostic)
    ensures
        c@ == python_component(*s),
{
    let details = if s.python_available {
        let mut d = text3("Python ", &s.python_version, " is available at ");
        let q = debug_quoted(or_str(&s.python_path, "unknown"));
        push_str(&mut d, q.as_str());
        d
    } else {
        lit("Python is not available or not properly configured")
    };
    ComponentDiagnostic {
        name: lit("Python"),
        status: avail_text(s.python_available),
        version: clone_opt(&s.python_version),
        path: clone_opt(&s.python_path),
        issues: get_component_issues(s, "Python"),
        details,
    }
}

fn venv_diag(s: &EnvironmentStatus, windows: bool) -> (c: ComponentDiagnostic)
    ensures
        c@ == venv_component(*s, windows),
{
    let details = if s.virtual_env_active {
        let mut d = lit("Virtual environment is active at ");
        let q = debug_quoted(or_str(&s.virtual_env_path, "unknown"));
        push_str(&mut d, q.as_str());
        d
    } else {
        let mut d = lit("Virtual environment is not active. Expected at ./venv. Use: ");
        let cmd = EnvironmentStatus::activation_command_for(windows);
        push_str(&mut d, cmd.as_str());
        d
    };
    ComponentDiagnostic {
        name: lit("Virtual Environment"),
        status: if s.virtual_env_active {
            lit("Active")
        } else {
            lit("Inactive")
        },
        version: None,
        path: clone_opt(&s.virtual_env_path),
        issues: get_component_issues(s, "Virtual Environment"),
        details,
    }
}

fn uv_diag(s: &EnvironmentStatus) -> (c: ComponentDiagnostic)
    ensures
        c@ == uv_component(*s),
{
    ComponentDiagnostic {
        name: lit("UV Tool"),
        status: avail_text(s.uv_available),
        version: clone_opt(&s.uv_version),
        path: None,
        issues: get_component_issues(s, "UV"),
        details: if s.uv_available {
            text3("UV ", &s.uv_version, " is available")
        } else {
            lit(
                "UV tool is not installed. Install with: curl -LsSf https://astral.sh/uv/install.sh | sh",
            )
        },
    }
}

fn mineru_diag(s: &EnvironmentStatus) -> (c: ComponentDiagnostic)
    ensures
        c@ == mineru_component(*s),
{
    ComponentDiagnostic {
        name: lit("MinerU"),
        status: avail_text(s.mineru_available),
        version: clone_opt(&s.mineru_version),
        path: None,
        issues: get_component_issues(s, "MinerU"),
        details: if s.mineru_available {
            text3("MinerU ", &s.mineru_version, " is available")
        } else {
            lit("MinerU is not installed. Install with: uv pip install magic-pdf[full]")
        },
    }
}

fn markitdown_diag(s: &EnvironmentStatus) -> (c: ComponentDiagnostic)
    ensures
        c@ == markitdown_component(*s),
{
    ComponentDiagnostic {
        name: lit("MarkItDown"),
        status: avail_text(s.markitdown_available),
        version: clone_opt(&s.markitdown_version),
        path: None,
        issues: get_component_issues(s, "MarkItDown"),
        details: if s.markitdown_available {
            text3("MarkItDown ", &s.markitdown_version, " is available")
        } else {
            lit("MarkItDown is not installed. Install with: uv pip install markitdown")
        },
    }
}

fn cuda_diag(s: &EnvironmentStatus) -> (c: ComponentDiagnostic)
    ensures
        c@ == cuda_component(*s),
{
    let details = if s.cuda_available {
        let mut d = text3("CUDA ", &s.cuda_version, " is available with ");
        push_decimal(&mut d, s.cuda_devices.len() as u64);
        push_str(&mut d, " device(s)");
        d
    } else {
        lit("CUDA is not available. GPU acceleration will not be used.")
    };
    ComponentDiagnostic {
        name: lit("CUDA"),
        status: if s.cuda_available {
            lit("Available")
        } else {
            lit("Not Available")
        },
        version: clone_opt(&s.cuda_version),
        path: None,
        issues: get_component_issues(s, "CUDA"),
        details,
    }
}

fn push_text_if(r: &mut Vec<String>, c: bool, t: &str)
    ensures
        final(r).deep_view() == push_if(old(r).deep_view(), c, t@),
{
    if c {
        let ghost before = r.deep_view();
        r.push(lit(t));
        proof {
            assert(r.deep_view() =~= before.push(t@));
        }
    }
}

fn mentions_uv_init_exec(steps: &Vec<String>) -> (b: bool)
    ensures
        b == mentions_uv_init(steps.deep_view()),
{
    let mut i: usize = 0;
    while i < steps.len()
        invariant
            i <= steps@.len(),
            forall|j: int| 0 <= j < i ==> !contains_spec(#[trigger] steps.deep_view()[j], "uv-init"@),
        decreases steps.len() - i,
    {
        if str_contains(steps[i].as_str(), "uv-init") {
            assert(steps.deep_view()[i as int] == steps@[i as int]@);
            return true;
        }
        i = i + 1;
    }
    false
}

/// Adds the recommendations and next steps of a status to a report.
pub fn generate_recommendations(s: &EnvironmentStatus, report: &mut DiagnosticReport)
    ensures
        final(report).recommendations.deep_view() == recommendations_after(
            old(report).recommendations.deep_view(),
            *s,
        ),
        final(report).next_steps.deep_view() == next_steps_after(
            old(report).next_steps.deep_view(),
            *s,
        ),
        final(report).overall_status == old(report).overall_status,
        final(report).health_score == old(report).health_score,
        final(report).components == old(report).components,
{
    let ready = s.is_ready();
    let configured = s.is_virtual_env_properly_configured();
    let recs = &mut report.recommendations;
    push_text_if(
        recs,
        !s.python_available,
        "Install Python 3.8+ to enable document parsing functionality",
    );
    push_text_if(
        recs,
        !s.virtual_env_active,
        "Create and activate a virtual environment for isolated dependency management",
    );
    push_text_if(recs, !s.uv_available, "Install UV tool for fast Python package management");
    push_text_if(recs, !s.mineru_available, "Install MinerU for PDF document parsing capabilities");
    push_text_if(
        recs,
        !s.markitdown_available,
        "Install MarkItDown for multi-format document parsing",
    );
    push_text_if(recs, ready, "Environment is ready! You can start the document parsing server");
    push_text_if(
        recs,
        !s.cuda_available && s.python_available,
        "Consider installing CUDA for improved PDF processing performance",
    );
    push_text_if(
        recs,
        s.virtual_env_active && !configured,
        "Virtual environment detected but may not be in the expected location (./venv)",
    );
    let steps = &mut report.next_steps;
    push_text_if(steps, !s.python_available, "1. Install Python 3.8 or higher");
    push_text_if(
        steps,
        !s.virtual_env_active,
        "2. Run 'document-parser uv-init' to set up the environment",
    );
    let m = !s.uv_available && !mentions_uv_init_exec(steps);
    push_text_if(
        steps,
        m,
        "2. Run 'document-parser uv-init' to install UV and set up dependencies",
    );
    let m = !s.mineru_available && !mentions_uv_init_exec(steps);
    push_text_if(steps, m, "3. Install MinerU with: uv pip install magic-pdf[full]");
    let m = !s.markitdown_available && !mentions_uv_init_exec(steps);
    push_text_if(steps, m, "4. Install MarkItDown with: uv pip install markitdown");
    push_text_if(steps, ready, "Run 'document-parser server' to start the service");
}

impl EnvironmentStatus {
    /// The diagnostic report of this status on the given platform.
    pub fn diagnostic_report_for(&self, windows: bool) -> (r: DiagnosticReport)
        requires
            penalty_sum(self.issues@) <= 255,
        ensures
            report_matches(r, *self, windows),
    {
        let mut report = DiagnosticReport {
            overall_status: if self.is_ready() {
                lit("Ready")
            } else {
                lit("Not Ready")
            },
            health_score: self.health_score(),
            components: Vec::new(),
            recommendations: Vec::new(),
            next_steps: Vec::new(),
        };
        report.components.push(python_diag(self));
        report.components.push(venv_diag(self, windows));
        report.components.push(uv_diag(self));
        report.components.push(mineru_diag(self));
        report.components.push(markitdown_diag(self));
        report.components.push(cuda_diag(self));
        proof {
            assert(report.components@.map_values(|c: ComponentDiagnostic| c@) =~= components_spec(
                *self,
                windows,
            ));
        }
        proof {
            assert(report.recommendations.deep_view() =~= Seq::<Seq<char>>::empty());
            assert(report.next_steps.deep_view() =~= Seq::<Seq<char>>::empty());
        }
        generate_recommendations(self, &mut report);
        report
    }

    /// The diagnostic report of this status on this platform.
    pub fn generate_diagnostic_report(&self) -> (r: DiagnosticReport)
        requires
            penalty_sum(self.issues@) <= 255,
        ensures
            report_matches(r, *self, true) || report_matches(r, *self, false),
    {
        self.diagnostic_report_for(is_windows())
    }
}

/// `(version)` when there is a version.
pub open spec fn version_part(v: Option<Seq<char>>) -> Seq<char> {
    match v {
        Some(x) => "("@ + x + ")"@,
        None => Seq::empty(),
    }
}

/// `  Path: …` line when there is a path.
pub open spec fn path_part(p: Option<Seq<char>>) -> Seq<char> {
    match p {
        Some(x) => "  Path: "@ + x + "\n"@,
        None => Seq::empty(),
    }
}

/// `    - issue` lines.
pub open spec fn issue_lines(issues: Seq<Seq<char>>) -> Seq<char>
    decreases issues.len(),
{
    if issues.len() == 0 {
        Seq::empty()
    } else {
        issue_lines(issues.drop_last()) + "    - "@ + issues.last() + "\n"@
    }
}

/// Text block of one component.
pub open spec fn component_text(c: ComponentView) -> Seq<char> {
    "• "@ + c.name + ": "@ + c.status + " "@ + version_part(c.version) + "\n"@ + path_part(c.path)
        + "  Details: "@ + c.details + "\n"@ + (if c.issues.len() > 0 {
        "  Issues:\n"@ + issue_lines(c.issues)
    } else {
        Seq::empty()
    }) + "\n"@
}

/// Text blocks of all components.
pub open spec fn components_text(cs: Seq<ComponentView>) -> Seq<char>
    decreases cs.len(),
{
    if cs.len() == 0 {
        Seq::empty()
    } else {
        components_text(cs.drop_last()) + component_text(cs.last())
    }
}

/// `1. first\n2. second\n…`.
pub open spec fn numbered_lines(items: Seq<Seq<char>>) -> Seq<char>
    decreases items.len(),
{
    if items.len() == 0 {
        Seq::empty()
    } else {
        numbered_lines(items.drop_last()) + decimal(items.len()) + ". "@ + items.last() + "\n"@
    }
}

/// One item per line.
pub open spec fn plain_lines(items: Seq<Seq<char>>) -> Seq<char>
    decreases items.len(),
{
    if items.len() == 0 {
        Seq::empty()
    } else {
        plain_lines(items.drop_last()) + items.last() + "\n"@
    }
}

/// Text rendering of a report.
pub open spec fn report_text(
    overall: Seq<char>,
    score: nat,
    components: Seq<ComponentView>,
    recs: Seq<Seq<char>>,
    steps: Seq<Seq<char>>,
) -> Seq<char> {
    "=== Environment Diagnostic Report ===\n"@ + "Overall Status: "@ + overall + "\n"@
        + "Health Score: "@ + decimal(score) + "/100\n\n"@ + "=== Components ===\n"@
        + components_text(components) + (if recs.len() > 0 {
        "=== Recommendations ===\n"@ + numbered_lines(recs) + "\n"@
    } else {
        Seq::empty()
    }) + (if steps.len() > 0 {
        "=== Next Steps ===\n"@ + plain_lines(steps)
    } else {
        Seq::empty()
    })
}

fn push_component_head(out: &mut String, c: &ComponentDiagnostic)
    ensures
        final(out)@ == old(out)@ + ("• "@ + c.name@ + ": "@ + c.status@ + " "@ + version_part(
            opt_view(c.version),
        ) + "\n"@),
{
    push_str(out, "• ");
    push_str(out, c.name.as_str());
    push_str(out, ": ");
    push_str(out, c.status.as_str());
    push_str(out, " ");
    let ghost mid = out@;
    match &c.version {
        Some(v) => {
            push_str(out, "(");
            push_str(out, v.as_str());
            push_str(out, ")");
            proof {
                assert(out@ =~= mid + version_part(opt_view(c.version)));
            }
        },
        None => {
            proof {
                assert(out@ =~= mid + version_part(opt_view(c.version)));
            }
        },
    }
    push_str(out, "\n");
    proof {
        assert(out@ =~= old(out)@ + ("• "@ + c.name@ + ": "@ + c.status@ + " "@ + version_part(
            opt_view(c.version),
        ) + "\n"@));
    }
}

fn push_component_details(out: &mut String, c: &ComponentDiagnostic)
    ensures
        final(out)@ == old(out)@ + (path_part(opt_view(c.path)) + "  Details: "@ + c.details@
            + "\n"@),
{
    match &c.path {
        Some(p) => {
            push_str(out, "  Path: ");
            push_str(out, p.as_str());
            push_str(out, "\n");
            proof {
                assert(out@ =~= old(out)@ + path_part(opt_view(c.path)));
            }
        },
        None => {
            proof {
                assert(out@ =~= old(out)@ + path_part(opt_view(c.path)));
            }
        },
    }
    let ghost mid = out@;
    push_str(out, "  Details: ");
    push_str(out, c.details.as_str());
    push_str(out, "\n");
    proof {
        assert(out@ =~= mid + ("  Details: "@ + c.details@ + "\n"@));
        assert(out@ =~= old(out)@ + (path_part(opt_view(c.path)) + "  Details: "@ + c.details@
            + "\n"@));
    }
}

fn push_issue_lines(out: &mut String, issues: &Vec<String>)
    ensures
        final(out)@ == old(out)@ + issue_lines(issues.deep_view()),
{
    let ghost start = out@;
    let mut i: usize = 0;
    proof {
        assert(issues.deep_view().take(0) =~= Seq::<Seq<char>>::empty());
        assert(out@ =~= start + issue_lines(issues.deep_view().take(0)));
    }
    while i < issues.len()
        invariant
            i <= issues.len(),
            out@ == start + issue_lines(issues.deep_view().take(i as int)),
        decreases issues.len() - i,
    {
        push_str(out, "    - ");
        push_str(out, issues[i].as_str());
        push_str(out, "\n");
        proof {
            let t = issues.deep_view().take(i + 1);
            assert(t.drop_last() =~= issues.deep_view().take(i as int));
            assert(out@ =~= start + issue_lines(t));
        }
        i = i + 1;
    }
    proof {
        assert(issues.deep_view().take(issues.len() as int) =~= issues.deep_view());
    }
}

fn push_component(out: &mut String, c: &ComponentDiagnostic)
    ensures
        final(out)@ == old(out)@ + component_text(c@),
{
    push_component_head(out, c);
    let ghost a = out@;
    push_component_details(out, c);
    let ghost b = out@;
    if c.issues.len() > 0 {
        push_str(out, "  Issues:\n");
        push_issue_lines(out, &c.issues);
    }
    let ghost d = out@;
    push_str(out, "\n");
    proof {
        let head = "• "@ + c.name@ + ": "@ + c.status@ + " "@ + version_part(opt_view(c.version))
            + "\n"@;
        let det = path_part(opt_view(c.path)) + "  Details: "@ + c.details@ + "\n"@;
        let iss = if c.issues.len() > 0 {
            "  Issues:\n"@ + issue_lines(c.issues.deep_view())
        } else {
            Seq::<char>::empty()
        };
        assert(d =~= b + iss);
        assert(out@ =~= old(out)@ + head + det + iss + "\n"@);
        assert(component_text(c@) =~= head + det + iss + "\n"@);
    }
}

fn push_components(out: &mut String, cs: &Vec<ComponentDiagnostic>)
    ensures
        final(out)@ == old(out)@ + components_text(cs@.map_values(|c: ComponentDiagnostic| c@)),
{
    let ghost head = out@;
    let ghost cviews = cs@.map_values(|c: ComponentDiagnostic| c@);
    let mut i: usize = 0;
    proof {
        assert(cviews.take(0) =~= Seq::<ComponentView>::empty());
        assert(out@ =~= head + components_text(cviews.take(0)));
    }
    while i < cs.len()
        invariant
            i <= cs.len(),
            cviews == cs@.map_values(|c: ComponentDiagnostic| c@),
            out@ == head + components_text(cviews.take(i as int)),
        decreases cs.len() - i,
    {
        push_component(out, &cs[i]);
        proof {
            let t = cviews.take(i + 1);
            assert(t.drop_last() =~= cviews.take(i as int));
            assert(t.last() == cs@[i as int]@);
            assert(out@ =~= head + components_text(t));
        }
        i = i + 1;
    }
    proof {
        assert(cviews.take(cs.len() as int) =~= cviews);
    }
}

pub(crate) fn push_numbered(out: &mut String, items: &Vec<String>)
    ensures
        final(out)@ == old(out)@ + numbered_lines(items.deep_view()),
{
    let ghost head = out@;
    let mut k: usize = 0;
    proof {
        assert(items.deep_view().take(0) =~= Seq::<Seq<char>>::empty());
        assert(out@ =~= head + numbered_lines(items.deep_view().take(0)));
    }
    while k < items.len()
        invariant
            k <= items.len(),
            out@ == head + numbered_lines(items.deep_view().take(k as int)),
        decreases items.len() - k,
    {
        push_decimal(out, (k + 1) as u64);
        push_str(out, ". ");
        push_str(out, items[k].as_str());
        push_str(out, "\n");
        proof {
            let t = items.deep_view().take(k + 1);
            assert(t.drop_last() =~= items.deep_view().take(k as int));
            assert(out@ =~= head + numbered_lines(t));
        }
        k = k + 1;
    }
    proof {
        assert(items.deep_view().take(items.len() as int) =~= items.deep_view());
    }
}

fn push_plain(out: &mut String, items: &Vec<String>)
    ensures
        final(out)@ == old(out)@ + plain_lines(items.deep_view()),
{
    let ghost head = out@;
    let mut k: usize = 0;
    proof {
        assert(items.deep_view().take(0) =~= Seq::<Seq<char>>::empty());
        assert(out@ =~= head + plain_lines(items.deep_view().take(0)));
    }
    while k < items.len()
        invariant
            k <= items.len(),
            out@ == head + plain_lines(items.deep_view().take(k as int)),
        decreases items.len() - k,
    {
        push_str(out, items[k].as_str());
        push_str(out, "\n");
        proof {
            let t = items.deep_view().take(k + 1);
            assert(t.drop_last() =~= items.deep_view().take(k as int));
            assert(out@ =~= head + plain_lines(t));
        }
        k = k + 1;
    }
    proof {
        assert(items.deep_view().take(items.len() as int) =~= items.deep_view());
    }
}

/// Renders a diagnostic report as text.
pub fn render_report(report: &DiagnosticReport) -> (out: String)
    ensures
        out@ == report_text(
            report.overall_status@,
            report.health_score as nat,
            report.components@.map_values(|c: ComponentDiagnostic| c@),
            report.recommendations.deep_view(),
            report.next_steps.deep_view(),
        ),
{
    let mut out = String::new();
    push_str(&mut out, "=== Environment Diagnostic Report ===\n");
    push_str(&mut out, "Overall Status: ");
    push_str(&mut out, report.overall_status.as_str());
    push_str(&mut out, "\n");
    push_str(&mut out, "Health Score: ");
    push_decimal(&mut out, report.health_score as u64);
    push_str(&mut out, "/100\n\n");
    push_str(&mut out, "=== Components ===\n");
    let ghost head = out@;
    push_components(&mut out, &report.components);
    let ghost after_components = out@;
    if report.recommendations.len() > 0 {
        push_str(&mut out, "=== Recommendations ===\n");
        push_numbered(&mut out, &report.recommendations);
        push_str(&mut out, "\n");
    }
    let ghost after_recs = out@;
    if report.next_steps.len() > 0 {
        push_str(&mut out, "=== Next Steps ===\n");
        push_plain(&mut out, &report.next_steps);
    }
    proof {
        let recs = report.recommendations.deep_view();
        let steps = report.next_steps.deep_view();
        let rt = if recs.len() > 0 {
            "=== Recommendations ===\n"@ + numbered_lines(recs) + "\n"@
        } else {
            Seq::<char>::empty()
        };
        let st = if steps.len() > 0 {
            "=== Next Steps ===\n"@ + plain_lines(steps)
        } else {
            Seq::<char>::empty()
        };
        assert(after_recs =~= after_components + rt);
        assert(out@ =~= after_recs + st);
        assert(out@ =~= head + components_text(
            report.components@.map_values(|c: ComponentDiagnostic| c@),
        ) + rt + st);
    }
    out
}

impl EnvironmentStatus {
    /// Renders the diagnostic report of this status on the given platform.
    pub fn format_diagnostic_report_for(&self, windows: bool) -> (out: String)
        requires
            penalty_sum(self.issues@) <= 255,
        ensures
            out@ == report_text(
                if self.ready_spec() {
                    "Ready"@
                } else {
                    "Not Ready"@
                },
                health_score_spec(*self),
                components_spec(*self, windows),
                recommendations_spec(*self),
                next_steps_spec(*self),
            ),
    {
        let report = self.diagnostic_report_for(windows);
        render_report(&report)
    }

    /// Renders the diagnostic report of this status on this platform.
    pub fn format_diagnostic_report(&self) -> (out: String)
        requires
            penalty_sum(self.issues@) <= 255,
        ensures
            exists|windows: bool|
                out@ == report_text(
                    if self.ready_spec() {
                        "Ready"@
                    } else {
                        "Not Ready"@
                    },
                    health_score_spec(*self),
                    components_spec(*self, windows),
                    recommendations_spec(*self),
                    next_steps_spec(*self),
                ),
    {
        let w = is_windows();
        self.format_diagnostic_report_for(w)
    }
}

} // verus!
