//! Plain data shared by the environment diagnostics: issues, warnings, CUDA
//! devices, install progress stages and virtual environment descriptions.

use vstd::prelude::*;

verus! {

/// How badly an environment issue blocks the service.
#[derive(Debug, Clone, Copy, PartialEq, Eq, Structural)]
pub enum IssueSeverity {
    Critical,
    High,
    Medium,
    Low,
}

/// One problem found while checking the environment.
#[derive(Debug, Clone)]
pub struct EnvironmentIssue {
    pub component: String,
    pub severity: IssueSeverity,
    pub message: String,
    pub suggestion: String,
    pub auto_fixable: bool,
}

/// One warning found while checking the environment.
#[derive(Debug, Clone)]
pub struct EnvironmentWarning {
    pub component: String,
    pub message: String,
    pub impact: String,
}

/// A CUDA device as `nvidia-smi` reports it (memory in bytes).
#[derive(Debug, Clone)]
pub struct CudaDevice {
    pub id: u32,
    pub name: String,
    pub memory_total: u64,
    pub memory_free: u64,
    pub compute_capability: String,
}

/// Stage of a dependency installation.
#[derive(Debug, Clone)]
pub enum InstallStage {
    Preparing,
    Downloading,
    Installing,
    Configuring,
    Verifying,
    Completed,
    Failed(String),
    Retrying { attempt: u32, max_attempts: u32 },
}

/// What a CUDA probe found.
#[derive(Debug)]
pub struct CudaInfo {
    pub available: bool,
    pub version: Option<String>,
    pub devices: Vec<CudaDevice>,
}

/// Detailed state of the project virtual environment.
#[derive(Debug, Clone)]
pub struct VirtualEnvStatus {
    pub is_active: bool,
    pub path: Option<String>,
    pub expected_path: Option<String>,
    pub python_executable: Option<String>,
    pub is_properly_configured: bool,
    pub activation_command: String,
}

/// Location of the files of a virtual environment.
#[derive(Debug, Clone)]
pub struct VirtualEnvInfo {
    pub path: String,
    pub python_executable: String,
    pub pip_executable: String,
    pub activation_script: String,
    pub is_valid: bool,
    pub platform: String,
}

/// The view of an optional `String`.
pub open spec fn opt_view(o: Option<String>) -> Option<Seq<char>> {
    match o {
        Some(s) => Some(s@),
        None => None,
    }
}

/// Copies an optional `String`.
pub fn clone_opt(o: &Option<String>) -> (r: Option<String>)
    ensures
        opt_view(r) == opt_view(*o),
{
    match o {
        Some(s) => Some(s.clone()),
        None => None,
    }
}

} // verus!
