//! Settings of the document service, the guard of a temporary file, and
//! the plan of a systemd installation of the service. Files are touched
//! and systemd is driven by the caller.

use vstd::prelude::*;
use crate::text::push_str;

verus! {

/// What the document service reads of the application settings; times
/// in seconds.
#[derive(Debug, Clone, Copy)]
pub struct DocumentParserSettings {
    pub max_concurrent: usize,
    pub processing_timeout: u32,
    pub download_timeout: u32,
}

/// Settings of the document service; durations in milliseconds.
#[derive(Debug, Clone, Copy)]
pub struct DocumentServiceConfig {
    pub max_concurrent_tasks: usize,
    pub task_timeout_ms: u64,
    pub download_timeout_ms: u64,
    pub enable_cache: bool,
    pub cache_ttl_ms: u64,
}

impl Default for DocumentServiceConfig {
    /// Ten tasks at once, an hour per task, a minute per download, an
    /// hour of cache life.
    fn default() -> (c: Self)
        ensures
            c.max_concurrent_tasks == 10 && c.task_timeout_ms == 3_600_000,
            c.download_timeout_ms == 60_000 && c.enable_cache && c.cache_ttl_ms == 3_600_000,
    {
        DocumentServiceConfig {
            max_concurrent_tasks: 10,
            task_timeout_ms: 3_600_000,
            download_timeout_ms: 60_000,
            enable_cache: true,
            cache_ttl_ms: 3_600_000,
        }
    }
}

impl DocumentServiceConfig {
    /// The service settings the application settings call for; the cache
    /// is on with an hour of life.
    pub fn from_app_config(app_config: &DocumentParserSettings) -> (c: Self)
        ensures
            c.max_concurrent_tasks == app_config.max_concurrent,
            c.task_timeout_ms == app_config.processing_timeout as int * 1000,
            c.download_timeout_ms == app_config.download_timeout as int * 1000,
            c.enable_cache && c.cache_ttl_ms == 3_600_000,
    {
        DocumentServiceConfig {
            max_concurrent_tasks: app_config.max_concurrent,
            task_timeout_ms: app_config.processing_timeout as u64 * 1000,
            download_timeout_ms: app_config.download_timeout as u64 * 1000,
            enable_cache: true,
            cache_ttl_ms: 3_600_000,
        }
    }
}

/// The path of a temporary file that its owner removes once done with it.
#[derive(Debug)]
pub struct TempFileGuard {
    path: String,
}

impl TempFileGuard {
    /// Guards the file at `path`.
    pub fn new(path: String) -> (g: Self)
        ensures
            g.path_spec() == path@,
    {
        TempFileGuard { path }
    }

    /// The guarded path.
    pub closed spec fn path_spec(&self) -> Seq<char> {
        self.path@
    }

    /// The guarded path.
    pub fn path(&self) -> (p: &str)
        ensures
            p@ == self.path_spec(),
    {
        self.path.as_str()
    }
}

/// What the install command was asked for; an empty directory means the
/// current one.
#[derive(Debug, Clone)]
pub struct InstallParams {
    pub install_dir: String,
    pub user: Option<String>,
    pub no_start: bool,
    pub dry_run: bool,
}

/// The unit to install and how.
#[derive(Debug, Clone)]
pub struct ServicePlan {
    pub name: String,
    pub description: String,
    pub exec_start: Vec<String>,
    pub env_file: String,
    pub required_paths: Vec<String>,
    pub kill_signal: String,
    pub timeout_stop_sec: u32,
    pub syslog_identifier: String,
    pub listen_port: u16,
    pub enable: bool,
    pub start: bool,
    pub dry_run: bool,
}

/// The binary to run: the one in the install directory when present; on
/// a dry run the running program (or that path) otherwise; else an error
/// naming the missing path.
pub fn choose_binary(
    candidate: &str,
    candidate_exists: bool,
    dry_run: bool,
    current_exe: Option<String>,
) -> (r: Result<String, String>)
    ensures
        candidate_exists ==> (r matches Ok(b) && b@ == candidate@),
        !candidate_exists && dry_run ==> (r matches Ok(b) && b@ == (match current_exe {
            Some(e) => e@,
            None => candidate@,
        })),
        !candidate_exists && !dry_run ==> (r matches Err(m) && m@ == "binary not found at "@
            + candidate@ + " — copy the release binary into install_dir before install"@),
{
    if candidate_exists {
        return Ok(String::from_str(candidate));
    }
    if dry_run {
        return match current_exe {
            Some(e) => Ok(e),
            None => Ok(String::from_str(candidate)),
        };
    }
    let mut m = String::from_str("binary not found at ");
    push_str(&mut m, candidate);
    push_str(&mut m, " — copy the release binary into install_dir before install");
    Err(m)
}

/// The files the unit needs before it is installed: the configuration
/// unless a dry run finds none, and on a real install the binary and the
/// environment file.
pub open spec fn required_paths_spec(
    config_path: Seq<char>,
    config_exists: bool,
    bin: Seq<char>,
    env_path: Seq<char>,
    dry_run: bool,
) -> Seq<Seq<char>> {
    (if !dry_run || config_exists {
        seq![config_path]
    } else {
        Seq::empty()
    }) + (if !dry_run {
        seq![bin, env_path]
    } else {
        Seq::empty()
    })
}

/// The plan of a systemd installation: the server started with the given
/// configuration, stopped by SIGINT within a minute, enabled, and started
/// unless asked not to.
pub fn service_install_plan(
    params: &InstallParams,
    config_path: &str,
    config_exists: bool,
    bin: &str,
    env_path: &str,
    listen_port: u16,
) -> (p: ServicePlan)
    ensures
        p.name@ == "document-parser"@,
        p.description@ == "Document Parser Service (MCP document-parser)"@,
        p.exec_start.deep_view() == seq![bin@, "--config"@, config_path@, "server"@],
        p.env_file@ == env_path@,
        p.required_paths.deep_view() == required_paths_spec(
            config_path@,
            config_exists,
            bin@,
            env_path@,
            params.dry_run,
        ),
        p.kill_signal@ == "SIGINT"@,
        p.timeout_stop_sec == 60,
        p.syslog_identifier@ == "document-parser"@,
        p.listen_port == listen_port,
        p.enable,
        p.start == !params.no_start,
        p.dry_run == params.dry_run,
{
    let mut exec_start: Vec<String> = Vec::new();
    exec_start.push(String::from_str(bin));
    exec_start.push(String::from_str("--config"));
    exec_start.push(String::from_str(config_path));
    exec_start.push(String::from_str("server"));
    let mut required: Vec<String> = Vec::new();
    if !params.dry_run || config_exists {
        required.push(String::from_str(config_path));
    }
    if !params.dry_run {
        required.push(String::from_str(bin));
        required.push(String::from_str(env_path));
    }
    proof {
        assert(exec_start.deep_view() =~= seq![bin@, "--config"@, config_path@, "server"@]);
        assert(required.deep_view() =~= required_paths_spec(
            config_path@,
            config_exists,
            bin@,
            env_path@,
            params.dry_run,
        ));
    }
    ServicePlan {
        name: String::from_str("document-parser"),
        description: String::from_str("Document Parser Service (MCP document-parser)"),
        exec_start,
        env_file: String::from_str(env_path),
        required_paths: required,
        kill_signal: String::from_str("SIGINT"),
        timeout_stop_sec: 60,
        syslog_identifier: String::from_str("document-parser"),
        listen_port,
        enable: true,
        start: !params.no_start,
        dry_run: params.dry_run,
    }
}

} // verus!
