use docparse::deps::{
    best_uv_installation_method, check_uv_version_compatibility, uv_availability, ProbeOutcome,
    UvAvailabilityStatus, UvInstallationMethod,
};
use docparse::env_status::EnvironmentStatus;
use docparse::env_types::{CudaDevice, EnvironmentIssue, IssueSeverity};
use docparse::version::{extract_python_version, extract_uv_version, is_version_compatible};

fn issue(sev: IssueSeverity, fixable: bool) -> EnvironmentIssue {
    EnvironmentIssue {
        component: "Python".to_string(),
        severity: sev,
        message: "m".to_string(),
        suggestion: "s".to_string(),
        auto_fixable: fixable,
    }
}

#[test]
fn test_environment_status_health_score() {
    let mut status = EnvironmentStatus::default();
    assert_eq!(status.health_score(), 0);

    status.python_available = true;
    status.mineru_available = true;
    status.markitdown_available = true;
    assert_eq!(status.health_score(), 60);

    status.uv_available = true;
    status.virtual_env_active = true;
    assert_eq!(status.health_score(), 80);

    status.cuda_available = true;
    status.cuda_devices.push(CudaDevice {
        id: 0,
        name: "Test GPU".to_string(),
        memory_total: 8 * 1024 * 1024 * 1024,
        memory_free: 4 * 1024 * 1024 * 1024,
        compute_capability: "8.6".to_string(),
    });
    assert_eq!(status.health_score(), 90);
}

#[test]
fn health_score_penalty_is_capped_at_thirty() {
    let mut status = EnvironmentStatus::default();
    status.python_available = true;
    status.mineru_available = true;
    status.markitdown_available = true;
    for _ in 0..5 {
        status.issues.push(issue(IssueSeverity::Critical, false));
    }
    assert_eq!(status.health_score(), 30);
    let mut low = EnvironmentStatus::default();
    low.python_available = true;
    low.issues.push(issue(IssueSeverity::Medium, true));
    low.issues.push(issue(IssueSeverity::Low, true));
    assert_eq!(low.health_score(), 17);
}

#[test]
fn test_virtual_environment_activation_commands() {
    assert_eq!(
        EnvironmentStatus::activation_command_for(true),
        ".\\venv\\Scripts\\activate.bat"
    );
    assert_eq!(
        EnvironmentStatus::activation_command_for(false),
        "source ./venv/bin/activate"
    );
    assert_eq!(
        EnvironmentStatus::powershell_activation_command_for(true),
        Some(".\\venv\\Scripts\\Activate.ps1".to_string())
    );
    assert_eq!(EnvironmentStatus::powershell_activation_command_for(false), None);
    let status = EnvironmentStatus::default();
    if std::path::MAIN_SEPARATOR == '/' {
        assert_eq!(status.get_activation_command(), "source ./venv/bin/activate");
        assert_eq!(status.get_powershell_activation_command(), None);
    }
}

#[test]
fn critical_and_fixable_issues_are_filtered() {
    let mut status = EnvironmentStatus::default();
    status.issues.push(issue(IssueSeverity::Critical, false));
    status.issues.push(issue(IssueSeverity::Low, true));
    status.issues.push(issue(IssueSeverity::Critical, true));
    assert_eq!(status.get_critical_issues().len(), 2);
    assert_eq!(status.get_auto_fixable_issues().len(), 2);
    assert!(!status.is_ready());
}

#[test]
fn cache_expiry_depends_on_age() {
    let mut status = EnvironmentStatus::default();
    status.last_checked_ms = 1_000;
    assert!(!status.is_cache_expired_at(1_500, 1_000));
    assert!(status.is_cache_expired_at(2_500, 1_000));
}

#[test]
fn test_uv_version_parsing() {
    assert_eq!(extract_uv_version("uv 0.4.15"), Some((0, 4, 15)));
    assert_eq!(extract_uv_version("0.4.15"), Some((0, 4, 15)));
    assert_eq!(extract_uv_version("1.0.0"), Some((1, 0, 0)));
    assert_eq!(extract_uv_version("invalid"), None);

    let compat = check_uv_version_compatibility("uv 0.4.15").unwrap();
    assert!(compat.is_compatible);
    assert_eq!(compat.minimum_version, "0.1.0");
    assert_eq!(compat.current_version, "uv 0.4.15");
    assert!(check_uv_version_compatibility("garbage").is_err());
}

#[test]
fn python_and_package_versions() {
    assert_eq!(extract_python_version("Python 3.11.4"), Some((3, 11)));
    assert!(is_version_compatible("2.1.0", "2.0.0"));
    assert!(!is_version_compatible("1.9.9", "2.0.0"));
}

#[test]
fn uv_probe_outcomes() {
    match uv_availability(&ProbeOutcome::Output("uv 0.4.15\n".to_string())) {
        UvAvailabilityStatus::Available { version, compatibility } => {
            assert_eq!(version, "uv 0.4.15");
            assert!(compatibility.is_compatible);
        }
        other => panic!("unexpected {other:?}"),
    }
    match uv_availability(&ProbeOutcome::Output("weird".to_string())) {
        UvAvailabilityStatus::IncompatibleVersion { issue, .. } => {
            assert_eq!(issue, "无法解析uv版本: weird")
        }
        other => panic!("unexpected {other:?}"),
    }
    match uv_availability(&ProbeOutcome::Failed(String::new())) {
        UvAvailabilityStatus::ExecutionFailed { error } => assert_eq!(error, "uv命令执行失败，未知错误"),
        other => panic!("unexpected {other:?}"),
    }
    match uv_availability(&ProbeOutcome::CannotRun("not found".to_string())) {
        UvAvailabilityStatus::NotInstalled { error } => assert_eq!(error, "无法执行uv命令: not found"),
        other => panic!("unexpected {other:?}"),
    }
}

#[test]
fn uv_installation_method_by_platform() {
    assert_eq!(best_uv_installation_method(true, true, false, false), UvInstallationMethod::PowerShellScript);
    assert_eq!(best_uv_installation_method(true, false, true, true), UvInstallationMethod::CurlScript);
    assert_eq!(best_uv_installation_method(false, true, true, true), UvInstallationMethod::CurlScript);
    assert_eq!(best_uv_installation_method(false, false, false, true), UvInstallationMethod::PipInstall);
    assert_eq!(
        best_uv_installation_method(false, false, false, false),
        UvInstallationMethod::SystemPackageManager
    );
}
