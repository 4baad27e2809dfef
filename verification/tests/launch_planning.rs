use pses_bootstrap::launch::{build_args, plan_launch};
use pses_bootstrap::platform::{arch_supported, executable_name};
use pses_bootstrap::resolve::{lock_path, resolve_target};
use pses_bootstrap::session::session_paths;

#[test]
fn only_x86_64_is_supported() {
    assert!(arch_supported("x86_64"));
    assert!(!arch_supported("aarch64"));
    assert!(!arch_supported("arm64"));
    assert!(!arch_supported(""));
    assert!(!arch_supported("x86"));
}

#[test]
fn executable_follows_operating_system() {
    assert_eq!(executable_name("windows"), "powershell.exe");
    assert_eq!(executable_name("linux"), "pwsh");
    assert_eq!(executable_name("macos"), "pwsh");
    assert_eq!(executable_name(""), "pwsh");
}

#[test]
fn resolved_target_is_deterministic() {
    let a = resolve_target();
    let b = resolve_target();
    assert_eq!(a.version, "3.4.4");
    assert_eq!(a.archive_file_name, "PowerShellEditorServices.zip");
    assert_eq!(
        a.download_url,
        "https://github.com/PowerShell/PowerShellEditorServices/releases/download/v3.4.4/PowerShellEditorServices.zip"
    );
    assert_eq!(a.install_directory, "PSEditorServices");
    assert_eq!(a.download_url, b.download_url);
    assert_eq!(lock_path(), "download.lock");
}

#[test]
fn session_paths_use_the_token() {
    let p = session_paths("/tmp", 0);
    assert_eq!(p.session_directory, "/tmp/pses-0");
    assert_eq!(p.log_path, "/tmp/pses-0/logs.log");
    assert_eq!(p.session_details_path, "/tmp/pses-0/session.json");
    let q = session_paths("/tmp", 1234567890);
    assert_eq!(q.session_directory, "/tmp/pses-1234567890");
}

#[test]
fn distinct_tokens_give_distinct_session_directories() {
    let a = session_paths("/tmp", 7);
    let b = session_paths("/tmp", 8);
    assert_ne!(a.session_directory, b.session_directory);
    let c = session_paths("/tmp", 18446744073709551615);
    assert_eq!(c.session_directory, "/tmp/pses-18446744073709551615");
    assert_ne!(a.session_directory, c.session_directory);
}

#[test]
fn argument_vector_is_fixed_and_ordered() {
    let args = build_args("PSEditorServices", "/tmp/pses-1");
    let expected: Vec<String> = vec![
        "-NoLogo",
        "-NoProfile",
        "-Command",
        "PSEditorServices/PSEditorServices/Start-EditorServices.ps1",
        "-BundleModulesPath",
        "PSEditorServices",
        "-LogPath",
        "/tmp/pses-1/logs.log",
        "-SessionDetailsPath",
        "/tmp/pses-1/session.json",
        "-FeatureFlags",
        "@()",
        "-AdditionalModules",
        "@()",
        "-HostName",
        "'lapce'",
        "-HostProfileId",
        "'lapce'",
        "-HostVersion",
        "1.0.0",
        "-Stdio",
        "-LogLevel",
        "Normal",
    ]
    .into_iter()
    .map(|s| s.to_string())
    .collect();
    assert_eq!(args, expected);
}

#[test]
fn arguments_do_not_depend_on_options() {
    let opts: Option<serde_json::Value> =
        Some(serde_json::from_str("{\"binary\":{\"args\":\"--custom\"}}").unwrap());
    let with_opts = plan_launch("linux", "/tmp", 5, opts);
    let without = plan_launch("linux", "/tmp", 5, None);
    assert_eq!(with_opts.arguments, without.arguments);
    assert_eq!(with_opts.arguments, build_args("PSEditorServices", "/tmp/pses-5"));
}

#[test]
fn launch_plan_for_linux_uses_pwsh_over_stdio() {
    let plan = plan_launch("linux", "/tmp", 42, None);
    assert_eq!(plan.executable, "pwsh");
    assert!(plan.use_stdio);
    assert!(plan.options.is_none());
    assert_eq!(plan.arguments.len(), 23);
}

#[test]
fn launch_plan_for_windows_uses_powershell() {
    let plan = plan_launch("windows", "/tmp", 42, None);
    assert_eq!(plan.executable, "powershell.exe");
}

#[test]
fn launch_plan_passes_options_through() {
    let opts: Option<serde_json::Value> =
        Some(serde_json::from_str("{\"binary\":{\"args\":\"-x\"}}").unwrap());
    let plan = plan_launch("linux", "/tmp", 1, opts.clone());
    assert_eq!(plan.options, opts);
}
