use pses_bootstrap::config::{Configuration, PluginInfo};
use pses_bootstrap::protocol::{begin, resume, BeginPlan, Req, ResumePlan};

fn info(arch: &str, os: &str) -> PluginInfo {
    PluginInfo {
        arch: arch.to_string(),
        os: os.to_string(),
        configuration: Configuration { language_id: "powershell".to_string(), options: None },
    }
}

#[test]
fn arm64_makes_no_requests() {
    match begin(&info("arm64", "linux"), false) {
        BeginPlan::Unsupported => {}
        _ => panic!("arm64 must be gated out with no requests"),
    }
    match begin(&info("arm64", "linux"), true) {
        BeginPlan::Unsupported => {}
        _ => panic!("arm64 must be gated out with no requests"),
    }
}

#[test]
fn aarch64_makes_no_requests() {
    match begin(&info("aarch64", "linux"), false) {
        BeginPlan::Unsupported => {}
        _ => panic!("aarch64 must be gated out with no requests"),
    }
}

#[test]
fn absent_directory_requests_lock_then_download() {
    match begin(&info("x86_64", "linux"), false) {
        BeginPlan::Install { requests, target } => {
            assert_eq!(
                requests,
                vec![
                    Req::LockFile { path: "download.lock".to_string() },
                    Req::DownloadFile {
                        url: "https://github.com/PowerShell/PowerShellEditorServices/releases/download/v3.4.4/PowerShellEditorServices.zip".to_string(),
                        path: "PowerShellEditorServices.zip".to_string(),
                    },
                ]
            );
            assert_eq!(target.version, "3.4.4");
            assert_eq!(target.archive_file_name, "PowerShellEditorServices.zip");
            assert_eq!(target.install_directory, "PSEditorServices");
        }
        _ => panic!("an absent directory must start an install"),
    }
}

#[test]
fn existing_directory_skips_download_but_unlocks() {
    match begin(&info("x86_64", "linux"), true) {
        BeginPlan::FastPath { requests } => {
            assert_eq!(
                requests,
                vec![
                    Req::LockFile { path: "download.lock".to_string() },
                    Req::RemoveFile { path: "download.lock".to_string() },
                ]
            );
        }
        _ => panic!("an existing directory must take the fast path"),
    }
}

#[test]
fn missing_archive_is_a_terminal_download_failure() {
    let names: Vec<String> = vec!["anything".to_string()];
    match resume(false, &names) {
        ResumePlan::DownloadFailed => {}
        _ => panic!("a missing archive must abort the bootstrap"),
    }
}

#[test]
fn extraction_pass_ends_with_permission_and_cleanups() {
    let names: Vec<String> = vec![
        "Start-EditorServices.ps1".to_string(),
        "modules/".to_string(),
        "../escape-attempt".to_string(),
        "modules/core.psm1".to_string(),
    ];
    match resume(true, &names) {
        ResumePlan::Extract { requests } => {
            assert_eq!(
                requests,
                vec![
                    Req::WriteFile { path: "PSEditorServices/Start-EditorServices.ps1".to_string() },
                    Req::MakeDir { path: "PSEditorServices/modules/".to_string() },
                    Req::WriteFile { path: "PSEditorServices/modules/core.psm1".to_string() },
                    Req::MakeFileExecutable { path: "PSEditorServices".to_string() },
                    Req::RemoveFile { path: "PowerShellEditorServices.zip".to_string() },
                    Req::RemoveFile { path: "download.lock".to_string() },
                ]
            );
        }
        _ => panic!("a present archive must be extracted"),
    }
}

#[test]
fn extraction_of_no_entries_still_closes_the_run() {
    let names: Vec<String> = vec![];
    match resume(true, &names) {
        ResumePlan::Extract { requests } => {
            assert_eq!(requests.len(), 3);
            assert_eq!(
                requests[2],
                Req::RemoveFile { path: "download.lock".to_string() }
            );
        }
        _ => panic!("a present archive must be extracted"),
    }
}
