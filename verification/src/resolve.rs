use vstd::prelude::*;
use vstd::string::StringExecFns;

verus! {

/// Pinned release version of the server distribution.
pub open spec fn version_spec() -> Seq<char> {
    "3.4.4"@
}

/// File name of the release archive, fixed for the single supported target.
pub open spec fn archive_name_spec() -> Seq<char> {
    "PowerShellEditorServices.zip"@
}

/// Release host prefix that every download URL starts with; the pinned
/// version and the archive name complete it.
pub open spec fn release_prefix_spec() -> Seq<char> {
    "https://github.com/PowerShell/PowerShellEditorServices/releases/download/v"@
}

/// Deterministic download URL: prefix, then version, then `/`, then the
/// archive file name.
pub open spec fn download_url_spec() -> Seq<char> {
    release_prefix_spec() + version_spec() + "/"@ + archive_name_spec()
}

/// Local directory the distribution is unpacked into; its existence is the
/// sole "already installed" signal.
pub open spec fn install_dir_spec() -> Seq<char> {
    "PSEditorServices"@
}

/// Sentinel path signalling "install in progress" to concurrent runs.
pub open spec fn lock_path_spec() -> Seq<char> {
    "download.lock"@
}

/// Everything the install step needs, derived from the pinned version alone;
/// recomputed each run, stable across runs.
pub struct InstallTarget {
    pub version: String,
    pub archive_file_name: String,
    pub download_url: String,
    pub install_directory: String,
}

impl InstallTarget {
    /// The fields spell out exactly the specified constants and URL.
    pub open spec fn wf(self) -> bool {
        &&& self.version@ == version_spec()
        &&& self.archive_file_name@ == archive_name_spec()
        &&& self.download_url@ == download_url_spec()
        &&& self.install_directory@ == install_dir_spec()
    }
}

/// Version/URL resolver: pure string composition, same output on every run.
pub fn resolve_target() -> (r: InstallTarget)
    ensures
        r.wf(),
{
    let mut url = String::from_str(
        "https://github.com/PowerShell/PowerShellEditorServices/releases/download/v",
    );
    url.append("3.4.4");
    url.append("/");
    url.append("PowerShellEditorServices.zip");
    InstallTarget {
        version: String::from_str("3.4.4"),
        archive_file_name: String::from_str("PowerShellEditorServices.zip"),
        download_url: url,
        install_directory: String::from_str("PSEditorServices"),
    }
}

/// The lock-file sentinel path.
pub fn lock_path() -> (r: String)
    ensures
        r@ == lock_path_spec(),
{
    String::from_str("download.lock")
}

/// The archive's local file name.
pub fn archive_name() -> (r: String)
    ensures
        r@ == archive_name_spec(),
{
    String::from_str("PowerShellEditorServices.zip")
}

/// The install directory's name.
pub fn install_dir() -> (r: String)
    ensures
        r@ == install_dir_spec(),
{
    String::from_str("PSEditorServices")
}

} // verus!
