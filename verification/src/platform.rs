use vstd::prelude::*;
use vstd::string::StringExecFns;

verus! {

/// The only architecture for which a server distribution is published.
pub open spec fn supported_arch() -> Seq<char> {
    "x86_64"@
}

/// The operating-system identifier that selects the Windows shell.
pub open spec fn windows_os() -> Seq<char> {
    "windows"@
}

/// Executable chosen for a given operating-system identifier: the Windows
/// shell on `windows`, the cross-platform shell everywhere else.
pub open spec fn executable_name_spec(os: Seq<char>) -> Seq<char> {
    if os == windows_os() {
        "powershell.exe"@
    } else {
        "pwsh"@
    }
}

/// Platform gate: exactly the single supported architecture passes.
pub fn arch_supported(arch: &str) -> (r: bool)
    ensures
        r == (arch@ == supported_arch()),
{
    let a = String::from_str(arch);
    let s = String::from_str("x86_64");
    a == s
}

/// Platform-appropriate executable name for the spawned server host shell.
pub fn executable_name(os: &str) -> (r: String)
    ensures
        r@ == executable_name_spec(os@),
{
    let o = String::from_str(os);
    let w = String::from_str("windows");
    if o == w {
        String::from_str("powershell.exe")
    } else {
        String::from_str("pwsh")
    }
}

} // verus!
