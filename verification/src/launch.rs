use crate::platform::{executable_name, executable_name_spec};
use crate::resolve::{install_dir, install_dir_spec};
use crate::session::{session_dir_spec, session_paths, SessionPaths};
use vstd::prelude::*;
use vstd::string::StringExecFns;

verus! {

/// The ordered argument vector the server's entry script parses: logging
/// mode, bundle path, log and session files, placeholder sets, host
/// identity, transport flag, verbosity — in exactly this order.
pub open spec fn args_spec(server: Seq<char>, session: Seq<char>) -> Seq<Seq<char>> {
    seq![
        "-NoLogo"@,
        "-NoProfile"@,
        "-Command"@,
        server + "/PSEditorServices/Start-EditorServices.ps1"@,
        "-BundleModulesPath"@,
        server,
        "-LogPath"@,
        session + "/logs.log"@,
        "-SessionDetailsPath"@,
        session + "/session.json"@,
        "-FeatureFlags"@,
        "@()"@,
        "-AdditionalModules"@,
        "@()"@,
        "-HostName"@,
        "'lapce'"@,
        "-HostProfileId"@,
        "'lapce'"@,
        "-HostVersion"@,
        "1.0.0"@,
        "-Stdio"@,
        "-LogLevel"@,
        "Normal"@,
    ]
}

/// Builds the argument vector for a server rooted at `server` logging into
/// the session directory `session`.
pub fn build_args(server: &str, session: &str) -> (r: Vec<String>)
    ensures
        r.deep_view() == args_spec(server@, session@),
{
    let mut v: Vec<String> = Vec::new();
    v.push(String::from_str("-NoLogo"));
    v.push(String::from_str("-NoProfile"));
    v.push(String::from_str("-Command"));
    let mut command = String::from_str(server);
    command.append("/PSEditorServices/Start-EditorServices.ps1");
    v.push(command);
    v.push(String::from_str("-BundleModulesPath"));
    v.push(String::from_str(server));
    v.push(String::from_str("-LogPath"));
    let mut log = String::from_str(session);
    log.append("/logs.log");
    v.push(log);
    v.push(String::from_str("-SessionDetailsPath"));
    let mut details = String::from_str(session);
    details.append("/session.json");
    v.push(details);
    v.push(String::from_str("-FeatureFlags"));
    v.push(String::from_str("@()"));
    v.push(String::from_str("-AdditionalModules"));
    v.push(String::from_str("@()"));
    v.push(String::from_str("-HostName"));
    v.push(String::from_str("'lapce'"));
    v.push(String::from_str("-HostProfileId"));
    v.push(String::from_str("'lapce'"));
    v.push(String::from_str("-HostVersion"));
    v.push(String::from_str("1.0.0"));
    v.push(String::from_str("-Stdio"));
    v.push(String::from_str("-LogLevel"));
    v.push(String::from_str("Normal"));
    proof {
        assert(v.deep_view() =~= args_spec(server@, session@));
    }
    v
}

/// The fully determined launch handoff: executable, ordered arguments, the
/// options passed through unchanged, and standard input/output framing.
pub struct LaunchPlan {
    pub executable: String,
    pub arguments: Vec<String>,
    pub options: Option<serde_json::Value>,
    pub use_stdio: bool,
}

/// Launch planner: session paths from the time token, the default argument
/// vector, the platform executable, options passed through untouched. The
/// argument vector never depends on the options.
pub fn plan_launch(os: &str, temp_dir: &str, token: u64, options: Option<
    serde_json::Value,
>) -> (r: LaunchPlan)
    ensures
        r.executable@ == executable_name_spec(os@),
        r.arguments.deep_view() == args_spec(
            install_dir_spec(),
            session_dir_spec(temp_dir@, token as nat),
        ),
        r.use_stdio,
        r.options == options,
{
    let paths: SessionPaths = session_paths(temp_dir, token);
    let server = install_dir();
    let arguments = build_args(server.as_str(), paths.session_directory.as_str());
    LaunchPlan { executable: executable_name(os), arguments, options, use_stdio: true }
}

/// The constructed vector holds the flags in a fixed, order-preserving
/// sequence, whatever the server and session paths are.
pub proof fn lemma_args_fixed_order(server: Seq<char>, session: Seq<char>)
    ensures
        args_spec(server, session).len() == 23,
        args_spec(server, session)[0] == "-NoLogo"@,
        args_spec(server, session)[1] == "-NoProfile"@,
        args_spec(server, session)[2] == "-Command"@,
        args_spec(server, session)[4] == "-BundleModulesPath"@,
        args_spec(server, session)[5] == server,
        args_spec(server, session)[6] == "-LogPath"@,
        args_spec(server, session)[8] == "-SessionDetailsPath"@,
        args_spec(server, session)[10] == "-FeatureFlags"@,
        args_spec(server, session)[12] == "-AdditionalModules"@,
        args_spec(server, session)[14] == "-HostName"@,
        args_spec(server, session)[16] == "-HostProfileId"@,
        args_spec(server, session)[18] == "-HostVersion"@,
        args_spec(server, session)[20] == "-Stdio"@,
        args_spec(server, session)[21] == "-LogLevel"@,
        args_spec(server, session)[22] == "Normal"@,
{
}

} // verus!
