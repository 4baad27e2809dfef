use crate::numerals::{decimal_seq, lemma_decimal_injective, push_decimal};
use vstd::prelude::*;
use vstd::string::StringExecFns;

verus! {

/// Per-launch session directory: the temp directory, a fixed prefix, and a
/// time-based token rendered in decimal.
pub open spec fn session_dir_spec(temp: Seq<char>, token: nat) -> Seq<char> {
    temp + "/pses-"@ + decimal_seq(token)
}

/// Log file inside the session directory.
pub open spec fn log_path_spec(temp: Seq<char>, token: nat) -> Seq<char> {
    session_dir_spec(temp, token) + "/logs.log"@
}

/// Session-details file inside the session directory.
pub open spec fn session_details_path_spec(temp: Seq<char>, token: nat) -> Seq<char> {
    session_dir_spec(temp, token) + "/session.json"@
}

/// Paths created fresh for one launch; never reused across runs.
pub struct SessionPaths {
    pub session_directory: String,
    pub log_path: String,
    pub session_details_path: String,
}

/// Launch planner, path part: derives the session directory and the two
/// files inside it from the temp directory and the time token.
pub fn session_paths(temp_dir: &str, token: u64) -> (r: SessionPaths)
    ensures
        r.session_directory@ == session_dir_spec(temp_dir@, token as nat),
        r.log_path@ == log_path_spec(temp_dir@, token as nat),
        r.session_details_path@ == session_details_path_spec(temp_dir@, token as nat),
{
    let mut dir = String::from_str(temp_dir);
    dir.append("/pses-");
    push_decimal(token, &mut dir);
    proof {
        assert(dir@ =~= session_dir_spec(temp_dir@, token as nat));
    }
    let mut log = dir.clone();
    log.append("/logs.log");
    let mut details = dir.clone();
    details.append("/session.json");
    SessionPaths { session_directory: dir, log_path: log, session_details_path: details }
}

/// Two runs whose time tokens differ use distinct session directories.
pub proof fn lemma_session_dirs_distinct(temp: Seq<char>, t1: nat, t2: nat)
    requires
        t1 != t2,
    ensures
        session_dir_spec(temp, t1) != session_dir_spec(temp, t2),
{
    lemma_decimal_injective(t1, t2);
    let a = temp + "/pses-"@;
    let x = decimal_seq(t1);
    let y = decimal_seq(t2);
    if a + x == a + y {
        assert((a + x).len() == a.len() + x.len());
        assert((a + y).len() == a.len() + y.len());
        assert(x.len() == y.len());
        assert forall|i: int| 0 <= i < x.len() implies x[i] == y[i] by {
            assert((a + x)[a.len() + i] == x[i]);
            assert((a + y)[a.len() + i] == y[i]);
        }
        assert(x =~= y);
    }
}

} // verus!
