use vstd::prelude::*;
use vstd::string::StringExecFns;

verus! {

/// `serde_json::Value` carried opaquely: the loose options payload the host
/// hands over, read only through the probes below.
#[verifier::external_type_specification]
#[verifier::external_body]
pub struct ExValue(serde_json::Value);

/// What `serde_json::Value::get` returns for a value and a string key: a
/// function of the two arguments alone.
pub uninterp spec fn get_of(v: serde_json::Value, key: Seq<char>) -> Option<serde_json::Value>;

/// What `serde_json::Value::as_str` returns: a function of the value alone.
pub uninterp spec fn str_of(v: serde_json::Value) -> Option<Seq<char>>;

/// Relies on serde_json::Value::get: looks a key up in a JSON object,
/// returning `None` for a missing key or a non-object.
#[verifier::external_body]
fn value_get<'a>(v: &'a serde_json::Value, key: &str) -> (r: Option<&'a serde_json::Value>)
    ensures
        r matches Some(x) ==> get_of(*v, key@) == Some(*x),
        r is None ==> get_of(*v, key@) is None,
{
    v.get(key)
}

/// Relies on serde_json::Value::as_str: the borrowed string if the value is
/// a JSON string, `None` otherwise.
#[verifier::external_body]
fn value_as_str(v: &serde_json::Value) -> (r: Option<&str>)
    ensures
        r matches Some(s) ==> str_of(*v) == Some(s@),
        r is None ==> str_of(*v) is None,
{
    v.as_str()
}

/// The user-facing configuration block of the initialization payload.
pub struct Configuration {
    pub language_id: String,
    pub options: Option<serde_json::Value>,
}

/// The initialization payload: reported platform plus configuration.
pub struct PluginInfo {
    pub arch: String,
    pub os: String,
    pub configuration: Configuration,
}

/// The candidate custom argument string an options payload holds: the value
/// at `options.binary.args` when that probe chain yields a non-empty string,
/// nothing otherwise.
pub open spec fn candidate_spec(options: Option<serde_json::Value>) -> Option<Seq<char>> {
    match options {
        None => None,
        Some(o) => match get_of(o, "binary"@) {
            None => None,
            Some(b) => match get_of(b, "args"@) {
                None => None,
                Some(a) => match str_of(a) {
                    None => None,
                    Some(s) => if s.len() > 0 {
                        Some(s)
                    } else {
                        None
                    },
                },
            },
        },
    }
}

/// Configuration reader: the candidate custom argument string at
/// `options.binary.args`, when present, a string, and non-empty. Absence or
/// a wrong shape is no error and means "use defaults". The candidate is
/// recorded only; the launch planner builds the default vector regardless.
pub fn candidate_args(options: &Option<serde_json::Value>) -> (r: Option<String>)
    ensures
        r matches Some(s) ==> candidate_spec(*options) == Some(s@) && s@.len() > 0,
        r is None ==> candidate_spec(*options) is None,
{
    match options {
        None => None,
        Some(opts) => match value_get(opts, "binary") {
            None => None,
            Some(bin) => match value_get(bin, "args") {
                None => None,
                Some(args) => match value_as_str(args) {
                    None => None,
                    Some(s) => {
                        if !s.is_empty() {
                            Some(String::from_str(s))
                        } else {
                            None
                        }
                    },
                },
            },
        },
    }
}

} // verus!
