use vstd::prelude::*;
use vstd::string::{StrSliceExecFns, StringExecFns};

verus! {

/// A parent-directory component `..` stands at `i`: bounded by the string's
/// ends or by `/` on both sides.
pub open spec fn dotdot_at(s: Seq<char>, i: int) -> bool {
    &&& 0 <= i
    &&& i + 2 <= s.len()
    &&& s[i] == '.'
    &&& s[i + 1] == '.'
    &&& (i == 0 || s[i - 1] == '/')
    &&& (i + 2 == s.len() || s[i + 2] == '/')
}

/// An archive entry name that resolves to a safe path relative to the
/// install root: non-empty, not absolute, no embedded NUL, no backslash (a
/// separator on the Windows target, so a parent segment could hide behind
/// one), and no parent-directory component anywhere.
pub open spec fn safe_entry_name(s: Seq<char>) -> bool {
    &&& s.len() > 0
    &&& s[0] != '/'
    &&& forall|i: int| 0 <= i < s.len() ==> s[i] != '\0' && s[i] != '\\'
    &&& forall|i: int| !dotdot_at(s, i)
}

/// Path-traversal guard: decides `safe_entry_name` for a concrete name.
pub fn safe_entry(name: &str) -> (r: bool)
    ensures
        r == safe_entry_name(name@),
{
    let n = name.unicode_len();
    if n == 0 {
        return false;
    }
    if name.get_char(0) == '/' {
        return false;
    }
    let mut i: usize = 0;
    while i < n
        invariant
            n == name@.len(),
            i <= n,
            name@.len() > 0,
            name@[0] != '/',
            forall|j: int| 0 <= j < i ==> name@[j] != '\0' && name@[j] != '\\',
            forall|j: int| j < i ==> !dotdot_at(name@, j),
        decreases n - i,
    {
        let c = name.get_char(i);
        if c == '\0' || c == '\\' {
            return false;
        }
        if c == '.' && i + 1 < n && name.get_char(i + 1) == '.' {
            let pre_ok = i == 0 || name.get_char(i - 1) == '/';
            let post_ok = i + 2 == n || name.get_char(i + 2) == '/';
            if pre_ok && post_ok {
                assert(dotdot_at(name@, i as int));
                return false;
            }
        }
        i = i + 1;
    }
    true
}

/// The target path of an entry: the install root, a separator, the name.
pub open spec fn joined_under(root: Seq<char>, name: Seq<char>) -> Seq<char> {
    root + seq!['/'] + name
}

/// `p` lies within `root`: it extends `root` by a separator and a remainder
/// that is itself a safe relative name.
pub open spec fn path_within(root: Seq<char>, p: Seq<char>) -> bool {
    &&& p.len() > root.len() + 1
    &&& p.subrange(0, root.len() as int) == root
    &&& p[root.len() as int] == '/'
    &&& safe_entry_name(p.subrange(root.len() as int + 1, p.len() as int))
}

/// What the installer does with one archive entry: nothing for an unsafe
/// name, a directory for a name ending in `/`, a file write otherwise.
#[derive(Debug, Clone, PartialEq, Eq)]
pub enum EntryAction {
    Skip,
    MakeDir(String),
    WriteFile(String),
}

/// Ghost form of `EntryAction`, over character sequences.
pub enum EntryActionV {
    Skip,
    MakeDir(Seq<char>),
    WriteFile(Seq<char>),
}

impl View for EntryAction {
    type V = EntryActionV;

    open spec fn view(&self) -> EntryActionV {
        match self {
            EntryAction::Skip => EntryActionV::Skip,
            EntryAction::MakeDir(p) => EntryActionV::MakeDir(p@),
            EntryAction::WriteFile(p) => EntryActionV::WriteFile(p@),
        }
    }
}

/// The action owed to an entry name under a given install root.
pub open spec fn entry_action_spec(root: Seq<char>, name: Seq<char>) -> EntryActionV {
    if !safe_entry_name(name) {
        EntryActionV::Skip
    } else if name.last() == '/' {
        EntryActionV::MakeDir(joined_under(root, name))
    } else {
        EntryActionV::WriteFile(joined_under(root, name))
    }
}

fn join_under(root: &str, name: &str) -> (r: String)
    ensures
        r@ == joined_under(root@, name@),
{
    let mut p = String::from_str(root);
    p.append("/");
    p.append(name);
    proof {
        reveal_strlit("/");
        assert(p@ =~= joined_under(root@, name@));
    }
    p
}

/// Archive installer, per-entry decision: skip unsafe names, recreate
/// directories, write files under the install root.
pub fn entry_action(root: &str, name: &str) -> (r: EntryAction)
    ensures
        r@ == entry_action_spec(root@, name@),
{
    if !safe_entry(name) {
        return EntryAction::Skip;
    }
    let n = name.unicode_len();
    let last = name.get_char(n - 1);
    let joined = join_under(root, name);
    if last == '/' {
        EntryAction::MakeDir(joined)
    } else {
        EntryAction::WriteFile(joined)
    }
}

/// Entries with path-traversal sequences never produce a path outside the
/// install root: every path an action carries lies within it.
pub proof fn lemma_entry_stays_within(root: Seq<char>, name: Seq<char>)
    ensures
        entry_action_spec(root, name) matches EntryActionV::MakeDir(p) ==> path_within(root, p),
        entry_action_spec(root, name) matches EntryActionV::WriteFile(p) ==> path_within(root, p),
{
    if safe_entry_name(name) {
        let p = joined_under(root, name);
        assert(p.subrange(0, root.len() as int) =~= root);
        assert(p[root.len() as int] == '/');
        assert(p.subrange(root.len() as int + 1, p.len() as int) =~= name);
    }
}

} // verus!
