use crate::archive::{
    entry_action, entry_action_spec, lemma_entry_stays_within, path_within, EntryAction,
    EntryActionV,
};
use crate::config::PluginInfo;
use crate::platform::{arch_supported, supported_arch};
use crate::resolve::{
    archive_name, archive_name_spec, download_url_spec, install_dir, install_dir_spec, lock_path,
    lock_path_spec, resolve_target, InstallTarget,
};
use vstd::prelude::*;
use vstd::string::StringExecFns;

verus! {

/// One declarative request to the host: the core decides, the host performs.
#[derive(Debug, Clone, PartialEq, Eq)]
pub enum Req {
    LockFile { path: String },
    DownloadFile { url: String, path: String },
    MakeDir { path: String },
    WriteFile { path: String },
    MakeFileExecutable { path: String },
    RemoveFile { path: String },
}

/// Ghost form of `Req`, over character sequences.
pub enum ReqV {
    LockFile { path: Seq<char> },
    DownloadFile { url: Seq<char>, path: Seq<char> },
    MakeDir { path: Seq<char> },
    WriteFile { path: Seq<char> },
    MakeFileExecutable { path: Seq<char> },
    RemoveFile { path: Seq<char> },
}

impl View for Req {
    type V = ReqV;

    open spec fn view(&self) -> ReqV {
        match self {
            Req::LockFile { path } => ReqV::LockFile { path: path@ },
            Req::DownloadFile { url, path } => ReqV::DownloadFile { url: url@, path: path@ },
            Req::MakeDir { path } => ReqV::MakeDir { path: path@ },
            Req::WriteFile { path } => ReqV::WriteFile { path: path@ },
            Req::MakeFileExecutable { path } => ReqV::MakeFileExecutable { path: path@ },
            Req::RemoveFile { path } => ReqV::RemoveFile { path: path@ },
        }
    }
}

/// The requests a vector holds, as ghost values.
pub open spec fn reqs_view(v: Vec<Req>) -> Seq<ReqV> {
    v@.map_values(|r: Req| r@)
}

/// Lock-file creation, signalled before any install decision.
pub open spec fn lock_req() -> ReqV {
    ReqV::LockFile { path: lock_path_spec() }
}

/// The one archive download, to the expected local file name.
pub open spec fn download_req() -> ReqV {
    ReqV::DownloadFile { url: download_url_spec(), path: archive_name_spec() }
}

/// Executable-permission fix-up on the install directory.
pub open spec fn make_exec_req() -> ReqV {
    ReqV::MakeFileExecutable { path: install_dir_spec() }
}

/// Best-effort removal of the now-unneeded archive.
pub open spec fn remove_archive_req() -> ReqV {
    ReqV::RemoveFile { path: archive_name_spec() }
}

/// Removal of the lock-file sentinel at the end of a completed run.
pub open spec fn remove_lock_req() -> ReqV {
    ReqV::RemoveFile { path: lock_path_spec() }
}

/// The file-system effect one archive entry is owed: none for an unsafe
/// name, a directory or a file write under the install root otherwise.
pub open spec fn entry_req(root: Seq<char>, name: Seq<char>) -> Seq<ReqV> {
    match entry_action_spec(root, name) {
        EntryActionV::Skip => seq![],
        EntryActionV::MakeDir(p) => seq![ReqV::MakeDir { path: p }],
        EntryActionV::WriteFile(p) => seq![ReqV::WriteFile { path: p }],
    }
}

/// One extraction pass: the entries' effects in archive order.
pub open spec fn extraction_reqs(root: Seq<char>, names: Seq<Seq<char>>) -> Seq<ReqV>
    decreases names.len(),
{
    if names.len() == 0 {
        seq![]
    } else {
        extraction_reqs(root, names.drop_last()) + entry_req(root, names.last())
    }
}

/// Requests up to the install decision: none for an unsupported
/// architecture; lock then unlock when the directory already exists; lock
/// then download when an install is needed.
pub open spec fn begin_reqs(arch: Seq<char>, dir_exists: bool) -> Seq<ReqV> {
    if arch != supported_arch() {
        seq![]
    } else if dir_exists {
        seq![lock_req(), remove_lock_req()]
    } else {
        seq![lock_req(), download_req()]
    }
}

/// Requests after the download was requested: none when the archive never
/// appeared (the bootstrap aborts, the lock stays); otherwise the extraction
/// pass, the permission fix-up, and both cleanups.
pub open spec fn resume_reqs(archive_present: bool, names: Seq<Seq<char>>) -> Seq<ReqV> {
    if !archive_present {
        seq![]
    } else {
        extraction_reqs(install_dir_spec(), names) + seq![
            make_exec_req(),
            remove_archive_req(),
            remove_lock_req(),
        ]
    }
}

/// Every request one bootstrap run issues, in order.
pub open spec fn protocol(
    arch: Seq<char>,
    dir_exists: bool,
    archive_present: bool,
    names: Seq<Seq<char>>,
) -> Seq<ReqV> {
    if arch != supported_arch() || dir_exists {
        begin_reqs(arch, dir_exists)
    } else {
        begin_reqs(arch, dir_exists) + resume_reqs(archive_present, names)
    }
}

/// The install coordinator's first decision.
pub enum BeginPlan {
    /// Unsupported architecture: the bootstrap ends with no side effects.
    Unsupported,
    /// The install directory already exists: lock and unlock only, then
    /// launch.
    FastPath { requests: Vec<Req> },
    /// The install directory is absent: lock and download, then `resume`.
    Install { requests: Vec<Req>, target: InstallTarget },
}

/// Install coordinator, entry: gates on the architecture and decides from
/// the directory's existence alone whether an install cycle is needed.
pub fn begin(info: &PluginInfo, dir_exists: bool) -> (r: BeginPlan)
    ensures
        r is Unsupported <==> info.arch@ != supported_arch(),
        r is FastPath <==> (info.arch@ == supported_arch() && dir_exists),
        r is Install <==> (info.arch@ == supported_arch() && !dir_exists),
        r matches BeginPlan::FastPath { requests } ==> reqs_view(requests) == begin_reqs(
            info.arch@,
            dir_exists,
        ),
        r matches BeginPlan::Install { requests, target } ==> reqs_view(requests) == begin_reqs(
            info.arch@,
            dir_exists,
        ) && target.wf(),
{
    if !arch_supported(info.arch.as_str()) {
        return BeginPlan::Unsupported;
    }
    let mut requests: Vec<Req> = Vec::new();
    requests.push(Req::LockFile { path: lock_path() });
    if dir_exists {
        requests.push(Req::RemoveFile { path: lock_path() });
        proof {
            assert(reqs_view(requests) =~= begin_reqs(info.arch@, dir_exists));
        }
        BeginPlan::FastPath { requests }
    } else {
        let target = resolve_target();
        requests.push(
            Req::DownloadFile {
                url: target.download_url.clone(),
                path: target.archive_file_name.clone(),
            },
        );
        proof {
            assert(reqs_view(requests) =~= begin_reqs(info.arch@, dir_exists));
        }
        BeginPlan::Install { requests, target }
    }
}

/// The install coordinator's second decision, after the download request.
pub enum ResumePlan {
    /// The archive never appeared: terminal download failure, nothing more
    /// is requested and the server never launches this session.
    DownloadFailed,
    /// The archive is here: the extraction pass and the closing requests.
    Extract { requests: Vec<Req> },
}

/// Install coordinator, resumption: aborts on a missing archive; otherwise
/// walks the entries in archive order, skipping unsafe names, then requests
/// the permission fix-up, the archive removal and the lock removal.
pub fn resume(archive_present: bool, entry_names: &Vec<String>) -> (r: ResumePlan)
    ensures
        r is DownloadFailed <==> !archive_present,
        r matches ResumePlan::Extract { requests } ==> reqs_view(requests) == resume_reqs(
            true,
            entry_names.deep_view(),
        ),
{
    if !archive_present {
        return ResumePlan::DownloadFailed;
    }
    let root = install_dir();
    let ghost names = entry_names.deep_view();
    let mut requests: Vec<Req> = Vec::new();
    let mut i: usize = 0;
    while i < entry_names.len()
        invariant
            i <= entry_names.len(),
            names == entry_names.deep_view(),
            names.len() == entry_names.len(),
            root@ == install_dir_spec(),
            reqs_view(requests) == extraction_reqs(install_dir_spec(), names.take(i as int)),
        decreases entry_names.len() - i,
    {
        let name = &entry_names[i];
        match entry_action(root.as_str(), name.as_str()) {
            EntryAction::Skip => {},
            EntryAction::MakeDir(p) => {
                requests.push(Req::MakeDir { path: p });
            },
            EntryAction::WriteFile(p) => {
                requests.push(Req::WriteFile { path: p });
            },
        }
        proof {
            assert(names.take(i as int + 1).drop_last() =~= names.take(i as int));
            assert(names.take(i as int + 1).last() == names[i as int]);
            assert(reqs_view(requests) =~= extraction_reqs(
                install_dir_spec(),
                names.take(i as int + 1),
            ));
        }
        i = i + 1;
    }
    proof {
        assert(names.take(names.len() as int) =~= names);
    }
    requests.push(Req::MakeFileExecutable { path: root });
    requests.push(Req::RemoveFile { path: archive_name() });
    requests.push(Req::RemoveFile { path: lock_path() });
    proof {
        assert(reqs_view(requests) =~= resume_reqs(true, names));
    }
    ResumePlan::Extract { requests }
}

/// The kinds a request can have, for counting.
pub enum ReqKind {
    Lock,
    Download,
    MakeDir,
    WriteFile,
    MakeExec,
    Remove,
}

/// The kind of one request.
pub open spec fn kind_of(r: ReqV) -> ReqKind {
    match r {
        ReqV::LockFile { .. } => ReqKind::Lock,
        ReqV::DownloadFile { .. } => ReqKind::Download,
        ReqV::MakeDir { .. } => ReqKind::MakeDir,
        ReqV::WriteFile { .. } => ReqKind::WriteFile,
        ReqV::MakeFileExecutable { .. } => ReqKind::MakeExec,
        ReqV::RemoveFile { .. } => ReqKind::Remove,
    }
}

/// How many requests of `s` have kind `k`.
pub open spec fn count_kind(s: Seq<ReqV>, k: ReqKind) -> nat
    decreases s.len(),
{
    if s.len() == 0 {
        0
    } else {
        count_kind(s.drop_last(), k) + (if kind_of(s.last()) == k {
            1nat
        } else {
            0nat
        })
    }
}

/// How many requests of `s` remove exactly this path.
pub open spec fn count_removals_of(s: Seq<ReqV>, path: Seq<char>) -> nat
    decreases s.len(),
{
    if s.len() == 0 {
        0
    } else {
        count_removals_of(s.drop_last(), path) + (if s.last() == (ReqV::RemoveFile { path }) {
            1nat
        } else {
            0nat
        })
    }
}

/// An extraction effect: a directory made or a file written.
pub open spec fn is_extraction_write(r: ReqV) -> bool {
    r is MakeDir || r is WriteFile
}

proof fn lemma_count_kind_add(a: Seq<ReqV>, b: Seq<ReqV>, k: ReqKind)
    ensures
        count_kind(a + b, k) == count_kind(a, k) + count_kind(b, k),
    decreases b.len(),
{
    if b.len() == 0 {
        assert(a + b =~= a);
    } else {
        lemma_count_kind_add(a, b.drop_last(), k);
        assert((a + b).drop_last() =~= a + b.drop_last());
        assert((a + b).last() == b.last());
    }
}

proof fn lemma_count_removals_add(a: Seq<ReqV>, b: Seq<ReqV>, path: Seq<char>)
    ensures
        count_removals_of(a + b, path) == count_removals_of(a, path) + count_removals_of(b, path),
    decreases b.len(),
{
    if b.len() == 0 {
        assert(a + b =~= a);
    } else {
        lemma_count_removals_add(a, b.drop_last(), path);
        assert((a + b).drop_last() =~= a + b.drop_last());
        assert((a + b).last() == b.last());
    }
}

/// An extraction pass holds extraction effects only: no download, no
/// permission change, no removal hides in it.
pub proof fn lemma_extraction_only_writes(root: Seq<char>, names: Seq<Seq<char>>)
    ensures
        forall|j: int|
            0 <= j < extraction_reqs(root, names).len() ==> is_extraction_write(
                #[trigger] extraction_reqs(root, names)[j],
            ),
    decreases names.len(),
{
    if names.len() > 0 {
        lemma_extraction_only_writes(root, names.drop_last());
        let pre = extraction_reqs(root, names.drop_last());
        let e = entry_req(root, names.last());
        assert forall|j: int| 0 <= j < extraction_reqs(root, names).len() implies is_extraction_write(
            extraction_reqs(root, names)[j],
        ) by {
            if j < pre.len() {
                assert(extraction_reqs(root, names)[j] == pre[j]);
            } else {
                assert(extraction_reqs(root, names)[j] == e[j - pre.len()]);
            }
        }
    }
}

/// For all architectures other than the single supported one, the bootstrap
/// issues no request at all.
pub proof fn lemma_unsupported_no_requests(
    arch: Seq<char>,
    dir_exists: bool,
    archive_present: bool,
    names: Seq<Seq<char>>,
)
    requires
        arch != supported_arch(),
    ensures
        protocol(arch, dir_exists, archive_present, names).len() == 0,
{
}

/// With the install directory already present: no download and no extraction
/// effect occur, and the lock file is still requested removed, last.
pub proof fn lemma_fast_path_requests(
    arch: Seq<char>,
    archive_present: bool,
    names: Seq<Seq<char>>,
)
    requires
        arch == supported_arch(),
    ensures
        protocol(arch, true, archive_present, names) == seq![lock_req(), remove_lock_req()],
        count_kind(protocol(arch, true, archive_present, names), ReqKind::Download) == 0,
        count_kind(protocol(arch, true, archive_present, names), ReqKind::MakeDir) == 0,
        count_kind(protocol(arch, true, archive_present, names), ReqKind::WriteFile) == 0,
        protocol(arch, true, archive_present, names).last() == remove_lock_req(),
{
    let s = protocol(arch, true, archive_present, names);
    lemma_count_pair(s, ReqKind::Download);
    lemma_count_pair(s, ReqKind::MakeDir);
    lemma_count_pair(s, ReqKind::WriteFile);
}

/// With the directory absent and the archive present after the one download
/// request: the run is the lock, exactly one download, one extraction pass,
/// exactly one executable-permission request, exactly one archive removal,
/// and the lock removal, in that order.
pub proof fn lemma_install_requests(arch: Seq<char>, names: Seq<Seq<char>>)
    requires
        arch == supported_arch(),
    ensures
        protocol(arch, false, true, names) == seq![lock_req(), download_req()] + extraction_reqs(
            install_dir_spec(),
            names,
        ) + seq![make_exec_req(), remove_archive_req(), remove_lock_req()],
        count_kind(protocol(arch, false, true, names), ReqKind::Download) == 1,
        count_kind(protocol(arch, false, true, names), ReqKind::MakeExec) == 1,
        count_removals_of(protocol(arch, false, true, names), archive_name_spec()) == 1,
        protocol(arch, false, true, names).last() == remove_lock_req(),
{
    let head = seq![lock_req(), download_req()];
    let mid = extraction_reqs(install_dir_spec(), names);
    let tail = seq![make_exec_req(), remove_archive_req(), remove_lock_req()];
    let s = protocol(arch, false, true, names);
    assert(s =~= head + mid + tail);
    lemma_extraction_only_writes(install_dir_spec(), names);
    reveal_strlit("download.lock");
    reveal_strlit("PowerShellEditorServices.zip");
    assert(lock_path_spec() != archive_name_spec());
    lemma_count_kind_add(head + mid, tail, ReqKind::Download);
    lemma_count_kind_add(head, mid, ReqKind::Download);
    lemma_count_pair(head, ReqKind::Download);
    lemma_count_triple(tail, ReqKind::Download);
    lemma_count_kind_none_in_extraction(install_dir_spec(), names, ReqKind::Download);
    lemma_count_kind_add(head + mid, tail, ReqKind::MakeExec);
    lemma_count_kind_add(head, mid, ReqKind::MakeExec);
    lemma_count_pair(head, ReqKind::MakeExec);
    lemma_count_triple(tail, ReqKind::MakeExec);
    lemma_count_kind_none_in_extraction(install_dir_spec(), names, ReqKind::MakeExec);
    lemma_count_removals_add(head + mid, tail, archive_name_spec());
    lemma_count_removals_add(head, mid, archive_name_spec());
    lemma_removals_pair(head, archive_name_spec());
    lemma_removals_triple(tail, archive_name_spec());
    lemma_no_removals_in_extraction(install_dir_spec(), names, archive_name_spec());
    assert((head + mid + tail).last() == remove_lock_req());
}

proof fn lemma_count_kind_none_in_extraction(root: Seq<char>, names: Seq<Seq<char>>, k: ReqKind)
    requires
        k != ReqKind::MakeDir,
        k != ReqKind::WriteFile,
    ensures
        count_kind(extraction_reqs(root, names), k) == 0,
    decreases names.len(),
{
    if names.len() > 0 {
        lemma_count_kind_none_in_extraction(root, names.drop_last(), k);
        lemma_count_kind_add(
            extraction_reqs(root, names.drop_last()),
            entry_req(root, names.last()),
            k,
        );
        let e = entry_req(root, names.last());
        reveal_with_fuel(count_kind, 3);
        if e.len() > 0 {
            assert(e.drop_last() =~= Seq::<ReqV>::empty());
        }
    }
}

proof fn lemma_no_removals_in_extraction(root: Seq<char>, names: Seq<Seq<char>>, path: Seq<char>)
    ensures
        count_removals_of(extraction_reqs(root, names), path) == 0,
    decreases names.len(),
{
    if names.len() > 0 {
        lemma_no_removals_in_extraction(root, names.drop_last(), path);
        lemma_count_removals_add(
            extraction_reqs(root, names.drop_last()),
            entry_req(root, names.last()),
            path,
        );
        let e = entry_req(root, names.last());
        reveal_with_fuel(count_removals_of, 3);
        if e.len() > 0 {
            assert(e.drop_last() =~= Seq::<ReqV>::empty());
        }
    }
}

proof fn lemma_count_pair(s: Seq<ReqV>, k: ReqKind)
    requires
        s.len() == 2,
    ensures
        count_kind(s, k) == (if kind_of(s[0]) == k {
            1nat
        } else {
            0nat
        }) + (if kind_of(s[1]) == k {
            1nat
        } else {
            0nat
        }),
{
    reveal_with_fuel(count_kind, 4);
    assert(s.drop_last().drop_last() =~= Seq::<ReqV>::empty());
}

proof fn lemma_count_triple(s: Seq<ReqV>, k: ReqKind)
    requires
        s.len() == 3,
    ensures
        count_kind(s, k) == (if kind_of(s[0]) == k {
            1nat
        } else {
            0nat
        }) + (if kind_of(s[1]) == k {
            1nat
        } else {
            0nat
        }) + (if kind_of(s[2]) == k {
            1nat
        } else {
            0nat
        }),
{
    reveal_with_fuel(count_kind, 5);
    assert(s.drop_last().drop_last().drop_last() =~= Seq::<ReqV>::empty());
}

proof fn lemma_removals_pair(s: Seq<ReqV>, path: Seq<char>)
    requires
        s.len() == 2,
    ensures
        count_removals_of(s, path) == (if s[0] == (ReqV::RemoveFile { path }) {
            1nat
        } else {
            0nat
        }) + (if s[1] == (ReqV::RemoveFile { path }) {
            1nat
        } else {
            0nat
        }),
{
    reveal_with_fuel(count_removals_of, 4);
    assert(s.drop_last().drop_last() =~= Seq::<ReqV>::empty());
}

proof fn lemma_removals_triple(s: Seq<ReqV>, path: Seq<char>)
    requires
        s.len() == 3,
    ensures
        count_removals_of(s, path) == (if s[0] == (ReqV::RemoveFile { path }) {
            1nat
        } else {
            0nat
        }) + (if s[1] == (ReqV::RemoveFile { path }) {
            1nat
        } else {
            0nat
        }) + (if s[2] == (ReqV::RemoveFile { path }) {
            1nat
        } else {
            0nat
        }),
{
    reveal_with_fuel(count_removals_of, 5);
    assert(s.drop_last().drop_last().drop_last() =~= Seq::<ReqV>::empty());
}

/// An extraction effect whose path lies within the root, or no extraction
/// effect at all.
pub open spec fn req_stays_within(root: Seq<char>, r: ReqV) -> bool {
    &&& (r matches ReqV::MakeDir { path } ==> path_within(root, path))
    &&& (r matches ReqV::WriteFile { path } ==> path_within(root, path))
}

proof fn lemma_extraction_stays_within(root: Seq<char>, names: Seq<Seq<char>>)
    ensures
        forall|j: int|
            0 <= j < extraction_reqs(root, names).len() ==> req_stays_within(
                root,
                #[trigger] extraction_reqs(root, names)[j],
            ),
    decreases names.len(),
{
    if names.len() > 0 {
        lemma_extraction_stays_within(root, names.drop_last());
        lemma_entry_stays_within(root, names.last());
        let pre = extraction_reqs(root, names.drop_last());
        let e = entry_req(root, names.last());
        assert forall|j: int| 0 <= j < extraction_reqs(root, names).len() implies req_stays_within(
            root,
            extraction_reqs(root, names)[j],
        ) by {
            if j < pre.len() {
                assert(extraction_reqs(root, names)[j] == pre[j]);
            } else {
                assert(extraction_reqs(root, names)[j] == e[j - pre.len()]);
            }
        }
    }
}

/// Whatever the inputs, no request of a bootstrap run makes a directory or
/// writes a file whose path lies outside the install directory: entries with
/// path-traversal sequences never escape it.
pub proof fn lemma_run_stays_within(
    arch: Seq<char>,
    dir_exists: bool,
    archive_present: bool,
    names: Seq<Seq<char>>,
)
    ensures
        forall|j: int|
            0 <= j < protocol(arch, dir_exists, archive_present, names).len()
                ==> req_stays_within(
                install_dir_spec(),
                #[trigger] protocol(arch, dir_exists, archive_present, names)[j],
            ),
{
    let s = protocol(arch, dir_exists, archive_present, names);
    lemma_extraction_stays_within(install_dir_spec(), names);
    if arch == supported_arch() && !dir_exists && archive_present {
        let head = seq![lock_req(), download_req()];
        let mid = extraction_reqs(install_dir_spec(), names);
        let tail = seq![make_exec_req(), remove_archive_req(), remove_lock_req()];
        assert(s =~= head + mid + tail);
        assert forall|j: int| 0 <= j < s.len() implies req_stays_within(
            install_dir_spec(),
            s[j],
        ) by {
            if 2 <= j < 2 + mid.len() {
                assert(s[j] == mid[j - 2]);
            }
        }
    }
}

} // verus!
