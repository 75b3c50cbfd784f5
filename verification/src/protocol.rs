//! The core permission model: the types that the rest of the system works with, and
//! that the v2 wire types of [`crate::permissions`] convert to and from.
use crate::path::{AbsolutePathBuf, PathConvention, PathUri};
use vstd::prelude::*;

verus! {

/// The protocol a network access that awaits approval uses.
#[derive(Clone, Copy, Debug, PartialEq, Eq, Structural)]
pub enum NetworkApprovalProtocol {
    Http,
    Https,
    Socks5Tcp,
    Socks5Udp,
}

/// A network access that awaits approval.
#[derive(Clone, Debug, PartialEq, Eq)]
pub struct NetworkApprovalContext {
    pub host: String,
    pub protocol: NetworkApprovalProtocol,
}

/// What a sandbox entry grants on its path.
#[derive(Clone, Copy, Debug, PartialEq, Eq, Structural)]
pub enum FileSystemAccessMode {
    Read,
    Write,
    Deny,
}

/// A location that the sandbox resolves when it is applied.
#[derive(Clone, Debug, PartialEq, Eq)]
pub enum FileSystemSpecialPath {
    Root,
    Minimal,
    ProjectRoots { subpath: Option<String> },
    Tmpdir,
    SlashTmp,
    Unknown { path: String, subpath: Option<String> },
}

/// The path part of a sandbox entry.
#[derive(Clone, Debug, PartialEq, Eq)]
pub enum FileSystemPath {
    Path { path: PathUri },
    GlobPattern { pattern: String },
    Special { value: FileSystemSpecialPath },
}

/// One entry of a file-system permission set.
#[derive(Clone, Debug, PartialEq, Eq)]
pub struct FileSystemSandboxEntry {
    pub path: FileSystemPath,
    pub access: FileSystemAccessMode,
}

/// A depth limit for glob scans; never zero.
#[derive(Clone, Copy, Debug, PartialEq, Eq, Structural)]
pub struct NonZeroDepth {
    depth: usize,
}

impl NonZeroDepth {
    pub closed spec fn value(self) -> usize {
        self.depth
    }

    /// A depth limit, unless `depth` is zero.
    pub fn new(depth: usize) -> (r: Option<NonZeroDepth>)
        ensures
            r is Some <==> depth > 0,
            r matches Some(d) ==> d.value() == depth,
    {
        if depth > 0 {
            Some(NonZeroDepth { depth })
        } else {
            None
        }
    }

    pub fn get(self) -> (r: usize)
        ensures
            r == self.value(),
            r > 0,
    {
        proof {
            use_type_invariant(self);
        }
        self.depth
    }

    #[verifier::type_invariant]
    spec fn depth_is_positive(self) -> bool {
        self.depth > 0
    }
}

/// A set of file-system permissions.
#[derive(Clone, Debug, PartialEq, Eq)]
pub struct FileSystemPermissions {
    pub entries: Vec<FileSystemSandboxEntry>,
    pub glob_scan_max_depth: Option<NonZeroDepth>,
}

/// The contents of a set of file-system permissions.
pub struct FileSystemPermissionsView {
    pub entries: Seq<FileSystemSandboxEntry>,
    pub glob_scan_max_depth: Option<NonZeroDepth>,
}

impl View for FileSystemPermissions {
    type V = FileSystemPermissionsView;

    open spec fn view(&self) -> FileSystemPermissionsView {
        FileSystemPermissionsView {
            entries: self.entries@,
            glob_scan_max_depth: self.glob_scan_max_depth,
        }
    }
}

impl FileSystemPermissionsView {
    /// The readable and writable roots these permissions amount to: present when there is
    /// no glob depth limit and every entry grants read or write access on a plain path.
    pub open spec fn legacy_roots(self) -> Option<(Seq<PathUri>, Seq<PathUri>)> {
        if self.glob_scan_max_depth is Some {
            None
        } else {
            legacy_roots_of(self.entries)
        }
    }
}

/// File-system permissions written as a list of readable and a list of writable roots.
#[derive(Clone, Debug, PartialEq, Eq)]
pub struct LegacyReadWriteRoots {
    pub read: Option<Vec<PathUri>>,
    pub write: Option<Vec<PathUri>>,
}

/// The paths held by an optional list, absent being empty.
pub open spec fn roots_of(v: Option<Vec<PathUri>>) -> Seq<PathUri> {
    match v {
        Some(v) => v@,
        None => Seq::empty(),
    }
}

/// An entry that grants `access` on the plain path `p`.
pub open spec fn path_entry(p: PathUri, access: FileSystemAccessMode) -> FileSystemSandboxEntry {
    FileSystemSandboxEntry { path: FileSystemPath::Path { path: p }, access }
}

/// The entries that grant `access` on each of `paths`, in order.
pub open spec fn path_entries(paths: Seq<PathUri>, access: FileSystemAccessMode) -> Seq<
    FileSystemSandboxEntry,
> {
    paths.map_values(|p: PathUri| path_entry(p, access))
}

/// The readable and the writable roots that `entries` amount to, when every entry grants
/// read or write access on a plain path.
pub open spec fn legacy_roots_of(entries: Seq<FileSystemSandboxEntry>) -> Option<
    (Seq<PathUri>, Seq<PathUri>),
>
    decreases entries.len(),
{
    if entries.len() == 0 {
        Some((Seq::empty(), Seq::empty()))
    } else {
        match legacy_roots_of(entries.drop_last()) {
            None => None,
            Some((read, write)) => {
                let e = entries.last();
                match e.path {
                    FileSystemPath::Path { path } => match e.access {
                        FileSystemAccessMode::Read => Some((read.push(path), write)),
                        FileSystemAccessMode::Write => Some((read, write.push(path))),
                        FileSystemAccessMode::Deny => None,
                    },
                    _ => None,
                }
            },
        }
    }
}

/// Moves the paths of an optional list into `out`, after what it holds.
fn append_roots(out: &mut Vec<PathUri>, v: Option<Vec<PathUri>>)
    ensures
        final(out)@ == old(out)@ + roots_of(v),
{
    if let Some(v) = v {
        let ghost start = out@;
        for p in it: v.into_iter()
            invariant
                out@ == start + it.seq().take(it.index() as int),
        {
            out.push(p);
        }
    }
}

/// Moves into `out` one entry granting `access` on each path of an optional list.
fn append_path_entries(
    out: &mut Vec<FileSystemSandboxEntry>,
    v: Option<Vec<PathUri>>,
    access: FileSystemAccessMode,
)
    ensures
        final(out)@ == old(out)@ + path_entries(roots_of(v), access),
{
    if let Some(v) = v {
        let ghost start = out@;
        for p in it: v.into_iter()
            invariant
                out@ == start + path_entries(it.seq().take(it.index() as int), access),
        {
            proof {
                assert(it.seq().take(it.index() + 1) =~= it.seq().take(it.index() as int).push(p));
            }
            out.push(FileSystemSandboxEntry { path: FileSystemPath::Path { path: p }, access });
            proof {
                assert(path_entries(it.seq().take(it.index() + 1), access) =~= path_entries(
                    it.seq().take(it.index() as int),
                    access,
                ).push(path_entry(p, access)));
            }
        }
    }
}

impl FileSystemPermissions {
    /// These permissions as readable and writable roots, when they can be written so; an
    /// empty list of roots is absent.
    pub fn legacy_read_write_roots(&self) -> (r: Option<LegacyReadWriteRoots>)
        ensures
            r is Some <==> self@.legacy_roots() is Some,
            r matches Some(l) ==> {
                &&& roots_of(l.read) == self@.legacy_roots().unwrap().0
                &&& roots_of(l.write) == self@.legacy_roots().unwrap().1
                &&& (l.read is Some <==> roots_of(l.read).len() > 0)
                &&& (l.write is Some <==> roots_of(l.write).len() > 0)
            },
    {
        if self.glob_scan_max_depth.is_some() {
            return None;
        }
        let mut read: Vec<PathUri> = Vec::new();
        let mut write: Vec<PathUri> = Vec::new();
        let n = self.entries.len();
        let mut i: usize = 0;
        while i < n
            invariant
                n == self.entries@.len(),
                i <= n,
                self.glob_scan_max_depth is None,
                legacy_roots_of(self.entries@.take(i as int)) == Some((read@, write@)),
            decreases n - i,
        {
            let e = &self.entries[i];
            proof {
                assert(self.entries@.take(i + 1).drop_last() =~= self.entries@.take(i as int));
            }
            match &e.path {
                FileSystemPath::Path { path } => match e.access {
                    FileSystemAccessMode::Read => read.push(path.copy()),
                    FileSystemAccessMode::Write => write.push(path.copy()),
                    FileSystemAccessMode::Deny => {
                        proof {
                            lemma_legacy_roots_none_extends(self.entries@, i as int + 1);
                        }
                        return None;
                    },
                },
                _ => {
                    proof {
                        lemma_legacy_roots_none_extends(self.entries@, i as int + 1);
                    }
                    return None;
                },
            }
            i = i + 1;
        }
        proof {
            assert(self.entries@.take(n as int) =~= self.entries@);
        }
        Some(
            LegacyReadWriteRoots {
                read: if read.len() == 0 {
                    None
                } else {
                    Some(read)
                },
                write: if write.len() == 0 {
                    None
                } else {
                    Some(write)
                },
            },
        )
    }

    /// The permissions that grant read access on each readable root, then write access on
    /// each writable root, with no glob depth limit.
    pub fn from_read_write_roots(read: Option<Vec<PathUri>>, write: Option<Vec<PathUri>>) -> (r:
        FileSystemPermissions)
        ensures
            r.entries@ == path_entries(roots_of(read), FileSystemAccessMode::Read) + path_entries(
                roots_of(write),
                FileSystemAccessMode::Write,
            ),
            r.glob_scan_max_depth is None,
    {
        let mut entries: Vec<FileSystemSandboxEntry> = Vec::new();
        append_path_entries(&mut entries, read, FileSystemAccessMode::Read);
        append_path_entries(&mut entries, write, FileSystemAccessMode::Write);
        proof {
            assert(Seq::<FileSystemSandboxEntry>::empty() + path_entries(
                roots_of(read),
                FileSystemAccessMode::Read,
            ) =~= path_entries(roots_of(read), FileSystemAccessMode::Read));
        }
        FileSystemPermissions { entries, glob_scan_max_depth: None }
    }
}

/// Once a prefix of `entries` cannot be written as roots, neither can any longer prefix.
proof fn lemma_legacy_roots_none_extends(entries: Seq<FileSystemSandboxEntry>, k: int)
    requires
        0 <= k <= entries.len(),
        legacy_roots_of(entries.take(k)) is None,
    ensures
        legacy_roots_of(entries) is None,
    decreases entries.len() - k,
{
    if k < entries.len() {
        assert(entries.take(k + 1).drop_last() =~= entries.take(k));
        lemma_legacy_roots_none_extends(entries, k + 1);
    } else {
        assert(entries.take(k) =~= entries);
    }
}

/// Entries granting only read and write access on plain paths are written back as the
/// roots they were made from.
pub proof fn lemma_legacy_roots_of_path_entries(read: Seq<PathUri>, write: Seq<PathUri>)
    ensures
        legacy_roots_of(
            path_entries(read, FileSystemAccessMode::Read) + path_entries(
                write,
                FileSystemAccessMode::Write,
            ),
        ) == Some((read, write)),
    decreases read.len() + write.len(),
{
    let es = path_entries(read, FileSystemAccessMode::Read) + path_entries(
        write,
        FileSystemAccessMode::Write,
    );
    if write.len() > 0 {
        lemma_legacy_roots_of_path_entries(read, write.drop_last());
        assert(es.drop_last() =~= path_entries(read, FileSystemAccessMode::Read) + path_entries(
            write.drop_last(),
            FileSystemAccessMode::Write,
        ));
        assert(write.drop_last().push(write.last()) =~= write);
    } else if read.len() > 0 {
        lemma_legacy_roots_of_path_entries(read.drop_last(), write);
        assert(es.drop_last() =~= path_entries(read.drop_last(), FileSystemAccessMode::Read)
            + path_entries(write, FileSystemAccessMode::Write));
        assert(read.drop_last().push(read.last()) =~= read);
    } else {
        assert(es =~= Seq::<FileSystemSandboxEntry>::empty());
    }
}

/// Permissions made from readable and writable roots are read back as those roots.
pub proof fn lemma_read_write_roots_round_trip(p: FileSystemPermissions, read: Seq<PathUri>, write: Seq<PathUri>)
    requires
        p.entries@ == path_entries(read, FileSystemAccessMode::Read) + path_entries(
            write,
            FileSystemAccessMode::Write,
        ),
        p.glob_scan_max_depth is None,
    ensures
        p@.legacy_roots() == Some((read, write)),
{
    lemma_legacy_roots_of_path_entries(read, write);
}

/// Whether network access is granted.
#[derive(Clone, Copy, Debug, PartialEq, Eq, Structural)]
pub struct NetworkPermissions {
    pub enabled: Option<bool>,
}

/// Permissions that a command asks for.
#[derive(Clone, Debug, PartialEq, Eq)]
pub struct RequestPermissionProfile {
    pub network: Option<NetworkPermissions>,
    pub file_system: Option<FileSystemPermissions>,
}

/// The permission profile in effect.
#[derive(Clone, Debug, PartialEq, Eq)]
pub struct ActivePermissionProfile {
    pub id: String,
    pub extends: Option<String>,
}

/// The identifier of the built-in read-only profile.
pub open spec fn read_only_profile_id() -> Seq<char> {
    ":read-only"@
}

impl ActivePermissionProfile {
    /// The built-in read-only profile, which extends no other profile.
    pub fn read_only() -> (r: ActivePermissionProfile)
        ensures
            r.id@ == read_only_profile_id(),
            r.extends is None,
    {
        ActivePermissionProfile { id: String::from_str(":read-only"), extends: None }
    }
}

/// A partial overlay of permissions granted for a single command.
#[derive(Clone, Debug, PartialEq, Eq)]
pub struct AdditionalPermissionProfile {
    pub network: Option<NetworkPermissions>,
    pub file_system: Option<FileSystemPermissions>,
}

/// Network access inside an external sandbox.
#[derive(Clone, Copy, Debug, PartialEq, Eq, Structural)]
pub enum NetworkAccess {
    Restricted,
    Enabled,
}

/// How commands are sandboxed.
#[derive(Clone, Debug, PartialEq, Eq)]
pub enum SandboxPolicy {
    DangerFullAccess,
    ReadOnly { network_access: bool },
    ExternalSandbox { network_access: NetworkAccess },
    WorkspaceWrite {
        writable_roots: Vec<AbsolutePathBuf>,
        network_access: bool,
        exclude_tmpdir_env_var: bool,
        exclude_slash_tmp: bool,
    },
}

/// The contents of a sandbox policy.
pub enum SandboxPolicyView {
    DangerFullAccess,
    ReadOnly { network_access: bool },
    ExternalSandbox { network_access: NetworkAccess },
    WorkspaceWrite {
        writable_roots: Seq<AbsolutePathBuf>,
        network_access: bool,
        exclude_tmpdir_env_var: bool,
        exclude_slash_tmp: bool,
    },
}

impl View for SandboxPolicy {
    type V = SandboxPolicyView;

    open spec fn view(&self) -> SandboxPolicyView {
        match self {
            SandboxPolicy::DangerFullAccess => SandboxPolicyView::DangerFullAccess,
            SandboxPolicy::ReadOnly { network_access } => SandboxPolicyView::ReadOnly {
                network_access: *network_access,
            },
            SandboxPolicy::ExternalSandbox { network_access } => SandboxPolicyView::ExternalSandbox {
                network_access: *network_access,
            },
            SandboxPolicy::WorkspaceWrite {
                writable_roots,
                network_access,
                exclude_tmpdir_env_var,
                exclude_slash_tmp,
            } => SandboxPolicyView::WorkspaceWrite {
                writable_roots: writable_roots@,
                network_access: *network_access,
                exclude_tmpdir_env_var: *exclude_tmpdir_env_var,
                exclude_slash_tmp: *exclude_slash_tmp,
            },
        }
    }
}

/// A command prefix to allow from now on.
#[derive(Clone, Debug, PartialEq, Eq)]
pub struct ExecPolicyAmendment {
    pub command: Vec<String>,
}

impl ExecPolicyAmendment {
    pub fn new(command: Vec<String>) -> (r: ExecPolicyAmendment)
        ensures
            r.command == command,
    {
        ExecPolicyAmendment { command }
    }

    pub fn command(&self) -> (r: &Vec<String>)
        ensures
            *r == self.command,
    {
        &self.command
    }
}

/// Whether a network rule allows or denies its host.
#[derive(Clone, Copy, Debug, PartialEq, Eq, Structural)]
pub enum NetworkPolicyRuleAction {
    Allow,
    Deny,
}

/// A network rule to add from now on.
#[derive(Clone, Debug, PartialEq, Eq)]
pub struct NetworkPolicyAmendment {
    pub host: String,
    pub action: NetworkPolicyRuleAction,
}

/// How long granted permissions last.
#[derive(Clone, Copy, Debug, PartialEq, Eq, Structural)]
pub enum PermissionGrantScope {
    Turn,
    Session,
}

/// When the user is asked to approve an action.
#[derive(Clone, Copy, Debug, PartialEq, Eq, Structural)]
pub enum AskForApproval {
    /// Ask for everything but actions known to be safe.
    UnlessTrusted,
    /// Ask when the model requests it.
    OnRequest,
    /// Decide per kind of request.
    Granular(GranularApprovalConfig),
    /// Never ask.
    Never,
}

/// Per-kind approval settings.
#[derive(Clone, Copy, Debug, PartialEq, Eq, Structural)]
pub struct GranularApprovalConfig {
    /// Whether the user may be asked to approve an action outside the sandbox.
    pub sandbox_approval: bool,
}

/// Network access under a permission profile.
#[derive(Clone, Copy, Debug, PartialEq, Eq, Structural)]
pub enum NetworkSandboxPolicy {
    Restricted,
    Enabled,
}

/// Who enforces the permissions of a session.
#[derive(Clone, Copy, Debug, PartialEq, Eq, Structural)]
pub enum PermissionProfile {
    /// The permissions are enforced by a sandbox of this system.
    Managed { network: NetworkSandboxPolicy },
    /// No sandbox is applied.
    Disabled,
    /// The session already runs inside a sandbox of its own.
    External { network: NetworkSandboxPolicy },
}

/// The sandbox level requested on Windows.
#[derive(Clone, Copy, Debug, PartialEq, Eq, Structural)]
pub enum WindowsSandboxLevel {
    Disabled,
    RestrictedToken,
    Elevated,
}

/// A directory that may be written, except below its read-only subpaths.
#[derive(Debug)]
pub struct WritableRoot {
    pub root: AbsolutePathBuf,
    pub read_only_subpaths: Vec<AbsolutePathBuf>,
}

impl WritableRoot {
    pub open spec fn spec_is_path_writable(self, path: AbsolutePathBuf) -> bool {
        &&& path.spec_starts_with(self.root)
        &&& forall|i: int|
            0 <= i < self.read_only_subpaths@.len() ==> !path.spec_starts_with(
                #[trigger] self.read_only_subpaths@[i],
            )
    }

    /// Whether `path` lies within the root and within none of its read-only subpaths.
    pub fn is_path_writable(&self, path: &AbsolutePathBuf) -> (r: bool)
        ensures
            r == self.spec_is_path_writable(*path),
    {
        if !path.starts_with(&self.root) {
            return false;
        }
        let n = self.read_only_subpaths.len();
        for i in 0..n
            invariant
                n == self.read_only_subpaths@.len(),
                forall|j: int|
                    0 <= j < i ==> !path.spec_starts_with(#[trigger] self.read_only_subpaths@[j]),
        {
            if path.starts_with(&self.read_only_subpaths[i]) {
                return false;
            }
        }
        true
    }

    pub fn copy(&self) -> (r: WritableRoot)
        ensures
            r.root == self.root,
            r.read_only_subpaths@ == self.read_only_subpaths@,
    {
        let mut subpaths: Vec<AbsolutePathBuf> = Vec::new();
        let n = self.read_only_subpaths.len();
        for i in 0..n
            invariant
                n == self.read_only_subpaths@.len(),
                subpaths@ == self.read_only_subpaths@.take(i as int),
        {
            subpaths.push(self.read_only_subpaths[i].copy());
            proof {
                assert(self.read_only_subpaths@.take(i + 1) =~= self.read_only_subpaths@.take(
                    i as int,
                ).push(self.read_only_subpaths@[i as int]));
            }
        }
        proof {
            assert(self.read_only_subpaths@.take(n as int) =~= self.read_only_subpaths@);
        }
        WritableRoot { root: self.root.copy(), read_only_subpaths: subpaths }
    }
}

/// Where the file-system sandbox lets commands write.
///
/// Writes are allowed everywhere when `full_disk_write_access` holds; otherwise within
/// the writable roots, and within the working directory when `project_root_writable` holds.
#[derive(Debug)]
pub struct FileSystemSandboxPolicy {
    pub full_disk_write_access: bool,
    pub writable_roots: Vec<WritableRoot>,
    pub project_root_writable: bool,
}

impl FileSystemSandboxPolicy {
    pub fn has_full_disk_write_access(&self) -> (r: bool)
        ensures
            r == self.full_disk_write_access,
    {
        self.full_disk_write_access
    }

    /// The number of writable roots that apply with a local working directory.
    pub open spec fn writable_root_count(self) -> nat {
        self.writable_roots@.len() + if self.project_root_writable {
            1nat
        } else {
            0nat
        }
    }

    /// The writable roots that apply with `cwd` as working directory: the configured
    /// roots, then `cwd` itself when the project root is writable.
    pub fn get_writable_roots_with_cwd(&self, cwd: &AbsolutePathBuf) -> (r: Vec<WritableRoot>)
        ensures
            r@.len() == self.writable_root_count(),
            forall|i: int|
                0 <= i < self.writable_roots@.len() ==> (#[trigger] r@[i]).root
                    == self.writable_roots@[i].root && r@[i].read_only_subpaths@
                    == self.writable_roots@[i].read_only_subpaths@,
            self.project_root_writable ==> r@.last().root == *cwd
                && r@.last().read_only_subpaths@.len() == 0,
    {
        let mut roots: Vec<WritableRoot> = Vec::new();
        let n = self.writable_roots.len();
        for i in 0..n
            invariant
                n == self.writable_roots@.len(),
                roots@.len() == i,
                forall|j: int|
                    0 <= j < i ==> (#[trigger] roots@[j]).root == self.writable_roots@[j].root
                        && roots@[j].read_only_subpaths@
                        == self.writable_roots@[j].read_only_subpaths@,
        {
            roots.push(self.writable_roots[i].copy());
        }
        if self.project_root_writable {
            roots.push(WritableRoot { root: cwd.copy(), read_only_subpaths: Vec::new() });
        }
        roots
    }

    pub open spec fn spec_can_write_path(self, path: AbsolutePathBuf, cwd: AbsolutePathBuf) -> bool {
        ||| self.full_disk_write_access
        ||| exists|i: int|
            0 <= i < self.writable_roots@.len() && (
            #[trigger] self.writable_roots@[i]).spec_is_path_writable(path)
        ||| (self.project_root_writable && path.spec_starts_with(cwd))
    }

    /// Whether a local path may be written, with `cwd` as working directory.
    pub fn can_write_path_with_cwd(&self, path: &AbsolutePathBuf, cwd: &AbsolutePathBuf) -> (r:
        bool)
        ensures
            r == self.spec_can_write_path(*path, *cwd),
    {
        if self.full_disk_write_access {
            return true;
        }
        let n = self.writable_roots.len();
        for i in 0..n
            invariant
                n == self.writable_roots@.len(),
                forall|j: int|
                    0 <= j < i ==> !(#[trigger] self.writable_roots@[j]).spec_is_path_writable(
                        *path,
                    ),
        {
            if self.writable_roots[i].is_path_writable(path) {
                return true;
            }
        }
        self.project_root_writable && path.starts_with(cwd)
    }

    pub open spec fn spec_can_write_path_uri(
        self,
        path: PathUri,
        cwd: PathUri,
        native: PathConvention,
    ) -> bool {
        &&& path.is_local(native)
        &&& cwd.is_local(native)
        &&& self.spec_can_write_path(
            path.spec_project_to_localhost(native)->Ok_0,
            cwd.spec_project_to_localhost(native)->Ok_0,
        )
    }

    /// Whether `path` may be written, with `cwd` as working directory, on a host whose
    /// path convention is `native`. Fails closed: a path or working directory of another
    /// host or another convention is never writable.
    pub fn can_write_path_uri_with_cwd(&self, path: &PathUri, cwd: &PathUri, native: PathConvention) -> (r:
        bool)
        ensures
            r == self.spec_can_write_path_uri(*path, *cwd, native),
    {
        match (path.project_to_localhost(native), cwd.project_to_localhost(native)) {
            (Ok(p), Ok(c)) => self.can_write_path_with_cwd(&p, &c),
            _ => false,
        }
    }
}

/// The sandbox fails closed: a path of another host, or written in another convention
/// than the local one, is never writable, not even with full-disk write access.
pub proof fn lemma_foreign_path_not_writable(
    fs: FileSystemSandboxPolicy,
    path: PathUri,
    cwd: PathUri,
    native: PathConvention,
)
    requires
        !path.is_local(native),
    ensures
        !fs.spec_can_write_path_uri(path, cwd, native),
{
}

/// A path within a read-only subpath of a writable root is not writable through that root.
pub proof fn lemma_read_only_subpath_not_writable(root: WritableRoot, path: AbsolutePathBuf, i: int)
    requires
        0 <= i < root.read_only_subpaths@.len(),
        path.spec_starts_with(root.read_only_subpaths@[i]),
    ensures
        !root.spec_is_path_writable(path),
{
}

/// Whether an entry grants read or write access on a plain path.
pub open spec fn is_plain_read_write(e: FileSystemSandboxEntry) -> bool {
    &&& e.path is Path
    &&& e.access != FileSystemAccessMode::Deny
}

proof fn lemma_legacy_roots_of_characterized(es: Seq<FileSystemSandboxEntry>)
    ensures
        legacy_roots_of(es) is Some <==> forall|i: int|
            0 <= i < es.len() ==> is_plain_read_write(#[trigger] es[i]),
        legacy_roots_of(es) matches Some((r, w)) ==> r.len() + w.len() == es.len(),
    decreases es.len(),
{
    if es.len() > 0 {
        let rest = es.drop_last();
        lemma_legacy_roots_of_characterized(rest);
        if forall|i: int| 0 <= i < es.len() ==> is_plain_read_write(#[trigger] es[i]) {
            assert forall|i: int| 0 <= i < rest.len() implies is_plain_read_write(
                #[trigger] rest[i],
            ) by {
                assert(rest[i] == es[i]);
                assert(is_plain_read_write(es[i]));
            }
            assert(is_plain_read_write(es[es.len() - 1]));
        }
        if legacy_roots_of(es) is Some {
            assert forall|i: int| 0 <= i < es.len() implies is_plain_read_write(#[trigger] es[i]) by {
                if i < es.len() - 1 {
                    assert(rest[i] == es[i]);
                    assert(is_plain_read_write(rest[i]));
                }
            }
        }
    }
}

/// Permissions amount to readable and writable roots exactly when there is no glob depth
/// limit and every entry grants read or write access on a plain path; the roots then
/// account for every entry, one root per entry.
pub proof fn lemma_legacy_roots_characterized(p: FileSystemPermissionsView)
    ensures
        p.legacy_roots() is Some <==> (p.glob_scan_max_depth is None && forall|i: int|
            0 <= i < p.entries.len() ==> is_plain_read_write(#[trigger] p.entries[i])),
        p.legacy_roots() matches Some((r, w)) ==> r.len() + w.len() == p.entries.len(),
{
    lemma_legacy_roots_of_characterized(p.entries);
}

/// A path is writable exactly when the policy grants full-disk write access, some
/// writable root (whichever its position) admits it, or the project root is writable
/// and the path lies within the working directory.
pub proof fn lemma_can_write_path_characterized(
    fs: FileSystemSandboxPolicy,
    path: AbsolutePathBuf,
    cwd: AbsolutePathBuf,
)
    ensures
        fs.full_disk_write_access ==> fs.spec_can_write_path(path, cwd),
        forall|i: int|
            0 <= i < fs.writable_roots@.len() && (
            #[trigger] fs.writable_roots@[i]).spec_is_path_writable(path) ==> fs.spec_can_write_path(
                path,
                cwd,
            ),
        fs.project_root_writable && path.spec_starts_with(cwd) ==> fs.spec_can_write_path(
            path,
            cwd,
        ),
        fs.spec_can_write_path(path, cwd) ==> {
            ||| fs.full_disk_write_access
            ||| exists|i: int|
                0 <= i < fs.writable_roots@.len() && (
                #[trigger] fs.writable_roots@[i]).spec_is_path_writable(path)
            ||| (fs.project_root_writable && path.spec_starts_with(cwd))
        },
{
}

/// A writable root admits exactly the paths within it that lie within none of its
/// read-only subpaths.
pub proof fn lemma_writable_root_characterized(root: WritableRoot, path: AbsolutePathBuf)
    ensures
        root.spec_is_path_writable(path) <==> (path.spec_starts_with(root.root) && forall|i: int|
            0 <= i < root.read_only_subpaths@.len() ==> !path.spec_starts_with(
                #[trigger] root.read_only_subpaths@[i],
            )),
{
}

/// A local path, with a local working directory, may be written exactly when its local
/// projection may be written.
pub proof fn lemma_local_path_uri_writability(
    fs: FileSystemSandboxPolicy,
    path: PathUri,
    cwd: PathUri,
    native: PathConvention,
)
    requires
        path.is_local(native),
        cwd.is_local(native),
    ensures
        fs.spec_can_write_path_uri(path, cwd, native) == fs.spec_can_write_path(
            AbsolutePathBuf { convention: native, path: path.path },
            AbsolutePathBuf { convention: native, path: cwd.path },
        ),
{
}

} // verus!
