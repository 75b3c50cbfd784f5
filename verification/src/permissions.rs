//! Permission types of the v2 app-server protocol and their conversion to and from the
//! core permission model of [`crate::protocol`].
//!
//! The v2 wire carries paths as native text ([`LegacyAppPathString`]); the core model
//! carries [`PathUri`]s. Every conversion takes the native path convention of the local
//! host, and fails closed: a path that cannot be written as native text, or native text
//! that is not an absolute path, is an error, never a guess.
use crate::path::{AbsolutePathBuf, LegacyAppPathString, PathConversionError, PathConvention, PathUri};
use crate::protocol::{
    legacy_roots_of, path_entries, path_entry, roots_of, FileSystemPermissionsView,
    LegacyReadWriteRoots, NonZeroDepth, SandboxPolicyView,
};
use crate::protocol::ActivePermissionProfile as CoreActivePermissionProfile;
use crate::protocol::AdditionalPermissionProfile as CoreAdditionalPermissionProfile;
use crate::protocol::ExecPolicyAmendment as CoreExecPolicyAmendment;
use crate::protocol::FileSystemAccessMode as CoreFileSystemAccessMode;
use crate::protocol::FileSystemPath as CoreFileSystemPath;
use crate::protocol::FileSystemPermissions as CoreFileSystemPermissions;
use crate::protocol::FileSystemSandboxEntry as CoreFileSystemSandboxEntry;
use crate::protocol::FileSystemSpecialPath as CoreFileSystemSpecialPath;
use crate::protocol::NetworkAccess as CoreNetworkAccess;
use crate::protocol::NetworkApprovalContext as CoreNetworkApprovalContext;
use crate::protocol::NetworkApprovalProtocol as CoreNetworkApprovalProtocol;
use crate::protocol::NetworkPermissions as CoreNetworkPermissions;
use crate::protocol::NetworkPolicyAmendment as CoreNetworkPolicyAmendment;
use crate::protocol::NetworkPolicyRuleAction as CoreNetworkPolicyRuleAction;
use crate::protocol::PermissionGrantScope as CorePermissionGrantScope;
use crate::protocol::RequestPermissionProfile as CoreRequestPermissionProfile;
use crate::protocol::SandboxPolicy as CoreSandboxPolicy;
use vstd::prelude::*;
use vstd::std_specs::convert::FromSpecImpl;

verus! {

// ---------------------------------------------------------------------------
// Mapping a conversion that may fail over a list
// ---------------------------------------------------------------------------

/// `f` applied to each element of `s` in order: the first error, if any, else all results.
pub open spec fn try_map<A, B, E>(s: Seq<A>, f: spec_fn(A) -> Result<B, E>) -> Result<Seq<B>, E>
    decreases s.len(),
{
    if s.len() == 0 {
        Ok(Seq::empty())
    } else {
        match try_map(s.drop_last(), f) {
            Err(e) => Err(e),
            Ok(prefix) => match f(s.last()) {
                Ok(b) => Ok(prefix.push(b)),
                Err(e) => Err(e),
            },
        }
    }
}

/// An error in a prefix of the list is the error of the whole list.
proof fn lemma_try_map_err_extends<A, B, E>(s: Seq<A>, f: spec_fn(A) -> Result<B, E>, k: int)
    requires
        0 <= k <= s.len(),
        try_map(s.take(k), f) is Err,
    ensures
        try_map(s, f) == try_map(s.take(k), f),
    decreases s.len() - k,
{
    if k < s.len() {
        assert(s.take(k + 1).drop_last() =~= s.take(k));
        lemma_try_map_err_extends(s, f, k + 1);
    } else {
        assert(s.take(k) =~= s);
    }
}

/// When no element fails, the list maps to the list of results.
proof fn lemma_try_map_ok<A, B, E>(s: Seq<A>, f: spec_fn(A) -> Result<B, E>)
    requires
        forall|i: int| 0 <= i < s.len() ==> (#[trigger] f(s[i])) is Ok,
    ensures
        try_map(s, f) == Ok::<Seq<B>, E>(s.map_values(|a: A| f(a)->Ok_0)),
    decreases s.len(),
{
    if s.len() > 0 {
        assert(forall|i: int|
            0 <= i < s.drop_last().len() ==> s.drop_last()[i] == s[i]);
        lemma_try_map_ok(s.drop_last(), f);
        assert(f(s[s.len() - 1]) is Ok);
        assert(s.drop_last().map_values(|a: A| f(a)->Ok_0).push(f(s.last())->Ok_0) =~= s.map_values(
            |a: A| f(a)->Ok_0,
        ));
    } else {
        assert(s.map_values(|a: A| f(a)->Ok_0) =~= Seq::<B>::empty());
    }
}

// ---------------------------------------------------------------------------
// Paths
// ---------------------------------------------------------------------------

/// Reads v2 native path text as a core path; an error unless the text is an absolute path
/// under `c`.
fn legacy_path_to_uri(path: LegacyAppPathString, c: PathConvention) -> (r: Result<
    PathUri,
    PathConversionError,
>)
    ensures
        r == path.spec_to_path_uri(c),
{
    path.to_path_uri(c)
}

/// Writes a core path as v2 native text; an error for a path of another host or of
/// another convention than `c`.
fn uri_to_legacy_path(path: &PathUri, c: PathConvention) -> (r: Result<
    LegacyAppPathString,
    PathConversionError,
>)
    ensures
        r == LegacyAppPathString::spec_from_path_uri(*path, c),
{
    LegacyAppPathString::from_path_uri(path, c)
}

/// Whether a core path can be written as native text under `c`.
pub open spec fn uri_representable(p: PathUri, c: PathConvention) -> bool {
    LegacyAppPathString::spec_from_path_uri(p, c) is Ok
}

/// The native text of a core path that is representable under `c`.
pub open spec fn legacy_of(p: PathUri, c: PathConvention) -> LegacyAppPathString {
    LegacyAppPathString::spec_from_path_uri(p, c)->Ok_0
}

pub open spec fn spec_core_path_to_v2(p: CoreFileSystemPath, c: PathConvention) -> Result<
    FileSystemPath,
    PathConversionError,
> {
    match p {
        CoreFileSystemPath::Path { path } => match LegacyAppPathString::spec_from_path_uri(
            path,
            c,
        ) {
            Ok(l) => Ok(FileSystemPath::Path { path: l }),
            Err(e) => Err(e),
        },
        CoreFileSystemPath::GlobPattern { pattern } => Ok(FileSystemPath::GlobPattern { pattern }),
        CoreFileSystemPath::Special { value } => Ok(
            FileSystemPath::Special { value: FileSystemSpecialPath::spec_from(value) },
        ),
    }
}

pub open spec fn spec_v2_path_to_core(p: FileSystemPath, c: PathConvention) -> Result<
    CoreFileSystemPath,
    PathConversionError,
> {
    match p {
        FileSystemPath::Path { path } => match path.spec_to_path_uri(c) {
            Ok(u) => Ok(CoreFileSystemPath::Path { path: u }),
            Err(e) => Err(e),
        },
        FileSystemPath::GlobPattern { pattern } => Ok(CoreFileSystemPath::GlobPattern { pattern }),
        FileSystemPath::Special { value } => Ok(
            CoreFileSystemPath::Special { value: CoreFileSystemSpecialPath::spec_from(value) },
        ),
    }
}

fn core_path_to_v2(path: CoreFileSystemPath, c: PathConvention) -> (r: Result<
    FileSystemPath,
    PathConversionError,
>)
    ensures
        r == spec_core_path_to_v2(path, c),
{
    match path {
        CoreFileSystemPath::Path { path } => match uri_to_legacy_path(&path, c) {
            Ok(l) => Ok(FileSystemPath::Path { path: l }),
            Err(e) => Err(e),
        },
        CoreFileSystemPath::GlobPattern { pattern } => Ok(FileSystemPath::GlobPattern { pattern }),
        CoreFileSystemPath::Special { value } => Ok(
            FileSystemPath::Special { value: FileSystemSpecialPath::from(value) },
        ),
    }
}

fn v2_path_to_core(path: FileSystemPath, c: PathConvention) -> (r: Result<
    CoreFileSystemPath,
    PathConversionError,
>)
    ensures
        r == spec_v2_path_to_core(path, c),
{
    match path {
        FileSystemPath::Path { path } => match legacy_path_to_uri(path, c) {
            Ok(u) => Ok(CoreFileSystemPath::Path { path: u }),
            Err(e) => Err(e),
        },
        FileSystemPath::GlobPattern { pattern } => Ok(CoreFileSystemPath::GlobPattern { pattern }),
        FileSystemPath::Special { value } => Ok(
            CoreFileSystemPath::Special { value: CoreFileSystemSpecialPath::from(value) },
        ),
    }
}

pub open spec fn spec_core_entry_to_v2(e: CoreFileSystemSandboxEntry, c: PathConvention) -> Result<
    FileSystemSandboxEntry,
    PathConversionError,
> {
    match spec_core_path_to_v2(e.path, c) {
        Ok(path) => Ok(
            FileSystemSandboxEntry { path, access: FileSystemAccessMode::spec_from(e.access) },
        ),
        Err(err) => Err(err),
    }
}

pub open spec fn spec_v2_entry_to_core(e: FileSystemSandboxEntry, c: PathConvention) -> Result<
    CoreFileSystemSandboxEntry,
    PathConversionError,
> {
    match spec_v2_path_to_core(e.path, c) {
        Ok(path) => Ok(CoreFileSystemSandboxEntry { path, access: e.access.spec_to_core() }),
        Err(err) => Err(err),
    }
}

fn core_entry_to_v2(entry: CoreFileSystemSandboxEntry, c: PathConvention) -> (r: Result<
    FileSystemSandboxEntry,
    PathConversionError,
>)
    ensures
        r == spec_core_entry_to_v2(entry, c),
{
    match core_path_to_v2(entry.path, c) {
        Ok(path) => Ok(
            FileSystemSandboxEntry { path, access: FileSystemAccessMode::from(entry.access) },
        ),
        Err(err) => Err(err),
    }
}

fn v2_entry_to_core(entry: FileSystemSandboxEntry, c: PathConvention) -> (r: Result<
    CoreFileSystemSandboxEntry,
    PathConversionError,
>)
    ensures
        r == spec_v2_entry_to_core(entry, c),
{
    match v2_path_to_core(entry.path, c) {
        Ok(path) => Ok(CoreFileSystemSandboxEntry { path, access: entry.access.to_core() }),
        Err(err) => Err(err),
    }
}

/// Whether a core entry can be carried on the v2 wire under `c`.
pub open spec fn entry_representable(e: CoreFileSystemSandboxEntry, c: PathConvention) -> bool {
    spec_core_entry_to_v2(e, c) is Ok
}

/// The v2 entry of a representable core entry.
pub open spec fn v2_entry_of(e: CoreFileSystemSandboxEntry, c: PathConvention) -> FileSystemSandboxEntry {
    spec_core_entry_to_v2(e, c)->Ok_0
}

/// Reads each native path text in order; the first error, if any.
fn legacy_paths_to_uris(paths: Vec<LegacyAppPathString>, c: PathConvention) -> (r: Result<
    Vec<PathUri>,
    PathConversionError,
>)
    ensures
        r matches Ok(v) ==> try_map(paths@, |p: LegacyAppPathString| p.spec_to_path_uri(c)) == Ok::<
            Seq<PathUri>,
            PathConversionError,
        >(v@),
        r matches Err(e) ==> try_map(paths@, |p: LegacyAppPathString| p.spec_to_path_uri(c))
            == Err::<Seq<PathUri>, PathConversionError>(e),
{
    let ghost f = |p: LegacyAppPathString| p.spec_to_path_uri(c);
    let mut out: Vec<PathUri> = Vec::new();
    let ghost all = paths@;
    for p in it: paths.into_iter()
        invariant
            it.seq() == all,
            f == (|p: LegacyAppPathString| p.spec_to_path_uri(c)),
            try_map(it.seq().take(it.index() as int), f) == Ok::<
                Seq<PathUri>,
                PathConversionError,
            >(out@),
    {
        let ghost k = it.index() as int;
        proof {
            assert(it.seq().take(k + 1).drop_last() =~= it.seq().take(k));
            assert(it.seq().take(k + 1).last() == p);
        }
        match legacy_path_to_uri(p, c) {
            Ok(u) => out.push(u),
            Err(e) => {
                proof {
                    lemma_try_map_err_extends(it.seq(), f, k + 1);
                }
                return Err(e);
            },
        }
    }
    proof {
        assert(all.take(all.len() as int) =~= all);
    }
    Ok(out)
}

/// Moves into `out`, in order, each core entry read from a v2 entry; the first error, if
/// any.
fn v2_entries_to_core(entries: Vec<FileSystemSandboxEntry>, c: PathConvention) -> (r: Result<
    Vec<CoreFileSystemSandboxEntry>,
    PathConversionError,
>)
    ensures
        r matches Ok(v) ==> try_map(entries@, |e: FileSystemSandboxEntry| spec_v2_entry_to_core(e, c))
            == Ok::<Seq<CoreFileSystemSandboxEntry>, PathConversionError>(v@),
        r matches Err(e) ==> try_map(
            entries@,
            |e: FileSystemSandboxEntry| spec_v2_entry_to_core(e, c),
        ) == Err::<Seq<CoreFileSystemSandboxEntry>, PathConversionError>(e),
{
    let ghost f = |e: FileSystemSandboxEntry| spec_v2_entry_to_core(e, c);
    let mut out: Vec<CoreFileSystemSandboxEntry> = Vec::new();
    let ghost all = entries@;
    for e in it: entries.into_iter()
        invariant
            it.seq() == all,
            f == (|e: FileSystemSandboxEntry| spec_v2_entry_to_core(e, c)),
            try_map(it.seq().take(it.index() as int), f) == Ok::<
                Seq<CoreFileSystemSandboxEntry>,
                PathConversionError,
            >(out@),
    {
        let ghost k = it.index() as int;
        proof {
            assert(it.seq().take(k + 1).drop_last() =~= it.seq().take(k));
            assert(it.seq().take(k + 1).last() == e);
        }
        match v2_entry_to_core(e, c) {
            Ok(ce) => out.push(ce),
            Err(err) => {
                proof {
                    lemma_try_map_err_extends(it.seq(), f, k + 1);
                }
                return Err(err);
            },
        }
    }
    proof {
        assert(all.take(all.len() as int) =~= all);
    }
    Ok(out)
}

/// The v2 entry of each representable core entry, in order.
fn core_entries_to_v2(entries: Vec<CoreFileSystemSandboxEntry>, c: PathConvention) -> (r: Vec<
    FileSystemSandboxEntry,
>)
    requires
        forall|i: int| 0 <= i < entries@.len() ==> entry_representable(#[trigger] entries@[i], c),
    ensures
        r@ == entries@.map_values(|e: CoreFileSystemSandboxEntry| v2_entry_of(e, c)),
{
    let ghost all = entries@;
    let mut out: Vec<FileSystemSandboxEntry> = Vec::new();
    for e in it: entries.into_iter()
        invariant
            it.seq() == all,
            forall|i: int| 0 <= i < all.len() ==> entry_representable(#[trigger] all[i], c),
            out@ == all.take(it.index() as int).map_values(
                |e: CoreFileSystemSandboxEntry| v2_entry_of(e, c),
            ),
    {
        let ghost k = it.index() as int;
        proof {
            assert(all[k] == e);
        }
        match core_entry_to_v2(e, c) {
            Ok(ve) => {
                out.push(ve);
                proof {
                    assert(all.take(k + 1).map_values(
                        |e: CoreFileSystemSandboxEntry| v2_entry_of(e, c),
                    ) =~= all.take(k).map_values(
                        |e: CoreFileSystemSandboxEntry| v2_entry_of(e, c),
                    ).push(v2_entry_of(e, c)));
                }
            },
            Err(_) => {
                proof {
                    assert(false);
                }
            },
        }
    }
    proof {
        assert(all.take(all.len() as int) =~= all);
    }
    out
}

/// The native text of each representable core path, in order.
fn uris_to_legacy_paths(paths: &Vec<PathUri>, c: PathConvention) -> (r: Vec<LegacyAppPathString>)
    requires
        forall|i: int| 0 <= i < paths@.len() ==> uri_representable(#[trigger] paths@[i], c),
    ensures
        r@ == paths@.map_values(|p: PathUri| legacy_of(p, c)),
{
    let mut out: Vec<LegacyAppPathString> = Vec::new();
    let n = paths.len();
    for i in 0..n
        invariant
            n == paths@.len(),
            forall|i: int| 0 <= i < paths@.len() ==> uri_representable(#[trigger] paths@[i], c),
            out@ == paths@.take(i as int).map_values(|p: PathUri| legacy_of(p, c)),
    {
        proof {
            assert(uri_representable(paths@[i as int], c));
        }
        match uri_to_legacy_path(&paths[i], c) {
            Ok(l) => {
                out.push(l);
                proof {
                    assert(paths@.take(i + 1).map_values(|p: PathUri| legacy_of(p, c))
                        =~= paths@.take(i as int).map_values(|p: PathUri| legacy_of(p, c)).push(
                        legacy_of(paths@[i as int], c),
                    ));
                }
            },
            Err(_) => {
                proof {
                    assert(false);
                }
            },
        }
    }
    proof {
        assert(paths@.take(n as int) =~= paths@);
    }
    out
}

/// The v2 entry granting `access` on the native text of a representable core path.
pub open spec fn v2_path_entry(p: PathUri, access: FileSystemAccessMode, c: PathConvention) -> FileSystemSandboxEntry {
    FileSystemSandboxEntry { path: FileSystemPath::Path { path: legacy_of(p, c) }, access }
}

pub open spec fn v2_path_entries(
    paths: Seq<PathUri>,
    access: FileSystemAccessMode,
    c: PathConvention,
) -> Seq<FileSystemSandboxEntry> {
    paths.map_values(|p: PathUri| v2_path_entry(p, access, c))
}

/// Appends to `out` the v2 entry granting `access` on each representable core path.
fn append_v2_path_entries(
    out: &mut Vec<FileSystemSandboxEntry>,
    paths: &Vec<PathUri>,
    access: FileSystemAccessMode,
    c: PathConvention,
)
    requires
        forall|i: int| 0 <= i < paths@.len() ==> uri_representable(#[trigger] paths@[i], c),
    ensures
        final(out)@ == old(out)@ + v2_path_entries(paths@, access, c),
{
    let ghost start = out@;
    let n = paths.len();
    for i in 0..n
        invariant
            n == paths@.len(),
            forall|i: int| 0 <= i < paths@.len() ==> uri_representable(#[trigger] paths@[i], c),
            out@ == start + v2_path_entries(paths@.take(i as int), access, c),
    {
        proof {
            assert(uri_representable(paths@[i as int], c));
        }
        match uri_to_legacy_path(&paths[i], c) {
            Ok(l) => {
                out.push(FileSystemSandboxEntry { path: FileSystemPath::Path { path: l }, access });
                proof {
                    assert(v2_path_entries(paths@.take(i + 1), access, c) =~= v2_path_entries(
                        paths@.take(i as int),
                        access,
                        c,
                    ).push(v2_path_entry(paths@[i as int], access, c)));
                }
            },
            Err(_) => {
                proof {
                    assert(false);
                }
            },
        }
    }
    proof {
        assert(paths@.take(n as int) =~= paths@);
    }
}

/// Roots drawn from entries that can be carried on the wire can be carried too.
proof fn lemma_legacy_roots_representable(entries: Seq<CoreFileSystemSandboxEntry>, c: PathConvention)
    requires
        legacy_roots_of(entries) is Some,
        forall|i: int| 0 <= i < entries.len() ==> entry_representable(#[trigger] entries[i], c),
    ensures
        forall|i: int|
            0 <= i < legacy_roots_of(entries).unwrap().0.len() ==> uri_representable(
                #[trigger] legacy_roots_of(entries).unwrap().0[i],
                c,
            ),
        forall|i: int|
            0 <= i < legacy_roots_of(entries).unwrap().1.len() ==> uri_representable(
                #[trigger] legacy_roots_of(entries).unwrap().1[i],
                c,
            ),
    decreases entries.len(),
{
    if entries.len() > 0 {
        let rest = entries.drop_last();
        assert forall|i: int| 0 <= i < rest.len() implies entry_representable(
            #[trigger] rest[i],
            c,
        ) by {
            assert(rest[i] == entries[i]);
        }
        lemma_legacy_roots_representable(rest, c);
        assert(entry_representable(entries[entries.len() - 1], c));
    }
}

// ---------------------------------------------------------------------------
// Network approval
// ---------------------------------------------------------------------------

/// The protocol a network access that awaits approval uses.
#[derive(Clone, Copy, Debug, PartialEq, Eq, Structural)]
pub enum NetworkApprovalProtocol {
    Http,
    Https,
    Socks5Tcp,
    Socks5Udp,
}

impl From<CoreNetworkApprovalProtocol> for NetworkApprovalProtocol {
    fn from(value: CoreNetworkApprovalProtocol) -> (r: Self) {
        match value {
            CoreNetworkApprovalProtocol::Http => NetworkApprovalProtocol::Http,
            CoreNetworkApprovalProtocol::Https => NetworkApprovalProtocol::Https,
            CoreNetworkApprovalProtocol::Socks5Tcp => NetworkApprovalProtocol::Socks5Tcp,
            CoreNetworkApprovalProtocol::Socks5Udp => NetworkApprovalProtocol::Socks5Udp,
        }
    }
}

impl NetworkApprovalProtocol {
    pub open spec fn spec_from(value: CoreNetworkApprovalProtocol) -> Self {
        match value {
            CoreNetworkApprovalProtocol::Http => NetworkApprovalProtocol::Http,
            CoreNetworkApprovalProtocol::Https => NetworkApprovalProtocol::Https,
            CoreNetworkApprovalProtocol::Socks5Tcp => NetworkApprovalProtocol::Socks5Tcp,
            CoreNetworkApprovalProtocol::Socks5Udp => NetworkApprovalProtocol::Socks5Udp,
        }
    }
}

impl FromSpecImpl<CoreNetworkApprovalProtocol> for NetworkApprovalProtocol {
    open spec fn obeys_from_spec() -> bool {
        true
    }

    open spec fn from_spec(value: CoreNetworkApprovalProtocol) -> Self {
        NetworkApprovalProtocol::spec_from(value)
    }
}

impl NetworkApprovalProtocol {
    pub open spec fn spec_to_core(self) -> CoreNetworkApprovalProtocol {
        match self {
            NetworkApprovalProtocol::Http => CoreNetworkApprovalProtocol::Http,
            NetworkApprovalProtocol::Https => CoreNetworkApprovalProtocol::Https,
            NetworkApprovalProtocol::Socks5Tcp => CoreNetworkApprovalProtocol::Socks5Tcp,
            NetworkApprovalProtocol::Socks5Udp => CoreNetworkApprovalProtocol::Socks5Udp,
        }
    }

    pub fn to_core(&self) -> (r: CoreNetworkApprovalProtocol)
        ensures
            r == self.spec_to_core(),
    {
        match self {
            NetworkApprovalProtocol::Http => CoreNetworkApprovalProtocol::Http,
            NetworkApprovalProtocol::Https => CoreNetworkApprovalProtocol::Https,
            NetworkApprovalProtocol::Socks5Tcp => CoreNetworkApprovalProtocol::Socks5Tcp,
            NetworkApprovalProtocol::Socks5Udp => CoreNetworkApprovalProtocol::Socks5Udp,
        }
    }
}

/// A network access that awaits approval.
#[derive(Clone, Debug, PartialEq, Eq)]
pub struct NetworkApprovalContext {
    pub host: String,
    pub protocol: NetworkApprovalProtocol,
}

impl From<CoreNetworkApprovalContext> for NetworkApprovalContext {
    fn from(value: CoreNetworkApprovalContext) -> (r: Self) {
        NetworkApprovalContext {
            host: value.host,
            protocol: NetworkApprovalProtocol::from(value.protocol),
        }
    }
}

impl NetworkApprovalContext {
    pub open spec fn spec_from(value: CoreNetworkApprovalContext) -> Self {
        NetworkApprovalContext {
            host: value.host,
            protocol: NetworkApprovalProtocol::spec_from(value.protocol),
        }
    }
}

impl FromSpecImpl<CoreNetworkApprovalContext> for NetworkApprovalContext {
    open spec fn obeys_from_spec() -> bool {
        true
    }

    open spec fn from_spec(value: CoreNetworkApprovalContext) -> Self {
        NetworkApprovalContext::spec_from(value)
    }
}

// ---------------------------------------------------------------------------
// File-system entries
// ---------------------------------------------------------------------------

/// What a sandbox entry grants on its path.
#[derive(Clone, Copy, Debug, PartialEq, Eq, Structural)]
pub enum FileSystemAccessMode {
    Read,
    Write,
    Deny,
}

impl From<CoreFileSystemAccessMode> for FileSystemAccessMode {
    fn from(value: CoreFileSystemAccessMode) -> (r: Self) {
        match value {
            CoreFileSystemAccessMode::Read => FileSystemAccessMode::Read,
            CoreFileSystemAccessMode::Write => FileSystemAccessMode::Write,
            CoreFileSystemAccessMode::Deny => FileSystemAccessMode::Deny,
        }
    }
}

impl FileSystemAccessMode {
    pub open spec fn spec_from(value: CoreFileSystemAccessMode) -> Self {
        match value {
            CoreFileSystemAccessMode::Read => FileSystemAccessMode::Read,
            CoreFileSystemAccessMode::Write => FileSystemAccessMode::Write,
            CoreFileSystemAccessMode::Deny => FileSystemAccessMode::Deny,
        }
    }
}

impl FromSpecImpl<CoreFileSystemAccessMode> for FileSystemAccessMode {
    open spec fn obeys_from_spec() -> bool {
        true
    }

    open spec fn from_spec(value: CoreFileSystemAccessMode) -> Self {
        FileSystemAccessMode::spec_from(value)
    }
}

impl FileSystemAccessMode {
    pub open spec fn spec_to_core(self) -> CoreFileSystemAccessMode {
        match self {
            FileSystemAccessMode::Read => CoreFileSystemAccessMode::Read,
            FileSystemAccessMode::Write => CoreFileSystemAccessMode::Write,
            FileSystemAccessMode::Deny => CoreFileSystemAccessMode::Deny,
        }
    }

    pub fn to_core(&self) -> (r: CoreFileSystemAccessMode)
        ensures
            r == self.spec_to_core(),
    {
        match self {
            FileSystemAccessMode::Read => CoreFileSystemAccessMode::Read,
            FileSystemAccessMode::Write => CoreFileSystemAccessMode::Write,
            FileSystemAccessMode::Deny => CoreFileSystemAccessMode::Deny,
        }
    }
}

/// A location that the sandbox resolves when it is applied.
#[derive(Clone, Debug, PartialEq, Eq)]
pub enum FileSystemSpecialPath {
    Root,
    Minimal,
    ProjectRoots { subpath: Option<LegacyAppPathString> },
    Tmpdir,
    SlashTmp,
    Unknown { path: String, subpath: Option<LegacyAppPathString> },
}

pub open spec fn spec_legacy_subpath(s: Option<String>) -> Option<LegacyAppPathString> {
    match s {
        Some(s) => Some(LegacyAppPathString { value: s }),
        None => None,
    }
}

pub open spec fn spec_string_subpath(s: Option<LegacyAppPathString>) -> Option<String> {
    match s {
        Some(l) => Some(l.value),
        None => None,
    }
}

fn legacy_subpath(s: Option<String>) -> (r: Option<LegacyAppPathString>)
    ensures
        r == spec_legacy_subpath(s),
{
    match s {
        Some(s) => Some(LegacyAppPathString::new(s)),
        None => None,
    }
}

fn string_subpath(s: Option<LegacyAppPathString>) -> (r: Option<String>)
    ensures
        r == spec_string_subpath(s),
{
    match s {
        Some(l) => Some(l.into_string()),
        None => None,
    }
}

impl From<CoreFileSystemSpecialPath> for FileSystemSpecialPath {
    fn from(value: CoreFileSystemSpecialPath) -> (r: Self) {
        match value {
            CoreFileSystemSpecialPath::Root => FileSystemSpecialPath::Root,
            CoreFileSystemSpecialPath::Minimal => FileSystemSpecialPath::Minimal,
            CoreFileSystemSpecialPath::ProjectRoots { subpath } => FileSystemSpecialPath::ProjectRoots {
                subpath: legacy_subpath(subpath),
            },
            CoreFileSystemSpecialPath::Tmpdir => FileSystemSpecialPath::Tmpdir,
            CoreFileSystemSpecialPath::SlashTmp => FileSystemSpecialPath::SlashTmp,
            CoreFileSystemSpecialPath::Unknown { path, subpath } => FileSystemSpecialPath::Unknown {
                path,
                subpath: legacy_subpath(subpath),
            },
        }
    }
}

impl FileSystemSpecialPath {
    pub open spec fn spec_from(value: CoreFileSystemSpecialPath) -> Self {
        match value {
            CoreFileSystemSpecialPath::Root => FileSystemSpecialPath::Root,
            CoreFileSystemSpecialPath::Minimal => FileSystemSpecialPath::Minimal,
            CoreFileSystemSpecialPath::ProjectRoots { subpath } => FileSystemSpecialPath::ProjectRoots {
                subpath: spec_legacy_subpath(subpath),
            },
            CoreFileSystemSpecialPath::Tmpdir => FileSystemSpecialPath::Tmpdir,
            CoreFileSystemSpecialPath::SlashTmp => FileSystemSpecialPath::SlashTmp,
            CoreFileSystemSpecialPath::Unknown { path, subpath } => FileSystemSpecialPath::Unknown {
                path,
                subpath: spec_legacy_subpath(subpath),
            },
        }
    }
}

impl FromSpecImpl<CoreFileSystemSpecialPath> for FileSystemSpecialPath {
    open spec fn obeys_from_spec() -> bool {
        true
    }

    open spec fn from_spec(value: CoreFileSystemSpecialPath) -> Self {
        FileSystemSpecialPath::spec_from(value)
    }
}

impl From<FileSystemSpecialPath> for CoreFileSystemSpecialPath {
    fn from(value: FileSystemSpecialPath) -> (r: Self) {
        match value {
            FileSystemSpecialPath::Root => CoreFileSystemSpecialPath::Root,
            FileSystemSpecialPath::Minimal => CoreFileSystemSpecialPath::Minimal,
            FileSystemSpecialPath::ProjectRoots { subpath } => CoreFileSystemSpecialPath::ProjectRoots {
                subpath: string_subpath(subpath),
            },
            FileSystemSpecialPath::Tmpdir => CoreFileSystemSpecialPath::Tmpdir,
            FileSystemSpecialPath::SlashTmp => CoreFileSystemSpecialPath::SlashTmp,
            FileSystemSpecialPath::Unknown { path, subpath } => CoreFileSystemSpecialPath::Unknown {
                path,
                subpath: string_subpath(subpath),
            },
        }
    }
}

impl CoreFileSystemSpecialPath {
    pub open spec fn spec_from(value: FileSystemSpecialPath) -> Self {
        match value {
            FileSystemSpecialPath::Root => CoreFileSystemSpecialPath::Root,
            FileSystemSpecialPath::Minimal => CoreFileSystemSpecialPath::Minimal,
            FileSystemSpecialPath::ProjectRoots { subpath } => CoreFileSystemSpecialPath::ProjectRoots {
                subpath: spec_string_subpath(subpath),
            },
            FileSystemSpecialPath::Tmpdir => CoreFileSystemSpecialPath::Tmpdir,
            FileSystemSpecialPath::SlashTmp => CoreFileSystemSpecialPath::SlashTmp,
            FileSystemSpecialPath::Unknown { path, subpath } => CoreFileSystemSpecialPath::Unknown {
                path,
                subpath: spec_string_subpath(subpath),
            },
        }
    }
}

impl FromSpecImpl<FileSystemSpecialPath> for CoreFileSystemSpecialPath {
    open spec fn obeys_from_spec() -> bool {
        true
    }

    open spec fn from_spec(value: FileSystemSpecialPath) -> Self {
        CoreFileSystemSpecialPath::spec_from(value)
    }
}

/// The v2 wire form of a sandbox entry's path.
#[derive(Clone, Debug, PartialEq, Eq)]
pub enum FileSystemPath {
    Path { path: LegacyAppPathString },
    GlobPattern { pattern: String },
    Special { value: FileSystemSpecialPath },
}

impl FileSystemPath {
    /// The v2 form of a core path that can be written as native text under `c`.
    pub fn from_core(value: CoreFileSystemPath, c: PathConvention) -> (r: Self)
        requires
            spec_core_path_to_v2(value, c) is Ok,
        ensures
            r == spec_core_path_to_v2(value, c)->Ok_0,
    {
        match core_path_to_v2(value, c) {
            Ok(p) => p,
            Err(_) => {
                proof {
                    assert(false);
                }
                FileSystemPath::GlobPattern { pattern: String::new() }
            },
        }
    }

    /// The core form of this path; an error for native text that is not an absolute path
    /// under `c`.
    pub fn try_into_core(self, c: PathConvention) -> (r: Result<
        CoreFileSystemPath,
        PathConversionError,
    >)
        ensures
            r == spec_v2_path_to_core(self, c),
    {
        v2_path_to_core(self, c)
    }
}

/// One entry of a v2 file-system permission set.
#[derive(Clone, Debug, PartialEq, Eq)]
pub struct FileSystemSandboxEntry {
    pub path: FileSystemPath,
    pub access: FileSystemAccessMode,
}

impl FileSystemSandboxEntry {
    /// The v2 form of a core entry whose path can be written as native text under `c`.
    pub fn from_core(value: CoreFileSystemSandboxEntry, c: PathConvention) -> (r: Self)
        requires
            entry_representable(value, c),
        ensures
            r == v2_entry_of(value, c),
    {
        match core_entry_to_v2(value, c) {
            Ok(e) => e,
            Err(_) => {
                proof {
                    assert(false);
                }
                FileSystemSandboxEntry {
                    path: FileSystemPath::GlobPattern { pattern: String::new() },
                    access: FileSystemAccessMode::Deny,
                }
            },
        }
    }

    /// The core form of this entry; an error for native text that is not an absolute path
    /// under `c`.
    pub fn try_into_core(self, c: PathConvention) -> (r: Result<
        CoreFileSystemSandboxEntry,
        PathConversionError,
    >)
        ensures
            r == spec_v2_entry_to_core(self, c),
    {
        v2_entry_to_core(self, c)
    }
}

// ---------------------------------------------------------------------------
// Additional file-system permissions
// ---------------------------------------------------------------------------

/// File-system permissions on the v2 wire, either as `entries` or, in the older form, as
/// lists of readable and writable roots.
#[derive(Clone, Debug, PartialEq, Eq)]
pub struct AdditionalFileSystemPermissions {
    /// Readable roots, in the older form.
    pub read: Option<Vec<LegacyAppPathString>>,
    /// Writable roots, in the older form.
    pub write: Option<Vec<LegacyAppPathString>>,
    pub glob_scan_max_depth: Option<NonZeroDepth>,
    pub entries: Option<Vec<FileSystemSandboxEntry>>,
}

/// The contents of v2 file-system permissions.
pub struct AdditionalFileSystemPermissionsView {
    pub read: Option<Seq<LegacyAppPathString>>,
    pub write: Option<Seq<LegacyAppPathString>>,
    pub glob_scan_max_depth: Option<NonZeroDepth>,
    pub entries: Option<Seq<FileSystemSandboxEntry>>,
}

pub open spec fn opt_seq<T>(v: Option<Vec<T>>) -> Option<Seq<T>> {
    match v {
        Some(v) => Some(v@),
        None => None,
    }
}

impl View for AdditionalFileSystemPermissions {
    type V = AdditionalFileSystemPermissionsView;

    open spec fn view(&self) -> AdditionalFileSystemPermissionsView {
        AdditionalFileSystemPermissionsView {
            read: opt_seq(self.read),
            write: opt_seq(self.write),
            glob_scan_max_depth: self.glob_scan_max_depth,
            entries: opt_seq(self.entries),
        }
    }
}

/// Whether every path of core permissions can be written as native text under `c`.
pub open spec fn permissions_representable(p: FileSystemPermissionsView, c: PathConvention) -> bool {
    forall|i: int| 0 <= i < p.entries.len() ==> entry_representable(#[trigger] p.entries[i], c)
}

/// The native text of each of `paths`, absent when there is none.
pub open spec fn legacy_roots_field(paths: Seq<PathUri>, c: PathConvention) -> Option<
    Seq<LegacyAppPathString>,
> {
    if paths.len() > 0 {
        Some(paths.map_values(|p: PathUri| legacy_of(p, c)))
    } else {
        None
    }
}

/// The v2 form of representable core permissions: when they amount to readable and
/// writable roots, both those roots and the matching entries; otherwise the entries and
/// the glob depth limit.
pub open spec fn spec_additional_fs_from_core(p: FileSystemPermissionsView, c: PathConvention) -> AdditionalFileSystemPermissionsView {
    match p.legacy_roots() {
        Some((read, write)) => AdditionalFileSystemPermissionsView {
            read: legacy_roots_field(read, c),
            write: legacy_roots_field(write, c),
            glob_scan_max_depth: None,
            entries: Some(
                v2_path_entries(read, FileSystemAccessMode::Read, c) + v2_path_entries(
                    write,
                    FileSystemAccessMode::Write,
                    c,
                ),
            ),
        },
        None => AdditionalFileSystemPermissionsView {
            read: None,
            write: None,
            glob_scan_max_depth: p.glob_scan_max_depth,
            entries: Some(p.entries.map_values(|e: CoreFileSystemSandboxEntry| v2_entry_of(e, c))),
        },
    }
}

/// Reads an optional list of native path texts; absent reads as empty.
pub open spec fn spec_optional_roots_to_core(
    paths: Option<Seq<LegacyAppPathString>>,
    c: PathConvention,
) -> Result<Seq<PathUri>, PathConversionError> {
    match paths {
        Some(ps) => try_map(ps, |p: LegacyAppPathString| p.spec_to_path_uri(c)),
        None => Ok(Seq::empty()),
    }
}

/// The core form of v2 file-system permissions: the entries when present, otherwise read
/// access on each readable root followed by write access on each writable root; the glob
/// depth limit is kept. The first path that is not absolute under `c` is an error, the
/// readable roots being read before the writable ones.
pub open spec fn spec_additional_fs_to_core(
    p: AdditionalFileSystemPermissionsView,
    c: PathConvention,
) -> Result<FileSystemPermissionsView, PathConversionError> {
    match p.entries {
        Some(es) => match try_map(es, |e: FileSystemSandboxEntry| spec_v2_entry_to_core(e, c)) {
            Ok(ces) => Ok(
                FileSystemPermissionsView {
                    entries: ces,
                    glob_scan_max_depth: p.glob_scan_max_depth,
                },
            ),
            Err(e) => Err(e),
        },
        None => match spec_optional_roots_to_core(p.read, c) {
            Err(e) => Err(e),
            Ok(read) => match spec_optional_roots_to_core(p.write, c) {
                Err(e) => Err(e),
                Ok(write) => Ok(
                    FileSystemPermissionsView {
                        entries: path_entries(read, CoreFileSystemAccessMode::Read) + path_entries(
                            write,
                            CoreFileSystemAccessMode::Write,
                        ),
                        glob_scan_max_depth: p.glob_scan_max_depth,
                    },
                ),
            },
        },
    }
}

/// Reads an optional list of native path texts, keeping it absent when absent.
fn optional_roots_to_core(paths: Option<Vec<LegacyAppPathString>>, c: PathConvention) -> (r:
    Result<Option<Vec<PathUri>>, PathConversionError>)
    ensures
        r matches Ok(v) ==> spec_optional_roots_to_core(opt_seq(paths), c) == Ok::<
            Seq<PathUri>,
            PathConversionError,
        >(roots_of(v)) && (v is Some <==> paths is Some),
        r matches Err(e) ==> spec_optional_roots_to_core(opt_seq(paths), c) == Err::<
            Seq<PathUri>,
            PathConversionError,
        >(e),
{
    match paths {
        Some(ps) => match legacy_paths_to_uris(ps, c) {
            Ok(v) => Ok(Some(v)),
            Err(e) => Err(e),
        },
        None => Ok(None),
    }
}

impl AdditionalFileSystemPermissions {
    /// The v2 form of core permissions whose paths can all be written as native text
    /// under `c`.
    pub fn from_core(value: CoreFileSystemPermissions, c: PathConvention) -> (r: Self)
        requires
            permissions_representable(value@, c),
        ensures
            r@ == spec_additional_fs_from_core(value@, c),
    {
        if let Some(LegacyReadWriteRoots { read, write }) = value.legacy_read_write_roots() {
            proof {
                lemma_legacy_roots_representable(value.entries@, c);
            }
            let mut entries: Vec<FileSystemSandboxEntry> = Vec::new();
            if let Some(paths) = &read {
                append_v2_path_entries(&mut entries, paths, FileSystemAccessMode::Read, c);
            }
            let ghost after_read = entries@;
            if let Some(paths) = &write {
                append_v2_path_entries(&mut entries, paths, FileSystemAccessMode::Write, c);
            }
            proof {
                assert(after_read =~= v2_path_entries(roots_of(read), FileSystemAccessMode::Read, c));
                assert(entries@ =~= v2_path_entries(roots_of(read), FileSystemAccessMode::Read, c)
                    + v2_path_entries(roots_of(write), FileSystemAccessMode::Write, c));
            }
            let read_field = match &read {
                Some(paths) => Some(uris_to_legacy_paths(paths, c)),
                None => None,
            };
            let write_field = match &write {
                Some(paths) => Some(uris_to_legacy_paths(paths, c)),
                None => None,
            };
            AdditionalFileSystemPermissions {
                read: read_field,
                write: write_field,
                glob_scan_max_depth: None,
                entries: Some(entries),
            }
        } else {
            let glob_scan_max_depth = value.glob_scan_max_depth;
            AdditionalFileSystemPermissions {
                read: None,
                write: None,
                glob_scan_max_depth,
                entries: Some(core_entries_to_v2(value.entries, c)),
            }
        }
    }

    /// The core form of these permissions; an error for the first native path text that is
    /// not absolute under `c`.
    pub fn try_into_core(self, c: PathConvention) -> (r: Result<
        CoreFileSystemPermissions,
        PathConversionError,
    >)
        ensures
            r matches Ok(p) ==> spec_additional_fs_to_core(self@, c) == Ok::<
                FileSystemPermissionsView,
                PathConversionError,
            >(p@),
            r matches Err(e) ==> spec_additional_fs_to_core(self@, c) == Err::<
                FileSystemPermissionsView,
                PathConversionError,
            >(e),
    {
        let ghost v = self@;
        let glob_scan_max_depth = self.glob_scan_max_depth;
        let mut permissions = if let Some(entries) = self.entries {
            match v2_entries_to_core(entries, c) {
                Ok(es) => CoreFileSystemPermissions { entries: es, glob_scan_max_depth: None },
                Err(e) => {
                    return Err(e);
                },
            }
        } else {
            let read = match optional_roots_to_core(self.read, c) {
                Ok(r) => r,
                Err(e) => {
                    return Err(e);
                },
            };
            let write = match optional_roots_to_core(self.write, c) {
                Ok(w) => w,
                Err(e) => {
                    return Err(e);
                },
            };
            CoreFileSystemPermissions::from_read_write_roots(read, write)
        };
        permissions.glob_scan_max_depth = glob_scan_max_depth;
        Ok(permissions)
    }
}

// ---------------------------------------------------------------------------
// Network permissions and permission profiles
// ---------------------------------------------------------------------------

/// Whether network access is granted.
#[derive(Clone, Copy, Debug, PartialEq, Eq, Structural)]
pub struct AdditionalNetworkPermissions {
    pub enabled: Option<bool>,
}

impl From<CoreNetworkPermissions> for AdditionalNetworkPermissions {
    fn from(value: CoreNetworkPermissions) -> (r: Self) {
        AdditionalNetworkPermissions { enabled: value.enabled }
    }
}

impl AdditionalNetworkPermissions {
    pub open spec fn spec_from(value: CoreNetworkPermissions) -> Self {
        AdditionalNetworkPermissions { enabled: value.enabled }
    }
}

impl FromSpecImpl<CoreNetworkPermissions> for AdditionalNetworkPermissions {
    open spec fn obeys_from_spec() -> bool {
        true
    }

    open spec fn from_spec(value: CoreNetworkPermissions) -> Self {
        AdditionalNetworkPermissions::spec_from(value)
    }
}

impl From<AdditionalNetworkPermissions> for CoreNetworkPermissions {
    fn from(value: AdditionalNetworkPermissions) -> (r: Self) {
        CoreNetworkPermissions { enabled: value.enabled }
    }
}

impl CoreNetworkPermissions {
    pub open spec fn spec_from(value: AdditionalNetworkPermissions) -> Self {
        CoreNetworkPermissions { enabled: value.enabled }
    }
}

impl FromSpecImpl<AdditionalNetworkPermissions> for CoreNetworkPermissions {
    open spec fn obeys_from_spec() -> bool {
        true
    }

    open spec fn from_spec(value: AdditionalNetworkPermissions) -> Self {
        CoreNetworkPermissions::spec_from(value)
    }
}

pub open spec fn spec_network_from_core(n: Option<CoreNetworkPermissions>) -> Option<
    AdditionalNetworkPermissions,
> {
    match n {
        Some(n) => Some(AdditionalNetworkPermissions::spec_from(n)),
        None => None,
    }
}

pub open spec fn spec_network_to_core(n: Option<AdditionalNetworkPermissions>) -> Option<
    CoreNetworkPermissions,
> {
    match n {
        Some(n) => Some(CoreNetworkPermissions::spec_from(n)),
        None => None,
    }
}

fn network_from_core(n: Option<CoreNetworkPermissions>) -> (r: Option<AdditionalNetworkPermissions>)
    ensures
        r == spec_network_from_core(n),
{
    match n {
        Some(n) => Some(AdditionalNetworkPermissions::from(n)),
        None => None,
    }
}

fn network_to_core(n: Option<AdditionalNetworkPermissions>) -> (r: Option<CoreNetworkPermissions>)
    ensures
        r == spec_network_to_core(n),
{
    match n {
        Some(n) => Some(CoreNetworkPermissions::from(n)),
        None => None,
    }
}

/// Whether the paths of optional core file-system permissions can be carried on the v2
/// wire under `c`.
pub open spec fn optional_permissions_representable(
    p: Option<CoreFileSystemPermissions>,
    c: PathConvention,
) -> bool {
    p matches Some(fs) ==> permissions_representable(fs@, c)
}

/// `v2` is the v2 form of the optional core file-system permissions `core`.
pub open spec fn file_system_from_core_matches(
    v2: Option<AdditionalFileSystemPermissions>,
    core: Option<CoreFileSystemPermissions>,
    c: PathConvention,
) -> bool {
    &&& (v2 is Some <==> core is Some)
    &&& (v2 matches Some(f) ==> f@ == spec_additional_fs_from_core(core->Some_0@, c))
}

/// The outcome of converting optional v2 file-system permissions to the core form.
pub open spec fn spec_file_system_to_core(
    v2: Option<AdditionalFileSystemPermissions>,
    c: PathConvention,
) -> Result<Option<FileSystemPermissionsView>, PathConversionError> {
    match v2 {
        None => Ok(None),
        Some(f) => match spec_additional_fs_to_core(f@, c) {
            Ok(p) => Ok(Some(p)),
            Err(e) => Err(e),
        },
    }
}

pub open spec fn opt_permissions_view(p: Option<CoreFileSystemPermissions>) -> Option<
    FileSystemPermissionsView,
> {
    match p {
        Some(p) => Some(p@),
        None => None,
    }
}

fn file_system_from_core(p: Option<CoreFileSystemPermissions>, c: PathConvention) -> (r: Option<
    AdditionalFileSystemPermissions,
>)
    requires
        optional_permissions_representable(p, c),
    ensures
        file_system_from_core_matches(r, p, c),
{
    match p {
        Some(fs) => Some(AdditionalFileSystemPermissions::from_core(fs, c)),
        None => None,
    }
}

fn file_system_to_core(p: Option<AdditionalFileSystemPermissions>, c: PathConvention) -> (r:
    Result<Option<CoreFileSystemPermissions>, PathConversionError>)
    ensures
        r matches Ok(v) ==> spec_file_system_to_core(p, c) == Ok::<
            Option<FileSystemPermissionsView>,
            PathConversionError,
        >(opt_permissions_view(v)),
        r matches Err(e) ==> spec_file_system_to_core(p, c) == Err::<
            Option<FileSystemPermissionsView>,
            PathConversionError,
        >(e),
{
    match p {
        Some(f) => match f.try_into_core(c) {
            Ok(fs) => Ok(Some(fs)),
            Err(e) => Err(e),
        },
        None => Ok(None),
    }
}

/// Permissions that a command asks for, on the v2 wire.
#[derive(Clone, Debug, PartialEq, Eq)]
pub struct RequestPermissionProfile {
    pub network: Option<AdditionalNetworkPermissions>,
    pub file_system: Option<AdditionalFileSystemPermissions>,
}

impl RequestPermissionProfile {
    /// The v2 form of a core request whose paths can be written as native text under `c`.
    pub fn from_core(value: CoreRequestPermissionProfile, c: PathConvention) -> (r: Self)
        requires
            optional_permissions_representable(value.file_system, c),
        ensures
            r.network == spec_network_from_core(value.network),
            file_system_from_core_matches(r.file_system, value.file_system, c),
    {
        RequestPermissionProfile {
            network: network_from_core(value.network),
            file_system: file_system_from_core(value.file_system, c),
        }
    }

    /// The core form of this request; an error for the first native path text that is not
    /// absolute under `c`.
    pub fn try_into_core(self, c: PathConvention) -> (r: Result<
        CoreRequestPermissionProfile,
        PathConversionError,
    >)
        ensures
            r matches Ok(p) ==> p.network == spec_network_to_core(self.network)
                && spec_file_system_to_core(self.file_system, c) == Ok::<
                Option<FileSystemPermissionsView>,
                PathConversionError,
            >(opt_permissions_view(p.file_system)),
            r matches Err(e) ==> spec_file_system_to_core(self.file_system, c) == Err::<
                Option<FileSystemPermissionsView>,
                PathConversionError,
            >(e),
    {
        let network = network_to_core(self.network);
        match file_system_to_core(self.file_system, c) {
            Ok(file_system) => Ok(CoreRequestPermissionProfile { network, file_system }),
            Err(e) => Err(e),
        }
    }
}

/// A page request for the list of permission profiles.
#[derive(Clone, Debug, PartialEq, Eq)]
pub struct PermissionProfileListParams {
    /// Opaque pagination cursor returned by a previous call.
    pub cursor: Option<String>,
    /// Optional page size; defaults to the full result set.
    pub limit: Option<u32>,
    /// Optional working directory to resolve project config layers.
    pub cwd: Option<String>,
}

impl Default for PermissionProfileListParams {
    fn default() -> (r: Self)
        ensures
            r.cursor is None && r.limit is None && r.cwd is None,
    {
        PermissionProfileListParams { cursor: None, limit: None, cwd: None }
    }
}

/// One selectable permission profile.
#[derive(Clone, Debug, PartialEq, Eq)]
pub struct PermissionProfileSummary {
    /// Available permission profile identifier.
    pub id: String,
    /// Optional user-facing description for display in clients.
    pub description: Option<String>,
    /// Whether the effective requirements allow selecting this profile.
    pub allowed: bool,
}

/// A page of the list of permission profiles.
#[derive(Clone, Debug, PartialEq, Eq)]
pub struct PermissionProfileListResponse {
    pub data: Vec<PermissionProfileSummary>,
    /// Opaque cursor to pass to the next call to continue after the last item; absent when
    /// there are no more items.
    pub next_cursor: Option<String>,
}

/// The permission profile in effect.
#[derive(Clone, Debug, PartialEq, Eq)]
pub struct ActivePermissionProfile {
    /// Identifier of the profile, such as `:workspace` or a user-defined profile.
    pub id: String,
    /// Identifier of the profile this one extends, when present.
    pub extends: Option<String>,
}

impl ActivePermissionProfile {
    /// The profile `id`, extending no other profile.
    pub fn new(id: String) -> (r: Self)
        ensures
            r.id == id,
            r.extends is None,
    {
        ActivePermissionProfile { id, extends: None }
    }

    /// The built-in read-only profile.
    pub fn read_only() -> (r: Self)
        ensures
            r.id@ == crate::protocol::read_only_profile_id(),
            r.extends is None,
    {
        ActivePermissionProfile::from(CoreActivePermissionProfile::read_only())
    }
}

impl From<CoreActivePermissionProfile> for ActivePermissionProfile {
    fn from(value: CoreActivePermissionProfile) -> (r: Self) {
        ActivePermissionProfile { id: value.id, extends: value.extends }
    }
}

impl ActivePermissionProfile {
    pub open spec fn spec_from(value: CoreActivePermissionProfile) -> Self {
        ActivePermissionProfile { id: value.id, extends: value.extends }
    }
}

impl FromSpecImpl<CoreActivePermissionProfile> for ActivePermissionProfile {
    open spec fn obeys_from_spec() -> bool {
        true
    }

    open spec fn from_spec(value: CoreActivePermissionProfile) -> Self {
        ActivePermissionProfile::spec_from(value)
    }
}

impl From<ActivePermissionProfile> for CoreActivePermissionProfile {
    fn from(value: ActivePermissionProfile) -> (r: Self) {
        CoreActivePermissionProfile { id: value.id, extends: value.extends }
    }
}

impl CoreActivePermissionProfile {
    pub open spec fn spec_from(value: ActivePermissionProfile) -> Self {
        CoreActivePermissionProfile { id: value.id, extends: value.extends }
    }
}

impl FromSpecImpl<ActivePermissionProfile> for CoreActivePermissionProfile {
    open spec fn obeys_from_spec() -> bool {
        true
    }

    open spec fn from_spec(value: ActivePermissionProfile) -> Self {
        CoreActivePermissionProfile::spec_from(value)
    }
}

/// A partial overlay of permissions for a single command, on the v2 wire.
#[derive(Clone, Debug, PartialEq, Eq)]
pub struct AdditionalPermissionProfile {
    pub network: Option<AdditionalNetworkPermissions>,
    pub file_system: Option<AdditionalFileSystemPermissions>,
}

impl AdditionalPermissionProfile {
    /// The v2 form of a core overlay whose paths can be written as native text under `c`.
    pub fn from_core(value: CoreAdditionalPermissionProfile, c: PathConvention) -> (r: Self)
        requires
            optional_permissions_representable(value.file_system, c),
        ensures
            r.network == spec_network_from_core(value.network),
            file_system_from_core_matches(r.file_system, value.file_system, c),
    {
        AdditionalPermissionProfile {
            network: network_from_core(value.network),
            file_system: file_system_from_core(value.file_system, c),
        }
    }

    /// The core form of this overlay; an error for the first native path text that is not
    /// absolute under `c`.
    pub fn try_into_core(self, c: PathConvention) -> (r: Result<
        CoreAdditionalPermissionProfile,
        PathConversionError,
    >)
        ensures
            r matches Ok(p) ==> p.network == spec_network_to_core(self.network)
                && spec_file_system_to_core(self.file_system, c) == Ok::<
                Option<FileSystemPermissionsView>,
                PathConversionError,
            >(opt_permissions_view(p.file_system)),
            r matches Err(e) ==> spec_file_system_to_core(self.file_system, c) == Err::<
                Option<FileSystemPermissionsView>,
                PathConversionError,
            >(e),
    {
        let network = network_to_core(self.network);
        match file_system_to_core(self.file_system, c) {
            Ok(file_system) => Ok(CoreAdditionalPermissionProfile { network, file_system }),
            Err(e) => Err(e),
        }
    }
}

/// The permissions the user granted, on the v2 wire.
#[derive(Clone, Debug, PartialEq, Eq)]
pub struct GrantedPermissionProfile {
    pub network: Option<AdditionalNetworkPermissions>,
    pub file_system: Option<AdditionalFileSystemPermissions>,
}

impl Default for GrantedPermissionProfile {
    fn default() -> (r: Self)
        ensures
            r.network is None && r.file_system is None,
    {
        GrantedPermissionProfile { network: None, file_system: None }
    }
}

impl GrantedPermissionProfile {
    /// The core overlay these granted permissions amount to; an error for the first native
    /// path text that is not absolute under `c`.
    pub fn try_into_core(self, c: PathConvention) -> (r: Result<
        CoreAdditionalPermissionProfile,
        PathConversionError,
    >)
        ensures
            r matches Ok(p) ==> p.network == spec_network_to_core(self.network)
                && spec_file_system_to_core(self.file_system, c) == Ok::<
                Option<FileSystemPermissionsView>,
                PathConversionError,
            >(opt_permissions_view(p.file_system)),
            r matches Err(e) ==> spec_file_system_to_core(self.file_system, c) == Err::<
                Option<FileSystemPermissionsView>,
                PathConversionError,
            >(e),
    {
        let network = network_to_core(self.network);
        match file_system_to_core(self.file_system, c) {
            Ok(file_system) => Ok(CoreAdditionalPermissionProfile { network, file_system }),
            Err(e) => Err(e),
        }
    }
}

// ---------------------------------------------------------------------------
// Sandbox policy
// ---------------------------------------------------------------------------

/// Network access inside an external sandbox.
#[derive(Clone, Copy, Debug, PartialEq, Eq, Structural)]
pub enum NetworkAccess {
    Restricted,
    Enabled,
}

impl Default for NetworkAccess {
    fn default() -> (r: Self)
        ensures
            r == NetworkAccess::Restricted,
    {
        NetworkAccess::Restricted
    }
}

impl NetworkAccess {
    pub open spec fn spec_to_core(self) -> CoreNetworkAccess {
        match self {
            NetworkAccess::Restricted => CoreNetworkAccess::Restricted,
            NetworkAccess::Enabled => CoreNetworkAccess::Enabled,
        }
    }

    pub open spec fn spec_from_core(value: CoreNetworkAccess) -> NetworkAccess {
        match value {
            CoreNetworkAccess::Restricted => NetworkAccess::Restricted,
            CoreNetworkAccess::Enabled => NetworkAccess::Enabled,
        }
    }
}

/// How commands are sandboxed, on the v2 wire.
#[derive(Clone, Debug, PartialEq, Eq)]
pub enum SandboxPolicy {
    DangerFullAccess,
    ReadOnly { network_access: bool },
    ExternalSandbox { network_access: NetworkAccess },
    WorkspaceWrite {
        writable_roots: Vec<AbsolutePathBuf>,
        network_access: bool,
        exclude_tmpdir_env_var: bool,
        exclude_slash_tmp: bool,
    },
}

impl View for SandboxPolicy {
    type V = SandboxPolicyView;

    /// The contents of this policy, in the core vocabulary.
    open spec fn view(&self) -> SandboxPolicyView {
        match self {
            SandboxPolicy::DangerFullAccess => SandboxPolicyView::DangerFullAccess,
            SandboxPolicy::ReadOnly { network_access } => SandboxPolicyView::ReadOnly {
                network_access: *network_access,
            },
            SandboxPolicy::ExternalSandbox { network_access } => SandboxPolicyView::ExternalSandbox {
                network_access: network_access.spec_to_core(),
            },
            SandboxPolicy::WorkspaceWrite {
                writable_roots,
                network_access,
                exclude_tmpdir_env_var,
                exclude_slash_tmp,
            } => SandboxPolicyView::WorkspaceWrite {
                writable_roots: writable_roots@,
                network_access: *network_access,
                exclude_tmpdir_env_var: *exclude_tmpdir_env_var,
                exclude_slash_tmp: *exclude_slash_tmp,
            },
        }
    }
}

fn copy_paths(paths: &Vec<AbsolutePathBuf>) -> (r: Vec<AbsolutePathBuf>)
    ensures
        r@ == paths@,
{
    let mut out: Vec<AbsolutePathBuf> = Vec::new();
    let n = paths.len();
    for i in 0..n
        invariant
            n == paths@.len(),
            out@ == paths@.take(i as int),
    {
        out.push(paths[i].copy());
        proof {
            assert(paths@.take(i + 1) =~= paths@.take(i as int).push(paths@[i as int]));
        }
    }
    proof {
        assert(paths@.take(n as int) =~= paths@);
    }
    out
}

impl SandboxPolicy {
    /// The same policy in the core vocabulary.
    pub fn to_core(&self) -> (r: CoreSandboxPolicy)
        ensures
            r@ == self@,
            sandbox_policy_fields_kept(*self, r),
    {
        match self {
            SandboxPolicy::DangerFullAccess => CoreSandboxPolicy::DangerFullAccess,
            SandboxPolicy::ReadOnly { network_access } => CoreSandboxPolicy::ReadOnly {
                network_access: *network_access,
            },
            SandboxPolicy::ExternalSandbox { network_access } => CoreSandboxPolicy::ExternalSandbox {
                network_access: match network_access {
                    NetworkAccess::Restricted => CoreNetworkAccess::Restricted,
                    NetworkAccess::Enabled => CoreNetworkAccess::Enabled,
                },
            },
            SandboxPolicy::WorkspaceWrite {
                writable_roots,
                network_access,
                exclude_tmpdir_env_var,
                exclude_slash_tmp,
            } => CoreSandboxPolicy::WorkspaceWrite {
                writable_roots: copy_paths(writable_roots),
                network_access: *network_access,
                exclude_tmpdir_env_var: *exclude_tmpdir_env_var,
                exclude_slash_tmp: *exclude_slash_tmp,
            },
        }
    }
}

impl From<CoreSandboxPolicy> for SandboxPolicy {
    fn from(value: CoreSandboxPolicy) -> (r: Self) {
        match value {
            CoreSandboxPolicy::DangerFullAccess => SandboxPolicy::DangerFullAccess,
            CoreSandboxPolicy::ReadOnly { network_access } => SandboxPolicy::ReadOnly {
                network_access,
            },
            CoreSandboxPolicy::ExternalSandbox { network_access } => SandboxPolicy::ExternalSandbox {
                network_access: match network_access {
                    CoreNetworkAccess::Restricted => NetworkAccess::Restricted,
                    CoreNetworkAccess::Enabled => NetworkAccess::Enabled,
                },
            },
            CoreSandboxPolicy::WorkspaceWrite {
                writable_roots,
                network_access,
                exclude_tmpdir_env_var,
                exclude_slash_tmp,
            } => SandboxPolicy::WorkspaceWrite {
                writable_roots,
                network_access,
                exclude_tmpdir_env_var,
                exclude_slash_tmp,
            },
        }
    }
}

impl SandboxPolicy {
    pub open spec fn spec_from(value: CoreSandboxPolicy) -> Self {
        match value {
            CoreSandboxPolicy::DangerFullAccess => SandboxPolicy::DangerFullAccess,
            CoreSandboxPolicy::ReadOnly { network_access } => SandboxPolicy::ReadOnly {
                network_access,
            },
            CoreSandboxPolicy::ExternalSandbox { network_access } => SandboxPolicy::ExternalSandbox {
                network_access: NetworkAccess::spec_from_core(network_access),
            },
            CoreSandboxPolicy::WorkspaceWrite {
                writable_roots,
                network_access,
                exclude_tmpdir_env_var,
                exclude_slash_tmp,
            } => SandboxPolicy::WorkspaceWrite {
                writable_roots,
                network_access,
                exclude_tmpdir_env_var,
                exclude_slash_tmp,
            },
        }
    }
}

impl FromSpecImpl<CoreSandboxPolicy> for SandboxPolicy {
    open spec fn obeys_from_spec() -> bool {
        true
    }

    open spec fn from_spec(value: CoreSandboxPolicy) -> Self {
        SandboxPolicy::spec_from(value)
    }
}

/// How read access was configured by older clients.
#[derive(Clone, Copy, Debug, PartialEq, Eq, Structural)]
pub enum LegacyReadOnlyAccess {
    FullAccess,
    Restricted,
}

/// A sandbox policy as it is read from the wire, before the fields that are no longer
/// supported are checked.
#[derive(Clone, Debug, PartialEq, Eq)]
pub enum SandboxPolicyDeserialize {
    DangerFullAccess,
    ReadOnly { network_access: bool, access: Option<LegacyReadOnlyAccess> },
    ExternalSandbox { network_access: NetworkAccess },
    WorkspaceWrite {
        writable_roots: Vec<AbsolutePathBuf>,
        read_only_access: Option<LegacyReadOnlyAccess>,
        network_access: bool,
        exclude_tmpdir_env_var: bool,
        exclude_slash_tmp: bool,
    },
}

/// A sandbox policy on the wire that asks for restricted reads, which are no longer
/// supported.
#[derive(Clone, Copy, Debug, PartialEq, Eq, Structural)]
pub enum SandboxPolicyError {
    /// `readOnly.access` asked for restricted reads.
    RestrictedReadOnlyAccess,
    /// `workspaceWrite.readOnlyAccess` asked for restricted reads.
    RestrictedWorkspaceWriteReadAccess,
}

pub open spec fn restricted_read_only_message() -> Seq<char> {
    "readOnly.access is no longer supported; use permissionProfile for restricted reads"@
}

pub open spec fn restricted_workspace_write_message() -> Seq<char> {
    "workspaceWrite.readOnlyAccess is no longer supported; use permissionProfile for restricted reads"@
}

impl SandboxPolicyError {
    /// The message to report for this error.
    pub fn message(&self) -> (r: String)
        ensures
            r@ == match self {
                SandboxPolicyError::RestrictedReadOnlyAccess => restricted_read_only_message(),
                SandboxPolicyError::RestrictedWorkspaceWriteReadAccess => restricted_workspace_write_message(),
            },
    {
        match self {
            SandboxPolicyError::RestrictedReadOnlyAccess => String::from_str(
                "readOnly.access is no longer supported; use permissionProfile for restricted reads",
            ),
            SandboxPolicyError::RestrictedWorkspaceWriteReadAccess => String::from_str(
                "workspaceWrite.readOnlyAccess is no longer supported; use permissionProfile for restricted reads",
            ),
        }
    }
}

impl SandboxPolicy {
    /// The policy read from the wire: restricted read access, which is no longer
    /// supported, is an error; every other field is kept.
    pub fn from_deserialized(value: SandboxPolicyDeserialize) -> (r: Result<
        SandboxPolicy,
        SandboxPolicyError,
    >)
        ensures
            match value {
                SandboxPolicyDeserialize::DangerFullAccess => r == Ok::<
                    SandboxPolicy,
                    SandboxPolicyError,
                >(SandboxPolicy::DangerFullAccess),
                SandboxPolicyDeserialize::ReadOnly { network_access, access } => if access
                    == Some(LegacyReadOnlyAccess::Restricted) {
                    r == Err::<SandboxPolicy, SandboxPolicyError>(
                        SandboxPolicyError::RestrictedReadOnlyAccess,
                    )
                } else {
                    r == Ok::<SandboxPolicy, SandboxPolicyError>(
                        SandboxPolicy::ReadOnly { network_access },
                    )
                },
                SandboxPolicyDeserialize::ExternalSandbox { network_access } => r == Ok::<
                    SandboxPolicy,
                    SandboxPolicyError,
                >(SandboxPolicy::ExternalSandbox { network_access }),
                SandboxPolicyDeserialize::WorkspaceWrite {
                    writable_roots,
                    read_only_access,
                    network_access,
                    exclude_tmpdir_env_var,
                    exclude_slash_tmp,
                } => if read_only_access == Some(LegacyReadOnlyAccess::Restricted) {
                    r == Err::<SandboxPolicy, SandboxPolicyError>(
                        SandboxPolicyError::RestrictedWorkspaceWriteReadAccess,
                    )
                } else {
                    r == Ok::<SandboxPolicy, SandboxPolicyError>(
                        SandboxPolicy::WorkspaceWrite {
                            writable_roots,
                            network_access,
                            exclude_tmpdir_env_var,
                            exclude_slash_tmp,
                        },
                    )
                },
            },
    {
        match value {
            SandboxPolicyDeserialize::DangerFullAccess => Ok(SandboxPolicy::DangerFullAccess),
            SandboxPolicyDeserialize::ReadOnly { network_access, access } => {
                if matches!(access, Some(LegacyReadOnlyAccess::Restricted)) {
                    return Err(SandboxPolicyError::RestrictedReadOnlyAccess);
                }
                Ok(SandboxPolicy::ReadOnly { network_access })
            },
            SandboxPolicyDeserialize::ExternalSandbox { network_access } => {
                Ok(SandboxPolicy::ExternalSandbox { network_access })
            },
            SandboxPolicyDeserialize::WorkspaceWrite {
                writable_roots,
                read_only_access,
                network_access,
                exclude_tmpdir_env_var,
                exclude_slash_tmp,
            } => {
                if matches!(read_only_access, Some(LegacyReadOnlyAccess::Restricted)) {
                    return Err(SandboxPolicyError::RestrictedWorkspaceWriteReadAccess);
                }
                Ok(
                    SandboxPolicy::WorkspaceWrite {
                        writable_roots,
                        network_access,
                        exclude_tmpdir_env_var,
                        exclude_slash_tmp,
                    },
                )
            },
        }
    }
}

// ---------------------------------------------------------------------------
// Policy amendments
// ---------------------------------------------------------------------------

/// A command prefix to allow from now on, on the v2 wire.
#[derive(Clone, Debug, PartialEq, Eq)]
pub struct ExecPolicyAmendment {
    pub command: Vec<String>,
}

impl ExecPolicyAmendment {
    /// The same amendment in the core vocabulary.
    pub fn into_core(self) -> (r: CoreExecPolicyAmendment)
        ensures
            r.command == self.command,
    {
        CoreExecPolicyAmendment::new(self.command)
    }
}

impl From<CoreExecPolicyAmendment> for ExecPolicyAmendment {
    fn from(value: CoreExecPolicyAmendment) -> (r: Self) {
        ExecPolicyAmendment { command: value.command }
    }
}

impl ExecPolicyAmendment {
    pub open spec fn spec_from(value: CoreExecPolicyAmendment) -> Self {
        ExecPolicyAmendment { command: value.command }
    }
}

impl FromSpecImpl<CoreExecPolicyAmendment> for ExecPolicyAmendment {
    open spec fn obeys_from_spec() -> bool {
        true
    }

    open spec fn from_spec(value: CoreExecPolicyAmendment) -> Self {
        ExecPolicyAmendment::spec_from(value)
    }
}

/// Whether a network rule allows or denies its host, on the v2 wire.
#[derive(Clone, Copy, Debug, PartialEq, Eq, Structural)]
pub enum NetworkPolicyRuleAction {
    Allow,
    Deny,
}

impl From<CoreNetworkPolicyRuleAction> for NetworkPolicyRuleAction {
    fn from(value: CoreNetworkPolicyRuleAction) -> (r: Self) {
        match value {
            CoreNetworkPolicyRuleAction::Allow => NetworkPolicyRuleAction::Allow,
            CoreNetworkPolicyRuleAction::Deny => NetworkPolicyRuleAction::Deny,
        }
    }
}

impl NetworkPolicyRuleAction {
    pub open spec fn spec_from(value: CoreNetworkPolicyRuleAction) -> Self {
        match value {
            CoreNetworkPolicyRuleAction::Allow => NetworkPolicyRuleAction::Allow,
            CoreNetworkPolicyRuleAction::Deny => NetworkPolicyRuleAction::Deny,
        }
    }
}

impl FromSpecImpl<CoreNetworkPolicyRuleAction> for NetworkPolicyRuleAction {
    open spec fn obeys_from_spec() -> bool {
        true
    }

    open spec fn from_spec(value: CoreNetworkPolicyRuleAction) -> Self {
        NetworkPolicyRuleAction::spec_from(value)
    }
}

impl NetworkPolicyRuleAction {
    pub open spec fn spec_to_core(self) -> CoreNetworkPolicyRuleAction {
        match self {
            NetworkPolicyRuleAction::Allow => CoreNetworkPolicyRuleAction::Allow,
            NetworkPolicyRuleAction::Deny => CoreNetworkPolicyRuleAction::Deny,
        }
    }

    pub fn to_core(&self) -> (r: CoreNetworkPolicyRuleAction)
        ensures
            r == self.spec_to_core(),
    {
        match self {
            NetworkPolicyRuleAction::Allow => CoreNetworkPolicyRuleAction::Allow,
            NetworkPolicyRuleAction::Deny => CoreNetworkPolicyRuleAction::Deny,
        }
    }
}

/// A network rule to add from now on, on the v2 wire.
#[derive(Clone, Debug, PartialEq, Eq)]
pub struct NetworkPolicyAmendment {
    pub host: String,
    pub action: NetworkPolicyRuleAction,
}

impl NetworkPolicyAmendment {
    /// The same amendment in the core vocabulary.
    pub fn into_core(self) -> (r: CoreNetworkPolicyAmendment)
        ensures
            r.host == self.host,
            r.action == self.action.spec_to_core(),
    {
        CoreNetworkPolicyAmendment { host: self.host, action: self.action.to_core() }
    }
}

impl From<CoreNetworkPolicyAmendment> for NetworkPolicyAmendment {
    fn from(value: CoreNetworkPolicyAmendment) -> (r: Self) {
        NetworkPolicyAmendment {
            host: value.host,
            action: NetworkPolicyRuleAction::from(value.action),
        }
    }
}

impl NetworkPolicyAmendment {
    pub open spec fn spec_from(value: CoreNetworkPolicyAmendment) -> Self {
        NetworkPolicyAmendment {
            host: value.host,
            action: NetworkPolicyRuleAction::spec_from(value.action),
        }
    }
}

impl FromSpecImpl<CoreNetworkPolicyAmendment> for NetworkPolicyAmendment {
    open spec fn obeys_from_spec() -> bool {
        true
    }

    open spec fn from_spec(value: CoreNetworkPolicyAmendment) -> Self {
        NetworkPolicyAmendment::spec_from(value)
    }
}

// ---------------------------------------------------------------------------
// Permission requests
// ---------------------------------------------------------------------------

/// A request for the user to approve additional permissions.
#[derive(Clone, Debug, PartialEq, Eq)]
pub struct PermissionsRequestApprovalParams {
    pub thread_id: String,
    pub turn_id: String,
    pub item_id: String,
    pub environment_id: Option<String>,
    /// Unix timestamp (in milliseconds) when this approval request started.
    pub started_at_ms: i64,
    pub cwd: AbsolutePathBuf,
    pub reason: Option<String>,
    pub permissions: RequestPermissionProfile,
}

/// How long granted permissions last, on the v2 wire.
#[derive(Clone, Copy, Debug, PartialEq, Eq, Structural)]
pub enum PermissionGrantScope {
    Turn,
    Session,
}

impl Default for PermissionGrantScope {
    fn default() -> (r: Self)
        ensures
            r == PermissionGrantScope::Turn,
    {
        PermissionGrantScope::Turn
    }
}

impl From<CorePermissionGrantScope> for PermissionGrantScope {
    fn from(value: CorePermissionGrantScope) -> (r: Self) {
        match value {
            CorePermissionGrantScope::Turn => PermissionGrantScope::Turn,
            CorePermissionGrantScope::Session => PermissionGrantScope::Session,
        }
    }
}

impl PermissionGrantScope {
    pub open spec fn spec_from(value: CorePermissionGrantScope) -> Self {
        match value {
            CorePermissionGrantScope::Turn => PermissionGrantScope::Turn,
            CorePermissionGrantScope::Session => PermissionGrantScope::Session,
        }
    }
}

impl FromSpecImpl<CorePermissionGrantScope> for PermissionGrantScope {
    open spec fn obeys_from_spec() -> bool {
        true
    }

    open spec fn from_spec(value: CorePermissionGrantScope) -> Self {
        PermissionGrantScope::spec_from(value)
    }
}

impl PermissionGrantScope {
    pub open spec fn spec_to_core(self) -> CorePermissionGrantScope {
        match self {
            PermissionGrantScope::Turn => CorePermissionGrantScope::Turn,
            PermissionGrantScope::Session => CorePermissionGrantScope::Session,
        }
    }

    pub fn to_core(&self) -> (r: CorePermissionGrantScope)
        ensures
            r == self.spec_to_core(),
    {
        match self {
            PermissionGrantScope::Turn => CorePermissionGrantScope::Turn,
            PermissionGrantScope::Session => CorePermissionGrantScope::Session,
        }
    }
}

/// The user's answer to a permission request.
#[derive(Clone, Debug, PartialEq, Eq)]
pub struct PermissionsRequestApprovalResponse {
    pub permissions: GrantedPermissionProfile,
    pub scope: PermissionGrantScope,
    /// Review every subsequent command in this turn before normal sandboxed execution.
    pub strict_auto_review: Option<bool>,
}

// ---------------------------------------------------------------------------
// Laws
// ---------------------------------------------------------------------------

/// The v2 enums and their core counterparts correspond one to one: converting either
/// way and back gives the value converted.
pub proof fn lemma_enum_round_trips(
    protocol: NetworkApprovalProtocol,
    core_protocol: CoreNetworkApprovalProtocol,
    access: FileSystemAccessMode,
    core_access: CoreFileSystemAccessMode,
    action: NetworkPolicyRuleAction,
    core_action: CoreNetworkPolicyRuleAction,
    scope: PermissionGrantScope,
    core_scope: CorePermissionGrantScope,
    network: NetworkAccess,
    core_network: CoreNetworkAccess,
)
    ensures
        NetworkApprovalProtocol::spec_from(protocol.spec_to_core()) == protocol,
        NetworkApprovalProtocol::spec_from(core_protocol).spec_to_core() == core_protocol,
        FileSystemAccessMode::spec_from(access.spec_to_core()) == access,
        FileSystemAccessMode::spec_from(core_access).spec_to_core() == core_access,
        NetworkPolicyRuleAction::spec_from(action.spec_to_core()) == action,
        NetworkPolicyRuleAction::spec_from(core_action).spec_to_core() == core_action,
        PermissionGrantScope::spec_from(scope.spec_to_core()) == scope,
        PermissionGrantScope::spec_from(core_scope).spec_to_core() == core_scope,
        NetworkAccess::spec_from_core(network.spec_to_core()) == network,
        NetworkAccess::spec_from_core(core_network).spec_to_core() == core_network,
{
}

/// Special paths, network permissions, active profiles and network amendments convert to
/// the core form and back without change, and the other way round.
pub proof fn lemma_plain_value_round_trips(
    special: FileSystemSpecialPath,
    core_special: CoreFileSystemSpecialPath,
    network: AdditionalNetworkPermissions,
    core_network: CoreNetworkPermissions,
    profile: ActivePermissionProfile,
    core_profile: CoreActivePermissionProfile,
    amendment: NetworkPolicyAmendment,
    core_amendment: CoreNetworkPolicyAmendment,
)
    ensures
        FileSystemSpecialPath::spec_from(CoreFileSystemSpecialPath::spec_from(special)) == special,
        CoreFileSystemSpecialPath::spec_from(FileSystemSpecialPath::spec_from(core_special))
            == core_special,
        AdditionalNetworkPermissions::spec_from(CoreNetworkPermissions::spec_from(network))
            == network,
        CoreNetworkPermissions::spec_from(AdditionalNetworkPermissions::spec_from(core_network))
            == core_network,
        ActivePermissionProfile::spec_from(CoreActivePermissionProfile::spec_from(profile))
            == profile,
        CoreActivePermissionProfile::spec_from(ActivePermissionProfile::spec_from(core_profile))
            == core_profile,
        NetworkPolicyAmendment::spec_from(
            CoreNetworkPolicyAmendment { host: amendment.host, action: amendment.action.spec_to_core() },
        ) == amendment,
        ({
            let a = NetworkPolicyAmendment::spec_from(core_amendment);
            CoreNetworkPolicyAmendment { host: a.host, action: a.action.spec_to_core() }
        }) == core_amendment,
{
    match special {
        FileSystemSpecialPath::ProjectRoots { subpath } => {
            assert(spec_legacy_subpath(spec_string_subpath(subpath)) == subpath);
        },
        FileSystemSpecialPath::Unknown { path, subpath } => {
            assert(spec_legacy_subpath(spec_string_subpath(subpath)) == subpath);
        },
        _ => {},
    }
}

/// A sandbox policy keeps its contents when converted to the core form, and a core policy
/// keeps its contents when converted to the v2 form.
pub proof fn lemma_sandbox_policy_round_trip(core: CoreSandboxPolicy)
    ensures
        SandboxPolicy::spec_from(core)@ == core@,
{
}

/// A v2 path that converts to the core form converts back to itself.
pub proof fn lemma_v2_path_round_trip(p: FileSystemPath, c: PathConvention)
    requires
        spec_v2_path_to_core(p, c) is Ok,
    ensures
        spec_core_path_to_v2(spec_v2_path_to_core(p, c)->Ok_0, c) == Ok::<
            FileSystemPath,
            PathConversionError,
        >(p),
{
    if let FileSystemPath::Special { value } = p {
        lemma_special_path_round_trip(value);
    }
}

proof fn lemma_special_path_round_trip(v: FileSystemSpecialPath)
    ensures
        FileSystemSpecialPath::spec_from(CoreFileSystemSpecialPath::spec_from(v)) == v,
{
    lemma_plain_value_round_trips(
        v,
        arbitrary(),
        arbitrary(),
        arbitrary(),
        arbitrary(),
        arbitrary(),
        arbitrary(),
        arbitrary(),
    );
}

proof fn lemma_core_special_path_round_trip(v: CoreFileSystemSpecialPath)
    ensures
        CoreFileSystemSpecialPath::spec_from(FileSystemSpecialPath::spec_from(v)) == v,
{
    lemma_plain_value_round_trips(
        arbitrary(),
        v,
        arbitrary(),
        arbitrary(),
        arbitrary(),
        arbitrary(),
        arbitrary(),
        arbitrary(),
    );
}

/// A core path is well formed when a plain path in it is absolute.
pub open spec fn core_path_well_formed(p: CoreFileSystemPath) -> bool {
    p matches CoreFileSystemPath::Path { path } ==> path.well_formed()
}

/// A core path that can be carried on the v2 wire converts back to itself.
pub proof fn lemma_core_path_round_trip(p: CoreFileSystemPath, c: PathConvention)
    requires
        core_path_well_formed(p),
        spec_core_path_to_v2(p, c) is Ok,
    ensures
        spec_v2_path_to_core(spec_core_path_to_v2(p, c)->Ok_0, c) == Ok::<
            CoreFileSystemPath,
            PathConversionError,
        >(p),
{
    if let CoreFileSystemPath::Special { value } = p {
        lemma_core_special_path_round_trip(value);
    }
}

/// A v2 entry that converts to the core form converts back to itself.
pub proof fn lemma_v2_entry_round_trip(e: FileSystemSandboxEntry, c: PathConvention)
    requires
        spec_v2_entry_to_core(e, c) is Ok,
    ensures
        spec_core_entry_to_v2(spec_v2_entry_to_core(e, c)->Ok_0, c) == Ok::<
            FileSystemSandboxEntry,
            PathConversionError,
        >(e),
{
    lemma_v2_path_round_trip(e.path, c);
}

/// A core entry that can be carried on the v2 wire converts back to itself.
pub proof fn lemma_core_entry_round_trip(e: CoreFileSystemSandboxEntry, c: PathConvention)
    requires
        core_path_well_formed(e.path),
        entry_representable(e, c),
    ensures
        spec_v2_entry_to_core(v2_entry_of(e, c), c) == Ok::<
            CoreFileSystemSandboxEntry,
            PathConversionError,
        >(e),
{
    lemma_core_path_round_trip(e.path, c);
}

/// Core permissions are well formed when every plain path in their entries is absolute.
pub open spec fn permissions_well_formed(p: FileSystemPermissionsView) -> bool {
    forall|i: int| 0 <= i < p.entries.len() ==> core_path_well_formed(#[trigger] p.entries[i].path)
}

proof fn lemma_entries_round_trip(es: Seq<CoreFileSystemSandboxEntry>, c: PathConvention)
    requires
        forall|i: int| 0 <= i < es.len() ==> core_path_well_formed(#[trigger] es[i].path),
        forall|i: int| 0 <= i < es.len() ==> entry_representable(#[trigger] es[i], c),
    ensures
        try_map(
            es.map_values(|e: CoreFileSystemSandboxEntry| v2_entry_of(e, c)),
            |e: FileSystemSandboxEntry| spec_v2_entry_to_core(e, c),
        ) == Ok::<Seq<CoreFileSystemSandboxEntry>, PathConversionError>(es),
{
    let vs = es.map_values(|e: CoreFileSystemSandboxEntry| v2_entry_of(e, c));
    let f = |e: FileSystemSandboxEntry| spec_v2_entry_to_core(e, c);
    assert forall|i: int| 0 <= i < vs.len() implies (#[trigger] f(vs[i])) is Ok && f(vs[i])->Ok_0
        == es[i] by {
        assert(core_path_well_formed(es[i].path));
        assert(entry_representable(es[i], c));
        lemma_core_entry_round_trip(es[i], c);
    }
    lemma_try_map_ok(vs, f);
    assert(vs.map_values(|e: FileSystemSandboxEntry| f(e)->Ok_0) =~= es);
}

proof fn lemma_roots_of_entries_well_formed(entries: Seq<CoreFileSystemSandboxEntry>)
    requires
        legacy_roots_of(entries) is Some,
        forall|i: int| 0 <= i < entries.len() ==> core_path_well_formed(#[trigger] entries[i].path),
    ensures
        forall|i: int|
            0 <= i < legacy_roots_of(entries).unwrap().0.len() ==> (#[trigger] legacy_roots_of(
                entries,
            ).unwrap().0[i]).well_formed(),
        forall|i: int|
            0 <= i < legacy_roots_of(entries).unwrap().1.len() ==> (#[trigger] legacy_roots_of(
                entries,
            ).unwrap().1[i]).well_formed(),
    decreases entries.len(),
{
    if entries.len() > 0 {
        let rest = entries.drop_last();
        assert forall|i: int| 0 <= i < rest.len() implies core_path_well_formed(
            #[trigger] rest[i].path,
        ) by {
            assert(rest[i] == entries[i]);
        }
        lemma_roots_of_entries_well_formed(rest);
        assert(core_path_well_formed(entries[entries.len() - 1].path));
    }
}

proof fn lemma_path_entries_round_trip(
    paths: Seq<PathUri>,
    access: FileSystemAccessMode,
    c: PathConvention,
)
    requires
        forall|i: int| 0 <= i < paths.len() ==> (#[trigger] paths[i]).well_formed(),
        forall|i: int| 0 <= i < paths.len() ==> uri_representable(#[trigger] paths[i], c),
    ensures
        try_map(
            v2_path_entries(paths, access, c),
            |e: FileSystemSandboxEntry| spec_v2_entry_to_core(e, c),
        ) == Ok::<Seq<CoreFileSystemSandboxEntry>, PathConversionError>(
            path_entries(paths, access.spec_to_core()),
        ),
{
    let vs = v2_path_entries(paths, access, c);
    let f = |e: FileSystemSandboxEntry| spec_v2_entry_to_core(e, c);
    assert forall|i: int| 0 <= i < vs.len() implies (#[trigger] f(vs[i])) is Ok && f(vs[i])->Ok_0
        == path_entry(paths[i], access.spec_to_core()) by {
        assert(paths[i].well_formed());
        assert(uri_representable(paths[i], c));
        crate::path::lemma_path_uri_round_trip(paths[i], c);
    }
    lemma_try_map_ok(vs, f);
    assert(vs.map_values(|e: FileSystemSandboxEntry| f(e)->Ok_0) =~= path_entries(
        paths,
        access.spec_to_core(),
    ));
}

/// The concatenation of two lists maps to the concatenation of their results.
proof fn lemma_try_map_append<A, B, E>(s: Seq<A>, t: Seq<A>, f: spec_fn(A) -> Result<B, E>)
    requires
        try_map(s, f) is Ok,
        try_map(t, f) is Ok,
    ensures
        try_map(s + t, f) == Ok::<Seq<B>, E>(try_map(s, f)->Ok_0 + try_map(t, f)->Ok_0),
    decreases t.len(),
{
    if t.len() == 0 {
        assert(s + t =~= s);
        assert(try_map(s, f)->Ok_0 + try_map(t, f)->Ok_0 =~= try_map(s, f)->Ok_0);
    } else {
        assert((s + t).drop_last() =~= s + t.drop_last());
        lemma_try_map_append(s, t.drop_last(), f);
        assert((s + t).last() == t.last());
        assert(try_map(s, f)->Ok_0 + try_map(t, f)->Ok_0 =~= (try_map(s, f)->Ok_0 + try_map(
            t.drop_last(),
            f,
        )->Ok_0).push(f(t.last())->Ok_0));
    }
}

/// Well-formed core permissions whose paths can be carried on the v2 wire come back from
/// a round trip over the wire with the same glob depth limit, and with the same entries
/// when they are not readable and writable roots; when they are, with the same roots.
pub proof fn lemma_file_system_permissions_round_trip(p: FileSystemPermissionsView, c: PathConvention)
    requires
        permissions_well_formed(p),
        permissions_representable(p, c),
    ensures
        spec_additional_fs_to_core(spec_additional_fs_from_core(p, c), c) is Ok,
        ({
            let q = spec_additional_fs_to_core(spec_additional_fs_from_core(p, c), c)->Ok_0;
            &&& q.glob_scan_max_depth == p.glob_scan_max_depth
            &&& q.entries.len() == p.entries.len()
            &&& p.legacy_roots() is None ==> q == p
            &&& q.legacy_roots() == p.legacy_roots()
        }),
{
    crate::protocol::lemma_legacy_roots_characterized(p);
    match p.legacy_roots() {
        Some((read, write)) => {
            lemma_legacy_roots_representable(p.entries, c);
            lemma_roots_of_entries_well_formed(p.entries);
            lemma_path_entries_round_trip(read, FileSystemAccessMode::Read, c);
            lemma_path_entries_round_trip(write, FileSystemAccessMode::Write, c);
            lemma_try_map_append(
                v2_path_entries(read, FileSystemAccessMode::Read, c),
                v2_path_entries(write, FileSystemAccessMode::Write, c),
                |e: FileSystemSandboxEntry| spec_v2_entry_to_core(e, c),
            );
            crate::protocol::lemma_legacy_roots_of_path_entries(read, write);
        },
        None => {
            assert forall|i: int| 0 <= i < p.entries.len() implies core_path_well_formed(
                #[trigger] p.entries[i].path,
            ) by {}
            lemma_entries_round_trip(p.entries, c);
        },
    }
}

/// `core` is the same policy as `v2`, variant for variant and field for field under the
/// same names, the network access of an external sandbox being its namesake.
pub open spec fn sandbox_policy_fields_kept(v2: SandboxPolicy, core: CoreSandboxPolicy) -> bool {
    match v2 {
        SandboxPolicy::DangerFullAccess => core is DangerFullAccess,
        SandboxPolicy::ReadOnly { network_access } => core == CoreSandboxPolicy::ReadOnly {
            network_access,
        },
        SandboxPolicy::ExternalSandbox { network_access } => {
            &&& core is ExternalSandbox
            &&& (network_access == NetworkAccess::Restricted) == (core->ExternalSandbox_network_access
                == CoreNetworkAccess::Restricted)
        },
        SandboxPolicy::WorkspaceWrite {
            writable_roots,
            network_access,
            exclude_tmpdir_env_var,
            exclude_slash_tmp,
        } => {
            &&& core is WorkspaceWrite
            &&& core->WorkspaceWrite_writable_roots@ == writable_roots@
            &&& core->WorkspaceWrite_network_access == network_access
            &&& core->WorkspaceWrite_exclude_tmpdir_env_var == exclude_tmpdir_env_var
            &&& core->WorkspaceWrite_exclude_slash_tmp == exclude_slash_tmp
        },
    }
}

/// A core policy converts to the v2 policy of the same variant with every field under
/// its own name.
pub proof fn lemma_sandbox_policy_from_core_keeps_fields(core: CoreSandboxPolicy)
    ensures
        sandbox_policy_fields_kept(SandboxPolicy::spec_from(core), core),
        core matches CoreSandboxPolicy::WorkspaceWrite {
            writable_roots,
            network_access,
            exclude_tmpdir_env_var,
            exclude_slash_tmp,
        } ==> SandboxPolicy::spec_from(core) == (SandboxPolicy::WorkspaceWrite {
            writable_roots,
            network_access,
            exclude_tmpdir_env_var,
            exclude_slash_tmp,
        }),
{
}

/// Each enum value converts to its namesake, in both directions.
pub proof fn lemma_enums_convert_to_namesakes()
    ensures
        NetworkApprovalProtocol::spec_from(CoreNetworkApprovalProtocol::Http)
            == NetworkApprovalProtocol::Http,
        NetworkApprovalProtocol::spec_from(CoreNetworkApprovalProtocol::Https)
            == NetworkApprovalProtocol::Https,
        NetworkApprovalProtocol::spec_from(CoreNetworkApprovalProtocol::Socks5Tcp)
            == NetworkApprovalProtocol::Socks5Tcp,
        NetworkApprovalProtocol::spec_from(CoreNetworkApprovalProtocol::Socks5Udp)
            == NetworkApprovalProtocol::Socks5Udp,
        NetworkApprovalProtocol::Http.spec_to_core() == CoreNetworkApprovalProtocol::Http,
        NetworkApprovalProtocol::Https.spec_to_core() == CoreNetworkApprovalProtocol::Https,
        NetworkApprovalProtocol::Socks5Tcp.spec_to_core() == CoreNetworkApprovalProtocol::Socks5Tcp,
        NetworkApprovalProtocol::Socks5Udp.spec_to_core() == CoreNetworkApprovalProtocol::Socks5Udp,
        FileSystemAccessMode::spec_from(CoreFileSystemAccessMode::Read) == FileSystemAccessMode::Read,
        FileSystemAccessMode::spec_from(CoreFileSystemAccessMode::Write)
            == FileSystemAccessMode::Write,
        FileSystemAccessMode::spec_from(CoreFileSystemAccessMode::Deny) == FileSystemAccessMode::Deny,
        FileSystemAccessMode::Read.spec_to_core() == CoreFileSystemAccessMode::Read,
        FileSystemAccessMode::Write.spec_to_core() == CoreFileSystemAccessMode::Write,
        FileSystemAccessMode::Deny.spec_to_core() == CoreFileSystemAccessMode::Deny,
        NetworkPolicyRuleAction::spec_from(CoreNetworkPolicyRuleAction::Allow)
            == NetworkPolicyRuleAction::Allow,
        NetworkPolicyRuleAction::spec_from(CoreNetworkPolicyRuleAction::Deny)
            == NetworkPolicyRuleAction::Deny,
        NetworkPolicyRuleAction::Allow.spec_to_core() == CoreNetworkPolicyRuleAction::Allow,
        NetworkPolicyRuleAction::Deny.spec_to_core() == CoreNetworkPolicyRuleAction::Deny,
        PermissionGrantScope::spec_from(CorePermissionGrantScope::Turn) == PermissionGrantScope::Turn,
        PermissionGrantScope::spec_from(CorePermissionGrantScope::Session)
            == PermissionGrantScope::Session,
        PermissionGrantScope::Turn.spec_to_core() == CorePermissionGrantScope::Turn,
        PermissionGrantScope::Session.spec_to_core() == CorePermissionGrantScope::Session,
        NetworkAccess::spec_from_core(CoreNetworkAccess::Restricted) == NetworkAccess::Restricted,
        NetworkAccess::spec_from_core(CoreNetworkAccess::Enabled) == NetworkAccess::Enabled,
        NetworkAccess::Restricted.spec_to_core() == CoreNetworkAccess::Restricted,
        NetworkAccess::Enabled.spec_to_core() == CoreNetworkAccess::Enabled,
{
}

/// Each special path converts to its namesake in both directions; a subpath is carried
/// over as the same text, and an unknown path keeps its name.
pub proof fn lemma_special_paths_convert_to_namesakes(
    subpath: Option<String>,
    legacy_subpath: Option<LegacyAppPathString>,
    path: String,
)
    ensures
        FileSystemSpecialPath::spec_from(CoreFileSystemSpecialPath::Root) == FileSystemSpecialPath::Root,
        FileSystemSpecialPath::spec_from(CoreFileSystemSpecialPath::Minimal)
            == FileSystemSpecialPath::Minimal,
        FileSystemSpecialPath::spec_from(CoreFileSystemSpecialPath::Tmpdir)
            == FileSystemSpecialPath::Tmpdir,
        FileSystemSpecialPath::spec_from(CoreFileSystemSpecialPath::SlashTmp)
            == FileSystemSpecialPath::SlashTmp,
        FileSystemSpecialPath::spec_from(CoreFileSystemSpecialPath::ProjectRoots { subpath })
            matches FileSystemSpecialPath::ProjectRoots { subpath: s } && (s is Some
            <==> subpath is Some) && (s matches Some(l) ==> l.value == subpath->Some_0),
        FileSystemSpecialPath::spec_from(CoreFileSystemSpecialPath::Unknown { path, subpath })
            matches FileSystemSpecialPath::Unknown { path: p, subpath: s } && p == path && (s is Some
            <==> subpath is Some) && (s matches Some(l) ==> l.value == subpath->Some_0),
        CoreFileSystemSpecialPath::spec_from(FileSystemSpecialPath::Root) == CoreFileSystemSpecialPath::Root,
        CoreFileSystemSpecialPath::spec_from(FileSystemSpecialPath::Minimal)
            == CoreFileSystemSpecialPath::Minimal,
        CoreFileSystemSpecialPath::spec_from(FileSystemSpecialPath::Tmpdir)
            == CoreFileSystemSpecialPath::Tmpdir,
        CoreFileSystemSpecialPath::spec_from(FileSystemSpecialPath::SlashTmp)
            == CoreFileSystemSpecialPath::SlashTmp,
        CoreFileSystemSpecialPath::spec_from(
            FileSystemSpecialPath::ProjectRoots { subpath: legacy_subpath },
        ) matches CoreFileSystemSpecialPath::ProjectRoots { subpath: s } && (s is Some
            <==> legacy_subpath is Some) && (s matches Some(t) ==> t == legacy_subpath->Some_0.value),
        CoreFileSystemSpecialPath::spec_from(
            FileSystemSpecialPath::Unknown { path, subpath: legacy_subpath },
        ) matches CoreFileSystemSpecialPath::Unknown { path: p, subpath: s } && p == path && (s is Some
            <==> legacy_subpath is Some) && (s matches Some(t) ==> t == legacy_subpath->Some_0.value),
{
}

/// Sandbox paths convert to their namesakes: a plain path keeps its text (and converts
/// exactly when the text is an absolute path, or when the path is local), a glob keeps its
/// pattern, and a special path converts to its namesake; an entry keeps its access.
pub proof fn lemma_paths_convert_to_namesakes(
    legacy: LegacyAppPathString,
    uri: PathUri,
    pattern: String,
    access: FileSystemAccessMode,
    c: PathConvention,
)
    ensures
        spec_v2_path_to_core(FileSystemPath::Path { path: legacy }, c) is Ok <==> crate::path::is_absolute(
            c,
            legacy.value@,
        ),
        spec_v2_path_to_core(FileSystemPath::Path { path: legacy }, c) matches Ok(
            CoreFileSystemPath::Path { path: u },
        ) ==> u.path == legacy.value && u.host is None && u.convention == c,
        spec_v2_path_to_core(FileSystemPath::Path { path: legacy }, c) is Ok ==> spec_v2_path_to_core(
            FileSystemPath::Path { path: legacy },
            c,
        )->Ok_0 is Path,
        spec_core_path_to_v2(CoreFileSystemPath::Path { path: uri }, c) is Ok <==> uri.is_local(c),
        spec_core_path_to_v2(CoreFileSystemPath::Path { path: uri }, c) is Ok
            ==> spec_core_path_to_v2(CoreFileSystemPath::Path { path: uri }, c)->Ok_0
            == (FileSystemPath::Path { path: LegacyAppPathString { value: uri.path } }),
        spec_v2_path_to_core(FileSystemPath::GlobPattern { pattern }, c) == Ok::<
            CoreFileSystemPath,
            PathConversionError,
        >(CoreFileSystemPath::GlobPattern { pattern }),
        spec_core_path_to_v2(CoreFileSystemPath::GlobPattern { pattern }, c) == Ok::<
            FileSystemPath,
            PathConversionError,
        >(FileSystemPath::GlobPattern { pattern }),
        spec_core_path_to_v2(
            CoreFileSystemPath::Special { value: CoreFileSystemSpecialPath::Root },
            c,
        ) == Ok::<FileSystemPath, PathConversionError>(
            FileSystemPath::Special { value: FileSystemSpecialPath::Root },
        ),
        spec_v2_path_to_core(FileSystemPath::Special { value: FileSystemSpecialPath::Root }, c)
            == Ok::<CoreFileSystemPath, PathConversionError>(
            CoreFileSystemPath::Special { value: CoreFileSystemSpecialPath::Root },
        ),
        spec_v2_entry_to_core(
            FileSystemSandboxEntry { path: FileSystemPath::GlobPattern { pattern }, access },
            c,
        ) == Ok::<CoreFileSystemSandboxEntry, PathConversionError>(
            CoreFileSystemSandboxEntry {
                path: CoreFileSystemPath::GlobPattern { pattern },
                access: access.spec_to_core(),
            },
        ),
{
    lemma_special_paths_convert_to_namesakes(None, None, pattern);
}

/// Network permissions, network approval contexts, active profiles and amendments keep
/// every field under its own name.
pub proof fn lemma_records_keep_fields(
    network: CoreNetworkPermissions,
    additional: AdditionalNetworkPermissions,
    context: CoreNetworkApprovalContext,
    profile: CoreActivePermissionProfile,
    v2_profile: ActivePermissionProfile,
    exec: CoreExecPolicyAmendment,
    amendment: CoreNetworkPolicyAmendment,
)
    ensures
        AdditionalNetworkPermissions::spec_from(network).enabled == network.enabled,
        CoreNetworkPermissions::spec_from(additional).enabled == additional.enabled,
        NetworkApprovalContext::spec_from(context).host == context.host,
        NetworkApprovalContext::spec_from(context).protocol.spec_to_core() == context.protocol,
        ActivePermissionProfile::spec_from(profile).id == profile.id,
        ActivePermissionProfile::spec_from(profile).extends == profile.extends,
        CoreActivePermissionProfile::spec_from(v2_profile).id == v2_profile.id,
        CoreActivePermissionProfile::spec_from(v2_profile).extends == v2_profile.extends,
        ExecPolicyAmendment::spec_from(exec).command == exec.command,
        NetworkPolicyAmendment::spec_from(amendment).host == amendment.host,
        NetworkPolicyAmendment::spec_from(amendment).action.spec_to_core() == amendment.action,
{
}

} // verus!
