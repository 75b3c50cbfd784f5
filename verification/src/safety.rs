//! Whether a file patch may be applied without asking the user.
use crate::apply_patch::{ApplyPatchAction, ApplyPatchFileChange};
use crate::path::{PathConvention, PathUri, Platform};
use crate::protocol::{
    AskForApproval, FileSystemSandboxPolicy, GranularApprovalConfig, NetworkSandboxPolicy,
    PermissionProfile, WindowsSandboxLevel,
};
use crate::sandboxing::{get_platform_sandbox, spec_get_platform_sandbox, SandboxType};
use vstd::prelude::*;

verus! {

/// The decision on a patch.
#[derive(Clone, Debug, PartialEq, Eq)]
pub enum SafetyCheck {
    /// Apply the patch without asking.
    AutoApprove,
    /// Ask the user whether to apply the patch.
    AskUser,
    /// Do not apply the patch, for `reason`.
    Reject { reason: String },
}

/// The decision on a patch, with the rejection reason as text.
pub enum SafetyVerdict {
    AutoApprove,
    AskUser,
    Reject(Seq<char>),
}

impl View for SafetyCheck {
    type V = SafetyVerdict;

    open spec fn view(&self) -> SafetyVerdict {
        match self {
            SafetyCheck::AutoApprove => SafetyVerdict::AutoApprove,
            SafetyCheck::AskUser => SafetyVerdict::AskUser,
            SafetyCheck::Reject { reason } => SafetyVerdict::Reject(reason@),
        }
    }
}

pub open spec fn empty_patch_reason() -> Seq<char> {
    "empty patch"@
}

pub open spec fn outside_project_reason() -> Seq<char> {
    "writing outside of the project; rejected by user approval settings"@
}

pub open spec fn read_only_reason() -> Seq<char> {
    "writing is blocked by read-only sandbox; rejected by user approval settings"@
}

/// Whether the approval policy refuses to let the user approve a write outside the
/// sandbox.
pub open spec fn rejects_sandbox_approval(policy: AskForApproval) -> bool {
    ||| policy == AskForApproval::Never
    ||| (policy matches AskForApproval::Granular(cfg) && !cfg.sandbox_approval)
}

/// Whether every file that `change` writes at `path` (the file itself and, for a move,
/// its destination) may be written.
pub open spec fn change_is_writable(
    fs: FileSystemSandboxPolicy,
    path: PathUri,
    change: ApplyPatchFileChange,
    cwd: PathUri,
    native: PathConvention,
) -> bool {
    &&& fs.spec_can_write_path_uri(path, cwd, native)
    &&& (change matches ApplyPatchFileChange::Update { move_path: Some(dest), .. }
        ==> fs.spec_can_write_path_uri(dest, cwd, native))
}

/// Whether the patch writes only where the file-system sandbox allows writing.
pub open spec fn spec_is_write_patch_constrained_to_writable_paths(
    action: ApplyPatchAction,
    fs: FileSystemSandboxPolicy,
    cwd: PathUri,
    native: PathConvention,
) -> bool {
    ||| fs.full_disk_write_access
    ||| forall|i: int|
        0 <= i < action.changes@.len() ==> change_is_writable(
            fs,
            (#[trigger] action.changes@[i]).0,
            action.changes@[i].1,
            cwd,
            native,
        )
}

/// The reason given when a patch is rejected: the sandbox is read-only when writes are
/// confined by this system's sandbox, not to the full disk, and no root is writable from a
/// local working directory; otherwise the patch writes outside the project.
pub open spec fn spec_patch_rejection_reason(
    profile: PermissionProfile,
    fs: FileSystemSandboxPolicy,
    cwd: PathUri,
    native: PathConvention,
) -> Seq<char> {
    if profile is Managed && !fs.full_disk_write_access && cwd.is_local(native)
        && fs.writable_root_count() == 0 {
        read_only_reason()
    } else {
        outside_project_reason()
    }
}

pub open spec fn spec_assess_patch_safety(
    action: ApplyPatchAction,
    policy: AskForApproval,
    profile: PermissionProfile,
    fs: FileSystemSandboxPolicy,
    cwd: PathUri,
    windows_sandbox_level: WindowsSandboxLevel,
    platform: Platform,
) -> SafetyVerdict {
    let native = platform.spec_path_convention();
    let reject = SafetyVerdict::Reject(spec_patch_rejection_reason(profile, fs, cwd, native));
    if action.changes@.len() == 0 {
        SafetyVerdict::Reject(empty_patch_reason())
    } else if policy == AskForApproval::UnlessTrusted {
        SafetyVerdict::AskUser
    } else if spec_is_write_patch_constrained_to_writable_paths(action, fs, cwd, native) {
        if profile is Disabled || profile is External {
            SafetyVerdict::AutoApprove
        } else if spec_get_platform_sandbox(
            windows_sandbox_level != WindowsSandboxLevel::Disabled,
            platform,
        ) is Some {
            SafetyVerdict::AutoApprove
        } else if rejects_sandbox_approval(policy) {
            reject
        } else {
            SafetyVerdict::AskUser
        }
    } else if rejects_sandbox_approval(policy) {
        reject
    } else {
        SafetyVerdict::AskUser
    }
}

/// Decides whether `action` may be applied without asking the user, on `platform`.
///
/// An empty patch is rejected. Under `UnlessTrusted` the user is asked. Otherwise a patch
/// that writes only where the file-system sandbox allows is approved when no sandbox of
/// this system applies (a disabled or external profile) or when the platform offers a
/// sandbox to enforce it. In every other case the user is asked, unless the approval
/// policy refuses to let the user approve writes outside the sandbox: then the patch is
/// rejected, with the reason of [`spec_patch_rejection_reason`].
pub fn assess_patch_safety(
    action: &ApplyPatchAction,
    policy: AskForApproval,
    permission_profile: &PermissionProfile,
    file_system_sandbox_policy: &FileSystemSandboxPolicy,
    cwd: &PathUri,
    windows_sandbox_level: WindowsSandboxLevel,
    platform: Platform,
) -> (r: SafetyCheck)
    ensures
        r@ == spec_assess_patch_safety(
            *action,
            policy,
            *permission_profile,
            *file_system_sandbox_policy,
            *cwd,
            windows_sandbox_level,
            platform,
        ),
{
    if action.is_empty() {
        return SafetyCheck::Reject { reason: String::from_str("empty patch") };
    }
    match policy {
        AskForApproval::Never | AskForApproval::OnRequest | AskForApproval::Granular(_) => {},
        AskForApproval::UnlessTrusted => {
            return SafetyCheck::AskUser;
        },
    }
    let rejects = match policy {
        AskForApproval::Never => true,
        AskForApproval::Granular(granular_config) => !granular_config.sandbox_approval,
        _ => false,
    };
    let native = platform.path_convention();
    if is_write_patch_constrained_to_writable_paths(action, file_system_sandbox_policy, cwd, native) {
        match permission_profile {
            PermissionProfile::Disabled | PermissionProfile::External { .. } => {
                SafetyCheck::AutoApprove
            },
            PermissionProfile::Managed { .. } => {
                let windows_sandbox_enabled = match windows_sandbox_level {
                    WindowsSandboxLevel::Disabled => false,
                    _ => true,
                };
                match get_platform_sandbox(windows_sandbox_enabled, platform) {
                    Some(_) => SafetyCheck::AutoApprove,
                    None => {
                        if rejects {
                            SafetyCheck::Reject {
                                reason: String::from_str(
                                    patch_rejection_reason(
                                        permission_profile,
                                        file_system_sandbox_policy,
                                        cwd,
                                        native,
                                    ),
                                ),
                            }
                        } else {
                            SafetyCheck::AskUser
                        }
                    },
                }
            },
        }
    } else if rejects {
        SafetyCheck::Reject {
            reason: String::from_str(
                patch_rejection_reason(permission_profile, file_system_sandbox_policy, cwd, native),
            ),
        }
    } else {
        SafetyCheck::AskUser
    }
}

/// The reason to give when a patch is rejected.
pub fn patch_rejection_reason(
    permission_profile: &PermissionProfile,
    file_system_sandbox_policy: &FileSystemSandboxPolicy,
    cwd: &PathUri,
    native: PathConvention,
) -> (r: &'static str)
    ensures
        r@ == spec_patch_rejection_reason(
            *permission_profile,
            *file_system_sandbox_policy,
            *cwd,
            native,
        ),
{
    // A working directory of another host cannot be inspected: fall back to the
    // "outside the project" reason.
    let has_no_writable_roots = match cwd.project_to_localhost(native) {
        Ok(native_cwd) => file_system_sandbox_policy.get_writable_roots_with_cwd(
            &native_cwd,
        ).len() == 0,
        Err(_) => false,
    };
    match permission_profile {
        PermissionProfile::Managed { .. } => {
            if !file_system_sandbox_policy.has_full_disk_write_access() && has_no_writable_roots {
                "writing is blocked by read-only sandbox; rejected by user approval settings"
            } else {
                "writing outside of the project; rejected by user approval settings"
            }
        },
        PermissionProfile::Disabled | PermissionProfile::External { .. } => {
            "writing outside of the project; rejected by user approval settings"
        },
    }
}

/// Whether every file the patch writes may be written under the file-system sandbox.
pub fn is_write_patch_constrained_to_writable_paths(
    action: &ApplyPatchAction,
    file_system_sandbox_policy: &FileSystemSandboxPolicy,
    cwd: &PathUri,
    native: PathConvention,
) -> (r: bool)
    ensures
        r == spec_is_write_patch_constrained_to_writable_paths(
            *action,
            *file_system_sandbox_policy,
            *cwd,
            native,
        ),
{
    // A full-disk policy permits every patch target.
    if file_system_sandbox_policy.has_full_disk_write_access() {
        return true;
    }
    let changes = action.changes();
    let n = changes.len();
    for i in 0..n
        invariant
            n == action.changes@.len(),
            *changes == action.changes,
            !file_system_sandbox_policy.full_disk_write_access,
            forall|j: int|
                0 <= j < i ==> change_is_writable(
                    *file_system_sandbox_policy,
                    (#[trigger] action.changes@[j]).0,
                    action.changes@[j].1,
                    *cwd,
                    native,
                ),
    {
        let (path, change) = &changes[i];
        proof {
            assert(action.changes@[i as int] == (*path, *change));
        }
        match change {
            ApplyPatchFileChange::Add { .. } | ApplyPatchFileChange::Delete { .. } => {
                if !file_system_sandbox_policy.can_write_path_uri_with_cwd(path, cwd, native) {
                    assert(!change_is_writable(
                        *file_system_sandbox_policy,
                        action.changes@[i as int].0,
                        action.changes@[i as int].1,
                        *cwd,
                        native,
                    ));
                    return false;
                }
            },
            ApplyPatchFileChange::Update { move_path, .. } => {
                if !file_system_sandbox_policy.can_write_path_uri_with_cwd(path, cwd, native) {
                    assert(!change_is_writable(
                        *file_system_sandbox_policy,
                        action.changes@[i as int].0,
                        action.changes@[i as int].1,
                        *cwd,
                        native,
                    ));
                    return false;
                }
                if let Some(dest) = move_path {
                    if !file_system_sandbox_policy.can_write_path_uri_with_cwd(dest, cwd, native) {
                        assert(!change_is_writable(
                            *file_system_sandbox_policy,
                            action.changes@[i as int].0,
                            action.changes@[i as int].1,
                            *cwd,
                            native,
                        ));
                        return false;
                    }
                }
            },
        }
    }
    true
}

// ---------------------------------------------------------------------------
// Laws
// ---------------------------------------------------------------------------

/// An empty patch is always rejected as empty, whatever the policies.
pub proof fn lemma_empty_patch_rejected(
    action: ApplyPatchAction,
    policy: AskForApproval,
    profile: PermissionProfile,
    fs: FileSystemSandboxPolicy,
    cwd: PathUri,
    level: WindowsSandboxLevel,
    platform: Platform,
)
    requires
        action.changes@.len() == 0,
    ensures
        spec_assess_patch_safety(action, policy, profile, fs, cwd, level, platform)
            == SafetyVerdict::Reject(empty_patch_reason()),
{
}

/// Under `UnlessTrusted` the user is asked about every non-empty patch.
pub proof fn lemma_unless_trusted_asks(
    action: ApplyPatchAction,
    profile: PermissionProfile,
    fs: FileSystemSandboxPolicy,
    cwd: PathUri,
    level: WindowsSandboxLevel,
    platform: Platform,
)
    requires
        action.changes@.len() > 0,
    ensures
        spec_assess_patch_safety(
            action,
            AskForApproval::UnlessTrusted,
            profile,
            fs,
            cwd,
            level,
            platform,
        ) == SafetyVerdict::AskUser,
{
}

/// A patch is approved without asking only when it is not empty, the policy is not
/// `UnlessTrusted`, it writes only where the file-system sandbox allows, and either no
/// sandbox of this system applies or the platform offers one to enforce the limits.
pub proof fn lemma_auto_approve_only_when_enforced(
    action: ApplyPatchAction,
    policy: AskForApproval,
    profile: PermissionProfile,
    fs: FileSystemSandboxPolicy,
    cwd: PathUri,
    level: WindowsSandboxLevel,
    platform: Platform,
)
    requires
        spec_assess_patch_safety(action, policy, profile, fs, cwd, level, platform)
            == SafetyVerdict::AutoApprove,
    ensures
        action.changes@.len() > 0,
        policy != AskForApproval::UnlessTrusted,
        spec_is_write_patch_constrained_to_writable_paths(
            action,
            fs,
            cwd,
            platform.spec_path_convention(),
        ),
        profile is Managed ==> spec_get_platform_sandbox(
            level != WindowsSandboxLevel::Disabled,
            platform,
        ) is Some,
{
}

/// Without full-disk write access, a patch that touches a path of another host, or
/// written in another convention than the platform's, is never approved without asking.
pub proof fn lemma_foreign_path_never_auto_approved(
    action: ApplyPatchAction,
    policy: AskForApproval,
    profile: PermissionProfile,
    fs: FileSystemSandboxPolicy,
    cwd: PathUri,
    level: WindowsSandboxLevel,
    platform: Platform,
    i: int,
)
    requires
        !fs.full_disk_write_access,
        0 <= i < action.changes@.len(),
        !action.changes@[i].0.is_local(platform.spec_path_convention()),
    ensures
        spec_assess_patch_safety(action, policy, profile, fs, cwd, level, platform)
            != SafetyVerdict::AutoApprove,
{
    assert(!change_is_writable(
        fs,
        action.changes@[i].0,
        action.changes@[i].1,
        cwd,
        platform.spec_path_convention(),
    ));
}

/// A non-empty patch is rejected only when the approval policy refuses to let the user
/// approve writes outside the sandbox, and then for one of the two sandbox reasons.
pub proof fn lemma_reject_only_without_sandbox_approval(
    action: ApplyPatchAction,
    policy: AskForApproval,
    profile: PermissionProfile,
    fs: FileSystemSandboxPolicy,
    cwd: PathUri,
    level: WindowsSandboxLevel,
    platform: Platform,
    reason: Seq<char>,
)
    requires
        action.changes@.len() > 0,
        spec_assess_patch_safety(action, policy, profile, fs, cwd, level, platform)
            == SafetyVerdict::Reject(reason),
    ensures
        rejects_sandbox_approval(policy),
        reason == outside_project_reason() || reason == read_only_reason(),
{
}

/// The read-only reason is given only under a profile enforced by this system's sandbox.
pub proof fn lemma_read_only_reason_only_when_managed(
    profile: PermissionProfile,
    fs: FileSystemSandboxPolicy,
    cwd: PathUri,
    native: PathConvention,
)
    requires
        spec_patch_rejection_reason(profile, fs, cwd, native) == read_only_reason(),
    ensures
        profile is Managed,
        !fs.full_disk_write_access,
        fs.writable_root_count() == 0,
{
    reveal_strlit("writing is blocked by read-only sandbox; rejected by user approval settings");
    reveal_strlit("writing outside of the project; rejected by user approval settings");
    assert(read_only_reason()[8] != outside_project_reason()[8]);
}

/// When no sandbox of this system applies (a disabled or external profile), every
/// non-empty patch that writes only where the file-system sandbox allows is approved,
/// unless the policy is `UnlessTrusted`.
pub proof fn lemma_unsandboxed_profile_auto_approves(
    action: ApplyPatchAction,
    policy: AskForApproval,
    profile: PermissionProfile,
    fs: FileSystemSandboxPolicy,
    cwd: PathUri,
    level: WindowsSandboxLevel,
    platform: Platform,
)
    requires
        action.changes@.len() > 0,
        policy != AskForApproval::UnlessTrusted,
        !(profile is Managed),
        spec_is_write_patch_constrained_to_writable_paths(
            action,
            fs,
            cwd,
            platform.spec_path_convention(),
        ),
    ensures
        spec_assess_patch_safety(action, policy, profile, fs, cwd, level, platform)
            == SafetyVerdict::AutoApprove,
{
}

/// Full-disk write access lets a patch write everywhere.
pub proof fn lemma_full_disk_constrains_every_patch(
    action: ApplyPatchAction,
    fs: FileSystemSandboxPolicy,
    cwd: PathUri,
    native: PathConvention,
)
    requires
        fs.full_disk_write_access,
    ensures
        spec_is_write_patch_constrained_to_writable_paths(action, fs, cwd, native),
{
}

/// A working directory of another host cannot be inspected, so the rejection reason is
/// then always that the patch writes outside the project.
pub proof fn lemma_foreign_cwd_rejects_as_outside_project(
    profile: PermissionProfile,
    fs: FileSystemSandboxPolicy,
    cwd: PathUri,
    native: PathConvention,
)
    requires
        !cwd.is_local(native),
    ensures
        spec_patch_rejection_reason(profile, fs, cwd, native) == outside_project_reason(),
{
}

/// Under a profile enforced by this system's sandbox, a non-empty patch that writes only
/// where the file-system sandbox allows is approved whenever the platform offers a sandbox,
/// whatever the approval policy other than `UnlessTrusted` (`Never` and a granular policy
/// without sandbox approval included).
pub proof fn lemma_enforceable_patch_auto_approved(
    action: ApplyPatchAction,
    policy: AskForApproval,
    network: NetworkSandboxPolicy,
    fs: FileSystemSandboxPolicy,
    cwd: PathUri,
    level: WindowsSandboxLevel,
    platform: Platform,
)
    requires
        action.changes@.len() > 0,
        policy != AskForApproval::UnlessTrusted,
        spec_is_write_patch_constrained_to_writable_paths(
            action,
            fs,
            cwd,
            platform.spec_path_convention(),
        ),
        platform == Platform::Linux || platform == Platform::MacOs || (platform == Platform::Windows
            && level != WindowsSandboxLevel::Disabled),
    ensures
        spec_assess_patch_safety(
            action,
            policy,
            PermissionProfile::Managed { network },
            fs,
            cwd,
            level,
            platform,
        ) == SafetyVerdict::AutoApprove,
{
}

/// Under a profile enforced by this system's sandbox, when the platform offers no sandbox
/// (Windows with its sandbox disabled, or another system), a non-empty patch is never
/// approved without asking: under `OnRequest`, or a granular policy that allows sandbox
/// approval, the user is asked; under `Never`, or a granular policy that does not, it is
/// rejected with the reason for the profile, sandbox and working directory.
pub proof fn lemma_unenforceable_patch_asks_or_rejects(
    action: ApplyPatchAction,
    policy: AskForApproval,
    network: NetworkSandboxPolicy,
    fs: FileSystemSandboxPolicy,
    cwd: PathUri,
    level: WindowsSandboxLevel,
    platform: Platform,
)
    requires
        action.changes@.len() > 0,
        platform == Platform::Other || (platform == Platform::Windows && level
            == WindowsSandboxLevel::Disabled),
    ensures
        (policy == AskForApproval::OnRequest || policy == AskForApproval::Granular(
            GranularApprovalConfig { sandbox_approval: true },
        )) ==> spec_assess_patch_safety(
            action,
            policy,
            PermissionProfile::Managed { network },
            fs,
            cwd,
            level,
            platform,
        ) == SafetyVerdict::AskUser,
        (policy == AskForApproval::Never || policy == AskForApproval::Granular(
            GranularApprovalConfig { sandbox_approval: false },
        )) ==> spec_assess_patch_safety(
            action,
            policy,
            PermissionProfile::Managed { network },
            fs,
            cwd,
            level,
            platform,
        ) == SafetyVerdict::Reject(
            spec_patch_rejection_reason(
                PermissionProfile::Managed { network },
                fs,
                cwd,
                platform.spec_path_convention(),
            ),
        ),
{
}

/// A non-empty patch that writes somewhere the file-system sandbox does not allow is never
/// approved without asking: the user is asked under `OnRequest` or a granular policy that
/// allows sandbox approval, and it is rejected under `Never` or a granular policy that
/// does not, whatever the profile and platform.
pub proof fn lemma_unconstrained_patch_asks_or_rejects(
    action: ApplyPatchAction,
    policy: AskForApproval,
    profile: PermissionProfile,
    fs: FileSystemSandboxPolicy,
    cwd: PathUri,
    level: WindowsSandboxLevel,
    platform: Platform,
)
    requires
        action.changes@.len() > 0,
        !spec_is_write_patch_constrained_to_writable_paths(
            action,
            fs,
            cwd,
            platform.spec_path_convention(),
        ),
    ensures
        (policy == AskForApproval::OnRequest || policy == AskForApproval::Granular(
            GranularApprovalConfig { sandbox_approval: true },
        )) ==> spec_assess_patch_safety(action, policy, profile, fs, cwd, level, platform)
            == SafetyVerdict::AskUser,
        (policy == AskForApproval::Never || policy == AskForApproval::Granular(
            GranularApprovalConfig { sandbox_approval: false },
        )) ==> spec_assess_patch_safety(action, policy, profile, fs, cwd, level, platform)
            == SafetyVerdict::Reject(
            spec_patch_rejection_reason(profile, fs, cwd, platform.spec_path_convention()),
        ),
{
}

/// The rejection reason is the read-only one exactly under a profile enforced by this
/// system's sandbox, without full-disk write access, with a local working directory, and
/// with no writable root; otherwise the patch writes outside the project.
pub proof fn lemma_rejection_reason_characterized(
    profile: PermissionProfile,
    fs: FileSystemSandboxPolicy,
    cwd: PathUri,
    native: PathConvention,
)
    ensures
        (profile is Managed && !fs.full_disk_write_access && cwd.is_local(native)
            && fs.writable_roots@.len() == 0 && !fs.project_root_writable)
            ==> spec_patch_rejection_reason(profile, fs, cwd, native) == read_only_reason(),
        !(profile is Managed && !fs.full_disk_write_access && cwd.is_local(native)
            && fs.writable_roots@.len() == 0 && !fs.project_root_writable)
            ==> spec_patch_rejection_reason(profile, fs, cwd, native) == outside_project_reason(),
{
}

/// A change whose file, or whose move destination, may not be written keeps the patch
/// from being constrained to writable paths, unless the policy grants full-disk write
/// access; a patch whose every target may be written is constrained.
pub proof fn lemma_constrained_characterized(
    action: ApplyPatchAction,
    fs: FileSystemSandboxPolicy,
    cwd: PathUri,
    native: PathConvention,
    i: int,
)
    requires
        0 <= i < action.changes@.len(),
    ensures
        !fs.full_disk_write_access && !fs.spec_can_write_path_uri(action.changes@[i].0, cwd, native)
            ==> !spec_is_write_patch_constrained_to_writable_paths(action, fs, cwd, native),
        !fs.full_disk_write_access ==> (action.changes@[i].1 matches ApplyPatchFileChange::Update {
            move_path: Some(dest),
            ..
        } ==> (!fs.spec_can_write_path_uri(dest, cwd, native)
            ==> !spec_is_write_patch_constrained_to_writable_paths(action, fs, cwd, native))),
        (forall|j: int|
            0 <= j < action.changes@.len() ==> fs.spec_can_write_path_uri(
                (#[trigger] action.changes@[j]).0,
                cwd,
                native,
            ) && (action.changes@[j].1 matches ApplyPatchFileChange::Update {
                move_path: Some(dest),
                ..
            } ==> fs.spec_can_write_path_uri(dest, cwd, native)))
            ==> spec_is_write_patch_constrained_to_writable_paths(action, fs, cwd, native),
{
    assert(action.changes@[i] == action.changes@[i]);
}

/// macOS and Linux always offer a sandbox, Windows only when its sandbox is enabled, and
/// other systems none.
pub proof fn lemma_platform_sandbox_characterized(windows_sandbox_enabled: bool)
    ensures
        spec_get_platform_sandbox(windows_sandbox_enabled, Platform::MacOs) == Some(
            SandboxType::MacosSeatbelt,
        ),
        spec_get_platform_sandbox(windows_sandbox_enabled, Platform::Linux) == Some(
            SandboxType::LinuxSeccomp,
        ),
        spec_get_platform_sandbox(true, Platform::Windows) == Some(
            SandboxType::WindowsRestrictedToken,
        ),
        spec_get_platform_sandbox(false, Platform::Windows) is None,
        spec_get_platform_sandbox(windows_sandbox_enabled, Platform::Other) is None,
{
}

} // verus!
