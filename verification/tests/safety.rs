use codex_permissions::apply_patch::{ApplyPatchAction, ApplyPatchFileChange};
use codex_permissions::path::{AbsolutePathBuf, PathConvention, PathUri, Platform};
use codex_permissions::protocol::{
    AskForApproval, FileSystemSandboxPolicy, GranularApprovalConfig, NetworkSandboxPolicy,
    PermissionProfile, WindowsSandboxLevel, WritableRoot,
};
use codex_permissions::safety::{
    assess_patch_safety, is_write_patch_constrained_to_writable_paths, patch_rejection_reason,
    SafetyCheck,
};
use codex_permissions::sandboxing::{get_platform_sandbox, SandboxType};

const OUTSIDE: &str = "writing outside of the project; rejected by user approval settings";
const READ_ONLY: &str =
    "writing is blocked by read-only sandbox; rejected by user approval settings";

fn uri(p: &str) -> PathUri {
    PathUri::new(None, PathConvention::Posix, p.to_string()).unwrap()
}

fn abs(p: &str) -> AbsolutePathBuf {
    AbsolutePathBuf::from_absolute_path(p.to_string(), PathConvention::Posix).unwrap()
}

fn add(p: &str) -> (PathUri, ApplyPatchFileChange) {
    (uri(p), ApplyPatchFileChange::Add { content: "x\n".to_string() })
}

fn update(p: &str, dest: Option<&str>) -> (PathUri, ApplyPatchFileChange) {
    (
        uri(p),
        ApplyPatchFileChange::Update {
            unified_diff: "@@ -1 +1 @@\n-a\n+b\n".to_string(),
            move_path: dest.map(uri),
            new_content: "b\n".to_string(),
        },
    )
}

fn workspace_policy() -> FileSystemSandboxPolicy {
    FileSystemSandboxPolicy {
        full_disk_write_access: false,
        writable_roots: vec![WritableRoot {
            root: abs("/work"),
            read_only_subpaths: vec![abs("/work/.git")],
        }],
        project_root_writable: false,
    }
}

fn read_only_policy() -> FileSystemSandboxPolicy {
    FileSystemSandboxPolicy {
        full_disk_write_access: false,
        writable_roots: vec![],
        project_root_writable: false,
    }
}

fn managed() -> PermissionProfile {
    PermissionProfile::Managed { network: NetworkSandboxPolicy::Restricted }
}

fn assess(
    action: &ApplyPatchAction,
    policy: AskForApproval,
    profile: PermissionProfile,
    fs: &FileSystemSandboxPolicy,
    level: WindowsSandboxLevel,
    platform: Platform,
) -> SafetyCheck {
    assess_patch_safety(action, policy, &profile, fs, &uri("/work"), level, platform)
}

fn reject(reason: &str) -> SafetyCheck {
    SafetyCheck::Reject { reason: reason.to_string() }
}

#[test]
fn empty_patch_is_rejected() {
    let action = ApplyPatchAction { changes: vec![] };
    for policy in [AskForApproval::Never, AskForApproval::UnlessTrusted, AskForApproval::OnRequest] {
        assert_eq!(
            assess(&action, policy, managed(), &workspace_policy(), WindowsSandboxLevel::Disabled, Platform::Linux),
            reject("empty patch")
        );
    }
}

#[test]
fn unless_trusted_asks_the_user() {
    let action = ApplyPatchAction { changes: vec![add("/work/a.txt")] };
    assert_eq!(
        assess(&action, AskForApproval::UnlessTrusted, PermissionProfile::Disabled, &workspace_policy(), WindowsSandboxLevel::Disabled, Platform::Linux),
        SafetyCheck::AskUser
    );
}

#[test]
fn patch_inside_writable_root_is_auto_approved_with_platform_sandbox() {
    let action = ApplyPatchAction { changes: vec![add("/work/a.txt"), update("/work/src/lib.rs", None)] };
    for platform in [Platform::Linux, Platform::MacOs] {
        assert_eq!(
            assess(&action, AskForApproval::OnRequest, managed(), &workspace_policy(), WindowsSandboxLevel::Disabled, platform),
            SafetyCheck::AutoApprove
        );
    }
}

#[test]
fn windows_sandbox_must_be_enabled_to_auto_approve() {
    let action = ApplyPatchAction { changes: vec![add("/work/a.txt")] };
    assert_eq!(
        assess(&action, AskForApproval::OnRequest, managed(), &workspace_policy(), WindowsSandboxLevel::RestrictedToken, Platform::Windows),
        SafetyCheck::AskUser,
        "a Posix path is foreign on Windows"
    );
    let wpath = PathUri::new(None, PathConvention::Windows, "C:\\work\\a.txt".to_string()).unwrap();
    let wroot = AbsolutePathBuf::from_absolute_path("C:\\work".to_string(), PathConvention::Windows).unwrap();
    let wcwd = PathUri::new(None, PathConvention::Windows, "C:\\work".to_string()).unwrap();
    let fs = FileSystemSandboxPolicy {
        full_disk_write_access: false,
        writable_roots: vec![WritableRoot { root: wroot, read_only_subpaths: vec![] }],
        project_root_writable: false,
    };
    let action = ApplyPatchAction { changes: vec![(wpath, ApplyPatchFileChange::Delete { content: String::new() })] };
    let profile = managed();
    assert_eq!(
        assess_patch_safety(&action, AskForApproval::OnRequest, &profile, &fs, &wcwd, WindowsSandboxLevel::Elevated, Platform::Windows),
        SafetyCheck::AutoApprove
    );
    let mixed = PathUri::new(None, PathConvention::Windows, "c:/WORK/b.txt".to_string()).unwrap();
    let mixed_action = ApplyPatchAction { changes: vec![(mixed, ApplyPatchFileChange::Add { content: String::new() })] };
    assert_eq!(
        assess_patch_safety(&mixed_action, AskForApproval::OnRequest, &profile, &fs, &wcwd, WindowsSandboxLevel::Elevated, Platform::Windows),
        SafetyCheck::AutoApprove
    );
    assert_eq!(
        assess_patch_safety(&action, AskForApproval::OnRequest, &profile, &fs, &wcwd, WindowsSandboxLevel::Disabled, Platform::Windows),
        SafetyCheck::AskUser
    );
    assert_eq!(
        assess_patch_safety(&action, AskForApproval::Never, &profile, &fs, &wcwd, WindowsSandboxLevel::Disabled, Platform::Windows),
        reject(OUTSIDE)
    );
}

#[test]
fn unsandboxed_profiles_auto_approve_constrained_patches_anywhere() {
    let action = ApplyPatchAction { changes: vec![add("/work/a.txt")] };
    for profile in [PermissionProfile::Disabled, PermissionProfile::External { network: NetworkSandboxPolicy::Enabled }] {
        assert_eq!(
            assess(&action, AskForApproval::Never, profile, &workspace_policy(), WindowsSandboxLevel::Disabled, Platform::Other),
            SafetyCheck::AutoApprove
        );
    }
}

#[test]
fn no_platform_sandbox_asks_or_rejects() {
    let action = ApplyPatchAction { changes: vec![add("/work/a.txt")] };
    assert_eq!(
        assess(&action, AskForApproval::OnRequest, managed(), &workspace_policy(), WindowsSandboxLevel::Disabled, Platform::Other),
        SafetyCheck::AskUser
    );
    assert_eq!(
        assess(&action, AskForApproval::Never, managed(), &workspace_policy(), WindowsSandboxLevel::Disabled, Platform::Other),
        reject(OUTSIDE)
    );
}

#[test]
fn write_outside_roots_asks_or_rejects() {
    let action = ApplyPatchAction { changes: vec![add("/work/a.txt"), add("/etc/passwd")] };
    let fs = workspace_policy();
    assert_eq!(
        assess(&action, AskForApproval::OnRequest, managed(), &fs, WindowsSandboxLevel::Disabled, Platform::Linux),
        SafetyCheck::AskUser
    );
    assert_eq!(
        assess(&action, AskForApproval::Never, managed(), &fs, WindowsSandboxLevel::Disabled, Platform::Linux),
        reject(OUTSIDE)
    );
    assert_eq!(
        assess(&action, AskForApproval::Granular(GranularApprovalConfig { sandbox_approval: false }), managed(), &fs, WindowsSandboxLevel::Disabled, Platform::Linux),
        reject(OUTSIDE)
    );
    assert_eq!(
        assess(&action, AskForApproval::Granular(GranularApprovalConfig { sandbox_approval: true }), managed(), &fs, WindowsSandboxLevel::Disabled, Platform::Linux),
        SafetyCheck::AskUser
    );
    assert_eq!(
        assess(&action, AskForApproval::Never, PermissionProfile::Disabled, &fs, WindowsSandboxLevel::Disabled, Platform::Linux),
        reject(OUTSIDE)
    );
}

#[test]
fn read_only_sandbox_reason() {
    let action = ApplyPatchAction { changes: vec![add("/work/a.txt")] };
    let fs = read_only_policy();
    assert_eq!(
        assess(&action, AskForApproval::Never, managed(), &fs, WindowsSandboxLevel::Disabled, Platform::Linux),
        reject(READ_ONLY)
    );
    assert_eq!(patch_rejection_reason(&managed(), &fs, &uri("/work"), PathConvention::Posix), READ_ONLY);
    assert_eq!(
        patch_rejection_reason(&PermissionProfile::Disabled, &fs, &uri("/work"), PathConvention::Posix),
        OUTSIDE
    );
    let foreign_cwd = PathUri::new(Some("remote".to_string()), PathConvention::Posix, "/work".to_string()).unwrap();
    assert_eq!(patch_rejection_reason(&managed(), &fs, &foreign_cwd, PathConvention::Posix), OUTSIDE);
    let project = FileSystemSandboxPolicy { full_disk_write_access: false, writable_roots: vec![], project_root_writable: true };
    assert_eq!(patch_rejection_reason(&managed(), &project, &uri("/work"), PathConvention::Posix), OUTSIDE);
    let full = FileSystemSandboxPolicy { full_disk_write_access: true, writable_roots: vec![], project_root_writable: false };
    assert_eq!(patch_rejection_reason(&managed(), &full, &uri("/work"), PathConvention::Posix), OUTSIDE);
}

#[test]
fn read_only_subpaths_and_moves_are_checked() {
    let fs = workspace_policy();
    let cwd = uri("/work");
    let git = ApplyPatchAction { changes: vec![add("/work/.git/config")] };
    assert!(!is_write_patch_constrained_to_writable_paths(&git, &fs, &cwd, PathConvention::Posix));
    let moved_out = ApplyPatchAction { changes: vec![update("/work/a.rs", Some("/tmp/a.rs"))] };
    assert!(!is_write_patch_constrained_to_writable_paths(&moved_out, &fs, &cwd, PathConvention::Posix));
    let moved_in = ApplyPatchAction { changes: vec![update("/work/a.rs", Some("/work/b.rs"))] };
    assert!(is_write_patch_constrained_to_writable_paths(&moved_in, &fs, &cwd, PathConvention::Posix));
    let deleted = ApplyPatchAction { changes: vec![(uri("/other/x"), ApplyPatchFileChange::Delete { content: String::new() })] };
    assert!(!is_write_patch_constrained_to_writable_paths(&deleted, &fs, &cwd, PathConvention::Posix));
}

#[test]
fn project_root_is_writable_when_configured() {
    let fs = FileSystemSandboxPolicy { full_disk_write_access: false, writable_roots: vec![], project_root_writable: true };
    let action = ApplyPatchAction { changes: vec![add("/work/a.txt")] };
    assert!(is_write_patch_constrained_to_writable_paths(&action, &fs, &uri("/work"), PathConvention::Posix));
    assert!(!is_write_patch_constrained_to_writable_paths(&action, &fs, &uri("/elsewhere"), PathConvention::Posix));
    assert_eq!(fs.get_writable_roots_with_cwd(&abs("/work")).len(), 1);
    assert_eq!(workspace_policy().get_writable_roots_with_cwd(&abs("/work")).len(), 1);
    assert_eq!(read_only_policy().get_writable_roots_with_cwd(&abs("/work")).len(), 0);
}

#[test]
fn foreign_path_is_never_auto_approved() {
    let remote = PathUri::new(Some("devbox".to_string()), PathConvention::Posix, "/work/a.txt".to_string()).unwrap();
    let action = ApplyPatchAction { changes: vec![(remote, ApplyPatchFileChange::Add { content: String::new() })] };
    assert!(!is_write_patch_constrained_to_writable_paths(&action, &workspace_policy(), &uri("/work"), PathConvention::Posix));
    assert_eq!(
        assess(&action, AskForApproval::OnRequest, PermissionProfile::Disabled, &workspace_policy(), WindowsSandboxLevel::Disabled, Platform::Linux),
        SafetyCheck::AskUser
    );
}

#[test]
fn full_disk_access_constrains_every_patch() {
    let fs = FileSystemSandboxPolicy { full_disk_write_access: true, writable_roots: vec![], project_root_writable: false };
    let remote = PathUri::new(Some("devbox".to_string()), PathConvention::Posix, "/x".to_string()).unwrap();
    let action = ApplyPatchAction { changes: vec![add("/etc/hosts"), (remote, ApplyPatchFileChange::Add { content: String::new() })] };
    assert!(is_write_patch_constrained_to_writable_paths(&action, &fs, &uri("/work"), PathConvention::Posix));
    assert_eq!(
        assess(&action, AskForApproval::Never, PermissionProfile::Disabled, &fs, WindowsSandboxLevel::Disabled, Platform::Other),
        SafetyCheck::AutoApprove
    );
}

#[test]
fn platform_sandboxes() {
    assert_eq!(get_platform_sandbox(false, Platform::MacOs), Some(SandboxType::MacosSeatbelt));
    assert_eq!(get_platform_sandbox(false, Platform::Linux), Some(SandboxType::LinuxSeccomp));
    assert_eq!(get_platform_sandbox(true, Platform::Windows), Some(SandboxType::WindowsRestrictedToken));
    assert_eq!(get_platform_sandbox(false, Platform::Windows), None);
    assert_eq!(get_platform_sandbox(true, Platform::Other), None);
}

#[test]
fn writable_root_rules() {
    let root = WritableRoot { root: abs("/work"), read_only_subpaths: vec![abs("/work/.git"), abs("/work/.codex")] };
    assert!(root.is_path_writable(&abs("/work/src/main.rs")));
    assert!(root.is_path_writable(&abs("/work")));
    assert!(!root.is_path_writable(&abs("/work/.git/HEAD")));
    assert!(!root.is_path_writable(&abs("/work/.codex")));
    assert!(root.is_path_writable(&abs("/work/.github/ci.yml")));
    assert!(!root.is_path_writable(&abs("/workspace")));
}
