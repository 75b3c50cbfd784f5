use codex_permissions::path::{
    AbsolutePathBuf, LegacyAppPathString, PathConversionError, PathConvention, PathUri,
};
use codex_permissions::permissions::{
    ActivePermissionProfile, AdditionalFileSystemPermissions, AdditionalNetworkPermissions,
    AdditionalPermissionProfile, ExecPolicyAmendment, FileSystemAccessMode, FileSystemPath,
    FileSystemSandboxEntry, FileSystemSpecialPath, GrantedPermissionProfile,
    LegacyReadOnlyAccess, NetworkAccess, NetworkApprovalContext, NetworkApprovalProtocol,
    NetworkPolicyAmendment, NetworkPolicyRuleAction, PermissionGrantScope,
    PermissionProfileListParams, PermissionProfileListResponse, PermissionProfileSummary,
    PermissionsRequestApprovalParams, PermissionsRequestApprovalResponse,
    RequestPermissionProfile, SandboxPolicy, SandboxPolicyDeserialize, SandboxPolicyError,
};
use codex_permissions::protocol;

const POSIX: PathConvention = PathConvention::Posix;

fn uri(p: &str) -> PathUri {
    PathUri::new(None, POSIX, p.to_string()).unwrap()
}

fn legacy(p: &str) -> LegacyAppPathString {
    LegacyAppPathString::new(p.to_string())
}

fn abs(p: &str) -> AbsolutePathBuf {
    AbsolutePathBuf::from_absolute_path(p.to_string(), POSIX).unwrap()
}

fn core_entry(p: &str, access: protocol::FileSystemAccessMode) -> protocol::FileSystemSandboxEntry {
    protocol::FileSystemSandboxEntry { path: protocol::FileSystemPath::Path { path: uri(p) }, access }
}

fn v2_entry(p: &str, access: FileSystemAccessMode) -> FileSystemSandboxEntry {
    FileSystemSandboxEntry { path: FileSystemPath::Path { path: legacy(p) }, access }
}

#[test]
fn enums_convert_both_ways() {
    assert_eq!(NetworkApprovalProtocol::from(protocol::NetworkApprovalProtocol::Socks5Udp), NetworkApprovalProtocol::Socks5Udp);
    assert_eq!(NetworkApprovalProtocol::Https.to_core(), protocol::NetworkApprovalProtocol::Https);
    assert_eq!(FileSystemAccessMode::from(protocol::FileSystemAccessMode::Deny), FileSystemAccessMode::Deny);
    assert_eq!(FileSystemAccessMode::Write.to_core(), protocol::FileSystemAccessMode::Write);
    assert_eq!(NetworkPolicyRuleAction::from(protocol::NetworkPolicyRuleAction::Allow), NetworkPolicyRuleAction::Allow);
    assert_eq!(NetworkPolicyRuleAction::Deny.to_core(), protocol::NetworkPolicyRuleAction::Deny);
    assert_eq!(PermissionGrantScope::from(protocol::PermissionGrantScope::Session), PermissionGrantScope::Session);
    assert_eq!(PermissionGrantScope::Turn.to_core(), protocol::PermissionGrantScope::Turn);
}

#[test]
fn network_approval_context_from_core() {
    let ctx = NetworkApprovalContext::from(protocol::NetworkApprovalContext {
        host: "example.com".to_string(),
        protocol: protocol::NetworkApprovalProtocol::Http,
    });
    assert_eq!(ctx, NetworkApprovalContext { host: "example.com".to_string(), protocol: NetworkApprovalProtocol::Http });
}

#[test]
fn special_paths_round_trip() {
    let core = protocol::FileSystemSpecialPath::Unknown { path: ":custom".to_string(), subpath: Some("docs".to_string()) };
    let v2 = FileSystemSpecialPath::from(core.clone());
    assert_eq!(v2, FileSystemSpecialPath::Unknown { path: ":custom".to_string(), subpath: Some(legacy("docs")) });
    assert_eq!(protocol::FileSystemSpecialPath::from(v2), core);
    let roots = FileSystemSpecialPath::ProjectRoots { subpath: None };
    assert_eq!(protocol::FileSystemSpecialPath::from(roots), protocol::FileSystemSpecialPath::ProjectRoots { subpath: None });
    assert_eq!(FileSystemSpecialPath::from(protocol::FileSystemSpecialPath::SlashTmp), FileSystemSpecialPath::SlashTmp);
}

#[test]
fn file_system_path_conversions() {
    assert_eq!(
        FileSystemPath::Path { path: legacy("/data") }.try_into_core(POSIX),
        Ok(protocol::FileSystemPath::Path { path: uri("/data") })
    );
    assert_eq!(
        FileSystemPath::Path { path: legacy("data") }.try_into_core(POSIX),
        Err(PathConversionError::NotAbsolute)
    );
    assert_eq!(
        FileSystemPath::GlobPattern { pattern: "**/*.rs".to_string() }.try_into_core(POSIX),
        Ok(protocol::FileSystemPath::GlobPattern { pattern: "**/*.rs".to_string() })
    );
    assert_eq!(
        FileSystemPath::from_core(protocol::FileSystemPath::Path { path: uri("/data") }, POSIX),
        FileSystemPath::Path { path: legacy("/data") }
    );
    assert_eq!(
        FileSystemPath::from_core(protocol::FileSystemPath::Special { value: protocol::FileSystemSpecialPath::Tmpdir }, POSIX),
        FileSystemPath::Special { value: FileSystemSpecialPath::Tmpdir }
    );
}

#[test]
fn sandbox_entry_conversions() {
    let e = v2_entry("/repo", FileSystemAccessMode::Read);
    let core = e.clone().try_into_core(POSIX).unwrap();
    assert_eq!(core, core_entry("/repo", protocol::FileSystemAccessMode::Read));
    assert_eq!(FileSystemSandboxEntry::from_core(core, POSIX), e);
    let windows = v2_entry("C:\\repo", FileSystemAccessMode::Write);
    assert_eq!(windows.try_into_core(POSIX), Err(PathConversionError::NotAbsolute));
}

#[test]
fn legacy_roots_permissions_from_core() {
    let core = protocol::FileSystemPermissions {
        entries: vec![
            core_entry("/w", protocol::FileSystemAccessMode::Write),
            core_entry("/r", protocol::FileSystemAccessMode::Read),
        ],
        glob_scan_max_depth: None,
    };
    let v2 = AdditionalFileSystemPermissions::from_core(core, POSIX);
    assert_eq!(v2.read, Some(vec![legacy("/r")]));
    assert_eq!(v2.write, Some(vec![legacy("/w")]));
    assert_eq!(v2.glob_scan_max_depth, None);
    assert_eq!(
        v2.entries,
        Some(vec![v2_entry("/r", FileSystemAccessMode::Read), v2_entry("/w", FileSystemAccessMode::Write)])
    );
}

#[test]
fn empty_permissions_have_no_roots() {
    let core = protocol::FileSystemPermissions { entries: vec![], glob_scan_max_depth: None };
    let v2 = AdditionalFileSystemPermissions::from_core(core, POSIX);
    assert_eq!(v2.read, None);
    assert_eq!(v2.write, None);
    assert_eq!(v2.entries, Some(vec![]));
}

#[test]
fn entry_permissions_from_core() {
    let depth = protocol::NonZeroDepth::new(3).unwrap();
    let core = protocol::FileSystemPermissions {
        entries: vec![
            core_entry("/r", protocol::FileSystemAccessMode::Read),
            protocol::FileSystemSandboxEntry {
                path: protocol::FileSystemPath::GlobPattern { pattern: "*.env".to_string() },
                access: protocol::FileSystemAccessMode::Deny,
            },
        ],
        glob_scan_max_depth: Some(depth),
    };
    let v2 = AdditionalFileSystemPermissions::from_core(core, POSIX);
    assert_eq!(v2.read, None);
    assert_eq!(v2.write, None);
    assert_eq!(v2.glob_scan_max_depth, Some(depth));
    assert_eq!(
        v2.entries,
        Some(vec![
            v2_entry("/r", FileSystemAccessMode::Read),
            FileSystemSandboxEntry {
                path: FileSystemPath::GlobPattern { pattern: "*.env".to_string() },
                access: FileSystemAccessMode::Deny
            },
        ])
    );
}

#[test]
fn permissions_to_core_prefers_entries() {
    let v2 = AdditionalFileSystemPermissions {
        read: Some(vec![legacy("/ignored")]),
        write: None,
        glob_scan_max_depth: protocol::NonZeroDepth::new(2),
        entries: Some(vec![v2_entry("/w", FileSystemAccessMode::Write)]),
    };
    let core = v2.try_into_core(POSIX).unwrap();
    assert_eq!(core.entries, vec![core_entry("/w", protocol::FileSystemAccessMode::Write)]);
    assert_eq!(core.glob_scan_max_depth.map(|d| d.get()), Some(2));
}

#[test]
fn permissions_to_core_from_roots() {
    let v2 = AdditionalFileSystemPermissions {
        read: Some(vec![legacy("/r1"), legacy("/r2")]),
        write: Some(vec![legacy("/w")]),
        glob_scan_max_depth: None,
        entries: None,
    };
    let core = v2.try_into_core(POSIX).unwrap();
    assert_eq!(
        core.entries,
        vec![
            core_entry("/r1", protocol::FileSystemAccessMode::Read),
            core_entry("/r2", protocol::FileSystemAccessMode::Read),
            core_entry("/w", protocol::FileSystemAccessMode::Write),
        ]
    );
    assert_eq!(core.glob_scan_max_depth, None);
}

#[test]
fn permissions_to_core_reports_the_first_bad_path() {
    let v2 = AdditionalFileSystemPermissions {
        read: Some(vec![legacy("/ok"), legacy("relative")]),
        write: Some(vec![legacy("also-relative")]),
        glob_scan_max_depth: None,
        entries: None,
    };
    assert_eq!(v2.try_into_core(POSIX), Err(PathConversionError::NotAbsolute));
    let v2 = AdditionalFileSystemPermissions {
        read: None,
        write: None,
        glob_scan_max_depth: None,
        entries: Some(vec![v2_entry("/ok", FileSystemAccessMode::Read), v2_entry("bad", FileSystemAccessMode::Read)]),
    };
    assert_eq!(v2.try_into_core(POSIX), Err(PathConversionError::NotAbsolute));
}

#[test]
fn permissions_round_trip_over_the_wire() {
    let core = protocol::FileSystemPermissions {
        entries: vec![
            core_entry("/r", protocol::FileSystemAccessMode::Read),
            core_entry("/w", protocol::FileSystemAccessMode::Write),
        ],
        glob_scan_max_depth: None,
    };
    let back = AdditionalFileSystemPermissions::from_core(core.clone(), POSIX).try_into_core(POSIX).unwrap();
    assert_eq!(back, core);
    let roots = back.legacy_read_write_roots().unwrap();
    assert_eq!(roots.read, Some(vec![uri("/r")]));
    assert_eq!(roots.write, Some(vec![uri("/w")]));
}

#[test]
fn legacy_roots_require_plain_read_write_entries() {
    let denied = protocol::FileSystemPermissions {
        entries: vec![core_entry("/x", protocol::FileSystemAccessMode::Deny)],
        glob_scan_max_depth: None,
    };
    assert!(denied.legacy_read_write_roots().is_none());
    let limited = protocol::FileSystemPermissions {
        entries: vec![core_entry("/x", protocol::FileSystemAccessMode::Read)],
        glob_scan_max_depth: protocol::NonZeroDepth::new(1),
    };
    assert!(limited.legacy_read_write_roots().is_none());
    let made = protocol::FileSystemPermissions::from_read_write_roots(Some(vec![uri("/a")]), None);
    assert_eq!(made.entries, vec![core_entry("/a", protocol::FileSystemAccessMode::Read)]);
    assert!(protocol::NonZeroDepth::new(0).is_none());
}

#[test]
fn network_permissions_and_profiles() {
    let core = protocol::NetworkPermissions { enabled: Some(true) };
    let v2 = AdditionalNetworkPermissions::from(core);
    assert_eq!(v2.enabled, Some(true));
    assert_eq!(protocol::NetworkPermissions::from(v2), core);

    let request = RequestPermissionProfile::from_core(
        protocol::RequestPermissionProfile {
            network: Some(protocol::NetworkPermissions { enabled: Some(false) }),
            file_system: None,
        },
        POSIX,
    );
    assert_eq!(request, RequestPermissionProfile { network: Some(AdditionalNetworkPermissions { enabled: Some(false) }), file_system: None });
    let back = request.try_into_core(POSIX).unwrap();
    assert_eq!(back.network, Some(protocol::NetworkPermissions { enabled: Some(false) }));
    assert_eq!(back.file_system, None);

    let overlay = AdditionalPermissionProfile {
        network: None,
        file_system: Some(AdditionalFileSystemPermissions { read: None, write: Some(vec![legacy("nope")]), glob_scan_max_depth: None, entries: None }),
    };
    assert_eq!(overlay.try_into_core(POSIX), Err(PathConversionError::NotAbsolute));

    let core_overlay = protocol::AdditionalPermissionProfile {
        network: None,
        file_system: Some(protocol::FileSystemPermissions { entries: vec![core_entry("/w", protocol::FileSystemAccessMode::Write)], glob_scan_max_depth: None }),
    };
    let v2_overlay = AdditionalPermissionProfile::from_core(core_overlay, POSIX);
    assert_eq!(v2_overlay.file_system.unwrap().write, Some(vec![legacy("/w")]));

    let granted = GrantedPermissionProfile::default();
    assert_eq!(granted, GrantedPermissionProfile { network: None, file_system: None });
    let core_granted = granted.try_into_core(POSIX).unwrap();
    assert_eq!(core_granted, protocol::AdditionalPermissionProfile { network: None, file_system: None });
}

#[test]
fn active_permission_profiles() {
    let p = ActivePermissionProfile::new(":workspace".to_string());
    assert_eq!(p.id, ":workspace");
    assert_eq!(p.extends, None);
    let ro = ActivePermissionProfile::read_only();
    assert_eq!(ro.id, ":read-only");
    assert_eq!(ro.extends, None);
    let core = protocol::ActivePermissionProfile::from(ActivePermissionProfile { id: "mine".to_string(), extends: Some(":workspace".to_string()) });
    assert_eq!(core.extends.as_deref(), Some(":workspace"));
    assert_eq!(ActivePermissionProfile::from(core).id, "mine");
}

#[test]
fn sandbox_policy_round_trips() {
    let policies = vec![
        SandboxPolicy::DangerFullAccess,
        SandboxPolicy::ReadOnly { network_access: true },
        SandboxPolicy::ExternalSandbox { network_access: NetworkAccess::Enabled },
        SandboxPolicy::WorkspaceWrite {
            writable_roots: vec![abs("/work"), abs("/cache")],
            network_access: false,
            exclude_tmpdir_env_var: true,
            exclude_slash_tmp: false,
        },
    ];
    for p in policies {
        let core = p.to_core();
        assert_eq!(SandboxPolicy::from(core), p);
    }
    assert_eq!(
        SandboxPolicy::ExternalSandbox { network_access: NetworkAccess::default() }.to_core(),
        protocol::SandboxPolicy::ExternalSandbox { network_access: protocol::NetworkAccess::Restricted }
    );
}

#[test]
fn deserialized_sandbox_policy_rejects_restricted_reads() {
    assert_eq!(
        SandboxPolicy::from_deserialized(SandboxPolicyDeserialize::ReadOnly { network_access: false, access: Some(LegacyReadOnlyAccess::Restricted) }),
        Err(SandboxPolicyError::RestrictedReadOnlyAccess)
    );
    assert_eq!(
        SandboxPolicy::from_deserialized(SandboxPolicyDeserialize::ReadOnly { network_access: true, access: Some(LegacyReadOnlyAccess::FullAccess) }),
        Ok(SandboxPolicy::ReadOnly { network_access: true })
    );
    assert_eq!(
        SandboxPolicy::from_deserialized(SandboxPolicyDeserialize::WorkspaceWrite {
            writable_roots: vec![],
            read_only_access: Some(LegacyReadOnlyAccess::Restricted),
            network_access: false,
            exclude_tmpdir_env_var: false,
            exclude_slash_tmp: false,
        }),
        Err(SandboxPolicyError::RestrictedWorkspaceWriteReadAccess)
    );
    assert_eq!(
        SandboxPolicy::from_deserialized(SandboxPolicyDeserialize::WorkspaceWrite {
            writable_roots: vec![abs("/w")],
            read_only_access: None,
            network_access: true,
            exclude_tmpdir_env_var: false,
            exclude_slash_tmp: true,
        }),
        Ok(SandboxPolicy::WorkspaceWrite { writable_roots: vec![abs("/w")], network_access: true, exclude_tmpdir_env_var: false, exclude_slash_tmp: true })
    );
    assert_eq!(
        SandboxPolicy::from_deserialized(SandboxPolicyDeserialize::DangerFullAccess),
        Ok(SandboxPolicy::DangerFullAccess)
    );
    assert_eq!(
        SandboxPolicy::from_deserialized(SandboxPolicyDeserialize::ExternalSandbox { network_access: NetworkAccess::Enabled }),
        Ok(SandboxPolicy::ExternalSandbox { network_access: NetworkAccess::Enabled })
    );
    assert_eq!(
        SandboxPolicyError::RestrictedReadOnlyAccess.message(),
        "readOnly.access is no longer supported; use permissionProfile for restricted reads"
    );
    assert_eq!(
        SandboxPolicyError::RestrictedWorkspaceWriteReadAccess.message(),
        "workspaceWrite.readOnlyAccess is no longer supported; use permissionProfile for restricted reads"
    );
}

#[test]
fn policy_amendments() {
    let exec = ExecPolicyAmendment { command: vec!["cargo".to_string(), "test".to_string()] };
    let core = exec.clone().into_core();
    assert_eq!(core.command(), &vec!["cargo".to_string(), "test".to_string()]);
    assert_eq!(ExecPolicyAmendment::from(core), exec);

    let net = NetworkPolicyAmendment { host: "api.example.com".to_string(), action: NetworkPolicyRuleAction::Deny };
    let core = net.clone().into_core();
    assert_eq!(core.action, protocol::NetworkPolicyRuleAction::Deny);
    assert_eq!(NetworkPolicyAmendment::from(core), net);
}

#[test]
fn defaults_and_plain_messages() {
    assert_eq!(NetworkAccess::default(), NetworkAccess::Restricted);
    assert_eq!(PermissionGrantScope::default(), PermissionGrantScope::Turn);
    assert_eq!(PermissionProfileListParams::default(), PermissionProfileListParams { cursor: None, limit: None, cwd: None });
    let response = PermissionProfileListResponse {
        data: vec![PermissionProfileSummary { id: ":workspace".to_string(), description: None, allowed: true }],
        next_cursor: None,
    };
    assert_eq!(response.data.len(), 1);
    let params = PermissionsRequestApprovalParams {
        thread_id: "t".to_string(),
        turn_id: "u".to_string(),
        item_id: "i".to_string(),
        environment_id: None,
        started_at_ms: 1_700_000_000_000,
        cwd: abs("/work"),
        reason: Some("needs network".to_string()),
        permissions: RequestPermissionProfile { network: Some(AdditionalNetworkPermissions { enabled: Some(true) }), file_system: None },
    };
    assert_eq!(params.cwd, abs("/work"));
    let answer = PermissionsRequestApprovalResponse { permissions: GrantedPermissionProfile::default(), scope: PermissionGrantScope::default(), strict_auto_review: None };
    assert_eq!(answer.scope, PermissionGrantScope::Turn);
}
