use codex_permissions::path::{
    AbsolutePathBuf, ForeignPathError, LegacyAppPathString, PathConversionError, PathConvention,
    PathUri, Platform,
};

fn legacy(s: &str) -> LegacyAppPathString {
    LegacyAppPathString::new(s.to_string())
}

fn local(path: &str, convention: PathConvention) -> PathUri {
    PathUri::new(None, convention, path.to_string()).expect("absolute path")
}

fn abs(path: &str) -> AbsolutePathBuf {
    AbsolutePathBuf::from_absolute_path(path.to_string(), PathConvention::Posix).expect("absolute")
}

#[test]
fn posix_absolute_text_reads_as_local_uri() {
    let uri = legacy("/home/user/project").to_path_uri(PathConvention::Posix).unwrap();
    assert_eq!(uri.host, None);
    assert_eq!(uri.convention, PathConvention::Posix);
    assert_eq!(uri.path, "/home/user/project");
}

#[test]
fn relative_text_is_not_a_path() {
    assert_eq!(
        legacy("home/user").to_path_uri(PathConvention::Posix),
        Err(PathConversionError::NotAbsolute)
    );
    assert_eq!(
        legacy("").to_path_uri(PathConvention::Posix),
        Err(PathConversionError::NotAbsolute)
    );
}

#[test]
fn windows_paths_need_the_windows_convention() {
    assert!(legacy("C:\\Users\\me").to_path_uri(PathConvention::Windows).is_ok());
    assert!(legacy("c:/Users/me").to_path_uri(PathConvention::Windows).is_ok());
    assert!(legacy("\\\\server\\share").to_path_uri(PathConvention::Windows).is_ok());
    assert_eq!(
        legacy("C:\\Users\\me").to_path_uri(PathConvention::Posix),
        Err(PathConversionError::NotAbsolute)
    );
    assert_eq!(
        legacy("C:Users").to_path_uri(PathConvention::Windows),
        Err(PathConversionError::NotAbsolute)
    );
    assert_eq!(
        legacy("/unix/style").to_path_uri(PathConvention::Windows),
        Err(PathConversionError::NotAbsolute)
    );
}

#[test]
fn foreign_uris_are_not_written_as_native_text() {
    let remote = PathUri::new(Some("devbox".to_string()), PathConvention::Posix, "/srv".to_string())
        .unwrap();
    assert_eq!(
        LegacyAppPathString::from_path_uri(&remote, PathConvention::Posix),
        Err(PathConversionError::ForeignHost)
    );
    let windows = local("D:\\data", PathConvention::Windows);
    assert_eq!(
        LegacyAppPathString::from_path_uri(&windows, PathConvention::Posix),
        Err(PathConversionError::ForeignConvention)
    );
}

#[test]
fn native_text_round_trips() {
    let text = legacy("/var/log/app.log");
    let uri = text.clone().to_path_uri(PathConvention::Posix).unwrap();
    let back = LegacyAppPathString::from_path_uri(&uri, PathConvention::Posix).unwrap();
    assert_eq!(back, text);
    assert_eq!(back.into_string(), "/var/log/app.log");
}

#[test]
fn uri_round_trips_through_native_text() {
    let uri = local("E:\\work", PathConvention::Windows);
    let text = LegacyAppPathString::from_path_uri(&uri, PathConvention::Windows).unwrap();
    assert_eq!(text.as_str(), "E:\\work");
    assert_eq!(text.to_path_uri(PathConvention::Windows), Ok(uri));
}

#[test]
fn projection_fails_closed() {
    let uri = local("/tmp/x", PathConvention::Posix);
    assert_eq!(uri.project_to_localhost(PathConvention::Posix), Ok(abs("/tmp/x")));
    assert_eq!(
        uri.project_to_localhost(PathConvention::Windows),
        Err(ForeignPathError::ForeignConvention)
    );
    let remote =
        PathUri::new(Some("wsl".to_string()), PathConvention::Posix, "/tmp/x".to_string()).unwrap();
    assert_eq!(
        remote.project_to_localhost(PathConvention::Posix),
        Err(ForeignPathError::ForeignHost)
    );
}

#[test]
fn constructors_reject_relative_paths() {
    assert!(PathUri::new(None, PathConvention::Posix, "rel".to_string()).is_none());
    assert!(AbsolutePathBuf::from_absolute_path("rel".to_string(), PathConvention::Posix).is_none());
}

#[test]
fn starts_with_respects_component_boundaries() {
    assert!(abs("/a/b").starts_with(&abs("/a")));
    assert!(abs("/a").starts_with(&abs("/a")));
    assert!(abs("/a/b").starts_with(&abs("/a/")));
    assert!(abs("/a/b").starts_with(&abs("/")));
    assert!(!abs("/ab").starts_with(&abs("/a")));
    assert!(!abs("/a").starts_with(&abs("/a/b")));
    let w = AbsolutePathBuf::from_absolute_path("C:\\a\\b".to_string(), PathConvention::Windows)
        .unwrap();
    let wbase =
        AbsolutePathBuf::from_absolute_path("C:\\a".to_string(), PathConvention::Windows).unwrap();
    assert!(w.starts_with(&wbase));
    assert!(!w.starts_with(&abs("/a")));
}

#[test]
fn platform_conventions() {
    assert_eq!(Platform::Windows.path_convention(), PathConvention::Windows);
    assert_eq!(Platform::Linux.path_convention(), PathConvention::Posix);
    assert_eq!(Platform::MacOs.path_convention(), PathConvention::Posix);
    assert_eq!(Platform::Other.path_convention(), PathConvention::Posix);
}

#[test]
fn windows_paths_fold_ascii_case_and_separators() {
    let w = |s: &str| AbsolutePathBuf::from_absolute_path(s.to_string(), PathConvention::Windows).unwrap();
    assert!(w("C:\\Work\\a.txt").starts_with(&w("C:\\work")));
    assert!(w("C:/work/a.txt").starts_with(&w("C:\\work")));
    assert!(w("c:\\WORK").starts_with(&w("C:/work/")));
    assert!(!w("C:\\workspace").starts_with(&w("C:\\work")));
    assert!(!w("D:\\work\\a").starts_with(&w("C:\\work")));
    assert!(!abs("/Work/a").starts_with(&abs("/work")));
    assert!(abs("/work").starts_with(&abs("/work/")));
    assert!(!abs("/wor").starts_with(&abs("/work/")));
}
