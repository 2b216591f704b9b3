use app_info::platform::is_known_platform;
use app_info::snapshot::get_app_info;

#[test]
fn is_tauri_always_true() {
    let with_dir = get_app_info(
        String::from("1.0.0"),
        String::from("linux"),
        Some(String::from("/home/user/.local/share/app")),
    );
    assert!(with_dir.is_tauri);

    let without_dir = get_app_info(String::from("1.0.0"), String::from("linux"), None);
    assert!(without_dir.is_tauri);

    let empty = get_app_info(String::new(), String::new(), None);
    assert!(empty.is_tauri);
}

#[test]
fn resolved_scenario() {
    let info = get_app_info(
        String::from("1.0.0"),
        String::from("linux"),
        Some(String::from("/home/user/.local/share/app")),
    );
    assert_eq!(info.version, "1.0.0");
    assert_eq!(info.platform, "linux");
    assert!(info.is_tauri);
    assert_eq!(info.app_data_dir, "/home/user/.local/share/app");
    assert!(!info.app_data_dir.is_empty());
    assert_ne!(info.app_data_dir, "unknown");
}

#[test]
fn unresolved_scenario() {
    let info = get_app_info(String::from("1.0.0"), String::from("linux"), None);
    assert_eq!(info.version, "1.0.0");
    assert_eq!(info.platform, "linux");
    assert!(info.is_tauri);
    assert_eq!(info.app_data_dir, "unknown");
}

#[test]
fn version_does_not_drift_across_calls() {
    let first = get_app_info(
        String::from("2.3.1"),
        String::from("macos"),
        Some(String::from("/Users/u/Library/Application Support/app")),
    );
    let second = get_app_info(
        String::from("2.3.1"),
        String::from("macos"),
        Some(String::from("/Users/u/Library/Application Support/app")),
    );
    assert_eq!(first.version, second.version);
    assert_eq!(first.platform, second.platform);
    assert_eq!(first.is_tauri, second.is_tauri);
    assert_eq!(first.app_data_dir, second.app_data_dir);
}

#[test]
fn resolved_path_passes_through_unchanged() {
    let info = get_app_info(
        String::from("0.0.1"),
        String::from("windows"),
        Some(String::from("C:\\Users\\u\\AppData\\Roaming\\app")),
    );
    assert_eq!(info.app_data_dir, "C:\\Users\\u\\AppData\\Roaming\\app");
}

#[test]
fn known_platforms_are_recognised() {
    for os in [
        "linux",
        "macos",
        "ios",
        "freebsd",
        "dragonfly",
        "netbsd",
        "openbsd",
        "solaris",
        "android",
        "windows",
    ] {
        assert!(is_known_platform(os), "{os} should be a known platform");
    }
}

#[test]
fn unknown_platforms_are_rejected() {
    assert!(!is_known_platform("plan9"));
    assert!(!is_known_platform(""));
    assert!(!is_known_platform("Linux"));
    assert!(!is_known_platform("win32"));
}

#[test]
fn empty_inputs_are_reproduced() {
    let info = get_app_info(String::new(), String::new(), Some(String::new()));
    assert_eq!(info.version, "");
    assert_eq!(info.platform, "");
    assert!(info.is_tauri);
    assert_eq!(info.app_data_dir, "");
}
