use clash_tiny::paths::{
    backup_profile_path, config_dir, config_dir_in, config_file, join, override_file, plist_path,
    plist_path_in, profile_path, profiles_dir, sidecar_name, state_file, temp_profile_path,
};

#[test]
fn join_follows_pathbuf_join() {
    assert_eq!(join("/a", "b"), "/a/b");
    assert_eq!(join("/a/", "b"), "/a/b");
    assert_eq!(join("", "b"), "b");
    assert_eq!(join("/a", "/etc"), "/etc");
    for (base, comp) in [("/a", "b"), ("/a/", "b"), ("", "b"), ("/a", "/etc"), ("x", "y/z")] {
        let expected = std::path::PathBuf::from(base).join(comp);
        assert_eq!(join(base, comp), expected.to_string_lossy());
    }
}

#[test]
fn configuration_paths() {
    let dir = config_dir_in("/Users/alice");
    assert_eq!(dir, "/Users/alice/.config/clash-tiny");
    assert_eq!(config_file(&dir), "/Users/alice/.config/clash-tiny/config.yaml");
    assert_eq!(override_file(&dir), "/Users/alice/.config/clash-tiny/override.yaml");
    assert_eq!(profiles_dir(&dir), "/Users/alice/.config/clash-tiny/profiles");
    assert_eq!(state_file(&dir), "/Users/alice/.config/clash-tiny/state.json");
}

#[test]
fn user_configuration_directory_is_under_home() {
    let dir = config_dir().expect("home directory");
    assert!(dir.ends_with("/.config/clash-tiny"));
    assert!(dir.len() > "/.config/clash-tiny".len());
    let p = plist_path().expect("home directory");
    assert!(p.ends_with("/Library/LaunchAgents/com.clash-tiny.app.plist"));
}

#[test]
fn login_item_path() {
    assert_eq!(plist_path_in("/Users/bob/"), "/Users/bob/Library/LaunchAgents/com.clash-tiny.app.plist");
}

#[test]
fn profile_file_paths() {
    let p = "/h/.config/clash-tiny/profiles";
    assert_eq!(profile_path(p, "work"), "/h/.config/clash-tiny/profiles/work.yaml");
    assert_eq!(temp_profile_path(p, "work"), "/h/.config/clash-tiny/profiles/_work.yaml");
    assert_eq!(backup_profile_path(p, "work"), "/h/.config/clash-tiny/profiles/_work_bak.yaml");
}

#[test]
fn sidecar_file_name() {
    assert_eq!(sidecar_name("aarch64"), "mihomo-aarch64-apple-darwin");
}
