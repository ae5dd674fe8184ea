use backend_supervisor::paths::{
    fallback, find_anchor, find_project_root, resolve, resolve_server_dir, BuildMode, Location,
    BACKEND_DIR, DEVELOPMENT_FALLBACK, ENTRY_FILE, TOOLING_DIR,
};

#[test]
fn fixed_names() {
    assert_eq!(TOOLING_DIR, "src-tauri");
    assert_eq!(BACKEND_DIR, "server");
    assert_eq!(DEVELOPMENT_FALLBACK, "../../server");
    assert_eq!(ENTRY_FILE, "index.js");
}

#[test]
fn development_in_tooling_directory_goes_two_levels_up() {
    let dir = resolve_server_dir(
        BuildMode::Development,
        Some("/home/dev/project/client/src-tauri"),
        None,
    );
    assert_eq!(dir, "/home/dev/project/server");
}

#[test]
fn development_result_is_grandparent_joined_with_backend_directory() {
    let cwd = std::path::Path::new("/work/app/client/src-tauri");
    let expected = cwd.parent().unwrap().parent().unwrap().join("server");
    let dir = resolve_server_dir(BuildMode::Development, cwd.to_str(), None);
    assert_eq!(std::path::PathBuf::from(dir), expected);
}

#[test]
fn development_ignores_the_executable_path() {
    let with = resolve(
        BuildMode::Development,
        Some("/p/client/src-tauri"),
        Some("/usr/bin/shell"),
    );
    let without = resolve(BuildMode::Development, Some("/p/client/src-tauri"), None);
    assert_eq!(with, without);
    assert_eq!(with.dir, "/p/server");
}

#[test]
fn development_elsewhere_falls_back() {
    let location = resolve(BuildMode::Development, Some("/home/dev/project/client"), None);
    assert_eq!(
        location,
        Location {
            dir: "../../server".to_string(),
            entry: "../../server/index.js".to_string(),
            degraded: true,
        }
    );
}

#[test]
fn development_without_working_directory_falls_back() {
    let dir = resolve_server_dir(BuildMode::Development, None, Some("/opt/shell/bin/shell"));
    assert_eq!(dir, "../../server");
}

#[test]
fn development_matches_whole_components_only() {
    let dir = resolve_server_dir(BuildMode::Development, Some("/p/client/my-src-tauri"), None);
    assert_eq!(dir, "../../server");
    let dir = resolve_server_dir(BuildMode::Development, Some("/p/src-tauri/client"), None);
    assert_eq!(dir, "../../server");
}

#[test]
fn development_accepts_a_trailing_separator() {
    let dir = resolve_server_dir(BuildMode::Development, Some("/p/client/src-tauri/"), None);
    assert_eq!(dir, "/p/server");
}

#[test]
fn development_without_grandparent_falls_back() {
    let location = resolve(BuildMode::Development, Some("/src-tauri"), None);
    assert_eq!(location.dir, "../../server");
    assert!(location.degraded);
    let location = resolve(BuildMode::Development, Some("src-tauri"), None);
    assert_eq!(location.dir, "../../server");
    assert!(location.degraded);
}

#[test]
fn development_directly_below_the_root() {
    let location = resolve(BuildMode::Development, Some("/client/src-tauri"), None);
    assert_eq!(location.dir, "/server");
    assert_eq!(location.entry, "/server/index.js");
    assert!(!location.degraded);
}

#[test]
fn development_with_relative_working_directory() {
    let location = resolve(BuildMode::Development, Some("client/src-tauri"), None);
    assert_eq!(location.dir, "server");
    assert!(!location.degraded);
    let location = resolve(BuildMode::Development, Some("project/client/src-tauri"), None);
    assert_eq!(location.dir, "project/server");
}

#[test]
fn development_with_empty_working_directory_falls_back() {
    let location = resolve(BuildMode::Development, Some(""), None);
    assert_eq!(location.dir, "../../server");
    assert!(location.degraded);
}

#[test]
fn production_sits_beside_the_executable() {
    let location = resolve(BuildMode::Production, None, Some("/opt/shell/bin/shell"));
    assert_eq!(
        location,
        Location {
            dir: "/opt/shell/bin/server".to_string(),
            entry: "/opt/shell/bin/server/index.js".to_string(),
            degraded: false,
        }
    );
}

#[test]
fn production_ignores_the_working_directory() {
    let dir = resolve_server_dir(
        BuildMode::Production,
        Some("/p/client/src-tauri"),
        Some("/opt/shell/shell"),
    );
    assert_eq!(dir, "/opt/shell/server");
}

#[test]
fn production_without_executable_path_falls_back() {
    let location = resolve(BuildMode::Production, Some("/p/client/src-tauri"), None);
    assert_eq!(
        location,
        Location {
            dir: "server".to_string(),
            entry: "server/index.js".to_string(),
            degraded: true,
        }
    );
}

#[test]
fn production_with_executable_without_parent_falls_back() {
    let location = resolve(BuildMode::Production, None, Some("/"));
    assert_eq!(location.dir, "server");
    assert!(location.degraded);
    let location = resolve(BuildMode::Production, None, Some(""));
    assert_eq!(location.dir, "server");
    assert!(location.degraded);
}

#[test]
fn production_with_bare_executable_name() {
    let location = resolve(BuildMode::Production, None, Some("shell"));
    assert_eq!(location.dir, "server");
    assert!(!location.degraded);
}

#[test]
fn resolved_directory_is_never_empty() {
    let modes = [BuildMode::Development, BuildMode::Production];
    let paths = [
        None,
        Some(""),
        Some("/"),
        Some("src-tauri"),
        Some("/src-tauri"),
        Some("a/src-tauri"),
        Some("/a/b/src-tauri"),
        Some("/a/b/c"),
        Some("."),
        Some(".."),
    ];
    for mode in modes {
        for cwd in paths {
            for exe in paths {
                let location = resolve(mode, cwd, exe);
                assert!(!location.dir.is_empty());
                assert!(!location.entry.is_empty());
                assert_eq!(resolve_server_dir(mode, cwd, exe), location.dir);
            }
        }
    }
}

#[test]
fn project_root_is_found_or_not() {
    assert_eq!(find_project_root("/a/b/src-tauri"), Some("/a".to_string()));
    assert_eq!(find_project_root("/a/b/c"), None);
    assert_eq!(find_project_root("/src-tauri"), None);
}

#[test]
fn anchor_follows_the_build_mode() {
    assert_eq!(
        find_anchor(BuildMode::Development, Some("/a/b/src-tauri"), Some("/x/y")),
        Some("/a".to_string())
    );
    assert_eq!(
        find_anchor(BuildMode::Production, Some("/a/b/src-tauri"), Some("/x/y")),
        Some("/x".to_string())
    );
    assert_eq!(find_anchor(BuildMode::Development, None, Some("/x/y")), None);
    assert_eq!(find_anchor(BuildMode::Production, Some("/a/b/src-tauri"), None), None);
}

#[test]
fn fallback_depends_on_the_build_mode() {
    assert_eq!(fallback(BuildMode::Development), "../../server");
    assert_eq!(fallback(BuildMode::Production), "server");
}
