use grand_eden_launcher::config::{app_path_in, get_config_path, get_game_dir};
use grand_eden_launcher::paths::{
    base_dir, client_jar_path, client_jar_path_at, forge_json_path, forge_json_path_at,
    forge_name, forge_suffix, java_dir, java_exe, java_exe_at, join, libs_dir, libs_dir_at,
    mc_versions_dir_at, path_separator, vanilla_json_path_at, version_dir, BASE_DIR,
};
use std::path::Path;

#[test]
fn join_appends_relative_components() {
    assert_eq!(join("C:\\edlauncher", "java", '\\'), "C:\\edlauncher\\java");
    assert_eq!(join("C:\\edlauncher", "java", '/'), "C:\\edlauncher/java");
    assert_eq!(join("a/", "b", '/'), "a/b");
    assert_eq!(join("", "b", '/'), "b");
    assert_eq!(join("a", "", '/'), "a/");
    assert_eq!(join("C:", "x", '\\'), "C:x");
}

#[test]
fn join_replaces_with_rooted_components() {
    assert_eq!(join("/a", "/b", '/'), "/b");
    assert_eq!(join("C:\\x", "\\y", '\\'), "C:\\y");
    assert_eq!(join("C:\\x", "D:\\y", '\\'), "D:\\y");
    assert_eq!(join("C:\\x", "\\\\server\\share", '\\'), "\\\\server\\share");
    assert_eq!(join("a", "\\y", '/'), "a/\\y");
}

#[test]
fn join_agrees_with_path_join_here() {
    let sep = path_separator();
    for (b, c) in [("C:\\edlauncher", "java"), ("/tmp/x", "y/z.jar"), ("/tmp/x", "/abs"), ("rel", "")] {
        let expected = Path::new(b).join(c).to_string_lossy().into_owned();
        assert_eq!(join(b, c, sep), expected);
    }
}

#[test]
fn install_tree_on_windows() {
    assert_eq!(java_exe_at('\\'), "C:\\edlauncher\\java\\bin\\java.exe");
    assert_eq!(
        forge_json_path_at('\\'),
        "C:\\edlauncher\\version\\versions\\1.20.1-forge-47.2.0\\1.20.1-forge-47.2.0.json"
    );
    assert_eq!(
        client_jar_path_at('\\'),
        "C:\\edlauncher\\version\\versions\\1.20.1-forge-47.2.0\\1.20.1-47.2.0.jar"
    );
    assert_eq!(libs_dir_at('\\'), "C:\\edlauncher\\version\\libraries");
    assert_eq!(mc_versions_dir_at('\\'), "C:\\edlauncher\\version\\versions\\1.20.1-forge-47.2.0");
    assert_eq!(vanilla_json_path_at('\\'), "C:\\edlauncher\\version\\versions\\1.20.1\\1.20.1.json");
}

#[test]
fn forge_names() {
    assert_eq!(forge_suffix(), "47.2.0");
    assert_eq!(forge_name(), "1.20.1-forge-47.2.0");
}

#[test]
fn install_tree_here_matches_path_join() {
    let base = Path::new("C:\\edlauncher");
    assert_eq!(base_dir(), "C:\\edlauncher");
    assert_eq!(java_dir(), base.join("java").to_string_lossy());
    assert_eq!(version_dir(), base.join("version").to_string_lossy());
    assert_eq!(java_exe(), base.join("java").join("bin").join("java.exe").to_string_lossy());
    assert_eq!(libs_dir(), base.join("version").join("libraries").to_string_lossy());
    let mc = base.join("version").join("versions").join("1.20.1-forge-47.2.0");
    assert_eq!(forge_json_path(), mc.join("1.20.1-forge-47.2.0.json").to_string_lossy());
    assert_eq!(client_jar_path(), mc.join("1.20.1-47.2.0.jar").to_string_lossy());
}

#[test]
fn install_tree_lies_inside_base_dir() {
    for sep in ['/', '\\'] {
        let top = format!("{}{}", BASE_DIR, sep);
        for p in [
            java_exe_at(sep),
            forge_json_path_at(sep),
            client_jar_path_at(sep),
            libs_dir_at(sep),
            vanilla_json_path_at(sep),
        ] {
            assert!(p.starts_with(&top), "{} outside {}", p, top);
        }
    }
}

#[test]
fn config_paths_under_data_dir() {
    assert_eq!(
        app_path_in(Some("/home/a/.local/share".to_string()), "launcher_config.json", '/'),
        "/home/a/.local/share/GrandEden/launcher_config.json"
    );
    assert_eq!(app_path_in(None, "minecraft", '/'), "./GrandEden/minecraft");
    assert_eq!(
        app_path_in(Some("C:\\Users\\A\\AppData\\Roaming".to_string()), "minecraft", '\\'),
        "C:\\Users\\A\\AppData\\Roaming\\GrandEden\\minecraft"
    );
}

#[test]
fn config_paths_end_with_their_names() {
    let sep = path_separator();
    assert!(get_config_path().ends_with(&format!("GrandEden{}launcher_config.json", sep)));
    assert!(get_game_dir().ends_with(&format!("GrandEden{}minecraft", sep)));
}
