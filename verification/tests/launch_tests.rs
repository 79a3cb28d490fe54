use grand_eden_launcher::args::{asset_index, build_launch_args, build_launch_args_at, launch_command_at};
use grand_eden_launcher::classpath::{assemble_classpath, classpath_candidates};
use grand_eden_launcher::json::Json;
use grand_eden_launcher::paths::{libs_dir_at, path_separator};

fn s(t: &str) -> Json {
    Json::Str(t.to_string())
}

fn obj(members: Vec<(&str, Json)>) -> Json {
    Json::Object(members.into_iter().map(|(k, v)| (k.to_string(), v)).collect())
}

fn lib(path: Option<&str>, rules: Option<Vec<Json>>) -> Json {
    let mut m = vec![("name", s("lib"))];
    if let Some(p) = path {
        m.push(("downloads", obj(vec![("artifact", obj(vec![("path", s(p))]))])));
    }
    if let Some(r) = rules {
        m.push(("rules", Json::Array(r)));
    }
    obj(m)
}

fn os_rule(action: &str, os: &str) -> Json {
    obj(vec![("action", s(action)), ("os", obj(vec![("name", s(os))]))])
}

fn forge_manifest() -> Json {
    obj(vec![
        ("mainClass", s("cpw.mods.bootstraplauncher.BootstrapLauncher")),
        (
            "arguments",
            obj(vec![
                (
                    "jvm",
                    Json::Array(vec![
                        s("-Djava.library.path=${natives_directory}"),
                        s("-DignoreList=bootstraplauncher,${version_name}.jar"),
                        s("-DlibraryDirectory=${library_directory}"),
                        s("-cp"),
                        s("${classpath}"),
                        s("-p"),
                        s("${library_directory}/a.jar${classpath_separator}${library_directory}/b.jar"),
                        obj(vec![
                            ("rules", Json::Array(vec![os_rule("allow", "windows")])),
                            ("value", Json::Array(vec![s("-Dwin=${library_directory}"), Json::Number("1".to_string())])),
                        ]),
                        obj(vec![
                            ("rules", Json::Array(vec![os_rule("allow", "osx")])),
                            ("value", s("-XstartOnFirstThread")),
                        ]),
                        Json::Number("3".to_string()),
                    ]),
                ),
                (
                    "game",
                    Json::Array(vec![
                        s("--username"),
                        s("${auth_player_name}"),
                        s("--version"),
                        s("${version_name}"),
                        s("--gameDir"),
                        s("${game_directory}"),
                        s("--assetIndex"),
                        s("${assets_index_name}"),
                        s("--uuid"),
                        s("${auth_uuid}"),
                        obj(vec![("value", s("--demo"))]),
                        s("--userType"),
                        s("${user_type}"),
                    ]),
                ),
            ]),
        ),
        (
            "libraries",
            Json::Array(vec![
                lib(Some("net/a/a.jar"), None),
                lib(Some("net/b/b.jar"), Some(vec![os_rule("disallow", "windows"), obj(vec![("action", s("allow"))])])),
                lib(None, None),
                lib(Some("net/a/a.jar"), None),
            ]),
        ),
    ])
}

#[test]
fn launch_args_for_windows() {
    let forge = forge_manifest();
    let cp = vec!["C:\\x\\client.jar".to_string(), "C:\\x\\a.jar".to_string()];
    let args = build_launch_args_at('\\', "Steve", 4096, "1280", "720", false, &forge, "5", &cp);
    let natives = "C:\\edlauncher\\version\\versions\\1.20.1-forge-47.2.0";
    let libs = "C:\\edlauncher\\version\\libraries";
    let expected: Vec<String> = vec![
        "-Xmx4096m".to_string(),
        "-Xms2048m".to_string(),
        "-XX:+UseG1GC".to_string(),
        "-XX:+ParallelRefProcEnabled".to_string(),
        "-XX:MaxGCPauseMillis=50".to_string(),
        format!("-Djava.library.path={}", natives),
        "-DignoreList=bootstraplauncher,1.20.1-47.2.0.jar,ForgeAutoRenamingTool".to_string(),
        format!("-DlibraryDirectory={}", libs),
        "-cp".to_string(),
        "C:\\x\\client.jar;C:\\x\\a.jar".to_string(),
        "-p".to_string(),
        format!("{}/a.jar;{}/b.jar", libs, libs),
        format!("-Dwin={}", libs),
        "cpw.mods.bootstraplauncher.BootstrapLauncher".to_string(),
        "--username".to_string(),
        "Steve".to_string(),
        "--version".to_string(),
        "1.20.1-47.2.0".to_string(),
        "--gameDir".to_string(),
        "C:\\edlauncher\\version".to_string(),
        "--assetIndex".to_string(),
        "5".to_string(),
        "--uuid".to_string(),
        "00000000-0000-0000-0000-000000000000".to_string(),
        "--userType".to_string(),
        "offline".to_string(),
        "--width".to_string(),
        "1280".to_string(),
        "--height".to_string(),
        "720".to_string(),
    ];
    assert_eq!(args, expected);
}

#[test]
fn launch_args_with_empty_manifest() {
    let args = build_launch_args_at('/', "Alex", 1, "800", "600", false, &Json::Null, "5", &vec![]);
    assert_eq!(
        args,
        vec![
            "-Xmx1m", "-Xms0m", "-XX:+UseG1GC", "-XX:+ParallelRefProcEnabled", "-XX:MaxGCPauseMillis=50",
            "cpw.mods.bootstraplauncher.BootstrapLauncher", "--width", "800", "--height", "600",
        ]
    );
}

#[test]
fn text_after_cp_becomes_classpath_whatever_it_says() {
    let forge = obj(vec![(
        "arguments",
        obj(vec![("jvm", Json::Array(vec![s("-cp"), s("anything"), s("-cp"), obj(vec![("value", s("-v"))]), s("x")]))]),
    )]);
    let cp = vec!["a".to_string(), "b".to_string()];
    let args = build_launch_args_at('/', "n", 2048, "1", "2", false, &forge, "5", &cp);
    assert_eq!(&args[5..10], &["-cp", "a:b", "-cp", "-v", "a:b"]);
}

#[test]
fn nickname_fills_only_player_name() {
    let forge = obj(vec![("arguments", obj(vec![("game", Json::Array(vec![s("${auth_player_name}:${resolution_width}x${resolution_height}")]))]))]);
    let args = build_launch_args(" Bob ", 512, "1920", "1080", false, &forge, "5", &vec![]);
    assert_eq!(args[6], " Bob :1920x1080");
    assert_eq!(args[1], "-Xms256m");
}

#[test]
fn asset_index_defaults_to_five() {
    assert_eq!(asset_index(None), "5");
    let v = obj(vec![("assetIndex", obj(vec![("id", s("17"))]))]);
    assert_eq!(asset_index(Some(&v)), "17");
    let bad = obj(vec![("assetIndex", obj(vec![("id", Json::Number("17".to_string()))]))]);
    assert_eq!(asset_index(Some(&bad)), "5");
}

#[test]
fn classpath_candidates_follow_manifest_rules() {
    let forge = forge_manifest();
    let vanilla = obj(vec![("libraries", Json::Array(vec![lib(Some("com/c/c.jar"), None), lib(Some("net/a/a.jar"), None)]))]);
    let libs = libs_dir_at('\\');
    let c = classpath_candidates(&forge, Some(&vanilla), &libs, '\\');
    assert_eq!(
        c,
        vec![
            format!("{}\\net/a/a.jar", libs),
            format!("{}\\net/a/a.jar", libs),
            format!("{}\\com/c/c.jar", libs),
            format!("{}\\net/a/a.jar", libs),
        ]
    );
    let c2 = classpath_candidates(&forge, None, &libs, '\\');
    assert_eq!(c2.len(), 2);
}

#[test]
fn classpath_has_each_existing_file_once() {
    let cands: Vec<String> = ["a", "b", "a", "client", "c", "b"].iter().map(|x| x.to_string()).collect();
    let present = vec![true, false, true, true, true, false];
    let cp = assemble_classpath("client", true, &cands, &present);
    assert_eq!(cp, vec!["client", "a", "c"]);
    let cp2 = assemble_classpath("client", false, &cands, &present);
    assert_eq!(cp2, vec!["a", "client", "c"]);
    let mut seen = std::collections::HashSet::new();
    assert!(cp.iter().all(|p| seen.insert(p.clone())));
}

#[test]
fn classpath_on_this_platform_uses_its_separator() {
    let sep = if path_separator() == '\\' { ";" } else { ":" };
    let cp = vec!["x".to_string(), "y".to_string()];
    let forge = obj(vec![("arguments", obj(vec![("jvm", Json::Array(vec![s("${classpath}")]))]))]);
    let args = build_launch_args("n", 1024, "1", "1", false, &forge, "5", &cp);
    assert_eq!(args[5], format!("x{}y", sep));
}

#[test]
fn arguments_without_placeholders_pass_unchanged() {
    let forge = obj(vec![(
        "arguments",
        obj(vec![
            ("jvm", Json::Array(vec![s("-Dfml.ignorePatchDiscrepancies=true")])),
            ("game", Json::Array(vec![s("--fml.forgeVersion"), s("47.2.0")])),
        ]),
    )]);
    let args = build_launch_args_at('/', "n", 1024, "1", "1", false, &forge, "5", &vec![]);
    assert_eq!(args[5], "-Dfml.ignorePatchDiscrepancies=true");
    assert_eq!(&args[7..9], &["--fml.forgeVersion", "47.2.0"]);
}

#[test]
fn fullscreen_adds_its_flag() {
    let forge = forge_manifest();
    let cp = vec!["c.jar".to_string()];
    let windowed = build_launch_args_at('/', "n", 2048, "800", "600", false, &forge, "5", &cp);
    let full = build_launch_args_at('/', "n", 2048, "800", "600", true, &forge, "5", &cp);
    assert_eq!(full.len(), windowed.len() + 1);
    assert_eq!(&full[..windowed.len()], &windowed[..]);
    assert_eq!(full.last().unwrap(), "--fullscreen");
    assert_eq!(&windowed[windowed.len() - 4..], &["--width", "800", "--height", "600"]);
}

#[test]
fn launch_command_joins_files_and_manifests() {
    let forge = forge_manifest();
    let vanilla = obj(vec![
        ("assetIndex", obj(vec![("id", s("5.1"))])),
        ("libraries", Json::Array(vec![lib(Some("com/c/c.jar"), None)])),
    ]);
    let libs = libs_dir_at('\\');
    let present = vec![true, true, false];
    let args = launch_command_at('\\', "Steve", 4096, "1280", "720", false, &forge, Some(&vanilla), true, &present);
    let cp_pos = args.iter().position(|a| a == "-cp").unwrap();
    assert_eq!(
        args[cp_pos + 1],
        format!(
            "C:\\edlauncher\\version\\versions\\1.20.1-forge-47.2.0\\1.20.1-47.2.0.jar;{}\\net/a/a.jar",
            libs
        )
    );
    let idx = args.iter().position(|a| a == "--assetIndex").unwrap();
    assert_eq!(args[idx + 1], "5.1");
}
