//! The command line of the game: memory settings, the JVM arguments and the
//! game arguments of the Forge manifest with their placeholders filled in,
//! and the window size.
use vstd::prelude::*;
use crate::classpath::{assemble_classpath, candidate_files, classpath_candidates, classpath_of};
use crate::json::{get_in, json_get, opt_array, opt_get, opt_str, str_eq, Json};
use crate::paths::{
    assets_dir_at, assets_dir_path, client_jar_path_at, client_jar_path_spec, is_path_separator, libs_dir_at, libs_dir_path,
    mc_versions_dir_at, mc_versions_dir_path, path_separator, version_dir_at, version_dir_path,
    FORGE_VERSION,
};
use crate::rules::{arg_allowed, is_arg_allowed};
use crate::text::{lacks, lemma_not_prefix_at, lemma_replaced_absent, lemma_replaced_hit, lemma_replaced_no_match, decimal, decimal_string, is_prefix, join_strings, joined, replace_all, replaced, starts_with, views};

verus! {

/// The main class used where the Forge manifest names none.
pub const DEFAULT_MAIN_CLASS: &'static str = "cpw.mods.bootstraplauncher.BootstrapLauncher";
/// The launcher's name, as reported to the game.
pub const LAUNCHER_NAME: &'static str = "EDLauncher";
/// The launcher version reported to the game.
pub const LAUNCHER_VERSION: &'static str = "1.0";
/// The account id of an offline session.
pub const OFFLINE_UUID: &'static str = "00000000-0000-0000-0000-000000000000";
/// The start of the argument that lists the jars Forge's module layer skips.
pub const IGNORE_LIST_PREFIX: &'static str = "-DignoreList=";
/// What is appended to the `-DignoreList` argument.
pub const IGNORE_LIST_EXTRA: &'static str = ",ForgeAutoRenamingTool";

/// The class path separator: `;` on Windows (where `\` is the main path
/// separator), `:` elsewhere.
pub open spec fn classpath_separator(sep: char) -> Seq<char> {
    if sep == '\\' {
        ";"@
    } else {
        ":"@
    }
}

/// The class path separator where `sep` is the main path separator.
pub fn classpath_separator_at(sep: char) -> (r: &'static str)
    ensures
        r@ == classpath_separator(sep),
{
    if sep == '\\' {
        ";"
    } else {
        ":"
    }
}

/// A JVM argument of the manifest with its placeholders filled in, one after
/// the other in this order.
pub open spec fn jvm_substituted(
    s: Seq<char>,
    libs: Seq<char>,
    cp_sep: Seq<char>,
    natives: Seq<char>,
    cp: Seq<char>,
) -> Seq<char> {
    let s = replaced(s, "${launcher_name}"@, LAUNCHER_NAME@);
    let s = replaced(s, "${launcher_version}"@, LAUNCHER_VERSION@);
    let s = replaced(s, "${version_name}"@, FORGE_VERSION@);
    let s = replaced(s, "${library_directory}"@, libs);
    let s = replaced(s, "${classpath_separator}"@, cp_sep);
    let s = replaced(s, "${version_classpath_separator}"@, cp_sep);
    let s = replaced(s, "${natives_directory}"@, natives);
    replaced(s, "${classpath}"@, cp)
}

/// A filled-in JVM argument, with Forge's renaming tool appended to the
/// `-DignoreList=` one.
pub open spec fn jvm_final(s: Seq<char>) -> Seq<char> {
    if is_prefix(IGNORE_LIST_PREFIX@, s) {
        s + IGNORE_LIST_EXTRA@
    } else {
        s
    }
}

/// The text elements of an array of values, each with the library directory
/// filled in.
pub open spec fn texts_with_libs(values: Seq<Json>, libs: Seq<char>) -> Seq<Seq<char>>
    decreases values.len(),
{
    if values.len() == 0 {
        Seq::empty()
    } else {
        let rest = texts_with_libs(values.drop_last(), libs);
        match values.last() {
            Json::Str(s) => rest.push(replaced(s@, "${library_directory}"@, libs)),
            _ => rest,
        }
    }
}

/// The arguments a conditional argument contributes: its `value`, an array
/// of texts or one text, with the library directory filled in.
pub open spec fn arg_values(arg: Json, libs: Seq<char>) -> Seq<Seq<char>> {
    match json_get(arg, "value"@) {
        Some(Json::Array(a)) => texts_with_libs(a@, libs),
        Some(Json::Str(s)) => seq![replaced(s@, "${library_directory}"@, libs)],
        _ => Seq::empty(),
    }
}

/// One JVM argument of the manifest: what it adds to the command line, and
/// whether the next text argument is to be replaced by the class path
/// (`pending`). The text after `-cp` becomes the class path; `-cp` and `-p`
/// pass as they are; other texts are filled in. Conditional arguments
/// contribute their values when their rules allow them; other values nothing.
pub open spec fn jvm_step(
    arg: Json,
    pending: bool,
    libs: Seq<char>,
    cp_sep: Seq<char>,
    natives: Seq<char>,
    cp: Seq<char>,
) -> (Seq<Seq<char>>, bool) {
    match arg {
        Json::Str(s) => if pending {
            (seq![cp], false)
        } else if s@ == "-cp"@ {
            (seq!["-cp"@], true)
        } else if s@ == "-p"@ {
            (seq!["-p"@], false)
        } else {
            (seq![jvm_final(jvm_substituted(s@, libs, cp_sep, natives, cp))], false)
        },
        Json::Object(_) => (
            if arg_allowed(arg) {
                arg_values(arg, libs)
            } else {
                Seq::empty()
            },
            pending,
        ),
        _ => (Seq::empty(), pending),
    }
}

/// The JVM arguments of the manifest, taken in order from `args`: what they
/// add, and whether a class path is still pending after them.
pub open spec fn jvm_part(
    args: Seq<Json>,
    libs: Seq<char>,
    cp_sep: Seq<char>,
    natives: Seq<char>,
    cp: Seq<char>,
) -> (Seq<Seq<char>>, bool)
    decreases args.len(),
{
    if args.len() == 0 {
        (Seq::empty(), false)
    } else {
        let (out, pending) = jvm_part(args.drop_last(), libs, cp_sep, natives, cp);
        let (more, next) = jvm_step(args.last(), pending, libs, cp_sep, natives, cp);
        (out + more, next)
    }
}

/// A game argument of the manifest with its placeholders filled in, one
/// after the other in this order.
pub open spec fn game_substituted(
    s: Seq<char>,
    nickname: Seq<char>,
    game_dir: Seq<char>,
    assets: Seq<char>,
    asset_index: Seq<char>,
    width: Seq<char>,
    height: Seq<char>,
) -> Seq<char> {
    let s = replaced(s, "${auth_player_name}"@, nickname);
    let s = replaced(s, "${auth_session}"@, "0"@);
    let s = replaced(s, "${auth_uuid}"@, OFFLINE_UUID@);
    let s = replaced(s, "${auth_access_token}"@, "0"@);
    let s = replaced(s, "${clientid}"@, ""@);
    let s = replaced(s, "${auth_xuid}"@, ""@);
    let s = replaced(s, "${version_name}"@, FORGE_VERSION@);
    let s = replaced(s, "${game_directory}"@, game_dir);
    let s = replaced(s, "${assets_root}"@, assets);
    let s = replaced(s, "${assets_index_name}"@, asset_index);
    let s = replaced(s, "${user_type}"@, "offline"@);
    let s = replaced(s, "${user_properties}"@, "{}"@);
    let s = replaced(s, "${version_type}"@, "Forge"@);
    let s = replaced(s, "${resolution_width}"@, width);
    replaced(s, "${resolution_height}"@, height)
}

/// The game arguments of the manifest: each text filled in; other values
/// are skipped.
pub open spec fn game_part(
    args: Seq<Json>,
    nickname: Seq<char>,
    game_dir: Seq<char>,
    assets: Seq<char>,
    asset_index: Seq<char>,
    width: Seq<char>,
    height: Seq<char>,
) -> Seq<Seq<char>>
    decreases args.len(),
{
    if args.len() == 0 {
        Seq::empty()
    } else {
        let rest = game_part(args.drop_last(), nickname, game_dir, assets, asset_index, width, height);
        match args.last() {
            Json::Str(s) => rest.push(
                game_substituted(s@, nickname, game_dir, assets, asset_index, width, height),
            ),
            _ => rest,
        }
    }
}

/// The manifest's `arguments.<kind>` array; none where it has no such array.
pub open spec fn manifest_args(forge: Json, kind: Seq<char>) -> Seq<Json> {
    match opt_array(opt_get(json_get(forge, "arguments"@), kind)) {
        Some(a) => a,
        None => Seq::empty(),
    }
}

/// The manifest's main class, or the default one.
pub open spec fn main_class(forge: Json) -> Seq<char> {
    match opt_str(json_get(forge, "mainClass"@)) {
        Some(m) => m,
        None => DEFAULT_MAIN_CLASS@,
    }
}

/// The memory and collector settings for `ram_mb` megabytes of heap: the
/// maximum, half of it as the initial heap, and G1 with a 50 ms pause goal.
pub open spec fn memory_args(ram_mb: u32) -> Seq<Seq<char>> {
    seq![
        "-Xmx"@ + decimal(ram_mb as nat) + "m"@,
        "-Xms"@ + decimal((ram_mb / 2) as nat) + "m"@,
        "-XX:+UseG1GC"@,
        "-XX:+ParallelRefProcEnabled"@,
        "-XX:MaxGCPauseMillis=50"@,
    ]
}

/// The asset index of the vanilla manifest: `assetIndex.id`, or `5`.
pub open spec fn asset_index_of(vanilla: Option<Json>) -> Seq<char> {
    match opt_str(opt_get(opt_get(vanilla, "assetIndex"@), "id"@)) {
        Some(id) => id,
        None => "5"@,
    }
}

/// The arguments that set the window: its size, and `--fullscreen` where the
/// player asked for it.
pub open spec fn window_args(width: Seq<char>, height: Seq<char>, fullscreen: bool) -> Seq<Seq<char>> {
    seq!["--width"@, width, "--height"@, height] + if fullscreen {
        seq!["--fullscreen"@]
    } else {
        Seq::empty()
    }
}

/// The whole command line of the game where `sep` is the main path
/// separator: memory settings, the manifest's JVM arguments, its main class,
/// its game arguments, and the window settings.
pub open spec fn launch_args(
    sep: char,
    nickname: Seq<char>,
    ram_mb: u32,
    width: Seq<char>,
    height: Seq<char>,
    fullscreen: bool,
    forge: Json,
    asset_index: Seq<char>,
    classpath: Seq<Seq<char>>,
) -> Seq<Seq<char>> {
    let cp_sep = classpath_separator(sep);
    let cp = joined(classpath, cp_sep);
    let jvm = jvm_part(
        manifest_args(forge, "jvm"@),
        libs_dir_path(sep),
        cp_sep,
        mc_versions_dir_path(sep),
        cp,
    ).0;
    let game = game_part(
        manifest_args(forge, "game"@),
        nickname,
        version_dir_path(sep),
        assets_dir_path(sep),
        asset_index,
        width,
        height,
    );
    memory_args(ram_mb) + jvm + seq![main_class(forge)] + game + window_args(width, height, fullscreen)
}

/// The asset index of the vanilla manifest, where there is one: its
/// `assetIndex.id`, or `5`.
pub fn asset_index(vanilla: Option<&Json>) -> (r: String)
    ensures
        r@ == asset_index_of(match vanilla {
            Some(v) => Some(*v),
            None => None,
        }),
{
    let index = get_in(vanilla, "assetIndex");
    match get_in(index, "id") {
        Some(id) => match id.as_str() {
            Some(s) => s.to_string(),
            None => "5".to_string(),
        },
        None => "5".to_string(),
    }
}

/// `s` with `pat` replaced by `rep`.
fn then_replace(s: String, pat: &str, rep: &str) -> (r: String)
    requires
        pat@.len() > 0,
    ensures
        r@ == replaced(s@, pat@, rep@),
{
    replace_all(s.as_str(), pat, rep)
}

/// A JVM argument with its placeholders filled in.
fn fill_jvm(s: &str, libs: &str, cp_sep: &str, natives: &str, cp: &str) -> (r: String)
    ensures
        r@ == jvm_substituted(s@, libs@, cp_sep@, natives@, cp@),
{
    proof {
        reveal_strlit("${launcher_name}");
        reveal_strlit("${launcher_version}");
        reveal_strlit("${version_name}");
        reveal_strlit("${library_directory}");
        reveal_strlit("${classpath_separator}");
        reveal_strlit("${version_classpath_separator}");
        reveal_strlit("${natives_directory}");
        reveal_strlit("${classpath}");
    }
    let r = replace_all(s, "${launcher_name}", LAUNCHER_NAME);
    let r = then_replace(r, "${launcher_version}", LAUNCHER_VERSION);
    let r = then_replace(r, "${version_name}", FORGE_VERSION);
    let r = then_replace(r, "${library_directory}", libs);
    let r = then_replace(r, "${classpath_separator}", cp_sep);
    let r = then_replace(r, "${version_classpath_separator}", cp_sep);
    let r = then_replace(r, "${natives_directory}", natives);
    then_replace(r, "${classpath}", cp)
}

/// A game argument with its placeholders filled in.
fn fill_game(
    s: &str,
    nickname: &str,
    game_dir: &str,
    assets: &str,
    asset_index: &str,
    width: &str,
    height: &str,
) -> (r: String)
    ensures
        r@ == game_substituted(s@, nickname@, game_dir@, assets@, asset_index@, width@, height@),
{
    proof {
        reveal_strlit("${auth_player_name}");
        reveal_strlit("${auth_session}");
        reveal_strlit("${auth_uuid}");
        reveal_strlit("${auth_access_token}");
        reveal_strlit("${clientid}");
        reveal_strlit("${auth_xuid}");
        reveal_strlit("${version_name}");
        reveal_strlit("${game_directory}");
        reveal_strlit("${assets_root}");
        reveal_strlit("${assets_index_name}");
        reveal_strlit("${user_type}");
        reveal_strlit("${user_properties}");
        reveal_strlit("${version_type}");
        reveal_strlit("${resolution_width}");
        reveal_strlit("${resolution_height}");
    }
    let r = replace_all(s, "${auth_player_name}", nickname);
    let r = then_replace(r, "${auth_session}", "0");
    let r = then_replace(r, "${auth_uuid}", OFFLINE_UUID);
    let r = then_replace(r, "${auth_access_token}", "0");
    let r = then_replace(r, "${clientid}", "");
    let r = then_replace(r, "${auth_xuid}", "");
    let r = then_replace(r, "${version_name}", FORGE_VERSION);
    let r = then_replace(r, "${game_directory}", game_dir);
    let r = then_replace(r, "${assets_root}", assets);
    let r = then_replace(r, "${assets_index_name}", asset_index);
    let r = then_replace(r, "${user_type}", "offline");
    let r = then_replace(r, "${user_properties}", "{}");
    let r = then_replace(r, "${version_type}", "Forge");
    let r = then_replace(r, "${resolution_width}", width);
    then_replace(r, "${resolution_height}", height)
}

/// Pushes `s` and records it in the view.
fn push_arg(out: &mut Vec<String>, s: String)
    ensures
        views(final(out)@) == views(old(out)@).push(s@),
{
    let ghost sv = s@;
    out.push(s);
    assert(views(out@) =~= views(old(out)@).push(sv));
}

/// Appends the window settings.
fn push_window_args(out: &mut Vec<String>, width: &str, height: &str, fullscreen: bool)
    ensures
        views(final(out)@) == views(old(out)@) + window_args(width@, height@, fullscreen),
{
    let ghost start = views(out@);
    push_arg(out, "--width".to_string());
    push_arg(out, width.to_string());
    push_arg(out, "--height".to_string());
    push_arg(out, height.to_string());
    if fullscreen {
        push_arg(out, "--fullscreen".to_string());
    }
    assert(views(out@) =~= start + window_args(width@, height@, fullscreen));
}

/// Appends the values of an allowed conditional argument.
fn push_arg_values(out: &mut Vec<String>, arg: &Json, libs: &str)
    ensures
        views(final(out)@) == views(old(out)@) + arg_values(*arg, libs@),
{
    proof {
        reveal_strlit("${library_directory}");
    }
    match arg.get("value") {
        Some(Json::Array(values)) => {
            let ghost start = views(out@);
            let n = values.len();
            assert(values@.take(0) =~= Seq::<Json>::empty());
            for i in 0..n
                invariant
                    n == values@.len(),
                    views(out@) == start + texts_with_libs(values@.take(i as int), libs@),
            {
                assert(values@.take(i + 1).drop_last() == values@.take(i as int));
                assert(values@.take(i + 1).last() == values@[i as int]);
                match &values[i] {
                    Json::Str(s) => {
                        proof {
                            reveal_strlit("${library_directory}");
                        }
                        let v = replace_all(s.as_str(), "${library_directory}", libs);
                        push_arg(out, v);
                    },
                    _ => {},
                }
            }
            assert(values@.take(n as int) == values@);
        },
        Some(Json::Str(s)) => {
            let v = replace_all(s.as_str(), "${library_directory}", libs);
            push_arg(out, v);
        },
        _ => {
            assert(views(out@) =~= views(out@) + arg_values(*arg, libs@));
        },
    }
}

/// The command line of the game where `sep` is the main path separator, from
/// the player's name, the heap size in megabytes, the window size, the Forge
/// manifest, the asset index and the class path.
pub fn build_launch_args_at(
    sep: char,
    nickname: &str,
    ram_mb: u32,
    width: &str,
    height: &str,
    fullscreen: bool,
    forge: &Json,
    asset_index: &str,
    classpath: &Vec<String>,
) -> (r: Vec<String>)
    ensures
        views(r@) == launch_args(sep, nickname@, ram_mb, width@, height@, fullscreen, *forge, asset_index@, views(classpath@)),
{
    let cp_sep = classpath_separator_at(sep);
    let cp = join_strings(classpath, cp_sep);
    let libs = libs_dir_at(sep);
    let natives = mc_versions_dir_at(sep);
    let game_dir = version_dir_at(sep);
    let assets = assets_dir_at(sep);

    let mut out: Vec<String> = Vec::new();
    let mut xmx = "-Xmx".to_string();
    let ram = decimal_string(ram_mb as u64);
    xmx.append(ram.as_str());
    xmx.append("m");
    push_arg(&mut out, xmx);
    let mut xms = "-Xms".to_string();
    let half = decimal_string((ram_mb / 2) as u64);
    xms.append(half.as_str());
    xms.append("m");
    push_arg(&mut out, xms);
    push_arg(&mut out, "-XX:+UseG1GC".to_string());
    push_arg(&mut out, "-XX:+ParallelRefProcEnabled".to_string());
    push_arg(&mut out, "-XX:MaxGCPauseMillis=50".to_string());
    assert(views(out@) =~= memory_args(ram_mb));

    let empty: Vec<Json> = Vec::new();
    let arguments = forge.get("arguments");
    let jvm_args = match get_in(arguments, "jvm") {
        Some(v) => match v.as_array() {
            Some(a) => a,
            None => &empty,
        },
        None => &empty,
    };
    assert(jvm_args@ == manifest_args(*forge, "jvm"@));
    let ghost mem = views(out@);
    let mut pending = false;
    let n = jvm_args.len();
    assert(jvm_args@.take(0) =~= Seq::<Json>::empty());
    for i in 0..n
        invariant
            n == jvm_args@.len(),
            views(out@) == mem + jvm_part(jvm_args@.take(i as int), libs@, cp_sep@, natives@, cp@).0,
            pending == jvm_part(jvm_args@.take(i as int), libs@, cp_sep@, natives@, cp@).1,
    {
        let arg = &jvm_args[i];
        assert(jvm_args@.take(i + 1).drop_last() == jvm_args@.take(i as int));
        assert(jvm_args@.take(i + 1).last() == jvm_args@[i as int]);
        let ghost before = views(out@);
        match arg {
            Json::Str(s) => {
                if pending {
                    push_arg(&mut out, cp.clone());
                    pending = false;
                } else if str_eq(s.as_str(), "-cp") {
                    push_arg(&mut out, "-cp".to_string());
                    pending = true;
                } else if str_eq(s.as_str(), "-p") {
                    push_arg(&mut out, "-p".to_string());
                } else {
                    let filled = fill_jvm(s.as_str(), libs.as_str(), cp_sep, natives.as_str(), cp.as_str());
                    let fin = if starts_with(filled.as_str(), IGNORE_LIST_PREFIX) {
                        let mut f = filled;
                        f.append(IGNORE_LIST_EXTRA);
                        f
                    } else {
                        filled
                    };
                    push_arg(&mut out, fin);
                }
                assert(views(out@) =~= before + jvm_step(*arg, jvm_part(jvm_args@.take(i as int), libs@, cp_sep@, natives@, cp@).1, libs@, cp_sep@, natives@, cp@).0);
            },
            Json::Object(_) => {
                if is_arg_allowed(arg) {
                    push_arg_values(&mut out, arg, libs.as_str());
                } else {
                    assert(views(out@) =~= before + Seq::<Seq<char>>::empty());
                }
            },
            _ => {
                assert(views(out@) =~= before + Seq::<Seq<char>>::empty());
            },
        }
    }
    assert(jvm_args@.take(n as int) == jvm_args@);

    let main = match forge.get("mainClass") {
        Some(m) => match m.as_str() {
            Some(s) => s.to_string(),
            None => DEFAULT_MAIN_CLASS.to_string(),
        },
        None => DEFAULT_MAIN_CLASS.to_string(),
    };
    push_arg(&mut out, main);

    let game_args = match get_in(arguments, "game") {
        Some(v) => match v.as_array() {
            Some(a) => a,
            None => &empty,
        },
        None => &empty,
    };
    assert(game_args@ == manifest_args(*forge, "game"@));
    let ghost head = views(out@);
    let m = game_args.len();
    assert(game_args@.take(0) =~= Seq::<Json>::empty());
    for i in 0..m
        invariant
            m == game_args@.len(),
            views(out@) == head + game_part(game_args@.take(i as int), nickname@, game_dir@, assets@, asset_index@, width@, height@),
    {
        assert(game_args@.take(i + 1).drop_last() == game_args@.take(i as int));
        assert(game_args@.take(i + 1).last() == game_args@[i as int]);
        match &game_args[i] {
            Json::Str(s) => {
                let filled = fill_game(s.as_str(), nickname, game_dir.as_str(), assets.as_str(), asset_index, width, height);
                push_arg(&mut out, filled);
            },
            _ => {},
        }
    }
    assert(game_args@.take(m as int) == game_args@);

    push_window_args(&mut out, width, height, fullscreen);
    out
}

/// The command line of the game on this platform.
pub fn build_launch_args(
    nickname: &str,
    ram_mb: u32,
    width: &str,
    height: &str,
    fullscreen: bool,
    forge: &Json,
    asset_index: &str,
    classpath: &Vec<String>,
) -> (r: Vec<String>)
    ensures
        exists|c: char|
            is_path_separator(c) && views(r@) == launch_args(c, nickname@, ram_mb, width@, height@, fullscreen, *forge, asset_index@, views(classpath@)),
{
    let c = path_separator();
    build_launch_args_at(c, nickname, ram_mb, width, height, fullscreen, forge, asset_index, classpath)
}

/// Law: the command line starts with the heap limit and the initial heap,
/// half of it, and ends with the window size, followed by `--fullscreen`
/// exactly when the player asked for it.
pub proof fn lemma_launch_args_frame(
    sep: char,
    nickname: Seq<char>,
    ram_mb: u32,
    width: Seq<char>,
    height: Seq<char>,
    fullscreen: bool,
    forge: Json,
    asset_index: Seq<char>,
    classpath: Seq<Seq<char>>,
)
    ensures
        ({
            let a = launch_args(sep, nickname, ram_mb, width, height, fullscreen, forge, asset_index, classpath);
            let n = if fullscreen { a.len() - 1 } else { a.len() as int };
            &&& a.len() >= 10
            &&& a[0] == "-Xmx"@ + decimal(ram_mb as nat) + "m"@
            &&& a[1] == "-Xms"@ + decimal((ram_mb / 2) as nat) + "m"@
            &&& a[n - 4] == "--width"@
            &&& a[n - 3] == width
            &&& a[n - 2] == "--height"@
            &&& a[n - 1] == height
            &&& fullscreen ==> a[a.len() - 1] == "--fullscreen"@
        }),
{
}

/// Law: the fullscreen setting changes the command line exactly by the
/// `--fullscreen` argument at its end.
pub proof fn lemma_fullscreen_adds_flag(
    sep: char,
    nickname: Seq<char>,
    ram_mb: u32,
    width: Seq<char>,
    height: Seq<char>,
    forge: Json,
    asset_index: Seq<char>,
    classpath: Seq<Seq<char>>,
)
    ensures
        launch_args(sep, nickname, ram_mb, width, height, true, forge, asset_index, classpath)
            == launch_args(sep, nickname, ram_mb, width, height, false, forge, asset_index, classpath).push("--fullscreen"@),
{
    let a = launch_args(sep, nickname, ram_mb, width, height, false, forge, asset_index, classpath);
    let b = launch_args(sep, nickname, ram_mb, width, height, true, forge, asset_index, classpath);
    assert(b =~= a.push("--fullscreen"@));
}

/// Law: a `-cp` argument, where no class path is pending, is passed on and
/// the text after it is replaced by the class path, whatever that text is.
pub proof fn lemma_cp_argument_replaced(
    pre: Seq<Json>,
    next: String,
    cp_flag: String,
    libs: Seq<char>,
    cp_sep: Seq<char>,
    natives: Seq<char>,
    cp: Seq<char>,
)
    requires
        cp_flag@ == "-cp"@,
        !jvm_part(pre, libs, cp_sep, natives, cp).1,
    ensures
        jvm_part(pre + seq![Json::Str(cp_flag), Json::Str(next)], libs, cp_sep, natives, cp).0
            == jvm_part(pre, libs, cp_sep, natives, cp).0 + seq!["-cp"@, cp],
        !jvm_part(pre + seq![Json::Str(cp_flag), Json::Str(next)], libs, cp_sep, natives, cp).1,
{
    let all = pre + seq![Json::Str(cp_flag), Json::Str(next)];
    let mid = pre + seq![Json::Str(cp_flag)];
    assert(all.drop_last() == mid);
    assert(mid.drop_last() == pre);
    let o = jvm_part(pre, libs, cp_sep, natives, cp).0;
    assert(jvm_part(mid, libs, cp_sep, natives, cp) == (o + seq!["-cp"@], true));
    assert(o + seq!["-cp"@] + seq![cp] =~= o + seq!["-cp"@, cp]);
}

/// Law: a JVM argument without a `$` passes unchanged through the filling in
/// of placeholders.
pub proof fn lemma_plain_jvm_arg_unchanged(
    s: Seq<char>,
    libs: Seq<char>,
    cp_sep: Seq<char>,
    natives: Seq<char>,
    cp: Seq<char>,
)
    requires
        forall|i: int| 0 <= i < s.len() ==> s[i] != '$',
    ensures
        jvm_substituted(s, libs, cp_sep, natives, cp) == s,
{
    reveal_strlit("${launcher_name}");
    reveal_strlit("${launcher_version}");
    reveal_strlit("${version_name}");
    reveal_strlit("${library_directory}");
    reveal_strlit("${classpath_separator}");
    reveal_strlit("${version_classpath_separator}");
    reveal_strlit("${natives_directory}");
    reveal_strlit("${classpath}");
    lemma_replaced_absent(s, "${launcher_name}"@, LAUNCHER_NAME@);
    lemma_replaced_absent(s, "${launcher_version}"@, LAUNCHER_VERSION@);
    lemma_replaced_absent(s, "${version_name}"@, FORGE_VERSION@);
    lemma_replaced_absent(s, "${library_directory}"@, libs);
    lemma_replaced_absent(s, "${classpath_separator}"@, cp_sep);
    lemma_replaced_absent(s, "${version_classpath_separator}"@, cp_sep);
    lemma_replaced_absent(s, "${natives_directory}"@, natives);
    lemma_replaced_absent(s, "${classpath}"@, cp);
}

/// Law: a game argument without a `$` passes unchanged through the filling
/// in of placeholders.
pub proof fn lemma_plain_game_arg_unchanged(
    s: Seq<char>,
    nickname: Seq<char>,
    game_dir: Seq<char>,
    assets: Seq<char>,
    asset_index: Seq<char>,
    width: Seq<char>,
    height: Seq<char>,
)
    requires
        forall|i: int| 0 <= i < s.len() ==> s[i] != '$',
    ensures
        game_substituted(s, nickname, game_dir, assets, asset_index, width, height) == s,
{
    reveal_strlit("${auth_player_name}");
    reveal_strlit("${auth_session}");
    reveal_strlit("${auth_uuid}");
    reveal_strlit("${auth_access_token}");
    reveal_strlit("${clientid}");
    reveal_strlit("${auth_xuid}");
    reveal_strlit("${version_name}");
    reveal_strlit("${game_directory}");
    reveal_strlit("${assets_root}");
    reveal_strlit("${assets_index_name}");
    reveal_strlit("${user_type}");
    reveal_strlit("${user_properties}");
    reveal_strlit("${version_type}");
    reveal_strlit("${resolution_width}");
    reveal_strlit("${resolution_height}");
    lemma_replaced_absent(s, "${auth_player_name}"@, nickname);
    lemma_replaced_absent(s, "${auth_session}"@, "0"@);
    lemma_replaced_absent(s, "${auth_uuid}"@, OFFLINE_UUID@);
    lemma_replaced_absent(s, "${auth_access_token}"@, "0"@);
    lemma_replaced_absent(s, "${clientid}"@, ""@);
    lemma_replaced_absent(s, "${auth_xuid}"@, ""@);
    lemma_replaced_absent(s, "${version_name}"@, FORGE_VERSION@);
    lemma_replaced_absent(s, "${game_directory}"@, game_dir);
    lemma_replaced_absent(s, "${assets_root}"@, assets);
    lemma_replaced_absent(s, "${assets_index_name}"@, asset_index);
    lemma_replaced_absent(s, "${user_type}"@, "offline"@);
    lemma_replaced_absent(s, "${user_properties}"@, "{}"@);
    lemma_replaced_absent(s, "${version_type}"@, "Forge"@);
    lemma_replaced_absent(s, "${resolution_width}"@, width);
    lemma_replaced_absent(s, "${resolution_height}"@, height);
}

/// The view of an optional manifest.
pub open spec fn opt_json(o: Option<&Json>) -> Option<Json> {
    match o {
        Some(j) => Some(*j),
        None => None,
    }
}

/// The command line of the game from the manifests and from which files
/// exist, where `sep` is the main separator: the class path holds the client
/// jar where it exists and the candidate library files (`present` tells which
/// exist), and the asset index comes from the vanilla manifest.
pub open spec fn game_launch_args(
    sep: char,
    nickname: Seq<char>,
    ram_mb: u32,
    width: Seq<char>,
    height: Seq<char>,
    fullscreen: bool,
    forge: Json,
    vanilla: Option<Json>,
    client_exists: bool,
    present: Seq<bool>,
) -> Seq<Seq<char>> {
    let client = if client_exists {
        Some(client_jar_path_spec(sep))
    } else {
        None
    };
    let candidates = candidate_files(forge, vanilla, libs_dir_path(sep), sep);
    launch_args(
        sep,
        nickname,
        ram_mb,
        width,
        height,
        fullscreen,
        forge,
        asset_index_of(vanilla),
        classpath_of(client, candidates, present),
    )
}

/// The command line of the game where `sep` is the main separator, from the
/// player's settings, the Forge manifest, the vanilla manifest where it could
/// be read, whether the client jar exists, and which of the candidate
/// library files (`classpath_candidates`) exist.
pub fn launch_command_at(
    sep: char,
    nickname: &str,
    ram_mb: u32,
    width: &str,
    height: &str,
    fullscreen: bool,
    forge: &Json,
    vanilla: Option<&Json>,
    client_exists: bool,
    present: &Vec<bool>,
) -> (r: Vec<String>)
    requires
        present@.len() == candidate_files(*forge, opt_json(vanilla), libs_dir_path(sep), sep).len(),
    ensures
        views(r@) == game_launch_args(
            sep,
            nickname@,
            ram_mb,
            width@,
            height@,
            fullscreen,
            *forge,
            opt_json(vanilla),
            client_exists,
            present@,
        ),
{
    let libs = libs_dir_at(sep);
    let candidates = classpath_candidates(forge, vanilla, libs.as_str(), sep);
    assert(opt_json(vanilla) == match vanilla {
        Some(v) => Some(*v),
        None => None::<Json>,
    });
    let client = client_jar_path_at(sep);
    let cp = assemble_classpath(client.as_str(), client_exists, &candidates, present);
    let index = asset_index(vanilla);
    build_launch_args_at(sep, nickname, ram_mb, width, height, fullscreen, forge, index.as_str(), &cp)
}

/// Whether a manifest value is the text `-cp`.
pub open spec fn is_cp_text(j: Json) -> bool {
    match j {
        Json::Str(s) => s@ == "-cp"@,
        _ => false,
    }
}

/// Without a `-cp` text among them, JVM arguments leave no class path pending.
pub proof fn lemma_no_cp_not_pending(
    args: Seq<Json>,
    libs: Seq<char>,
    cp_sep: Seq<char>,
    natives: Seq<char>,
    cp: Seq<char>,
)
    requires
        forall|i: int| 0 <= i < args.len() ==> !is_cp_text(#[trigger] args[i]),
    ensures
        !jvm_part(args, libs, cp_sep, natives, cp).1,
    decreases args.len(),
{
    if args.len() > 0 {
        lemma_no_cp_not_pending(args.drop_last(), libs, cp_sep, natives, cp);
        assert(!is_cp_text(args[args.len() - 1]));
    }
}

/// What the JVM arguments of a prefix add stands at the start of what the
/// whole list adds.
pub proof fn lemma_jvm_part_prefix(
    a: Seq<Json>,
    b: Seq<Json>,
    libs: Seq<char>,
    cp_sep: Seq<char>,
    natives: Seq<char>,
    cp: Seq<char>,
)
    ensures
        jvm_part(a, libs, cp_sep, natives, cp).0.len() <= jvm_part(a + b, libs, cp_sep, natives, cp).0.len(),
        jvm_part(a + b, libs, cp_sep, natives, cp).0.take(jvm_part(a, libs, cp_sep, natives, cp).0.len() as int)
            == jvm_part(a, libs, cp_sep, natives, cp).0,
    decreases b.len(),
{
    let o = jvm_part(a, libs, cp_sep, natives, cp).0;
    if b.len() == 0 {
        assert(a + b =~= a);
        assert(o.take(o.len() as int) =~= o);
    } else {
        assert((a + b).drop_last() =~= a + b.drop_last());
        lemma_jvm_part_prefix(a, b.drop_last(), libs, cp_sep, natives, cp);
        let m = jvm_part(a + b.drop_last(), libs, cp_sep, natives, cp).0;
        let w = jvm_part(a + b, libs, cp_sep, natives, cp).0;
        assert(w.take(o.len() as int) =~= m.take(o.len() as int));
    }
}

/// Law: the text after the first `-cp` among the manifest's JVM arguments is
/// replaced by the class path, joined with `;` on Windows and `:` elsewhere:
/// the client jar where it exists, then each library file that the
/// manifests list for Windows and that exists, once.
pub proof fn lemma_cp_argument_is_classpath(
    sep: char,
    nickname: Seq<char>,
    ram_mb: u32,
    width: Seq<char>,
    height: Seq<char>,
    fullscreen: bool,
    forge: Json,
    vanilla: Option<Json>,
    client_exists: bool,
    present: Seq<bool>,
    pre: Seq<Json>,
    flag: String,
    next: String,
    post: Seq<Json>,
)
    requires
        manifest_args(forge, "jvm"@) == pre + seq![Json::Str(flag), Json::Str(next)] + post,
        flag@ == "-cp"@,
        forall|i: int| 0 <= i < pre.len() ==> !is_cp_text(#[trigger] pre[i]),
    ensures
        ({
            let a = game_launch_args(sep, nickname, ram_mb, width, height, fullscreen, forge, vanilla, client_exists, present);
            let client = if client_exists { Some(client_jar_path_spec(sep)) } else { None };
            let cp = joined(
                classpath_of(client, candidate_files(forge, vanilla, libs_dir_path(sep), sep), present),
                classpath_separator(sep),
            );
            let k: int = 5 + jvm_part(pre, libs_dir_path(sep), classpath_separator(sep), mc_versions_dir_path(sep), cp).0.len() as int;
            &&& k + 1 < a.len()
            &&& a[k] == "-cp"@
            &&& a[k + 1] == cp
        }),
{
    let client = if client_exists { Some(client_jar_path_spec(sep)) } else { None };
    let cp = joined(
        classpath_of(client, candidate_files(forge, vanilla, libs_dir_path(sep), sep), present),
        classpath_separator(sep),
    );
    let libs = libs_dir_path(sep);
    let cps = classpath_separator(sep);
    let natives = mc_versions_dir_path(sep);
    lemma_no_cp_not_pending(pre, libs, cps, natives, cp);
    lemma_cp_argument_replaced(pre, next, flag, libs, cps, natives, cp);
    let head = pre + seq![Json::Str(flag), Json::Str(next)];
    lemma_jvm_part_prefix(head, post, libs, cps, natives, cp);
    let o = jvm_part(pre, libs, cps, natives, cp).0;
    let n: int = o.len() as int;
    let hv = jvm_part(head, libs, cps, natives, cp).0;
    let jvm = jvm_part(head + post, libs, cps, natives, cp).0;
    assert(hv == o + seq!["-cp"@, cp]);
    assert(jvm.take(hv.len() as int) == hv);
    assert(jvm[n] == hv[n]);
    assert(jvm[n + 1] == hv[n + 1]);
    let a = game_launch_args(sep, nickname, ram_mb, width, height, fullscreen, forge, vanilla, client_exists, present);
    assert(memory_args(ram_mb).len() == 5);
    assert(a[5 + n] == jvm[n]);
    assert(a[5 + n + 1] == jvm[n + 1]);
}

/// Each text among the game arguments gives its filled-in form.
pub proof fn lemma_game_part_contains(
    args: Seq<Json>,
    i: int,
    nickname: Seq<char>,
    game_dir: Seq<char>,
    assets: Seq<char>,
    asset_index: Seq<char>,
    width: Seq<char>,
    height: Seq<char>,
)
    requires
        0 <= i < args.len(),
        args[i] is Str,
    ensures
        game_part(args, nickname, game_dir, assets, asset_index, width, height).contains(
            game_substituted(args[i]->Str_0@, nickname, game_dir, assets, asset_index, width, height),
        ),
    decreases args.len(),
{
    let g = game_part(args, nickname, game_dir, assets, asset_index, width, height);
    let v = game_substituted(args[i]->Str_0@, nickname, game_dir, assets, asset_index, width, height);
    if i == args.len() - 1 {
        assert(g.last() == v);
        assert(g[g.len() - 1] == v);
    } else {
        lemma_game_part_contains(args.drop_last(), i, nickname, game_dir, assets, asset_index, width, height);
        let r = game_part(args.drop_last(), nickname, game_dir, assets, asset_index, width, height);
        let k = choose|k: int| 0 <= k < r.len() && r[k] == v;
        assert(g[k] == v);
    }
}

/// Law: each placeholder of a JVM argument, standing anywhere in a text with
/// no other `$`, is filled in with its own value: the launcher's name
/// `EDLauncher`, its version `1.0`, the Forge version, the library directory,
/// the class path separator (for both separator placeholders), the natives
/// directory, and the class path; the rest of the text stays as it is.
pub proof fn lemma_jvm_placeholders_filled(
    p: Seq<char>,
    q: Seq<char>,
    libs: Seq<char>,
    cp_sep: Seq<char>,
    natives: Seq<char>,
    cp: Seq<char>,
)
    requires
        lacks(p, '$'),
        lacks(q, '$'),
        lacks(libs, '$'),
        lacks(cp_sep, '$'),
        lacks(natives, '$'),
        lacks(cp, '$'),
    ensures
        jvm_substituted(p + "${launcher_name}"@ + q, libs, cp_sep, natives, cp) == p + "EDLauncher"@ + q,
        jvm_substituted(p + "${launcher_version}"@ + q, libs, cp_sep, natives, cp) == p + "1.0"@ + q,
        jvm_substituted(p + "${version_name}"@ + q, libs, cp_sep, natives, cp) == p + "1.20.1-47.2.0"@ + q,
        jvm_substituted(p + "${library_directory}"@ + q, libs, cp_sep, natives, cp) == p + libs + q,
        jvm_substituted(p + "${classpath_separator}"@ + q, libs, cp_sep, natives, cp) == p + cp_sep + q,
        jvm_substituted(p + "${version_classpath_separator}"@ + q, libs, cp_sep, natives, cp) == p + cp_sep + q,
        jvm_substituted(p + "${natives_directory}"@ + q, libs, cp_sep, natives, cp) == p + natives + q,
        jvm_substituted(p + "${classpath}"@ + q, libs, cp_sep, natives, cp) == p + cp + q,
{
    reveal_strlit("${classpath_separator}");
    reveal_strlit("${classpath}");
    reveal_strlit("${launcher_name}");
    reveal_strlit("${launcher_version}");
    reveal_strlit("${library_directory}");
    reveal_strlit("${natives_directory}");
    reveal_strlit("${version_classpath_separator}");
    reveal_strlit("${version_name}");
    reveal_strlit("1.0");
    reveal_strlit("1.20.1-47.2.0");
    reveal_strlit("EDLauncher");
    assert(jvm_substituted(p + "${launcher_name}"@ + q, libs, cp_sep, natives, cp) == p + "EDLauncher"@ + q) by {
        let t = "${launcher_name}"@ + q;
        assert(p + "${launcher_name}"@ + q =~= p + t);
        assert(t.skip(1) =~= "${launcher_name}"@.skip(1) + q);
        lemma_replaced_hit(p, "${launcher_name}"@, q, LAUNCHER_NAME@);
        let r = p + "EDLauncher"@ + q;
        assert(lacks(r, '$'));
        lemma_replaced_absent(r, "${launcher_version}"@, LAUNCHER_VERSION@);
        lemma_replaced_absent(r, "${version_name}"@, FORGE_VERSION@);
        lemma_replaced_absent(r, "${library_directory}"@, libs);
        lemma_replaced_absent(r, "${classpath_separator}"@, cp_sep);
        lemma_replaced_absent(r, "${version_classpath_separator}"@, cp_sep);
        lemma_replaced_absent(r, "${natives_directory}"@, natives);
        lemma_replaced_absent(r, "${classpath}"@, cp);
    }
    assert(jvm_substituted(p + "${launcher_version}"@ + q, libs, cp_sep, natives, cp) == p + "1.0"@ + q) by {
        let t = "${launcher_version}"@ + q;
        assert(p + "${launcher_version}"@ + q =~= p + t);
        assert(t.skip(1) =~= "${launcher_version}"@.skip(1) + q);
        lemma_not_prefix_at("${launcher_name}"@, t, 11);
        lemma_replaced_no_match(p, t, "${launcher_name}"@, LAUNCHER_NAME@);
        lemma_replaced_hit(p, "${launcher_version}"@, q, LAUNCHER_VERSION@);
        let r = p + "1.0"@ + q;
        assert(lacks(r, '$'));
        lemma_replaced_absent(r, "${version_name}"@, FORGE_VERSION@);
        lemma_replaced_absent(r, "${library_directory}"@, libs);
        lemma_replaced_absent(r, "${classpath_separator}"@, cp_sep);
        lemma_replaced_absent(r, "${version_classpath_separator}"@, cp_sep);
        lemma_replaced_absent(r, "${natives_directory}"@, natives);
        lemma_replaced_absent(r, "${classpath}"@, cp);
    }
    assert(jvm_substituted(p + "${version_name}"@ + q, libs, cp_sep, natives, cp) == p + "1.20.1-47.2.0"@ + q) by {
        let t = "${version_name}"@ + q;
        assert(p + "${version_name}"@ + q =~= p + t);
        assert(t.skip(1) =~= "${version_name}"@.skip(1) + q);
        lemma_not_prefix_at("${launcher_name}"@, t, 2);
        lemma_replaced_no_match(p, t, "${launcher_name}"@, LAUNCHER_NAME@);
        lemma_not_prefix_at("${launcher_version}"@, t, 2);
        lemma_replaced_no_match(p, t, "${launcher_version}"@, LAUNCHER_VERSION@);
        lemma_replaced_hit(p, "${version_name}"@, q, FORGE_VERSION@);
        let r = p + "1.20.1-47.2.0"@ + q;
        assert(lacks(r, '$'));
        lemma_replaced_absent(r, "${library_directory}"@, libs);
        lemma_replaced_absent(r, "${classpath_separator}"@, cp_sep);
        lemma_replaced_absent(r, "${version_classpath_separator}"@, cp_sep);
        lemma_replaced_absent(r, "${natives_directory}"@, natives);
        lemma_replaced_absent(r, "${classpath}"@, cp);
    }
    assert(jvm_substituted(p + "${library_directory}"@ + q, libs, cp_sep, natives, cp) == p + libs + q) by {
        let t = "${library_directory}"@ + q;
        assert(p + "${library_directory}"@ + q =~= p + t);
        assert(t.skip(1) =~= "${library_directory}"@.skip(1) + q);
        lemma_not_prefix_at("${launcher_name}"@, t, 3);
        lemma_replaced_no_match(p, t, "${launcher_name}"@, LAUNCHER_NAME@);
        lemma_not_prefix_at("${launcher_version}"@, t, 3);
        lemma_replaced_no_match(p, t, "${launcher_version}"@, LAUNCHER_VERSION@);
        lemma_not_prefix_at("${version_name}"@, t, 2);
        lemma_replaced_no_match(p, t, "${version_name}"@, FORGE_VERSION@);
        lemma_replaced_hit(p, "${library_directory}"@, q, libs);
        let r = p + libs + q;
        assert(lacks(r, '$'));
        lemma_replaced_absent(r, "${classpath_separator}"@, cp_sep);
        lemma_replaced_absent(r, "${version_classpath_separator}"@, cp_sep);
        lemma_replaced_absent(r, "${natives_directory}"@, natives);
        lemma_replaced_absent(r, "${classpath}"@, cp);
    }
    assert(jvm_substituted(p + "${classpath_separator}"@ + q, libs, cp_sep, natives, cp) == p + cp_sep + q) by {
        let t = "${classpath_separator}"@ + q;
        assert(p + "${classpath_separator}"@ + q =~= p + t);
        assert(t.skip(1) =~= "${classpath_separator}"@.skip(1) + q);
        lemma_not_prefix_at("${launcher_name}"@, t, 2);
        lemma_replaced_no_match(p, t, "${launcher_name}"@, LAUNCHER_NAME@);
        lemma_not_prefix_at("${launcher_version}"@, t, 2);
        lemma_replaced_no_match(p, t, "${launcher_version}"@, LAUNCHER_VERSION@);
        lemma_not_prefix_at("${version_name}"@, t, 2);
        lemma_replaced_no_match(p, t, "${version_name}"@, FORGE_VERSION@);
        lemma_not_prefix_at("${library_directory}"@, t, 2);
        lemma_replaced_no_match(p, t, "${library_directory}"@, libs);
        lemma_replaced_hit(p, "${classpath_separator}"@, q, cp_sep);
        let r = p + cp_sep + q;
        assert(lacks(r, '$'));
        lemma_replaced_absent(r, "${version_classpath_separator}"@, cp_sep);
        lemma_replaced_absent(r, "${natives_directory}"@, natives);
        lemma_replaced_absent(r, "${classpath}"@, cp);
    }
    assert(jvm_substituted(p + "${version_classpath_separator}"@ + q, libs, cp_sep, natives, cp) == p + cp_sep + q) by {
        let t = "${version_classpath_separator}"@ + q;
        assert(p + "${version_classpath_separator}"@ + q =~= p + t);
        assert(t.skip(1) =~= "${version_classpath_separator}"@.skip(1) + q);
        lemma_not_prefix_at("${launcher_name}"@, t, 2);
        lemma_replaced_no_match(p, t, "${launcher_name}"@, LAUNCHER_NAME@);
        lemma_not_prefix_at("${launcher_version}"@, t, 2);
        lemma_replaced_no_match(p, t, "${launcher_version}"@, LAUNCHER_VERSION@);
        lemma_not_prefix_at("${version_name}"@, t, 10);
        lemma_replaced_no_match(p, t, "${version_name}"@, FORGE_VERSION@);
        lemma_not_prefix_at("${library_directory}"@, t, 2);
        lemma_replaced_no_match(p, t, "${library_directory}"@, libs);
        lemma_not_prefix_at("${classpath_separator}"@, t, 2);
        lemma_replaced_no_match(p, t, "${classpath_separator}"@, cp_sep);
        lemma_replaced_hit(p, "${version_classpath_separator}"@, q, cp_sep);
        let r = p + cp_sep + q;
        assert(lacks(r, '$'));
        lemma_replaced_absent(r, "${natives_directory}"@, natives);
        lemma_replaced_absent(r, "${classpath}"@, cp);
    }
    assert(jvm_substituted(p + "${natives_directory}"@ + q, libs, cp_sep, natives, cp) == p + natives + q) by {
        let t = "${natives_directory}"@ + q;
        assert(p + "${natives_directory}"@ + q =~= p + t);
        assert(t.skip(1) =~= "${natives_directory}"@.skip(1) + q);
        lemma_not_prefix_at("${launcher_name}"@, t, 2);
        lemma_replaced_no_match(p, t, "${launcher_name}"@, LAUNCHER_NAME@);
        lemma_not_prefix_at("${launcher_version}"@, t, 2);
        lemma_replaced_no_match(p, t, "${launcher_version}"@, LAUNCHER_VERSION@);
        lemma_not_prefix_at("${version_name}"@, t, 2);
        lemma_replaced_no_match(p, t, "${version_name}"@, FORGE_VERSION@);
        lemma_not_prefix_at("${library_directory}"@, t, 2);
        lemma_replaced_no_match(p, t, "${library_directory}"@, libs);
        lemma_not_prefix_at("${classpath_separator}"@, t, 2);
        lemma_replaced_no_match(p, t, "${classpath_separator}"@, cp_sep);
        lemma_not_prefix_at("${version_classpath_separator}"@, t, 2);
        lemma_replaced_no_match(p, t, "${version_classpath_separator}"@, cp_sep);
        lemma_replaced_hit(p, "${natives_directory}"@, q, natives);
        let r = p + natives + q;
        assert(lacks(r, '$'));
        lemma_replaced_absent(r, "${classpath}"@, cp);
    }
    assert(jvm_substituted(p + "${classpath}"@ + q, libs, cp_sep, natives, cp) == p + cp + q) by {
        let t = "${classpath}"@ + q;
        assert(p + "${classpath}"@ + q =~= p + t);
        assert(t.skip(1) =~= "${classpath}"@.skip(1) + q);
        lemma_not_prefix_at("${launcher_name}"@, t, 2);
        lemma_replaced_no_match(p, t, "${launcher_name}"@, LAUNCHER_NAME@);
        lemma_not_prefix_at("${launcher_version}"@, t, 2);
        lemma_replaced_no_match(p, t, "${launcher_version}"@, LAUNCHER_VERSION@);
        lemma_not_prefix_at("${version_name}"@, t, 2);
        lemma_replaced_no_match(p, t, "${version_name}"@, FORGE_VERSION@);
        lemma_not_prefix_at("${library_directory}"@, t, 2);
        lemma_replaced_no_match(p, t, "${library_directory}"@, libs);
        lemma_not_prefix_at("${classpath_separator}"@, t, 11);
        lemma_replaced_no_match(p, t, "${classpath_separator}"@, cp_sep);
        lemma_not_prefix_at("${version_classpath_separator}"@, t, 2);
        lemma_replaced_no_match(p, t, "${version_classpath_separator}"@, cp_sep);
        lemma_not_prefix_at("${natives_directory}"@, t, 2);
        lemma_replaced_no_match(p, t, "${natives_directory}"@, natives);
        lemma_replaced_hit(p, "${classpath}"@, q, cp);
        let r = p + cp + q;
        assert(lacks(r, '$'));
    }
}

/// The placeholder `${auth_player_name}` is filled in with the player's name.
proof fn lemma_game_placeholder_0(
    p: Seq<char>,
    q: Seq<char>,
    nickname: Seq<char>,
    game_dir: Seq<char>,
    assets: Seq<char>,
    asset_index: Seq<char>,
    width: Seq<char>,
    height: Seq<char>,
)
    requires
        lacks(p, '$'),
        lacks(q, '$'),
        lacks(nickname, '$'),
        lacks(game_dir, '$'),
        lacks(assets, '$'),
        lacks(asset_index, '$'),
        lacks(width, '$'),
        lacks(height, '$'),
    ensures
        game_substituted(p + "${auth_player_name}"@ + q, nickname, game_dir, assets, asset_index, width, height) == p + nickname + q,
{
    reveal_strlit("${assets_index_name}");
    reveal_strlit("${assets_root}");
    reveal_strlit("${auth_access_token}");
    reveal_strlit("${auth_player_name}");
    reveal_strlit("${auth_session}");
    reveal_strlit("${auth_uuid}");
    reveal_strlit("${auth_xuid}");
    reveal_strlit("${clientid}");
    reveal_strlit("${game_directory}");
    reveal_strlit("${resolution_height}");
    reveal_strlit("${resolution_width}");
    reveal_strlit("${user_properties}");
    reveal_strlit("${user_type}");
    reveal_strlit("${version_name}");
    reveal_strlit("${version_type}");
    let t = "${auth_player_name}"@ + q;
    assert(p + "${auth_player_name}"@ + q =~= p + t);
    assert(t.skip(1) =~= "${auth_player_name}"@.skip(1) + q);
    lemma_replaced_hit(p, "${auth_player_name}"@, q, nickname);
    let r = p + nickname + q;
    assert(lacks(r, '$'));
    lemma_replaced_absent(r, "${auth_session}"@, "0"@);
    lemma_replaced_absent(r, "${auth_uuid}"@, OFFLINE_UUID@);
    lemma_replaced_absent(r, "${auth_access_token}"@, "0"@);
    lemma_replaced_absent(r, "${clientid}"@, ""@);
    lemma_replaced_absent(r, "${auth_xuid}"@, ""@);
    lemma_replaced_absent(r, "${version_name}"@, FORGE_VERSION@);
    lemma_replaced_absent(r, "${game_directory}"@, game_dir);
    lemma_replaced_absent(r, "${assets_root}"@, assets);
    lemma_replaced_absent(r, "${assets_index_name}"@, asset_index);
    lemma_replaced_absent(r, "${user_type}"@, "offline"@);
    lemma_replaced_absent(r, "${user_properties}"@, "{}"@);
    lemma_replaced_absent(r, "${version_type}"@, "Forge"@);
    lemma_replaced_absent(r, "${resolution_width}"@, width);
    lemma_replaced_absent(r, "${resolution_height}"@, height);
}

/// The placeholder `${auth_session}` is filled in with `0`.
proof fn lemma_game_placeholder_1(
    p: Seq<char>,
    q: Seq<char>,
    nickname: Seq<char>,
    game_dir: Seq<char>,
    assets: Seq<char>,
    asset_index: Seq<char>,
    width: Seq<char>,
    height: Seq<char>,
)
    requires
        lacks(p, '$'),
        lacks(q, '$'),
        lacks(nickname, '$'),
        lacks(game_dir, '$'),
        lacks(assets, '$'),
        lacks(asset_index, '$'),
        lacks(width, '$'),
        lacks(height, '$'),
    ensures
        game_substituted(p + "${auth_session}"@ + q, nickname, game_dir, assets, asset_index, width, height) == p + "0"@ + q,
{
    reveal_strlit("${assets_index_name}");
    reveal_strlit("${assets_root}");
    reveal_strlit("${auth_access_token}");
    reveal_strlit("${auth_player_name}");
    reveal_strlit("${auth_session}");
    reveal_strlit("${auth_uuid}");
    reveal_strlit("${auth_xuid}");
    reveal_strlit("${clientid}");
    reveal_strlit("${game_directory}");
    reveal_strlit("${resolution_height}");
    reveal_strlit("${resolution_width}");
    reveal_strlit("${user_properties}");
    reveal_strlit("${user_type}");
    reveal_strlit("${version_name}");
    reveal_strlit("${version_type}");
    reveal_strlit("0");
    let t = "${auth_session}"@ + q;
    assert(p + "${auth_session}"@ + q =~= p + t);
    assert(t.skip(1) =~= "${auth_session}"@.skip(1) + q);
    lemma_not_prefix_at("${auth_player_name}"@, t, 7);
    lemma_replaced_no_match(p, t, "${auth_player_name}"@, nickname);
    lemma_replaced_hit(p, "${auth_session}"@, q, "0"@);
    let r = p + "0"@ + q;
    assert(lacks(r, '$'));
    lemma_replaced_absent(r, "${auth_uuid}"@, OFFLINE_UUID@);
    lemma_replaced_absent(r, "${auth_access_token}"@, "0"@);
    lemma_replaced_absent(r, "${clientid}"@, ""@);
    lemma_replaced_absent(r, "${auth_xuid}"@, ""@);
    lemma_replaced_absent(r, "${version_name}"@, FORGE_VERSION@);
    lemma_replaced_absent(r, "${game_directory}"@, game_dir);
    lemma_replaced_absent(r, "${assets_root}"@, assets);
    lemma_replaced_absent(r, "${assets_index_name}"@, asset_index);
    lemma_replaced_absent(r, "${user_type}"@, "offline"@);
    lemma_replaced_absent(r, "${user_properties}"@, "{}"@);
    lemma_replaced_absent(r, "${version_type}"@, "Forge"@);
    lemma_replaced_absent(r, "${resolution_width}"@, width);
    lemma_replaced_absent(r, "${resolution_height}"@, height);
}

/// The placeholder `${auth_uuid}` is filled in with the offline account id.
proof fn lemma_game_placeholder_2(
    p: Seq<char>,
    q: Seq<char>,
    nickname: Seq<char>,
    game_dir: Seq<char>,
    assets: Seq<char>,
    asset_index: Seq<char>,
    width: Seq<char>,
    height: Seq<char>,
)
    requires
        lacks(p, '$'),
        lacks(q, '$'),
        lacks(nickname, '$'),
        lacks(game_dir, '$'),
        lacks(assets, '$'),
        lacks(asset_index, '$'),
        lacks(width, '$'),
        lacks(height, '$'),
    ensures
        game_substituted(p + "${auth_uuid}"@ + q, nickname, game_dir, assets, asset_index, width, height) == p + "00000000-0000-0000-0000-000000000000"@ + q,
{
    reveal_strlit("${assets_index_name}");
    reveal_strlit("${assets_root}");
    reveal_strlit("${auth_access_token}");
    reveal_strlit("${auth_player_name}");
    reveal_strlit("${auth_session}");
    reveal_strlit("${auth_uuid}");
    reveal_strlit("${auth_xuid}");
    reveal_strlit("${clientid}");
    reveal_strlit("${game_directory}");
    reveal_strlit("${resolution_height}");
    reveal_strlit("${resolution_width}");
    reveal_strlit("${user_properties}");
    reveal_strlit("${user_type}");
    reveal_strlit("${version_name}");
    reveal_strlit("${version_type}");
    reveal_strlit("00000000-0000-0000-0000-000000000000");
    let t = "${auth_uuid}"@ + q;
    assert(p + "${auth_uuid}"@ + q =~= p + t);
    assert(t.skip(1) =~= "${auth_uuid}"@.skip(1) + q);
    lemma_not_prefix_at("${auth_player_name}"@, t, 7);
    lemma_replaced_no_match(p, t, "${auth_player_name}"@, nickname);
    lemma_not_prefix_at("${auth_session}"@, t, 7);
    lemma_replaced_no_match(p, t, "${auth_session}"@, "0"@);
    lemma_replaced_hit(p, "${auth_uuid}"@, q, OFFLINE_UUID@);
    let r = p + "00000000-0000-0000-0000-000000000000"@ + q;
    assert(lacks(r, '$'));
    lemma_replaced_absent(r, "${auth_access_token}"@, "0"@);
    lemma_replaced_absent(r, "${clientid}"@, ""@);
    lemma_replaced_absent(r, "${auth_xuid}"@, ""@);
    lemma_replaced_absent(r, "${version_name}"@, FORGE_VERSION@);
    lemma_replaced_absent(r, "${game_directory}"@, game_dir);
    lemma_replaced_absent(r, "${assets_root}"@, assets);
    lemma_replaced_absent(r, "${assets_index_name}"@, asset_index);
    lemma_replaced_absent(r, "${user_type}"@, "offline"@);
    lemma_replaced_absent(r, "${user_properties}"@, "{}"@);
    lemma_replaced_absent(r, "${version_type}"@, "Forge"@);
    lemma_replaced_absent(r, "${resolution_width}"@, width);
    lemma_replaced_absent(r, "${resolution_height}"@, height);
}

/// The placeholder `${auth_access_token}` is filled in with `0`.
proof fn lemma_game_placeholder_3(
    p: Seq<char>,
    q: Seq<char>,
    nickname: Seq<char>,
    game_dir: Seq<char>,
    assets: Seq<char>,
    asset_index: Seq<char>,
    width: Seq<char>,
    height: Seq<char>,
)
    requires
        lacks(p, '$'),
        lacks(q, '$'),
        lacks(nickname, '$'),
        lacks(game_dir, '$'),
        lacks(assets, '$'),
        lacks(asset_index, '$'),
        lacks(width, '$'),
        lacks(height, '$'),
    ensures
        game_substituted(p + "${auth_access_token}"@ + q, nickname, game_dir, assets, asset_index, width, height) == p + "0"@ + q,
{
    reveal_strlit("${assets_index_name}");
    reveal_strlit("${assets_root}");
    reveal_strlit("${auth_access_token}");
    reveal_strlit("${auth_player_name}");
    reveal_strlit("${auth_session}");
    reveal_strlit("${auth_uuid}");
    reveal_strlit("${auth_xuid}");
    reveal_strlit("${clientid}");
    reveal_strlit("${game_directory}");
    reveal_strlit("${resolution_height}");
    reveal_strlit("${resolution_width}");
    reveal_strlit("${user_properties}");
    reveal_strlit("${user_type}");
    reveal_strlit("${version_name}");
    reveal_strlit("${version_type}");
    reveal_strlit("0");
    let t = "${auth_access_token}"@ + q;
    assert(p + "${auth_access_token}"@ + q =~= p + t);
    assert(t.skip(1) =~= "${auth_access_token}"@.skip(1) + q);
    lemma_not_prefix_at("${auth_player_name}"@, t, 7);
    lemma_replaced_no_match(p, t, "${auth_player_name}"@, nickname);
    lemma_not_prefix_at("${auth_session}"@, t, 7);
    lemma_replaced_no_match(p, t, "${auth_session}"@, "0"@);
    lemma_not_prefix_at("${auth_uuid}"@, t, 7);
    lemma_replaced_no_match(p, t, "${auth_uuid}"@, OFFLINE_UUID@);
    lemma_replaced_hit(p, "${auth_access_token}"@, q, "0"@);
    let r = p + "0"@ + q;
    assert(lacks(r, '$'));
    lemma_replaced_absent(r, "${clientid}"@, ""@);
    lemma_replaced_absent(r, "${auth_xuid}"@, ""@);
    lemma_replaced_absent(r, "${version_name}"@, FORGE_VERSION@);
    lemma_replaced_absent(r, "${game_directory}"@, game_dir);
    lemma_replaced_absent(r, "${assets_root}"@, assets);
    lemma_replaced_absent(r, "${assets_index_name}"@, asset_index);
    lemma_replaced_absent(r, "${user_type}"@, "offline"@);
    lemma_replaced_absent(r, "${user_properties}"@, "{}"@);
    lemma_replaced_absent(r, "${version_type}"@, "Forge"@);
    lemma_replaced_absent(r, "${resolution_width}"@, width);
    lemma_replaced_absent(r, "${resolution_height}"@, height);
}

/// The placeholder `${clientid}` is filled in with nothing.
proof fn lemma_game_placeholder_4(
    p: Seq<char>,
    q: Seq<char>,
    nickname: Seq<char>,
    game_dir: Seq<char>,
    assets: Seq<char>,
    asset_index: Seq<char>,
    width: Seq<char>,
    height: Seq<char>,
)
    requires
        lacks(p, '$'),
        lacks(q, '$'),
        lacks(nickname, '$'),
        lacks(game_dir, '$'),
        lacks(assets, '$'),
        lacks(asset_index, '$'),
        lacks(width, '$'),
        lacks(height, '$'),
    ensures
        game_substituted(p + "${clientid}"@ + q, nickname, game_dir, assets, asset_index, width, height) == p + ""@ + q,
{
    reveal_strlit("");
    reveal_strlit("${assets_index_name}");
    reveal_strlit("${assets_root}");
    reveal_strlit("${auth_access_token}");
    reveal_strlit("${auth_player_name}");
    reveal_strlit("${auth_session}");
    reveal_strlit("${auth_uuid}");
    reveal_strlit("${auth_xuid}");
    reveal_strlit("${clientid}");
    reveal_strlit("${game_directory}");
    reveal_strlit("${resolution_height}");
    reveal_strlit("${resolution_width}");
    reveal_strlit("${user_properties}");
    reveal_strlit("${user_type}");
    reveal_strlit("${version_name}");
    reveal_strlit("${version_type}");
    let t = "${clientid}"@ + q;
    assert(p + "${clientid}"@ + q =~= p + t);
    assert(t.skip(1) =~= "${clientid}"@.skip(1) + q);
    lemma_not_prefix_at("${auth_player_name}"@, t, 2);
    lemma_replaced_no_match(p, t, "${auth_player_name}"@, nickname);
    lemma_not_prefix_at("${auth_session}"@, t, 2);
    lemma_replaced_no_match(p, t, "${auth_session}"@, "0"@);
    lemma_not_prefix_at("${auth_uuid}"@, t, 2);
    lemma_replaced_no_match(p, t, "${auth_uuid}"@, OFFLINE_UUID@);
    lemma_not_prefix_at("${auth_access_token}"@, t, 2);
    lemma_replaced_no_match(p, t, "${auth_access_token}"@, "0"@);
    lemma_replaced_hit(p, "${clientid}"@, q, ""@);
    let r = p + ""@ + q;
    assert(lacks(r, '$'));
    lemma_replaced_absent(r, "${auth_xuid}"@, ""@);
    lemma_replaced_absent(r, "${version_name}"@, FORGE_VERSION@);
    lemma_replaced_absent(r, "${game_directory}"@, game_dir);
    lemma_replaced_absent(r, "${assets_root}"@, assets);
    lemma_replaced_absent(r, "${assets_index_name}"@, asset_index);
    lemma_replaced_absent(r, "${user_type}"@, "offline"@);
    lemma_replaced_absent(r, "${user_properties}"@, "{}"@);
    lemma_replaced_absent(r, "${version_type}"@, "Forge"@);
    lemma_replaced_absent(r, "${resolution_width}"@, width);
    lemma_replaced_absent(r, "${resolution_height}"@, height);
}

/// The placeholder `${auth_xuid}` is filled in with nothing.
proof fn lemma_game_placeholder_5(
    p: Seq<char>,
    q: Seq<char>,
    nickname: Seq<char>,
    game_dir: Seq<char>,
    assets: Seq<char>,
    asset_index: Seq<char>,
    width: Seq<char>,
    height: Seq<char>,
)
    requires
        lacks(p, '$'),
        lacks(q, '$'),
        lacks(nickname, '$'),
        lacks(game_dir, '$'),
        lacks(assets, '$'),
        lacks(asset_index, '$'),
        lacks(width, '$'),
        lacks(height, '$'),
    ensures
        game_substituted(p + "${auth_xuid}"@ + q, nickname, game_dir, assets, asset_index, width, height) == p + ""@ + q,
{
    reveal_strlit("");
    reveal_strlit("${assets_index_name}");
    reveal_strlit("${assets_root}");
    reveal_strlit("${auth_access_token}");
    reveal_strlit("${auth_player_name}");
    reveal_strlit("${auth_session}");
    reveal_strlit("${auth_uuid}");
    reveal_strlit("${auth_xuid}");
    reveal_strlit("${clientid}");
    reveal_strlit("${game_directory}");
    reveal_strlit("${resolution_height}");
    reveal_strlit("${resolution_width}");
    reveal_strlit("${user_properties}");
    reveal_strlit("${user_type}");
    reveal_strlit("${version_name}");
    reveal_strlit("${version_type}");
    let t = "${auth_xuid}"@ + q;
    assert(p + "${auth_xuid}"@ + q =~= p + t);
    assert(t.skip(1) =~= "${auth_xuid}"@.skip(1) + q);
    lemma_not_prefix_at("${auth_player_name}"@, t, 7);
    lemma_replaced_no_match(p, t, "${auth_player_name}"@, nickname);
    lemma_not_prefix_at("${auth_session}"@, t, 7);
    lemma_replaced_no_match(p, t, "${auth_session}"@, "0"@);
    lemma_not_prefix_at("${auth_uuid}"@, t, 7);
    lemma_replaced_no_match(p, t, "${auth_uuid}"@, OFFLINE_UUID@);
    lemma_not_prefix_at("${auth_access_token}"@, t, 7);
    lemma_replaced_no_match(p, t, "${auth_access_token}"@, "0"@);
    lemma_not_prefix_at("${clientid}"@, t, 2);
    lemma_replaced_no_match(p, t, "${clientid}"@, ""@);
    lemma_replaced_hit(p, "${auth_xuid}"@, q, ""@);
    let r = p + ""@ + q;
    assert(lacks(r, '$'));
    lemma_replaced_absent(r, "${version_name}"@, FORGE_VERSION@);
    lemma_replaced_absent(r, "${game_directory}"@, game_dir);
    lemma_replaced_absent(r, "${assets_root}"@, assets);
    lemma_replaced_absent(r, "${assets_index_name}"@, asset_index);
    lemma_replaced_absent(r, "${user_type}"@, "offline"@);
    lemma_replaced_absent(r, "${user_properties}"@, "{}"@);
    lemma_replaced_absent(r, "${version_type}"@, "Forge"@);
    lemma_replaced_absent(r, "${resolution_width}"@, width);
    lemma_replaced_absent(r, "${resolution_height}"@, height);
}

/// The placeholder `${version_name}` is filled in with the Forge version.
proof fn lemma_game_placeholder_6(
    p: Seq<char>,
    q: Seq<char>,
    nickname: Seq<char>,
    game_dir: Seq<char>,
    assets: Seq<char>,
    asset_index: Seq<char>,
    width: Seq<char>,
    height: Seq<char>,
)
    requires
        lacks(p, '$'),
        lacks(q, '$'),
        lacks(nickname, '$'),
        lacks(game_dir, '$'),
        lacks(assets, '$'),
        lacks(asset_index, '$'),
        lacks(width, '$'),
        lacks(height, '$'),
    ensures
        game_substituted(p + "${version_name}"@ + q, nickname, game_dir, assets, asset_index, width, height) == p + "1.20.1-47.2.0"@ + q,
{
    reveal_strlit("${assets_index_name}");
    reveal_strlit("${assets_root}");
    reveal_strlit("${auth_access_token}");
    reveal_strlit("${auth_player_name}");
    reveal_strlit("${auth_session}");
    reveal_strlit("${auth_uuid}");
    reveal_strlit("${auth_xuid}");
    reveal_strlit("${clientid}");
    reveal_strlit("${game_directory}");
    reveal_strlit("${resolution_height}");
    reveal_strlit("${resolution_width}");
    reveal_strlit("${user_properties}");
    reveal_strlit("${user_type}");
    reveal_strlit("${version_name}");
    reveal_strlit("${version_type}");
    reveal_strlit("1.20.1-47.2.0");
    let t = "${version_name}"@ + q;
    assert(p + "${version_name}"@ + q =~= p + t);
    assert(t.skip(1) =~= "${version_name}"@.skip(1) + q);
    lemma_not_prefix_at("${auth_player_name}"@, t, 2);
    lemma_replaced_no_match(p, t, "${auth_player_name}"@, nickname);
    lemma_not_prefix_at("${auth_session}"@, t, 2);
    lemma_replaced_no_match(p, t, "${auth_session}"@, "0"@);
    lemma_not_prefix_at("${auth_uuid}"@, t, 2);
    lemma_replaced_no_match(p, t, "${auth_uuid}"@, OFFLINE_UUID@);
    lemma_not_prefix_at("${auth_access_token}"@, t, 2);
    lemma_replaced_no_match(p, t, "${auth_access_token}"@, "0"@);
    lemma_not_prefix_at("${clientid}"@, t, 2);
    lemma_replaced_no_match(p, t, "${clientid}"@, ""@);
    lemma_not_prefix_at("${auth_xuid}"@, t, 2);
    lemma_replaced_no_match(p, t, "${auth_xuid}"@, ""@);
    lemma_replaced_hit(p, "${version_name}"@, q, FORGE_VERSION@);
    let r = p + "1.20.1-47.2.0"@ + q;
    assert(lacks(r, '$'));
    lemma_replaced_absent(r, "${game_directory}"@, game_dir);
    lemma_replaced_absent(r, "${assets_root}"@, assets);
    lemma_replaced_absent(r, "${assets_index_name}"@, asset_index);
    lemma_replaced_absent(r, "${user_type}"@, "offline"@);
    lemma_replaced_absent(r, "${user_properties}"@, "{}"@);
    lemma_replaced_absent(r, "${version_type}"@, "Forge"@);
    lemma_replaced_absent(r, "${resolution_width}"@, width);
    lemma_replaced_absent(r, "${resolution_height}"@, height);
}

/// The placeholder `${game_directory}` is filled in with the game directory.
proof fn lemma_game_placeholder_7(
    p: Seq<char>,
    q: Seq<char>,
    nickname: Seq<char>,
    game_dir: Seq<char>,
    assets: Seq<char>,
    asset_index: Seq<char>,
    width: Seq<char>,
    height: Seq<char>,
)
    requires
        lacks(p, '$'),
        lacks(q, '$'),
        lacks(nickname, '$'),
        lacks(game_dir, '$'),
        lacks(assets, '$'),
        lacks(asset_index, '$'),
        lacks(width, '$'),
        lacks(height, '$'),
    ensures
        game_substituted(p + "${game_directory}"@ + q, nickname, game_dir, assets, asset_index, width, height) == p + game_dir + q,
{
    reveal_strlit("${assets_index_name}");
    reveal_strlit("${assets_root}");
    reveal_strlit("${auth_access_token}");
    reveal_strlit("${auth_player_name}");
    reveal_strlit("${auth_session}");
    reveal_strlit("${auth_uuid}");
    reveal_strlit("${auth_xuid}");
    reveal_strlit("${clientid}");
    reveal_strlit("${game_directory}");
    reveal_strlit("${resolution_height}");
    reveal_strlit("${resolution_width}");
    reveal_strlit("${user_properties}");
    reveal_strlit("${user_type}");
    reveal_strlit("${version_name}");
    reveal_strlit("${version_type}");
    let t = "${game_directory}"@ + q;
    assert(p + "${game_directory}"@ + q =~= p + t);
    assert(t.skip(1) =~= "${game_directory}"@.skip(1) + q);
    lemma_not_prefix_at("${auth_player_name}"@, t, 2);
    lemma_replaced_no_match(p, t, "${auth_player_name}"@, nickname);
    lemma_not_prefix_at("${auth_session}"@, t, 2);
    lemma_replaced_no_match(p, t, "${auth_session}"@, "0"@);
    lemma_not_prefix_at("${auth_uuid}"@, t, 2);
    lemma_replaced_no_match(p, t, "${auth_uuid}"@, OFFLINE_UUID@);
    lemma_not_prefix_at("${auth_access_token}"@, t, 2);
    lemma_replaced_no_match(p, t, "${auth_access_token}"@, "0"@);
    lemma_not_prefix_at("${clientid}"@, t, 2);
    lemma_replaced_no_match(p, t, "${clientid}"@, ""@);
    lemma_not_prefix_at("${auth_xuid}"@, t, 2);
    lemma_replaced_no_match(p, t, "${auth_xuid}"@, ""@);
    lemma_not_prefix_at("${version_name}"@, t, 2);
    lemma_replaced_no_match(p, t, "${version_name}"@, FORGE_VERSION@);
    lemma_replaced_hit(p, "${game_directory}"@, q, game_dir);
    let r = p + game_dir + q;
    assert(lacks(r, '$'));
    lemma_replaced_absent(r, "${assets_root}"@, assets);
    lemma_replaced_absent(r, "${assets_index_name}"@, asset_index);
    lemma_replaced_absent(r, "${user_type}"@, "offline"@);
    lemma_replaced_absent(r, "${user_properties}"@, "{}"@);
    lemma_replaced_absent(r, "${version_type}"@, "Forge"@);
    lemma_replaced_absent(r, "${resolution_width}"@, width);
    lemma_replaced_absent(r, "${resolution_height}"@, height);
}

/// The placeholder `${assets_root}` is filled in with the assets directory.
proof fn lemma_game_placeholder_8(
    p: Seq<char>,
    q: Seq<char>,
    nickname: Seq<char>,
    game_dir: Seq<char>,
    assets: Seq<char>,
    asset_index: Seq<char>,
    width: Seq<char>,
    height: Seq<char>,
)
    requires
        lacks(p, '$'),
        lacks(q, '$'),
        lacks(nickname, '$'),
        lacks(game_dir, '$'),
        lacks(assets, '$'),
        lacks(asset_index, '$'),
        lacks(width, '$'),
        lacks(height, '$'),
    ensures
        game_substituted(p + "${assets_root}"@ + q, nickname, game_dir, assets, asset_index, width, height) == p + assets + q,
{
    reveal_strlit("${assets_index_name}");
    reveal_strlit("${assets_root}");
    reveal_strlit("${auth_access_token}");
    reveal_strlit("${auth_player_name}");
    reveal_strlit("${auth_session}");
    reveal_strlit("${auth_uuid}");
    reveal_strlit("${auth_xuid}");
    reveal_strlit("${clientid}");
    reveal_strlit("${game_directory}");
    reveal_strlit("${resolution_height}");
    reveal_strlit("${resolution_width}");
    reveal_strlit("${user_properties}");
    reveal_strlit("${user_type}");
    reveal_strlit("${version_name}");
    reveal_strlit("${version_type}");
    let t = "${assets_root}"@ + q;
    assert(p + "${assets_root}"@ + q =~= p + t);
    assert(t.skip(1) =~= "${assets_root}"@.skip(1) + q);
    lemma_not_prefix_at("${auth_player_name}"@, t, 3);
    lemma_replaced_no_match(p, t, "${auth_player_name}"@, nickname);
    lemma_not_prefix_at("${auth_session}"@, t, 3);
    lemma_replaced_no_match(p, t, "${auth_session}"@, "0"@);
    lemma_not_prefix_at("${auth_uuid}"@, t, 3);
    lemma_replaced_no_match(p, t, "${auth_uuid}"@, OFFLINE_UUID@);
    lemma_not_prefix_at("${auth_access_token}"@, t, 3);
    lemma_replaced_no_match(p, t, "${auth_access_token}"@, "0"@);
    lemma_not_prefix_at("${clientid}"@, t, 2);
    lemma_replaced_no_match(p, t, "${clientid}"@, ""@);
    lemma_not_prefix_at("${auth_xuid}"@, t, 3);
    lemma_replaced_no_match(p, t, "${auth_xuid}"@, ""@);
    lemma_not_prefix_at("${version_name}"@, t, 2);
    lemma_replaced_no_match(p, t, "${version_name}"@, FORGE_VERSION@);
    lemma_not_prefix_at("${game_directory}"@, t, 2);
    lemma_replaced_no_match(p, t, "${game_directory}"@, game_dir);
    lemma_replaced_hit(p, "${assets_root}"@, q, assets);
    let r = p + assets + q;
    assert(lacks(r, '$'));
    lemma_replaced_absent(r, "${assets_index_name}"@, asset_index);
    lemma_replaced_absent(r, "${user_type}"@, "offline"@);
    lemma_replaced_absent(r, "${user_properties}"@, "{}"@);
    lemma_replaced_absent(r, "${version_type}"@, "Forge"@);
    lemma_replaced_absent(r, "${resolution_width}"@, width);
    lemma_replaced_absent(r, "${resolution_height}"@, height);
}

/// The placeholder `${assets_index_name}` is filled in with the asset index.
proof fn lemma_game_placeholder_9(
    p: Seq<char>,
    q: Seq<char>,
    nickname: Seq<char>,
    game_dir: Seq<char>,
    assets: Seq<char>,
    asset_index: Seq<char>,
    width: Seq<char>,
    height: Seq<char>,
)
    requires
        lacks(p, '$'),
        lacks(q, '$'),
        lacks(nickname, '$'),
        lacks(game_dir, '$'),
        lacks(assets, '$'),
        lacks(asset_index, '$'),
        lacks(width, '$'),
        lacks(height, '$'),
    ensures
        game_substituted(p + "${assets_index_name}"@ + q, nickname, game_dir, assets, asset_index, width, height) == p + asset_index + q,
{
    reveal_strlit("${assets_index_name}");
    reveal_strlit("${assets_root}");
    reveal_strlit("${auth_access_token}");
    reveal_strlit("${auth_player_name}");
    reveal_strlit("${auth_session}");
    reveal_strlit("${auth_uuid}");
    reveal_strlit("${auth_xuid}");
    reveal_strlit("${clientid}");
    reveal_strlit("${game_directory}");
    reveal_strlit("${resolution_height}");
    reveal_strlit("${resolution_width}");
    reveal_strlit("${user_properties}");
    reveal_strlit("${user_type}");
    reveal_strlit("${version_name}");
    reveal_strlit("${version_type}");
    let t = "${assets_index_name}"@ + q;
    assert(p + "${assets_index_name}"@ + q =~= p + t);
    assert(t.skip(1) =~= "${assets_index_name}"@.skip(1) + q);
    lemma_not_prefix_at("${auth_player_name}"@, t, 3);
    lemma_replaced_no_match(p, t, "${auth_player_name}"@, nickname);
    lemma_not_prefix_at("${auth_session}"@, t, 3);
    lemma_replaced_no_match(p, t, "${auth_session}"@, "0"@);
    lemma_not_prefix_at("${auth_uuid}"@, t, 3);
    lemma_replaced_no_match(p, t, "${auth_uuid}"@, OFFLINE_UUID@);
    lemma_not_prefix_at("${auth_access_token}"@, t, 3);
    lemma_replaced_no_match(p, t, "${auth_access_token}"@, "0"@);
    lemma_not_prefix_at("${clientid}"@, t, 2);
    lemma_replaced_no_match(p, t, "${clientid}"@, ""@);
    lemma_not_prefix_at("${auth_xuid}"@, t, 3);
    lemma_replaced_no_match(p, t, "${auth_xuid}"@, ""@);
    lemma_not_prefix_at("${version_name}"@, t, 2);
    lemma_replaced_no_match(p, t, "${version_name}"@, FORGE_VERSION@);
    lemma_not_prefix_at("${game_directory}"@, t, 2);
    lemma_replaced_no_match(p, t, "${game_directory}"@, game_dir);
    lemma_not_prefix_at("${assets_root}"@, t, 9);
    lemma_replaced_no_match(p, t, "${assets_root}"@, assets);
    lemma_replaced_hit(p, "${assets_index_name}"@, q, asset_index);
    let r = p + asset_index + q;
    assert(lacks(r, '$'));
    lemma_replaced_absent(r, "${user_type}"@, "offline"@);
    lemma_replaced_absent(r, "${user_properties}"@, "{}"@);
    lemma_replaced_absent(r, "${version_type}"@, "Forge"@);
    lemma_replaced_absent(r, "${resolution_width}"@, width);
    lemma_replaced_absent(r, "${resolution_height}"@, height);
}

/// The placeholder `${user_type}` is filled in with `offline`.
proof fn lemma_game_placeholder_10(
    p: Seq<char>,
    q: Seq<char>,
    nickname: Seq<char>,
    game_dir: Seq<char>,
    assets: Seq<char>,
    asset_index: Seq<char>,
    width: Seq<char>,
    height: Seq<char>,
)
    requires
        lacks(p, '$'),
        lacks(q, '$'),
        lacks(nickname, '$'),
        lacks(game_dir, '$'),
        lacks(assets, '$'),
        lacks(asset_index, '$'),
        lacks(width, '$'),
        lacks(height, '$'),
    ensures
        game_substituted(p + "${user_type}"@ + q, nickname, game_dir, assets, asset_index, width, height) == p + "offline"@ + q,
{
    reveal_strlit("${assets_index_name}");
    reveal_strlit("${assets_root}");
    reveal_strlit("${auth_access_token}");
    reveal_strlit("${auth_player_name}");
    reveal_strlit("${auth_session}");
    reveal_strlit("${auth_uuid}");
    reveal_strlit("${auth_xuid}");
    reveal_strlit("${clientid}");
    reveal_strlit("${game_directory}");
    reveal_strlit("${resolution_height}");
    reveal_strlit("${resolution_width}");
    reveal_strlit("${user_properties}");
    reveal_strlit("${user_type}");
    reveal_strlit("${version_name}");
    reveal_strlit("${version_type}");
    reveal_strlit("offline");
    let t = "${user_type}"@ + q;
    assert(p + "${user_type}"@ + q =~= p + t);
    assert(t.skip(1) =~= "${user_type}"@.skip(1) + q);
    lemma_not_prefix_at("${auth_player_name}"@, t, 2);
    lemma_replaced_no_match(p, t, "${auth_player_name}"@, nickname);
    lemma_not_prefix_at("${auth_session}"@, t, 2);
    lemma_replaced_no_match(p, t, "${auth_session}"@, "0"@);
    lemma_not_prefix_at("${auth_uuid}"@, t, 2);
    lemma_replaced_no_match(p, t, "${auth_uuid}"@, OFFLINE_UUID@);
    lemma_not_prefix_at("${auth_access_token}"@, t, 2);
    lemma_replaced_no_match(p, t, "${auth_access_token}"@, "0"@);
    lemma_not_prefix_at("${clientid}"@, t, 2);
    lemma_replaced_no_match(p, t, "${clientid}"@, ""@);
    lemma_not_prefix_at("${auth_xuid}"@, t, 2);
    lemma_replaced_no_match(p, t, "${auth_xuid}"@, ""@);
    lemma_not_prefix_at("${version_name}"@, t, 2);
    lemma_replaced_no_match(p, t, "${version_name}"@, FORGE_VERSION@);
    lemma_not_prefix_at("${game_directory}"@, t, 2);
    lemma_replaced_no_match(p, t, "${game_directory}"@, game_dir);
    lemma_not_prefix_at("${assets_root}"@, t, 2);
    lemma_replaced_no_match(p, t, "${assets_root}"@, assets);
    lemma_not_prefix_at("${assets_index_name}"@, t, 2);
    lemma_replaced_no_match(p, t, "${assets_index_name}"@, asset_index);
    lemma_replaced_hit(p, "${user_type}"@, q, "offline"@);
    let r = p + "offline"@ + q;
    assert(lacks(r, '$'));
    lemma_replaced_absent(r, "${user_properties}"@, "{}"@);
    lemma_replaced_absent(r, "${version_type}"@, "Forge"@);
    lemma_replaced_absent(r, "${resolution_width}"@, width);
    lemma_replaced_absent(r, "${resolution_height}"@, height);
}

/// The placeholder `${user_properties}` is filled in with `{}`.
proof fn lemma_game_placeholder_11(
    p: Seq<char>,
    q: Seq<char>,
    nickname: Seq<char>,
    game_dir: Seq<char>,
    assets: Seq<char>,
    asset_index: Seq<char>,
    width: Seq<char>,
    height: Seq<char>,
)
    requires
        lacks(p, '$'),
        lacks(q, '$'),
        lacks(nickname, '$'),
        lacks(game_dir, '$'),
        lacks(assets, '$'),
        lacks(asset_index, '$'),
        lacks(width, '$'),
        lacks(height, '$'),
    ensures
        game_substituted(p + "${user_properties}"@ + q, nickname, game_dir, assets, asset_index, width, height) == p + "{}"@ + q,
{
    reveal_strlit("${assets_index_name}");
    reveal_strlit("${assets_root}");
    reveal_strlit("${auth_access_token}");
    reveal_strlit("${auth_player_name}");
    reveal_strlit("${auth_session}");
    reveal_strlit("${auth_uuid}");
    reveal_strlit("${auth_xuid}");
    reveal_strlit("${clientid}");
    reveal_strlit("${game_directory}");
    reveal_strlit("${resolution_height}");
    reveal_strlit("${resolution_width}");
    reveal_strlit("${user_properties}");
    reveal_strlit("${user_type}");
    reveal_strlit("${version_name}");
    reveal_strlit("${version_type}");
    reveal_strlit("{}");
    let t = "${user_properties}"@ + q;
    assert(p + "${user_properties}"@ + q =~= p + t);
    assert(t.skip(1) =~= "${user_properties}"@.skip(1) + q);
    lemma_not_prefix_at("${auth_player_name}"@, t, 2);
    lemma_replaced_no_match(p, t, "${auth_player_name}"@, nickname);
    lemma_not_prefix_at("${auth_session}"@, t, 2);
    lemma_replaced_no_match(p, t, "${auth_session}"@, "0"@);
    lemma_not_prefix_at("${auth_uuid}"@, t, 2);
    lemma_replaced_no_match(p, t, "${auth_uuid}"@, OFFLINE_UUID@);
    lemma_not_prefix_at("${auth_access_token}"@, t, 2);
    lemma_replaced_no_match(p, t, "${auth_access_token}"@, "0"@);
    lemma_not_prefix_at("${clientid}"@, t, 2);
    lemma_replaced_no_match(p, t, "${clientid}"@, ""@);
    lemma_not_prefix_at("${auth_xuid}"@, t, 2);
    lemma_replaced_no_match(p, t, "${auth_xuid}"@, ""@);
    lemma_not_prefix_at("${version_name}"@, t, 2);
    lemma_replaced_no_match(p, t, "${version_name}"@, FORGE_VERSION@);
    lemma_not_prefix_at("${game_directory}"@, t, 2);
    lemma_replaced_no_match(p, t, "${game_directory}"@, game_dir);
    lemma_not_prefix_at("${assets_root}"@, t, 2);
    lemma_replaced_no_match(p, t, "${assets_root}"@, assets);
    lemma_not_prefix_at("${assets_index_name}"@, t, 2);
    lemma_replaced_no_match(p, t, "${assets_index_name}"@, asset_index);
    lemma_not_prefix_at("${user_type}"@, t, 7);
    lemma_replaced_no_match(p, t, "${user_type}"@, "offline"@);
    lemma_replaced_hit(p, "${user_properties}"@, q, "{}"@);
    let r = p + "{}"@ + q;
    assert(lacks(r, '$'));
    lemma_replaced_absent(r, "${version_type}"@, "Forge"@);
    lemma_replaced_absent(r, "${resolution_width}"@, width);
    lemma_replaced_absent(r, "${resolution_height}"@, height);
}

/// The placeholder `${version_type}` is filled in with `Forge`.
proof fn lemma_game_placeholder_12(
    p: Seq<char>,
    q: Seq<char>,
    nickname: Seq<char>,
    game_dir: Seq<char>,
    assets: Seq<char>,
    asset_index: Seq<char>,
    width: Seq<char>,
    height: Seq<char>,
)
    requires
        lacks(p, '$'),
        lacks(q, '$'),
        lacks(nickname, '$'),
        lacks(game_dir, '$'),
        lacks(assets, '$'),
        lacks(asset_index, '$'),
        lacks(width, '$'),
        lacks(height, '$'),
    ensures
        game_substituted(p + "${version_type}"@ + q, nickname, game_dir, assets, asset_index, width, height) == p + "Forge"@ + q,
{
    reveal_strlit("${assets_index_name}");
    reveal_strlit("${assets_root}");
    reveal_strlit("${auth_access_token}");
    reveal_strlit("${auth_player_name}");
    reveal_strlit("${auth_session}");
    reveal_strlit("${auth_uuid}");
    reveal_strlit("${auth_xuid}");
    reveal_strlit("${clientid}");
    reveal_strlit("${game_directory}");
    reveal_strlit("${resolution_height}");
    reveal_strlit("${resolution_width}");
    reveal_strlit("${user_properties}");
    reveal_strlit("${user_type}");
    reveal_strlit("${version_name}");
    reveal_strlit("${version_type}");
    reveal_strlit("Forge");
    let t = "${version_type}"@ + q;
    assert(p + "${version_type}"@ + q =~= p + t);
    assert(t.skip(1) =~= "${version_type}"@.skip(1) + q);
    lemma_not_prefix_at("${auth_player_name}"@, t, 2);
    lemma_replaced_no_match(p, t, "${auth_player_name}"@, nickname);
    lemma_not_prefix_at("${auth_session}"@, t, 2);
    lemma_replaced_no_match(p, t, "${auth_session}"@, "0"@);
    lemma_not_prefix_at("${auth_uuid}"@, t, 2);
    lemma_replaced_no_match(p, t, "${auth_uuid}"@, OFFLINE_UUID@);
    lemma_not_prefix_at("${auth_access_token}"@, t, 2);
    lemma_replaced_no_match(p, t, "${auth_access_token}"@, "0"@);
    lemma_not_prefix_at("${clientid}"@, t, 2);
    lemma_replaced_no_match(p, t, "${clientid}"@, ""@);
    lemma_not_prefix_at("${auth_xuid}"@, t, 2);
    lemma_replaced_no_match(p, t, "${auth_xuid}"@, ""@);
    lemma_not_prefix_at("${version_name}"@, t, 10);
    lemma_replaced_no_match(p, t, "${version_name}"@, FORGE_VERSION@);
    lemma_not_prefix_at("${game_directory}"@, t, 2);
    lemma_replaced_no_match(p, t, "${game_directory}"@, game_dir);
    lemma_not_prefix_at("${assets_root}"@, t, 2);
    lemma_replaced_no_match(p, t, "${assets_root}"@, assets);
    lemma_not_prefix_at("${assets_index_name}"@, t, 2);
    lemma_replaced_no_match(p, t, "${assets_index_name}"@, asset_index);
    lemma_not_prefix_at("${user_type}"@, t, 2);
    lemma_replaced_no_match(p, t, "${user_type}"@, "offline"@);
    lemma_not_prefix_at("${user_properties}"@, t, 2);
    lemma_replaced_no_match(p, t, "${user_properties}"@, "{}"@);
    lemma_replaced_hit(p, "${version_type}"@, q, "Forge"@);
    let r = p + "Forge"@ + q;
    assert(lacks(r, '$'));
    lemma_replaced_absent(r, "${resolution_width}"@, width);
    lemma_replaced_absent(r, "${resolution_height}"@, height);
}

/// The placeholder `${resolution_width}` is filled in with the window width.
proof fn lemma_game_placeholder_13(
    p: Seq<char>,
    q: Seq<char>,
    nickname: Seq<char>,
    game_dir: Seq<char>,
    assets: Seq<char>,
    asset_index: Seq<char>,
    width: Seq<char>,
    height: Seq<char>,
)
    requires
        lacks(p, '$'),
        lacks(q, '$'),
        lacks(nickname, '$'),
        lacks(game_dir, '$'),
        lacks(assets, '$'),
        lacks(asset_index, '$'),
        lacks(width, '$'),
        lacks(height, '$'),
    ensures
        game_substituted(p + "${resolution_width}"@ + q, nickname, game_dir, assets, asset_index, width, height) == p + width + q,
{
    reveal_strlit("${assets_index_name}");
    reveal_strlit("${assets_root}");
    reveal_strlit("${auth_access_token}");
    reveal_strlit("${auth_player_name}");
    reveal_strlit("${auth_session}");
    reveal_strlit("${auth_uuid}");
    reveal_strlit("${auth_xuid}");
    reveal_strlit("${clientid}");
    reveal_strlit("${game_directory}");
    reveal_strlit("${resolution_height}");
    reveal_strlit("${resolution_width}");
    reveal_strlit("${user_properties}");
    reveal_strlit("${user_type}");
    reveal_strlit("${version_name}");
    reveal_strlit("${version_type}");
    let t = "${resolution_width}"@ + q;
    assert(p + "${resolution_width}"@ + q =~= p + t);
    assert(t.skip(1) =~= "${resolution_width}"@.skip(1) + q);
    lemma_not_prefix_at("${auth_player_name}"@, t, 2);
    lemma_replaced_no_match(p, t, "${auth_player_name}"@, nickname);
    lemma_not_prefix_at("${auth_session}"@, t, 2);
    lemma_replaced_no_match(p, t, "${auth_session}"@, "0"@);
    lemma_not_prefix_at("${auth_uuid}"@, t, 2);
    lemma_replaced_no_match(p, t, "${auth_uuid}"@, OFFLINE_UUID@);
    lemma_not_prefix_at("${auth_access_token}"@, t, 2);
    lemma_replaced_no_match(p, t, "${auth_access_token}"@, "0"@);
    lemma_not_prefix_at("${clientid}"@, t, 2);
    lemma_replaced_no_match(p, t, "${clientid}"@, ""@);
    lemma_not_prefix_at("${auth_xuid}"@, t, 2);
    lemma_replaced_no_match(p, t, "${auth_xuid}"@, ""@);
    lemma_not_prefix_at("${version_name}"@, t, 2);
    lemma_replaced_no_match(p, t, "${version_name}"@, FORGE_VERSION@);
    lemma_not_prefix_at("${game_directory}"@, t, 2);
    lemma_replaced_no_match(p, t, "${game_directory}"@, game_dir);
    lemma_not_prefix_at("${assets_root}"@, t, 2);
    lemma_replaced_no_match(p, t, "${assets_root}"@, assets);
    lemma_not_prefix_at("${assets_index_name}"@, t, 2);
    lemma_replaced_no_match(p, t, "${assets_index_name}"@, asset_index);
    lemma_not_prefix_at("${user_type}"@, t, 2);
    lemma_replaced_no_match(p, t, "${user_type}"@, "offline"@);
    lemma_not_prefix_at("${user_properties}"@, t, 2);
    lemma_replaced_no_match(p, t, "${user_properties}"@, "{}"@);
    lemma_not_prefix_at("${version_type}"@, t, 2);
    lemma_replaced_no_match(p, t, "${version_type}"@, "Forge"@);
    lemma_replaced_hit(p, "${resolution_width}"@, q, width);
    let r = p + width + q;
    assert(lacks(r, '$'));
    lemma_replaced_absent(r, "${resolution_height}"@, height);
}

/// The placeholder `${resolution_height}` is filled in with the window height.
proof fn lemma_game_placeholder_14(
    p: Seq<char>,
    q: Seq<char>,
    nickname: Seq<char>,
    game_dir: Seq<char>,
    assets: Seq<char>,
    asset_index: Seq<char>,
    width: Seq<char>,
    height: Seq<char>,
)
    requires
        lacks(p, '$'),
        lacks(q, '$'),
        lacks(nickname, '$'),
        lacks(game_dir, '$'),
        lacks(assets, '$'),
        lacks(asset_index, '$'),
        lacks(width, '$'),
        lacks(height, '$'),
    ensures
        game_substituted(p + "${resolution_height}"@ + q, nickname, game_dir, assets, asset_index, width, height) == p + height + q,
{
    reveal_strlit("${assets_index_name}");
    reveal_strlit("${assets_root}");
    reveal_strlit("${auth_access_token}");
    reveal_strlit("${auth_player_name}");
    reveal_strlit("${auth_session}");
    reveal_strlit("${auth_uuid}");
    reveal_strlit("${auth_xuid}");
    reveal_strlit("${clientid}");
    reveal_strlit("${game_directory}");
    reveal_strlit("${resolution_height}");
    reveal_strlit("${resolution_width}");
    reveal_strlit("${user_properties}");
    reveal_strlit("${user_type}");
    reveal_strlit("${version_name}");
    reveal_strlit("${version_type}");
    let t = "${resolution_height}"@ + q;
    assert(p + "${resolution_height}"@ + q =~= p + t);
    assert(t.skip(1) =~= "${resolution_height}"@.skip(1) + q);
    lemma_not_prefix_at("${auth_player_name}"@, t, 2);
    lemma_replaced_no_match(p, t, "${auth_player_name}"@, nickname);
    lemma_not_prefix_at("${auth_session}"@, t, 2);
    lemma_replaced_no_match(p, t, "${auth_session}"@, "0"@);
    lemma_not_prefix_at("${auth_uuid}"@, t, 2);
    lemma_replaced_no_match(p, t, "${auth_uuid}"@, OFFLINE_UUID@);
    lemma_not_prefix_at("${auth_access_token}"@, t, 2);
    lemma_replaced_no_match(p, t, "${auth_access_token}"@, "0"@);
    lemma_not_prefix_at("${clientid}"@, t, 2);
    lemma_replaced_no_match(p, t, "${clientid}"@, ""@);
    lemma_not_prefix_at("${auth_xuid}"@, t, 2);
    lemma_replaced_no_match(p, t, "${auth_xuid}"@, ""@);
    lemma_not_prefix_at("${version_name}"@, t, 2);
    lemma_replaced_no_match(p, t, "${version_name}"@, FORGE_VERSION@);
    lemma_not_prefix_at("${game_directory}"@, t, 2);
    lemma_replaced_no_match(p, t, "${game_directory}"@, game_dir);
    lemma_not_prefix_at("${assets_root}"@, t, 2);
    lemma_replaced_no_match(p, t, "${assets_root}"@, assets);
    lemma_not_prefix_at("${assets_index_name}"@, t, 2);
    lemma_replaced_no_match(p, t, "${assets_index_name}"@, asset_index);
    lemma_not_prefix_at("${user_type}"@, t, 2);
    lemma_replaced_no_match(p, t, "${user_type}"@, "offline"@);
    lemma_not_prefix_at("${user_properties}"@, t, 2);
    lemma_replaced_no_match(p, t, "${user_properties}"@, "{}"@);
    lemma_not_prefix_at("${version_type}"@, t, 2);
    lemma_replaced_no_match(p, t, "${version_type}"@, "Forge"@);
    lemma_not_prefix_at("${resolution_width}"@, t, 13);
    lemma_replaced_no_match(p, t, "${resolution_width}"@, width);
    lemma_replaced_hit(p, "${resolution_height}"@, q, height);
    let r = p + height + q;
    assert(lacks(r, '$'));
}

/// Law: each placeholder of a game argument, standing anywhere in a text with
/// no other `$`, is filled in with its own value: the player's name, `0` for
/// the session and the access token, the offline account id, nothing for the
/// client and Xbox ids, the Forge version, the game directory, the assets
/// directory, the asset index, `offline`, `{}`, `Forge`, and the window width
/// and height; the rest of the text stays as it is.
pub proof fn lemma_game_placeholders_filled(
    p: Seq<char>,
    q: Seq<char>,
    nickname: Seq<char>,
    game_dir: Seq<char>,
    assets: Seq<char>,
    asset_index: Seq<char>,
    width: Seq<char>,
    height: Seq<char>,
)
    requires
        lacks(p, '$'),
        lacks(q, '$'),
        lacks(nickname, '$'),
        lacks(game_dir, '$'),
        lacks(assets, '$'),
        lacks(asset_index, '$'),
        lacks(width, '$'),
        lacks(height, '$'),
    ensures
        game_substituted(p + "${auth_player_name}"@ + q, nickname, game_dir, assets, asset_index, width, height) == p + nickname + q,
        game_substituted(p + "${auth_session}"@ + q, nickname, game_dir, assets, asset_index, width, height) == p + "0"@ + q,
        game_substituted(p + "${auth_uuid}"@ + q, nickname, game_dir, assets, asset_index, width, height) == p + "00000000-0000-0000-0000-000000000000"@ + q,
        game_substituted(p + "${auth_access_token}"@ + q, nickname, game_dir, assets, asset_index, width, height) == p + "0"@ + q,
        game_substituted(p + "${clientid}"@ + q, nickname, game_dir, assets, asset_index, width, height) == p + ""@ + q,
        game_substituted(p + "${auth_xuid}"@ + q, nickname, game_dir, assets, asset_index, width, height) == p + ""@ + q,
        game_substituted(p + "${version_name}"@ + q, nickname, game_dir, assets, asset_index, width, height) == p + "1.20.1-47.2.0"@ + q,
        game_substituted(p + "${game_directory}"@ + q, nickname, game_dir, assets, asset_index, width, height) == p + game_dir + q,
        game_substituted(p + "${assets_root}"@ + q, nickname, game_dir, assets, asset_index, width, height) == p + assets + q,
        game_substituted(p + "${assets_index_name}"@ + q, nickname, game_dir, assets, asset_index, width, height) == p + asset_index + q,
        game_substituted(p + "${user_type}"@ + q, nickname, game_dir, assets, asset_index, width, height) == p + "offline"@ + q,
        game_substituted(p + "${user_properties}"@ + q, nickname, game_dir, assets, asset_index, width, height) == p + "{}"@ + q,
        game_substituted(p + "${version_type}"@ + q, nickname, game_dir, assets, asset_index, width, height) == p + "Forge"@ + q,
        game_substituted(p + "${resolution_width}"@ + q, nickname, game_dir, assets, asset_index, width, height) == p + width + q,
        game_substituted(p + "${resolution_height}"@ + q, nickname, game_dir, assets, asset_index, width, height) == p + height + q,
{
    lemma_game_placeholder_0(p, q, nickname, game_dir, assets, asset_index, width, height);
    lemma_game_placeholder_1(p, q, nickname, game_dir, assets, asset_index, width, height);
    lemma_game_placeholder_2(p, q, nickname, game_dir, assets, asset_index, width, height);
    lemma_game_placeholder_3(p, q, nickname, game_dir, assets, asset_index, width, height);
    lemma_game_placeholder_4(p, q, nickname, game_dir, assets, asset_index, width, height);
    lemma_game_placeholder_5(p, q, nickname, game_dir, assets, asset_index, width, height);
    lemma_game_placeholder_6(p, q, nickname, game_dir, assets, asset_index, width, height);
    lemma_game_placeholder_7(p, q, nickname, game_dir, assets, asset_index, width, height);
    lemma_game_placeholder_8(p, q, nickname, game_dir, assets, asset_index, width, height);
    lemma_game_placeholder_9(p, q, nickname, game_dir, assets, asset_index, width, height);
    lemma_game_placeholder_10(p, q, nickname, game_dir, assets, asset_index, width, height);
    lemma_game_placeholder_11(p, q, nickname, game_dir, assets, asset_index, width, height);
    lemma_game_placeholder_12(p, q, nickname, game_dir, assets, asset_index, width, height);
    lemma_game_placeholder_13(p, q, nickname, game_dir, assets, asset_index, width, height);
    lemma_game_placeholder_14(p, q, nickname, game_dir, assets, asset_index, width, height);
}

/// The asset index placeholder, in a game argument with no other `$`,
/// becomes the asset index, and nothing else changes.
pub proof fn lemma_asset_index_filled(
    p: Seq<char>,
    q: Seq<char>,
    nickname: Seq<char>,
    game_dir: Seq<char>,
    assets: Seq<char>,
    asset_index: Seq<char>,
    width: Seq<char>,
    height: Seq<char>,
)
    requires
        lacks(p, '$'),
        lacks(q, '$'),
        lacks(asset_index, '$'),
    ensures
        game_substituted(p + "${assets_index_name}"@ + q, nickname, game_dir, assets, asset_index, width, height)
            == p + asset_index + q,
{
    let m = "${assets_index_name}"@;
    reveal_strlit("${assets_index_name}");
    reveal_strlit("${auth_player_name}");
    reveal_strlit("${auth_session}");
    reveal_strlit("${auth_uuid}");
    reveal_strlit("${auth_access_token}");
    reveal_strlit("${clientid}");
    reveal_strlit("${auth_xuid}");
    reveal_strlit("${version_name}");
    reveal_strlit("${game_directory}");
    reveal_strlit("${assets_root}");
    reveal_strlit("${user_type}");
    reveal_strlit("${user_properties}");
    reveal_strlit("${version_type}");
    reveal_strlit("${resolution_width}");
    reveal_strlit("${resolution_height}");
    let t = m + q;
    assert(p + m + q =~= p + t);
    assert(t.skip(1) =~= m.skip(1) + q);
    assert(lacks(t.skip(1), '$'));
    assert(t[3] == 's' && t[2] == 'a' && t[9] == 'i');
    lemma_not_prefix_at("${auth_player_name}"@, t, 3);
    lemma_not_prefix_at("${auth_session}"@, t, 3);
    lemma_not_prefix_at("${auth_uuid}"@, t, 3);
    lemma_not_prefix_at("${auth_access_token}"@, t, 3);
    lemma_not_prefix_at("${clientid}"@, t, 2);
    lemma_not_prefix_at("${auth_xuid}"@, t, 3);
    lemma_not_prefix_at("${version_name}"@, t, 2);
    lemma_not_prefix_at("${game_directory}"@, t, 2);
    lemma_not_prefix_at("${assets_root}"@, t, 9);
    lemma_replaced_no_match(p, t, "${auth_player_name}"@, nickname);
    lemma_replaced_no_match(p, t, "${auth_session}"@, "0"@);
    lemma_replaced_no_match(p, t, "${auth_uuid}"@, OFFLINE_UUID@);
    lemma_replaced_no_match(p, t, "${auth_access_token}"@, "0"@);
    lemma_replaced_no_match(p, t, "${clientid}"@, ""@);
    lemma_replaced_no_match(p, t, "${auth_xuid}"@, ""@);
    lemma_replaced_no_match(p, t, "${version_name}"@, FORGE_VERSION@);
    lemma_replaced_no_match(p, t, "${game_directory}"@, game_dir);
    lemma_replaced_no_match(p, t, "${assets_root}"@, assets);
    lemma_replaced_hit(p, m, q, asset_index);
    let r = p + asset_index + q;
    assert(lacks(r, '$'));
    lemma_replaced_absent(r, "${user_type}"@, "offline"@);
    lemma_replaced_absent(r, "${user_properties}"@, "{}"@);
    lemma_replaced_absent(r, "${version_type}"@, "Forge"@);
    lemma_replaced_absent(r, "${resolution_width}"@, width);
    lemma_replaced_absent(r, "${resolution_height}"@, height);
}

/// Law: a game argument of the Forge manifest that holds the asset index
/// placeholder (and no other `$`) reaches the command line with the asset
/// index of the vanilla manifest in its place (its `assetIndex.id`, or `5`).
pub proof fn lemma_asset_index_in_game_args(
    sep: char,
    nickname: Seq<char>,
    ram_mb: u32,
    width: Seq<char>,
    height: Seq<char>,
    fullscreen: bool,
    forge: Json,
    vanilla: Option<Json>,
    client_exists: bool,
    present: Seq<bool>,
    i: int,
    p: Seq<char>,
    q: Seq<char>,
)
    requires
        0 <= i < manifest_args(forge, "game"@).len(),
        manifest_args(forge, "game"@)[i] is Str,
        manifest_args(forge, "game"@)[i]->Str_0@ == p + "${assets_index_name}"@ + q,
        lacks(p, '$'),
        lacks(q, '$'),
        lacks(asset_index_of(vanilla), '$'),
    ensures
        game_launch_args(sep, nickname, ram_mb, width, height, fullscreen, forge, vanilla, client_exists, present)
            .contains(p + asset_index_of(vanilla) + q),
{
    let args = manifest_args(forge, "game"@);
    let idx = asset_index_of(vanilla);
    let g = game_part(args, nickname, version_dir_path(sep), assets_dir_path(sep), idx, width, height);
    lemma_game_part_contains(args, i, nickname, version_dir_path(sep), assets_dir_path(sep), idx, width, height);
    lemma_asset_index_filled(p, q, nickname, version_dir_path(sep), assets_dir_path(sep), idx, width, height);
    let v = p + idx + q;
    let k = choose|k: int| 0 <= k < g.len() && g[k] == v;
    let client = if client_exists { Some(client_jar_path_spec(sep)) } else { None };
    let cp = joined(
        classpath_of(client, candidate_files(forge, vanilla, libs_dir_path(sep), sep), present),
        classpath_separator(sep),
    );
    let head = memory_args(ram_mb) + jvm_part(
        manifest_args(forge, "jvm"@),
        libs_dir_path(sep),
        classpath_separator(sep),
        mc_versions_dir_path(sep),
        cp,
    ).0 + seq![main_class(forge)];
    let a = game_launch_args(sep, nickname, ram_mb, width, height, fullscreen, forge, vanilla, client_exists, present);
    assert(a == head + g + window_args(width, height, fullscreen));
    assert(a[head.len() as int + k] == g[k]);
}

} // verus!
