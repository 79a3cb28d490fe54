//! Where the launcher keeps its files: the install tree under `C:\edlauncher`
//! and the per-user configuration paths.
use vstd::prelude::*;
use crate::text::{chars_of, is_prefix, lemma_split_on_chars, lemma_split_on_nonempty, nth_field, split_on, string_from_chars};

verus! {

/// The launcher's server, which takes the game inventory.
pub const HOST_URL: &'static str = "http://46.42.3.254:25566";
/// The Forge build: the Minecraft version and the Forge version, joined by `-`.
pub const FORGE_VERSION: &'static str = "1.20.1-47.2.0";
/// The Minecraft version.
pub const VANILLA_VERSION: &'static str = "1.20.1";
/// The Forge version used where `FORGE_VERSION` holds none.
pub const FALLBACK_FORGE_SUFFIX: &'static str = "47.2.0";
/// The root of the install tree.
pub const BASE_DIR: &'static str = "C:\\edlauncher";

/// A main path separator: `/` on Unix, `\` on Windows.
pub open spec fn is_path_separator(c: char) -> bool {
    c == '/' || c == '\\'
}

/// Whether `c` separates path components where `sep` is the main separator:
/// `/` does everywhere, `\` only on Windows.
pub open spec fn separates(c: char, sep: char) -> bool {
    c == '/' || (sep == '\\' && c == '\\')
}

/// Whether `s` starts with a drive prefix such as `C:`.
pub open spec fn has_drive(s: Seq<char>) -> bool {
    &&& s.len() >= 2
    &&& s[1] == ':'
    &&& (('a' <= s[0] && s[0] <= 'z') || ('A' <= s[0] && s[0] <= 'Z'))
}

/// Whether a drive prefix has meaning where `sep` is the main separator.
pub open spec fn drive_prefixed(s: Seq<char>, sep: char) -> bool {
    sep == '\\' && has_drive(s)
}

/// `base` joined with `comp`, as `Path::join` treats them where `sep` is
/// the main separator: a component that starts with a separator replaces the
/// path (keeping a drive of `base` on Windows, unless it is a `\\server`
/// path), as does one with a drive; otherwise the component is appended,
/// with `sep` between them unless `base` is empty, ends with a separator or
/// is a bare drive.
pub open spec fn join_path(base: Seq<char>, comp: Seq<char>, sep: char) -> Seq<char> {
    if comp.len() > 0 && separates(comp[0], sep) {
        if drive_prefixed(base, sep) && !(comp.len() > 1 && separates(comp[1], sep)) {
            base.take(2) + comp
        } else {
            comp
        }
    } else if drive_prefixed(comp, sep) {
        comp
    } else if base.len() == 0 || separates(base.last(), sep) || (drive_prefixed(base, sep)
        && base.len() == 2) {
        base + comp
    } else {
        base + seq![sep] + comp
    }
}

/// Calls `std::path::MAIN_SEPARATOR`, which its documentation gives as `/`
/// on Unix and `\` on Windows; which of the two is left to the platform.
#[verifier::external_body]
pub fn path_separator() -> (c: char)
    ensures
        is_path_separator(c),
{
    std::path::MAIN_SEPARATOR
}

fn is_letter(c: char) -> (r: bool)
    ensures
        r == (('a' <= c && c <= 'z') || ('A' <= c && c <= 'Z')),
{
    ('a' <= c && c <= 'z') || ('A' <= c && c <= 'Z')
}

fn drive_prefixed_chars(s: &Vec<char>, sep: char) -> (r: bool)
    ensures
        r == drive_prefixed(s@, sep),
{
    sep == '\\' && s.len() >= 2 && s[1] == ':' && is_letter(s[0])
}

/// `base` joined with `comp`, as `Path::join` does where `sep` is the main
/// separator.
pub fn join(base: &str, comp: &str, sep: char) -> (r: String)
    ensures
        r@ == join_path(base@, comp@, sep),
{
    let b = chars_of(base);
    let c = chars_of(comp);
    let mut out: Vec<char> = Vec::new();
    if c.len() > 0 && (c[0] == '/' || (sep == '\\' && c[0] == '\\')) {
        if drive_prefixed_chars(&b, sep) && !(c.len() > 1 && (c[1] == '/' || (sep == '\\' && c[1]
            == '\\'))) {
            out.push(b[0]);
            out.push(b[1]);
            assert(out@ =~= b@.take(2));
        }
    } else if drive_prefixed_chars(&c, sep) {
    } else {
        let n = b.len();
        for i in 0..n
            invariant
                n == b@.len(),
                out@ == b@.take(i as int),
        {
            out.push(b[i]);
            assert(b@.take(i + 1) == b@.take(i as int).push(b@[i as int]));
        }
        assert(b@.take(n as int) == b@);
        let bare = n == 0 || b[n - 1] == '/' || (sep == '\\' && b[n - 1] == '\\') || (
        drive_prefixed_chars(&b, sep) && n == 2);
        if !bare {
            out.push(sep);
        }
    }
    let ghost head = out@;
    let m = c.len();
    for i in 0..m
        invariant
            m == c@.len(),
            out@ == head + c@.take(i as int),
    {
        out.push(c[i]);
        assert(c@.take(i + 1) == c@.take(i as int).push(c@[i as int]));
    }
    assert(c@.take(m as int) == c@);
    string_from_chars(&out)
}

/// The Forge version: the second `-`-separated field of `FORGE_VERSION`,
/// or `FALLBACK_FORGE_SUFFIX` where it has none.
pub open spec fn forge_suffix_spec() -> Seq<char> {
    let f = split_on(FORGE_VERSION@, '-');
    if f.len() > 1 {
        f[1]
    } else {
        FALLBACK_FORGE_SUFFIX@
    }
}

/// The Forge version, as `FORGE_VERSION.split('-').nth(1).unwrap_or("47.2.0")`.
pub fn forge_suffix() -> (r: String)
    ensures
        r@ == forge_suffix_spec(),
{
    match nth_field(FORGE_VERSION, '-', 1) {
        Some(f) => f,
        None => FALLBACK_FORGE_SUFFIX.to_string(),
    }
}

/// The name of the Forge version directory: `<vanilla>-forge-<forge>`.
pub open spec fn forge_name_spec() -> Seq<char> {
    VANILLA_VERSION@ + "-forge-"@ + forge_suffix_spec()
}

/// The name of the Forge version directory.
pub fn forge_name() -> (r: String)
    ensures
        r@ == forge_name_spec(),
{
    let mut r = VANILLA_VERSION.to_string();
    r.append("-forge-");
    let s = forge_suffix();
    r.append(s.as_str());
    r
}

/// The root of the install tree.
pub fn base_dir() -> (r: String)
    ensures
        r@ == BASE_DIR@,
{
    BASE_DIR.to_string()
}

/// `<base>/java`.
pub open spec fn java_dir_path(sep: char) -> Seq<char> {
    join_path(BASE_DIR@, "java"@, sep)
}

/// `<base>/version`.
pub open spec fn version_dir_path(sep: char) -> Seq<char> {
    join_path(BASE_DIR@, "version"@, sep)
}

/// `<base>/java/bin/java.exe`.
pub open spec fn java_exe_path(sep: char) -> Seq<char> {
    join_path(join_path(java_dir_path(sep), "bin"@, sep), "java.exe"@, sep)
}

/// `<base>/version/versions/<forge name>`: the directory the game runs in.
pub open spec fn mc_versions_dir_path(sep: char) -> Seq<char> {
    join_path(join_path(version_dir_path(sep), "versions"@, sep), forge_name_spec(), sep)
}

/// `<base>/version/versions/<forge name>/<forge name>.json`.
pub open spec fn forge_json_path_spec(sep: char) -> Seq<char> {
    join_path(mc_versions_dir_path(sep), forge_name_spec() + ".json"@, sep)
}

/// `<base>/version/versions/<forge name>/<vanilla>-<forge>.jar`.
pub open spec fn client_jar_path_spec(sep: char) -> Seq<char> {
    join_path(
        mc_versions_dir_path(sep),
        VANILLA_VERSION@ + "-"@ + forge_suffix_spec() + ".jar"@,
        sep,
    )
}

/// `<base>/version/libraries`.
pub open spec fn libs_dir_path(sep: char) -> Seq<char> {
    join_path(version_dir_path(sep), "libraries"@, sep)
}

/// `<base>/version/assets`.
pub open spec fn assets_dir_path(sep: char) -> Seq<char> {
    join_path(version_dir_path(sep), "assets"@, sep)
}

/// `<base>/version/versions/<vanilla>/<vanilla>.json`.
pub open spec fn vanilla_json_path_spec(sep: char) -> Seq<char> {
    join_path(
        join_path(join_path(version_dir_path(sep), "versions"@, sep), VANILLA_VERSION@, sep),
        VANILLA_VERSION@ + ".json"@,
        sep,
    )
}

/// The Java directory where `sep` is the main separator.
pub fn java_dir_at(sep: char) -> (r: String)
    ensures
        r@ == java_dir_path(sep),
{
    join(BASE_DIR, "java", sep)
}

/// The game directory where `sep` is the main separator.
pub fn version_dir_at(sep: char) -> (r: String)
    ensures
        r@ == version_dir_path(sep),
{
    join(BASE_DIR, "version", sep)
}

/// The Java executable where `sep` is the main separator.
pub fn java_exe_at(sep: char) -> (r: String)
    ensures
        r@ == java_exe_path(sep),
{
    let d = java_dir_at(sep);
    let b = join(d.as_str(), "bin", sep);
    join(b.as_str(), "java.exe", sep)
}

/// The directory the game runs in where `sep` is the main separator.
pub fn mc_versions_dir_at(sep: char) -> (r: String)
    ensures
        r@ == mc_versions_dir_path(sep),
{
    let v = version_dir_at(sep);
    let vs = join(v.as_str(), "versions", sep);
    let name = forge_name();
    join(vs.as_str(), name.as_str(), sep)
}

/// The Forge version manifest where `sep` is the main separator.
pub fn forge_json_path_at(sep: char) -> (r: String)
    ensures
        r@ == forge_json_path_spec(sep),
{
    let d = mc_versions_dir_at(sep);
    let mut file = forge_name();
    file.append(".json");
    join(d.as_str(), file.as_str(), sep)
}

/// The client jar where `sep` is the main separator.
pub fn client_jar_path_at(sep: char) -> (r: String)
    ensures
        r@ == client_jar_path_spec(sep),
{
    let d = mc_versions_dir_at(sep);
    let mut file = VANILLA_VERSION.to_string();
    file.append("-");
    let s = forge_suffix();
    file.append(s.as_str());
    file.append(".jar");
    join(d.as_str(), file.as_str(), sep)
}

/// The library directory where `sep` is the main separator.
pub fn libs_dir_at(sep: char) -> (r: String)
    ensures
        r@ == libs_dir_path(sep),
{
    let v = version_dir_at(sep);
    join(v.as_str(), "libraries", sep)
}

/// The asset directory where `sep` is the main separator.
pub fn assets_dir_at(sep: char) -> (r: String)
    ensures
        r@ == assets_dir_path(sep),
{
    let v = version_dir_at(sep);
    join(v.as_str(), "assets", sep)
}

/// The vanilla version manifest where `sep` is the main separator.
pub fn vanilla_json_path_at(sep: char) -> (r: String)
    ensures
        r@ == vanilla_json_path_spec(sep),
{
    let v = version_dir_at(sep);
    let vs = join(v.as_str(), "versions", sep);
    let vd = join(vs.as_str(), VANILLA_VERSION, sep);
    let mut file = VANILLA_VERSION.to_string();
    file.append(".json");
    join(vd.as_str(), file.as_str(), sep)
}

/// `<base>/<name>.revision`: where the revision of the published file
/// `name` last fetched is recorded.
pub open spec fn revision_marker_path(sep: char, name: Seq<char>) -> Seq<char> {
    join_path(BASE_DIR@, name + ".revision"@, sep)
}

/// The record of the revision of the published file `name` last fetched,
/// where `sep` is the main separator.
pub fn revision_marker_at(sep: char, name: &str) -> (r: String)
    ensures
        r@ == revision_marker_path(sep, name@),
{
    let mut file = name.to_string();
    file.append(".revision");
    join(BASE_DIR, file.as_str(), sep)
}

/// The Java directory on this platform.
pub fn java_dir() -> (r: String)
    ensures
        exists|c: char| is_path_separator(c) && r@ == java_dir_path(c),
{
    java_dir_at(path_separator())
}

/// The game directory on this platform.
pub fn version_dir() -> (r: String)
    ensures
        exists|c: char| is_path_separator(c) && r@ == version_dir_path(c),
{
    version_dir_at(path_separator())
}

/// The Java executable on this platform.
pub fn java_exe() -> (r: String)
    ensures
        exists|c: char| is_path_separator(c) && r@ == java_exe_path(c),
{
    java_exe_at(path_separator())
}

/// The Forge version manifest on this platform.
pub fn forge_json_path() -> (r: String)
    ensures
        exists|c: char| is_path_separator(c) && r@ == forge_json_path_spec(c),
{
    forge_json_path_at(path_separator())
}

/// The client jar on this platform.
pub fn client_jar_path() -> (r: String)
    ensures
        exists|c: char| is_path_separator(c) && r@ == client_jar_path_spec(c),
{
    client_jar_path_at(path_separator())
}

/// The library directory on this platform.
pub fn libs_dir() -> (r: String)
    ensures
        exists|c: char| is_path_separator(c) && r@ == libs_dir_path(c),
{
    libs_dir_at(path_separator())
}

/// A directory name after which a join appends with a separator: longer
/// than a bare drive and not ending with a separator.
pub open spec fn open_dir(b: Seq<char>) -> bool {
    b.len() > 2 && !is_path_separator(b.last())
}

/// A relative component without a drive that does not end with a separator.
pub open spec fn plain_component(c: Seq<char>) -> bool {
    &&& c.len() > 0
    &&& !is_path_separator(c[0])
    &&& !is_path_separator(c.last())
    &&& !(c.len() >= 2 && c[1] == ':')
}

/// Joining a plain component to an open directory puts the separator
/// between them, and gives an open directory again.
pub proof fn lemma_join_plain(b: Seq<char>, c: Seq<char>, sep: char)
    requires
        is_path_separator(sep),
        open_dir(b),
        plain_component(c),
    ensures
        join_path(b, c, sep) == b + seq![sep] + c,
        open_dir(join_path(b, c, sep)),
        is_prefix(b + seq![sep], join_path(b, c, sep)),
{
    let r = b + seq![sep] + c;
    assert(r.last() == c.last());
    assert(r.take((b.len() + 1) as int) =~= b + seq![sep]);
}

/// A prefix of a path is a prefix of every path joined onto it.
pub proof fn lemma_prefix_trans(a: Seq<char>, b: Seq<char>, c: Seq<char>)
    requires
        is_prefix(a, b),
        is_prefix(b, c),
    ensures
        is_prefix(a, c),
{
    assert(c.take(a.len() as int) =~= b.take(a.len() as int));
}

/// `FORGE_VERSION` holds no path separator.
proof fn lemma_forge_version_plain()
    ensures
        forall|i: int| 0 <= i < FORGE_VERSION@.len() ==> !is_path_separator(#[trigger] FORGE_VERSION@[i]),
{
    reveal_strlit("1.20.1-47.2.0");
}

/// The Forge version holds no path separator.
proof fn lemma_forge_suffix_plain()
    ensures
        forall|i: int| 0 <= i < forge_suffix_spec().len() ==> !is_path_separator(#[trigger] forge_suffix_spec()[i]),
{
    lemma_forge_version_plain();
    reveal_strlit("47.2.0");
    let f = split_on(FORGE_VERSION@, '-');
    if f.len() > 1 {
        assert forall|i: int| 0 <= i < forge_suffix_spec().len() implies !is_path_separator(#[trigger] forge_suffix_spec()[i]) by {
            lemma_split_on_chars(FORGE_VERSION@, '-', 1, i);
            let j = choose|j: int| 0 <= j < FORGE_VERSION@.len() && FORGE_VERSION@[j] == f[1][i];
            assert(!is_path_separator(FORGE_VERSION@[j]));
        }
    }
}

/// The names of the launcher's directories and files are plain components.
proof fn lemma_components_plain()
    ensures
        plain_component("java"@),
        plain_component("bin"@),
        plain_component("java.exe"@),
        plain_component("version"@),
        plain_component("versions"@),
        plain_component("libraries"@),
        plain_component("assets"@),
        plain_component(VANILLA_VERSION@),
        plain_component(VANILLA_VERSION@ + ".json"@),
        plain_component(forge_name_spec()),
        plain_component(forge_name_spec() + ".json"@),
        plain_component(VANILLA_VERSION@ + "-"@ + forge_suffix_spec() + ".jar"@),
        open_dir(BASE_DIR@),
{
    reveal_strlit("java");
    reveal_strlit("bin");
    reveal_strlit("java.exe");
    reveal_strlit("version");
    reveal_strlit("versions");
    reveal_strlit("libraries");
    reveal_strlit("assets");
    reveal_strlit("1.20.1");
    reveal_strlit(".json");
    reveal_strlit("-forge-");
    reveal_strlit("-");
    reveal_strlit(".jar");
    reveal_strlit("C:\\edlauncher");
    lemma_forge_suffix_plain();
    let sfx = forge_suffix_spec();
    let name = forge_name_spec();
    assert(name[0] == '1');
    assert(name[1] == '.');
    if sfx.len() > 0 {
        assert(name.last() == sfx.last());
        assert(!is_path_separator(sfx[sfx.len() - 1]));
    } else {
        assert(name.last() == '-');
    }
    let jar = VANILLA_VERSION@ + "-"@ + sfx + ".jar"@;
    assert(jar[0] == '1' && jar[1] == '.' && jar.last() == 'r');
    let fj = name + ".json"@;
    assert(fj[0] == '1' && fj[1] == '.' && fj.last() == 'n');
    let vj = VANILLA_VERSION@ + ".json"@;
    assert(vj[0] == '1' && vj[1] == '.' && vj.last() == 'n');
}

/// Whether a path lies inside the install directory.
pub open spec fn inside_install_dir(p: Seq<char>, sep: char) -> bool {
    is_prefix(BASE_DIR@ + seq![sep], p)
}

/// Law: every directory and file of the install tree that the launcher
/// names lies inside the install directory `C:\edlauncher`.
pub proof fn lemma_install_tree_inside(sep: char)
    requires
        is_path_separator(sep),
    ensures
        inside_install_dir(java_dir_path(sep), sep),
        inside_install_dir(java_exe_path(sep), sep),
        inside_install_dir(version_dir_path(sep), sep),
        inside_install_dir(mc_versions_dir_path(sep), sep),
        inside_install_dir(forge_json_path_spec(sep), sep),
        inside_install_dir(client_jar_path_spec(sep), sep),
        inside_install_dir(libs_dir_path(sep), sep),
        inside_install_dir(assets_dir_path(sep), sep),
        inside_install_dir(vanilla_json_path_spec(sep), sep),
{
    lemma_components_plain();
    let base = BASE_DIR@;
    let top = base + seq![sep];
    lemma_join_plain(base, "java"@, sep);
    lemma_join_plain(base, "version"@, sep);
    let jd = java_dir_path(sep);
    let vd = version_dir_path(sep);
    assert(is_prefix(top, jd)) by {
        assert(jd.take(top.len() as int) =~= top);
    }
    lemma_inside_child(top, jd, "bin"@, sep);
    let bin = join_path(jd, "bin"@, sep);
    lemma_inside_child(top, bin, "java.exe"@, sep);
    assert(is_prefix(top, vd)) by {
        assert(vd.take(top.len() as int) =~= top);
    }
    lemma_inside_child(top, vd, "versions"@, sep);
    let vs = join_path(vd, "versions"@, sep);
    lemma_inside_child(top, vs, forge_name_spec(), sep);
    let mc = mc_versions_dir_path(sep);
    lemma_inside_child(top, mc, forge_name_spec() + ".json"@, sep);
    lemma_inside_child(top, mc, VANILLA_VERSION@ + "-"@ + forge_suffix_spec() + ".jar"@, sep);
    lemma_inside_child(top, vd, "libraries"@, sep);
    lemma_inside_child(top, vd, "assets"@, sep);
    lemma_inside_child(top, vs, VANILLA_VERSION@, sep);
    let vv = join_path(vs, VANILLA_VERSION@, sep);
    lemma_inside_child(top, vv, VANILLA_VERSION@ + ".json"@, sep);
}

/// A plain component joined to an open directory under `top` stays under
/// `top`, and is an open directory again.
proof fn lemma_inside_child(top: Seq<char>, d: Seq<char>, c: Seq<char>, sep: char)
    requires
        is_path_separator(sep),
        open_dir(d),
        plain_component(c),
        is_prefix(top, d),
    ensures
        is_prefix(top, join_path(d, c, sep)),
        open_dir(join_path(d, c, sep)),
{
    lemma_join_plain(d, c, sep);
    assert((d + seq![sep]).take(d.len() as int) =~= d);
    lemma_prefix_trans(top, d, d + seq![sep]);
    lemma_prefix_trans(top, d + seq![sep], join_path(d, c, sep));
}

} // verus!
