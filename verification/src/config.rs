//! Per-user locations of the launcher's configuration and game data.
use vstd::prelude::*;
use crate::paths::{is_path_separator, join, join_path, path_separator};

verus! {

/// The directory under the user's data directory that holds the launcher's files.
pub const APP_DIR_NAME: &'static str = "GrandEden";
/// The launcher's configuration file.
pub const CONFIG_FILE_NAME: &'static str = "launcher_config.json";
/// The game directory under the launcher's directory.
pub const GAME_DIR_NAME: &'static str = "minecraft";

/// Calls `dirs::data_dir`: the user's data directory, which the platform
/// decides (`$XDG_DATA_HOME` or `~/.local/share` on Linux, the roaming
/// application data folder on Windows), as text: parts of a name that are not
/// valid Unicode become U+FFFD, as `to_string_lossy` makes them. Whether there
/// is one, and which it is, is left unsaid: it depends on the environment.
#[verifier::external_body]
fn user_data_dir() -> (r: Option<String>) {
    match dirs::data_dir() {
        Some(p) => Some(p.to_string_lossy().into_owned()),
        None => None,
    }
}

/// `<data dir>/GrandEden/<leaf>`, with `.` standing for a missing data directory.
pub open spec fn app_path(data_dir: Option<Seq<char>>, leaf: Seq<char>, sep: char) -> Seq<char> {
    let root = match data_dir {
        Some(d) => d,
        None => "."@,
    };
    join_path(join_path(root, APP_DIR_NAME@, sep), leaf, sep)
}

/// The view of an optional string.
pub open spec fn opt_view(o: Option<String>) -> Option<Seq<char>> {
    match o {
        Some(s) => Some(s@),
        None => None,
    }
}

/// `<data dir>/GrandEden/<leaf>` where `sep` is the main separator.
pub fn app_path_in(data_dir: Option<String>, leaf: &str, sep: char) -> (r: String)
    ensures
        r@ == app_path(opt_view(data_dir), leaf@, sep),
{
    let root = match data_dir {
        Some(d) => d,
        None => ".".to_string(),
    };
    let dir = join(root.as_str(), APP_DIR_NAME, sep);
    join(dir.as_str(), leaf, sep)
}

/// Where the launcher's configuration is kept: `launcher_config.json`
/// under the user's data directory (or `.` where there is none).
pub fn get_config_path() -> (r: String)
    ensures
        exists|d: Option<Seq<char>>, c: char|
            is_path_separator(c) && r@ == app_path(d, CONFIG_FILE_NAME@, c),
{
    let d = user_data_dir();
    let ghost dv = opt_view(d);
    let c = path_separator();
    let r = app_path_in(d, CONFIG_FILE_NAME, c);
    assert(is_path_separator(c) && r@ == app_path(dv, CONFIG_FILE_NAME@, c));
    r
}

/// Where the game data is kept: `minecraft` under the user's data
/// directory (or `.` where there is none).
pub fn get_game_dir() -> (r: String)
    ensures
        exists|d: Option<Seq<char>>, c: char|
            is_path_separator(c) && r@ == app_path(d, GAME_DIR_NAME@, c),
{
    let d = user_data_dir();
    let ghost dv = opt_view(d);
    let c = path_separator();
    let r = app_path_in(d, GAME_DIR_NAME, c);
    assert(is_path_separator(c) && r@ == app_path(dv, GAME_DIR_NAME@, c));
    r
}

} // verus!
