//! Starting the game: what must exist first, the record of the command line,
//! and the report of a game that stops at once.
use vstd::prelude::*;
use crate::text::{joined, last_lines_reversed, log_tail, views, join_strings, LOG_TAIL_LINES};

verus! {

/// The error when Java has not been fetched yet.
pub const JAVA_NOT_READY: &'static str = "Java not found. Download game files first.";
/// The error when the Forge files have not been fetched yet.
pub const FORGE_NOT_READY: &'static str = "Forge files not found. Download game files first.";

/// Whether the game can start: Java must exist, then the Forge manifest;
/// otherwise the error says which is missing first.
pub fn launch_precheck(java_exists: bool, forge_json_exists: bool) -> (r: Result<(), String>)
    ensures
        match r {
            Ok(()) => java_exists && forge_json_exists,
            Err(e) => if !java_exists {
                e@ == JAVA_NOT_READY@
            } else {
                !forge_json_exists && e@ == FORGE_NOT_READY@
            },
        },
{
    if !java_exists {
        return Err(JAVA_NOT_READY.to_string());
    }
    if !forge_json_exists {
        return Err(FORGE_NOT_READY.to_string());
    }
    Ok(())
}

/// The record of a command line that the launcher writes next to the game:
/// the arguments joined with spaces, and a line ending.
pub fn debug_args_text(args: &Vec<String>) -> (r: String)
    ensures
        r@ == joined(views(args@), " "@) + "\n"@,
{
    let mut r = join_strings(args, " ");
    r.append("\n");
    r
}

/// The error of a game that exited at once: its exit status and the last
/// lines of its log, the last one first.
pub fn early_exit_report(status: &str, log: &str) -> (r: String)
    ensures
        r@ == "Game exited immediately with status: "@ + status@ + ". Last log lines:\n"@
            + joined(last_lines_reversed(log@, LOG_TAIL_LINES as nat), "\n"@),
{
    let mut r = "Game exited immediately with status: ".to_string();
    r.append(status);
    r.append(". Last log lines:\n");
    let tail = log_tail(log);
    r.append(tail.as_str());
    r
}

} // verus!
