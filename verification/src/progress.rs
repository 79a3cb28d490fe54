//! What the launcher reports while it fetches and unpacks archives: the
//! expected sizes, when a report is due, and the texts shown.
use vstd::prelude::*;
use crate::json::{json_get, opt_str, str_eq, Json};
use crate::{GITHUB_BRANCH, GITHUB_REPO_NAME, GITHUB_REPO_OWNER};
use crate::text::{decimal, decimal_string};

verus! {

/// Bytes fetched between two progress reports.
pub const REPORT_INTERVAL_BYTES: u64 = 524288;
/// Entries unpacked between two progress reports.
pub const REPORT_INTERVAL_ENTRIES: usize = 100;

/// The size shown for an archive whose size the server does not give, in
/// megabytes: 42 for the Java archive, 1900 for the game archive, 0 otherwise.
pub open spec fn known_size_spec(label: Seq<char>) -> u32 {
    if label == "java.zip"@ {
        42
    } else if label == "version.zip"@ {
        1900
    } else {
        0
    }
}

/// The size shown for an archive whose size the server does not give, in megabytes.
pub fn known_archive_size_mb(label: &str) -> (r: u32)
    ensures
        r == known_size_spec(label@),
{
    if str_eq(label, "java.zip") {
        42
    } else if str_eq(label, "version.zip") {
        1900
    } else {
        0
    }
}

/// Whether a progress report is due after a chunk of `chunk_len` bytes
/// brought the fetched total to `downloaded`: only where the server gave a
/// size, and when the chunk crossed a multiple of 512 KiB (that is, the
/// total is less than `chunk_len` past one).
pub fn should_report_download(downloaded: u64, chunk_len: usize, total_size: u64) -> (r: bool)
    ensures
        r == (total_size > 0 && (downloaded % REPORT_INTERVAL_BYTES) < chunk_len),
{
    total_size > 0 && ((downloaded % REPORT_INTERVAL_BYTES) as u128) < (chunk_len as u128)
}

/// Whether a progress report is due after unpacking entry `i` of `total`:
/// every hundredth entry, starting with the first, and the last one.
pub fn should_report_extraction(i: usize, total: usize) -> (r: bool)
    requires
        i < total,
    ensures
        r == (i % REPORT_INTERVAL_ENTRIES == 0 || i == total - 1),
{
    i % REPORT_INTERVAL_ENTRIES == 0 || i == total - 1
}

/// The URL under which the repository publishes the file `name` of its
/// branch: `https://github.com/<owner>/<repo>/raw/<branch>/<name>`.
pub open spec fn published_url(name: Seq<char>) -> Seq<char> {
    "https://github.com/"@ + GITHUB_REPO_OWNER@ + "/"@ + GITHUB_REPO_NAME@ + "/raw/"@ + GITHUB_BRANCH@
        + "/"@ + name
}

/// The URL from which an archive is fetched: its file in the published
/// GitHub repository.
pub fn archive_url(name: &str) -> (r: String)
    ensures
        r@ == published_url(name@),
{
    let mut r = "https://github.com/".to_string();
    r.append(GITHUB_REPO_OWNER);
    r.append("/");
    r.append(GITHUB_REPO_NAME);
    r.append("/raw/");
    r.append(GITHUB_BRANCH);
    r.append("/");
    r.append(name);
    r
}

/// The URL of the GitHub query for the latest commit of the branch that
/// changed the file `name`.
pub open spec fn revision_query_url(name: Seq<char>) -> Seq<char> {
    "https://api.github.com/repos/"@ + GITHUB_REPO_OWNER@ + "/"@ + GITHUB_REPO_NAME@
        + "/commits?sha="@ + GITHUB_BRANCH@ + "&path="@ + name + "&per_page=1"@
}

/// The URL that asks GitHub which commit last changed the published file `name`.
pub fn revision_url(name: &str) -> (r: String)
    ensures
        r@ == revision_query_url(name@),
{
    let mut r = "https://api.github.com/repos/".to_string();
    r.append(GITHUB_REPO_OWNER);
    r.append("/");
    r.append(GITHUB_REPO_NAME);
    r.append("/commits?sha=");
    r.append(GITHUB_BRANCH);
    r.append("&path=");
    r.append(name);
    r.append("&per_page=1");
    r
}

/// The published revision in GitHub's answer to the commit query: the
/// `sha` of the first commit listed, where it is text.
pub open spec fn latest_revision_spec(answer: Json) -> Option<Seq<char>> {
    match answer {
        Json::Array(a) => if a@.len() > 0 {
            opt_str(json_get(a@[0], "sha"@))
        } else {
            None
        },
        _ => None,
    }
}

/// The published revision in GitHub's answer to the commit query.
pub fn latest_revision(answer: &Json) -> (r: Option<String>)
    ensures
        match r {
            Some(v) => latest_revision_spec(*answer) == Some(v@),
            None => latest_revision_spec(*answer) is None,
        },
{
    match answer {
        Json::Array(a) => {
            if a.len() > 0 {
                match a[0].get("sha") {
                    Some(v) => match v.as_str() {
                        Some(t) => Some(t.to_string()),
                        None => None,
                    },
                    None => None,
                }
            } else {
                None
            }
        },
        _ => None,
    }
}

/// Whether the installed copy of a published file is current: where the
/// published revision could not be learnt (the launcher is offline), the
/// installed copy stands; otherwise it must have been fetched at that
/// revision, and a copy of unknown revision is not current.
pub open spec fn is_current(installed: Option<Seq<char>>, published: Option<Seq<char>>) -> bool {
    match published {
        None => true,
        Some(p) => installed == Some(p),
    }
}

/// Whether the installed copy of a published file is current.
pub fn revision_current(installed: Option<&str>, published: Option<&str>) -> (r: bool)
    ensures
        r == is_current(
            match installed {
                Some(i) => Some(i@),
                None => None,
            },
            match published {
                Some(p) => Some(p@),
                None => None,
            },
        ),
{
    match published {
        None => true,
        Some(p) => match installed {
            Some(i) => str_eq(i, p),
            None => false,
        },
    }
}

/// The text shown while an archive is fetched.
pub fn downloading_message(label: &str) -> (r: String)
    ensures
        r@ == "Downloading "@ + label@ + "..."@,
{
    let mut r = "Downloading ".to_string();
    r.append(label);
    r.append("...");
    r
}

/// The error of a failed fetch of an archive, with what went wrong.
pub fn download_failure(label: &str, detail: &str) -> (r: String)
    ensures
        r@ == "Failed to download "@ + label@ + ": "@ + detail@,
{
    let mut r = "Failed to download ".to_string();
    r.append(label);
    r.append(": ");
    r.append(detail);
    r
}

/// The text shown when unpacking of an archive begins.
pub fn extracting_message(name: &str) -> (r: String)
    ensures
        r@ == "Extracting "@ + name@ + "..."@,
{
    let mut r = "Extracting ".to_string();
    r.append(name);
    r.append("...");
    r
}

/// The text shown after unpacking entry `i` (counted from 0) of `total`:
/// the number of entries done out of all.
pub fn extraction_progress_message(name: &str, i: usize, total: usize) -> (r: String)
    requires
        i < total,
    ensures
        r@ == "Extracting "@ + name@ + "... ("@ + decimal(i as nat + 1) + "/"@ + decimal(
            total as nat,
        ) + ")"@,
{
    let mut r = "Extracting ".to_string();
    r.append(name);
    r.append("... (");
    let done = decimal_string(i as u64 + 1);
    r.append(done.as_str());
    r.append("/");
    let all = decimal_string(total as u64);
    r.append(all.as_str());
    r.append(")");
    r
}

/// The text shown when the game files are ready.
pub const READY_MESSAGE: &'static str = "Ready to launch";

} // verus!
