//! The inventory of game files that the launcher reports to the server.
use vstd::prelude::*;
use crate::paths::HOST_URL;

verus! {

/// A game file: its path relative to the game directory, and its size in bytes.
#[derive(Clone, Debug)]
pub struct FileInfo {
    pub path: String,
    pub size: u64,
}

/// The total size of the files.
pub open spec fn total_size(files: Seq<FileInfo>) -> nat
    decreases files.len(),
{
    if files.len() == 0 {
        0
    } else {
        total_size(files.drop_last()) + files.last().size as nat
    }
}

/// The total size and the number of the files, as reported to the server.
pub fn inventory_totals(files: &Vec<FileInfo>) -> (r: (u64, usize))
    requires
        total_size(files@) <= u64::MAX,
    ensures
        r.0 == total_size(files@),
        r.1 == files@.len(),
{
    let mut sum: u64 = 0;
    let n = files.len();
    assert(files@.take(0) =~= Seq::<FileInfo>::empty());
    for i in 0..n
        invariant
            n == files@.len(),
            total_size(files@) <= u64::MAX,
            sum == total_size(files@.take(i as int)),
    {
        assert(files@.take(i + 1).drop_last() == files@.take(i as int));
        proof {
            lemma_total_size_prefix(files@, i + 1);
        }
        sum = sum + files[i].size;
    }
    assert(files@.take(n as int) == files@);
    (sum, n)
}

/// The total size of a prefix is no more than that of the whole.
pub proof fn lemma_total_size_prefix(files: Seq<FileInfo>, k: int)
    requires
        0 <= k <= files.len(),
    ensures
        total_size(files.take(k)) <= total_size(files),
    decreases files.len() - k,
{
    if k < files.len() {
        lemma_total_size_prefix(files, k + 1);
        assert(files.take(k + 1).drop_last() == files.take(k));
    } else {
        assert(files.take(k) == files);
    }
}

/// Where the inventory is sent.
pub fn inventory_url() -> (r: String)
    ensures
        r@ == HOST_URL@ + "/api/inventory"@,
{
    let mut r = HOST_URL.to_string();
    r.append("/api/inventory");
    r
}

} // verus!
