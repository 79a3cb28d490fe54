//! The class path of the game: the client jar and the libraries that the
//! version manifests list for Windows, each at most once.
use vstd::prelude::*;
use crate::json::{get_in, json_get, opt_array, opt_get, opt_str, str_eq, str_in, Json};
use crate::paths::{join, join_path};
use crate::rules::{is_lib_allowed, library_allowed};
use crate::text::views;

verus! {

/// The entries of a manifest's `libraries` array; none where it has no such array.
pub open spec fn manifest_libraries(manifest: Json) -> Seq<Json> {
    match opt_array(json_get(manifest, "libraries"@)) {
        Some(a) => a,
        None => Seq::empty(),
    }
}

/// The path of a library's artifact: `downloads.artifact.path`, where it is text.
pub open spec fn artifact_path(lib: Json) -> Option<Seq<char>> {
    opt_str(opt_get(opt_get(json_get(lib, "downloads"@), "artifact"@), "path"@))
}

/// The files of the libraries that a Windows client loads, in manifest
/// order: each allowed library with an artifact path, joined to `libs_dir`.
pub open spec fn library_files(libs: Seq<Json>, libs_dir: Seq<char>, sep: char) -> Seq<Seq<char>>
    decreases libs.len(),
{
    if libs.len() == 0 {
        Seq::empty()
    } else {
        let rest = library_files(libs.drop_last(), libs_dir, sep);
        let lib = libs.last();
        match artifact_path(lib) {
            Some(p) => if library_allowed(lib) {
                rest.push(join_path(libs_dir, p, sep))
            } else {
                rest
            },
            None => rest,
        }
    }
}

/// The candidate class path entries: the library files of the Forge
/// manifest, then those of the vanilla manifest where there is one.
pub open spec fn candidate_files(
    forge: Json,
    vanilla: Option<Json>,
    libs_dir: Seq<char>,
    sep: char,
) -> Seq<Seq<char>> {
    library_files(manifest_libraries(forge), libs_dir, sep) + match vanilla {
        Some(v) => library_files(manifest_libraries(v), libs_dir, sep),
        None => Seq::empty(),
    }
}

/// The artifact path of a library entry.
fn artifact_of(lib: &Json) -> (r: Option<&str>)
    ensures
        match r {
            Some(p) => artifact_path(*lib) == Some(p@),
            None => artifact_path(*lib) is None,
        },
{
    let downloads = lib.get("downloads");
    let artifact = get_in(downloads, "artifact");
    str_in(get_in(artifact, "path"))
}

/// Appends the files of the allowed libraries of `manifest` to `out`.
fn push_library_files(out: &mut Vec<String>, manifest: &Json, libs_dir: &str, sep: char)
    ensures
        views(final(out)@) == views(old(out)@) + library_files(
            manifest_libraries(*manifest),
            libs_dir@,
            sep,
        ),
{
    let empty: Vec<Json> = Vec::new();
    let libs = match manifest.get("libraries") {
        Some(v) => match v.as_array() {
            Some(a) => a,
            None => &empty,
        },
        None => &empty,
    };
    assert(libs@ == manifest_libraries(*manifest));
    let ghost start = views(out@);
    let n = libs.len();
    assert(libs@.take(0) =~= Seq::<Json>::empty());
    for i in 0..n
        invariant
            n == libs@.len(),
            views(out@) == start + library_files(libs@.take(i as int), libs_dir@, sep),
    {
        let lib = &libs[i];
        assert(libs@.take(i + 1).drop_last() == libs@.take(i as int));
        assert(libs@.take(i + 1).last() == libs@[i as int]);
        match artifact_of(lib) {
            Some(p) => {
                if is_lib_allowed(lib) {
                    let f = join(libs_dir, p, sep);
                    let ghost before = out@;
                    let ghost fv = f@;
                    out.push(f);
                    assert(views(out@) =~= views(before).push(fv));
                }
            },
            None => {},
        }
    }
    assert(libs@.take(n as int) == libs@);
}

/// The candidate class path entries: the files of the libraries that the
/// Forge manifest, then the vanilla one, lists for Windows.
pub fn classpath_candidates(forge: &Json, vanilla: Option<&Json>, libs_dir: &str, sep: char) -> (r: Vec<String>)
    ensures
        views(r@) == candidate_files(
            *forge,
            match vanilla {
                Some(v) => Some(*v),
                None => None,
            },
            libs_dir@,
            sep,
        ),
{
    let mut out: Vec<String> = Vec::new();
    push_library_files(&mut out, forge, libs_dir, sep);
    match vanilla {
        Some(v) => push_library_files(&mut out, v, libs_dir, sep),
        None => {},
    }
    out
}

/// The class path built from the client jar (`client`, where it exists) and
/// the candidates, of which `present[i]` says whether the `i`-th exists: the
/// client jar, then each candidate that exists and is neither the client jar
/// nor an earlier candidate, in order.
pub open spec fn classpath_of(
    client: Option<Seq<char>>,
    candidates: Seq<Seq<char>>,
    present: Seq<bool>,
) -> Seq<Seq<char>>
    decreases candidates.len(),
{
    if candidates.len() == 0 {
        match client {
            Some(c) => seq![c],
            None => Seq::empty(),
        }
    } else {
        let i = candidates.len() - 1;
        let prev = classpath_of(client, candidates.drop_last(), present.take(i));
        let p = candidates[i];
        if present[i] && !candidates.drop_last().contains(p) && client != Some(p) {
            prev.push(p)
        } else {
            prev
        }
    }
}

/// Whether `x` is among the first `k` entries of `v`.
fn occurs_before(v: &Vec<String>, k: usize, x: &str) -> (r: bool)
    requires
        k <= v@.len(),
    ensures
        r == views(v@).take(k as int).contains(x@),
{
    for j in 0..k
        invariant
            k <= v@.len(),
            forall|t: int| 0 <= t < j ==> v@[t]@ != x@,
    {
        if str_eq(v[j].as_str(), x) {
            assert(views(v@).take(k as int)[j as int] == x@);
            return true;
        }
    }
    assert forall|t: int| 0 <= t < k implies views(v@).take(k as int)[t] != x@ by {
        assert(views(v@)[t] == v@[t]@);
    }
    false
}

/// The class path: the client jar where it exists, then each candidate that
/// exists, once, in order.
pub fn assemble_classpath(
    client_jar: &str,
    client_exists: bool,
    candidates: &Vec<String>,
    present: &Vec<bool>,
) -> (r: Vec<String>)
    requires
        candidates@.len() == present@.len(),
    ensures
        views(r@) == classpath_of(
            if client_exists { Some(client_jar@) } else { None },
            views(candidates@),
            present@,
        ),
{
    let ghost client = if client_exists { Some(client_jar@) } else { None::<Seq<char>> };
    let ghost cands = views(candidates@);
    let mut out: Vec<String> = Vec::new();
    if client_exists {
        out.push(client_jar.to_string());
    }
    assert(cands.take(0) =~= Seq::<Seq<char>>::empty());
    assert(present@.take(0) =~= Seq::<bool>::empty());
    assert(views(out@) =~= classpath_of(client, cands.take(0), present@.take(0)));
    let n = candidates.len();
    for i in 0..n
        invariant
            n == candidates@.len(),
            n == present@.len(),
            cands == views(candidates@),
            client == (if client_exists { Some(client_jar@) } else { None::<Seq<char>> }),
            views(out@) == classpath_of(client, cands.take(i as int), present@.take(i as int)),
    {
        let p = &candidates[i];
        let ghost pre = cands.take(i + 1);
        assert(pre.drop_last() == cands.take(i as int));
        assert(present@.take(i + 1).take(i as int) == present@.take(i as int));
        assert(pre[i as int] == p@);
        let earlier = occurs_before(candidates, i, p.as_str());
        let is_client = client_exists && str_eq(p.as_str(), client_jar);
        if present[i] && !earlier && !is_client {
            let ghost before = out@;
            let c = p.clone();
            out.push(c);
            assert(views(out@) =~= views(before).push(p@));
        }
    }
    assert(cands.take(n as int) == cands);
    assert(present@.take(n as int) == present@);
    out
}

/// Whether no entry occurs twice.
pub open spec fn no_duplicates(s: Seq<Seq<char>>) -> bool {
    forall|i: int, j: int| 0 <= i < j < s.len() ==> s[i] != s[j]
}

/// Whether the file system answered the same for equal candidates.
pub open spec fn consistent_presence(candidates: Seq<Seq<char>>, present: Seq<bool>) -> bool {
    forall|i: int, j: int|
        0 <= i < candidates.len() && 0 <= j < candidates.len() && candidates[i] == candidates[j]
            ==> present[i] == present[j]
}

/// Whether `p` is the client jar or a candidate that exists.
pub open spec fn admissible(client: Option<Seq<char>>, candidates: Seq<Seq<char>>, present: Seq<bool>, p: Seq<char>) -> bool {
    client == Some(p) || exists|i: int| 0 <= i < candidates.len() && present[i] && candidates[i] == p
}

/// Law: the class path holds each entry once; each entry is the client jar
/// or a candidate that exists; the client jar, where it exists, comes first.
pub proof fn lemma_classpath_sound(
    client: Option<Seq<char>>,
    candidates: Seq<Seq<char>>,
    present: Seq<bool>,
)
    requires
        candidates.len() == present.len(),
    ensures
        no_duplicates(classpath_of(client, candidates, present)),
        forall|k: int| 0 <= k < classpath_of(client, candidates, present).len()
            ==> admissible(client, candidates, present, #[trigger] classpath_of(client, candidates, present)[k]),
        client is Some ==> classpath_of(client, candidates, present).len() > 0
            && classpath_of(client, candidates, present)[0] == client->0,
    decreases candidates.len(),
{
    let cp = classpath_of(client, candidates, present);
    if candidates.len() > 0 {
        let i = candidates.len() - 1;
        let dl = candidates.drop_last();
        let pt = present.take(i);
        lemma_classpath_sound(client, dl, pt);
        let prev = classpath_of(client, dl, pt);
        let p = candidates[i];
        assert forall|k: int| 0 <= k < prev.len() implies admissible(client, candidates, present, #[trigger] prev[k]) by {
            assert(admissible(client, dl, pt, prev[k]));
            if client != Some(prev[k]) {
                let j = choose|j: int| 0 <= j < dl.len() && pt[j] && dl[j] == prev[k];
                assert(present[j] && candidates[j] == prev[k]);
            }
        }
        if present[i] && !dl.contains(p) && client != Some(p) {
            assert(cp == prev.push(p));
            assert forall|k: int| 0 <= k < prev.len() implies prev[k] != p by {
                if client != Some(prev[k]) {
                    let j = choose|j: int| 0 <= j < dl.len() && pt[j] && dl[j] == prev[k];
                    assert(dl.contains(dl[j]));
                }
            }
            assert(admissible(client, candidates, present, p));
            assert forall|k: int| 0 <= k < cp.len() implies admissible(client, candidates, present, #[trigger] cp[k]) by {
                if k < prev.len() {
                    assert(cp[k] == prev[k]);
                }
            }
        }
    }
}

/// Law: every candidate that exists is on the class path, once the file
/// system answers the same for the same file; so is the client jar where it
/// exists.
pub proof fn lemma_classpath_complete(
    client: Option<Seq<char>>,
    candidates: Seq<Seq<char>>,
    present: Seq<bool>,
)
    requires
        candidates.len() == present.len(),
        consistent_presence(candidates, present),
    ensures
        forall|i: int| 0 <= i < candidates.len() && present[i]
            ==> classpath_of(client, candidates, present).contains(#[trigger] candidates[i]),
        client is Some ==> classpath_of(client, candidates, present).contains(client->0),
    decreases candidates.len(),
{
    let cp = classpath_of(client, candidates, present);
    lemma_classpath_sound(client, candidates, present);
    if client is Some {
        assert(cp[0] == client->0);
    }
    if candidates.len() > 0 {
        let n = candidates.len() - 1;
        let dl = candidates.drop_last();
        let pt = present.take(n);
        assert forall|i: int, j: int|
            0 <= i < dl.len() && 0 <= j < dl.len() && dl[i] == dl[j] implies pt[i] == pt[j] by {
            assert(candidates[i] == candidates[j]);
        }
        lemma_classpath_complete(client, dl, pt);
        let prev = classpath_of(client, dl, pt);
        assert(forall|k: int| 0 <= k < prev.len() ==> cp.contains(#[trigger] prev[k])) by {
            assert forall|k: int| 0 <= k < prev.len() implies cp.contains(#[trigger] prev[k]) by {
                if cp != prev {
                    assert(cp == prev.push(candidates[n]));
                    assert(cp[k] == prev[k]);
                } else {
                    assert(cp[k] == prev[k]);
                }
            }
        }
        assert forall|i: int| 0 <= i < candidates.len() && present[i] implies cp.contains(#[trigger] candidates[i]) by {
            if i < n {
                assert(pt[i] && dl[i] == candidates[i]);
                assert(prev.contains(dl[i]));
                let k = choose|k: int| 0 <= k < prev.len() && prev[k] == dl[i];
                assert(cp.contains(prev[k]));
            } else {
                let p = candidates[n];
                if dl.contains(p) {
                    let j = choose|j: int| 0 <= j < dl.len() && dl[j] == p;
                    assert(candidates[j] == candidates[n]);
                    assert(pt[j]);
                    assert(prev.contains(dl[j]));
                    let k = choose|k: int| 0 <= k < prev.len() && prev[k] == dl[j];
                    assert(cp.contains(prev[k]));
                } else if client == Some(p) {
                    assert(prev[0] == p);
                    assert(cp.contains(prev[0]));
                } else {
                    assert(cp == prev.push(p));
                    assert(cp[prev.len() as int] == p);
                }
            }
        }
        if client is Some {
            assert(cp.contains(cp[0]));
        }
    } else {
        if client is Some {
            assert(cp[0] == client->0);
        }
    }
}

} // verus!
