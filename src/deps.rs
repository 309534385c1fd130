//! Dependency scanner: which local files must trigger a rebuild of the
//! kernel, read from the kernel build tool's dependency listing.
use vstd::prelude::*;
use crate::text::{
    ascii, views, lit, concat, copy_range, opt_view, split_lines, lines, slash,
};

verus! {

/// A parenthesis, either way round: what delimits a local path in a line of
/// the dependency listing.
pub open spec fn is_delim(c: u8) -> bool {
    c == 40u8 || c == 41u8
}

/// The first position at or after `i` that holds a delimiter, or the length
/// of `s` when there is none.
pub open spec fn next_delim(s: Seq<u8>, i: int) -> int
    decreases s.len() - i,
{
    if i < 0 || i >= s.len() {
        s.len() as int
    } else if is_delim(s[i]) {
        i
    } else {
        next_delim(s, i + 1)
    }
}

/// The local path named by one line of the listing: the text after its first
/// delimiter and before the next one, when that text is an absolute path.
pub open spec fn local_path(line: Seq<u8>) -> Option<Seq<u8>> {
    let a = next_delim(line, 0);
    if a >= line.len() {
        None
    } else {
        let piece = line.subrange(a + 1, next_delim(line, a + 1));
        if piece.len() > 0 && piece[0] == slash() {
            Some(piece)
        } else {
            None
        }
    }
}

/// The local paths named by `ls`, in the order of the lines.
pub open spec fn local_paths(ls: Seq<Seq<u8>>) -> Seq<Seq<u8>>
    decreases ls.len(),
{
    if ls.len() == 0 {
        seq![]
    } else {
        let rest = local_paths(ls.drop_last());
        match local_path(ls.last()) {
            Some(p) => rest.push(p),
            None => rest,
        }
    }
}

/// The files to watch for one local dependency: its sources and manifest,
/// then its lock file and build script where they exist.
pub open spec fn watched(dep: Seq<u8>, has_lock: bool, has_build_script: bool) -> Seq<Seq<u8>> {
    seq![dep + ascii("/src"@), dep + ascii("/Cargo.toml"@)] + (if has_lock {
        seq![dep + ascii("/Cargo.lock"@)]
    } else {
        seq![]
    }) + (if has_build_script {
        seq![dep + ascii("/build.rs"@)]
    } else {
        seq![]
    })
}

/// The optional files whose existence decides what is watched for `deps`:
/// for each dependency its lock file, then its build script.
pub open spec fn probes(deps: Seq<Seq<u8>>) -> Seq<Seq<u8>>
    decreases deps.len(),
{
    if deps.len() == 0 {
        seq![]
    } else {
        probes(deps.drop_last()) + seq![
            deps.last() + ascii("/Cargo.lock"@),
            deps.last() + ascii("/build.rs"@),
        ]
    }
}

/// The answer at position `k` of a list of existence checks; a missing answer
/// counts as absent.
pub open spec fn answer(found: Seq<bool>, k: int) -> bool {
    0 <= k < found.len() && found[k]
}

/// The files to watch for all of `deps`, given the answers to `probes(deps)`.
pub open spec fn watched_all(deps: Seq<Seq<u8>>, found: Seq<bool>) -> Seq<Seq<u8>>
    decreases deps.len(),
{
    if deps.len() == 0 {
        seq![]
    } else {
        let k = 2 * (deps.len() - 1);
        watched_all(deps.drop_last(), found) + watched(
            deps.last(),
            answer(found, k),
            answer(found, k + 1),
        )
    }
}

/// The arguments of the listing command for the manifest at `manifest`.
pub open spec fn listing_args(manifest: Seq<u8>) -> Seq<Seq<u8>> {
    seq![
        ascii("tree"@),
        ascii("--manifest-path="@) + manifest,
        ascii("--prefix=none"@),
        ascii("--workspace"@),
    ]
}

/// The first delimiter at or after `from`.
pub fn find_delim(s: &[u8], from: usize) -> (r: usize)
    ensures
        r == next_delim(s@, from as int),
        from <= s@.len() ==> from <= r <= s@.len(),
{
    let mut i: usize = from;
    if i >= s.len() {
        return s.len();
    }
    while i < s.len()
        invariant
            from <= i <= s@.len(),
            next_delim(s@, i as int) == next_delim(s@, from as int),
        decreases s@.len() - i,
    {
        if s[i] == 40u8 || s[i] == 41u8 {
            return i;
        }
        i += 1;
    }
    i
}

/// The local path that one line of the listing names, if any.
pub fn line_local_path(line: &[u8]) -> (r: Option<Vec<u8>>)
    ensures
        opt_view(r) == local_path(line@),
{
    let a = find_delim(line, 0);
    if a >= line.len() {
        return None;
    }
    let b = find_delim(line, a + 1);
    let piece = copy_range(line, a + 1, b);
    if piece.len() > 0 && piece[0] == 47u8 {
        Some(piece)
    } else {
        None
    }
}

/// The local paths that the listing names, in the order of its lines.
pub fn local_dependency_paths(listing: &[u8]) -> (r: Vec<Vec<u8>>)
    ensures
        views(r@) == local_paths(lines(listing@)),
{
    let ls = split_lines(listing);
    let mut out: Vec<Vec<u8>> = Vec::new();
    let mut i: usize = 0;
    while i < ls.len()
        invariant
            views(ls@) == lines(listing@),
            i <= ls@.len(),
            views(out@) == local_paths(views(ls@).subrange(0, i as int)),
        decreases ls@.len() - i,
    {
        let ghost s = views(ls@).subrange(0, i as int + 1);
        assert(s.drop_last() =~= views(ls@).subrange(0, i as int));
        assert(s.last() == ls@[i as int]@);
        match line_local_path(ls[i].as_slice()) {
            Some(p) => {
                out.push(p);
            },
            None => {},
        }
        assert(views(out@) =~= local_paths(s));
        i += 1;
    }
    assert(views(ls@).subrange(0, ls@.len() as int) =~= views(ls@));
    out
}

/// The files to watch for the local dependency at `dep`.
pub fn watch_paths(dep: &[u8], has_lock: bool, has_build_script: bool) -> (r: Vec<Vec<u8>>)
    ensures
        views(r@) == watched(dep@, has_lock, has_build_script),
        r@.len() == 2 + (if has_lock { 1int } else { 0 }) + (if has_build_script { 1int } else { 0 }),
{
    proof {
        reveal_strlit("/src");
        reveal_strlit("/Cargo.toml");
        reveal_strlit("/Cargo.lock");
        reveal_strlit("/build.rs");
    }
    let mut out: Vec<Vec<u8>> = Vec::new();
    out.push(concat(dep, lit("/src").as_slice()));
    out.push(concat(dep, lit("/Cargo.toml").as_slice()));
    if has_lock {
        out.push(concat(dep, lit("/Cargo.lock").as_slice()));
    }
    if has_build_script {
        out.push(concat(dep, lit("/build.rs").as_slice()));
    }
    assert(views(out@) =~= watched(dep@, has_lock, has_build_script));
    out
}

/// The optional files of `deps` whose existence must be checked.
pub fn probe_paths(deps: &Vec<Vec<u8>>) -> (r: Vec<Vec<u8>>)
    ensures
        views(r@) == probes(views(deps@)),
{
    proof {
        reveal_strlit("/Cargo.lock");
        reveal_strlit("/build.rs");
    }
    let lock = lit("/Cargo.lock");
    let build_script = lit("/build.rs");
    let mut out: Vec<Vec<u8>> = Vec::new();
    let mut i: usize = 0;
    while i < deps.len()
        invariant
            lock@ == ascii("/Cargo.lock"@),
            build_script@ == ascii("/build.rs"@),
            i <= deps@.len(),
            views(out@) == probes(views(deps@).subrange(0, i as int)),
        decreases deps@.len() - i,
    {
        let ghost s = views(deps@).subrange(0, i as int + 1);
        assert(s.drop_last() =~= views(deps@).subrange(0, i as int));
        assert(s.last() == deps@[i as int]@);
        out.push(concat(deps[i].as_slice(), lock.as_slice()));
        out.push(concat(deps[i].as_slice(), build_script.as_slice()));
        assert(views(out@) =~= probes(s));
        i += 1;
    }
    assert(views(deps@).subrange(0, deps@.len() as int) =~= views(deps@));
    out
}

/// The files to watch for all of `deps`, given which of their optional files
/// were found.
pub fn watch_all(deps: &Vec<Vec<u8>>, found: &Vec<bool>) -> (r: Vec<Vec<u8>>)
    ensures
        views(r@) == watched_all(views(deps@), found@),
{
    let mut out: Vec<Vec<u8>> = Vec::new();
    let mut i: usize = 0;
    while i < deps.len()
        invariant
            i <= deps@.len(),
            views(out@) == watched_all(views(deps@).subrange(0, i as int), found@),
        decreases deps@.len() - i,
    {
        let ghost s = views(deps@).subrange(0, i as int + 1);
        assert(s.drop_last() =~= views(deps@).subrange(0, i as int));
        assert(s.last() == deps@[i as int]@);
        let mut has_lock = false;
        let mut has_build_script = false;
        if i < found.len() / 2 + 1 {
            let k: usize = 2 * i;
            has_lock = k < found.len() && found[k];
            has_build_script = k + 1 < found.len() && found[k + 1];
        }
        assert(has_lock == answer(found@, 2 * i as int));
        assert(has_build_script == answer(found@, 2 * i as int + 1));
        assert(2 * (s.len() - 1) == 2 * i as int);
        let mut more = watch_paths(deps[i].as_slice(), has_lock, has_build_script);
        let ghost before = views(out@);
        let ghost added = views(more@);
        out.append(&mut more);
        assert(views(out@) =~= before + added);
        assert(views(out@) =~= watched_all(s, found@));
        i += 1;
    }
    assert(views(deps@).subrange(0, deps@.len() as int) =~= views(deps@));
    out
}

/// The arguments of the listing command for the manifest at `manifest`.
pub fn listing_command_args(manifest: &[u8]) -> (r: Vec<Vec<u8>>)
    ensures
        views(r@) == listing_args(manifest@),
{
    proof {
        reveal_strlit("tree");
        reveal_strlit("--manifest-path=");
        reveal_strlit("--prefix=none");
        reveal_strlit("--workspace");
    }
    let mut out: Vec<Vec<u8>> = Vec::new();
    out.push(lit("tree"));
    out.push(concat(lit("--manifest-path=").as_slice(), manifest));
    out.push(lit("--prefix=none"));
    out.push(lit("--workspace"));
    assert(views(out@) =~= listing_args(manifest@));
    out
}

/// The scanner keeps exactly the paths of the lines that name a local path,
/// in the order of the lines; what it gives depends on the lines alone.
pub proof fn law_local_paths(ls: Seq<Seq<u8>>, again: Seq<Seq<u8>>)
    requires
        again == ls,
    ensures
        forall|k: int|
            0 <= k < local_paths(ls).len() ==> exists|a: int|
                0 <= a < ls.len() && local_path(ls[a]) == Some(#[trigger] local_paths(ls)[k]),
        forall|a: int|
            0 <= a < ls.len() && (#[trigger] local_path(ls[a])) is Some ==> local_paths(ls).contains(
                local_path(ls[a])->Some_0,
            ),
        forall|i: int, j: int|
            0 <= i < j < local_paths(ls).len() ==> exists|a: int, b: int|
                0 <= a < b < ls.len() && local_path(ls[a]) == Some(#[trigger] local_paths(ls)[i])
                    && local_path(ls[b]) == Some(#[trigger] local_paths(ls)[j]),
        local_paths(again) == local_paths(ls),
    decreases ls.len(),
{
    if ls.len() > 0 {
        let d = ls.drop_last();
        law_local_paths(d, d);
        let rest = local_paths(d);
        let r = local_paths(ls);
        assert forall|k: int| 0 <= k < r.len() implies exists|a: int|
            0 <= a < ls.len() && local_path(ls[a]) == Some(#[trigger] r[k]) by {
            if k < rest.len() {
                assert(r[k] == rest[k]);
                let a = choose|a: int| 0 <= a < d.len() && local_path(d[a]) == Some(rest[k]);
                assert(ls[a] == d[a]);
            } else {
                assert(ls[ls.len() - 1] == ls.last());
            }
        }
        assert forall|a: int| 0 <= a < ls.len() && (#[trigger] local_path(ls[a])) is Some implies r.contains(
            local_path(ls[a])->Some_0,
        ) by {
            if a < d.len() {
                assert(ls[a] == d[a]);
                let p = local_path(d[a])->Some_0;
                let k = choose|k: int| 0 <= k < rest.len() && rest[k] == p;
                assert(r[k] == p);
            } else {
                assert(ls[a] == ls.last());
                assert(r[r.len() - 1] == local_path(ls[a])->Some_0);
            }
        }
        assert forall|i: int, j: int| 0 <= i < j < r.len() implies exists|a: int, b: int|
            0 <= a < b < ls.len() && local_path(ls[a]) == Some(#[trigger] r[i]) && local_path(ls[b])
                == Some(#[trigger] r[j]) by {
            if j < rest.len() {
                assert(r[i] == rest[i] && r[j] == rest[j]);
                let (a, b) = choose|a: int, b: int|
                    0 <= a < b < d.len() && local_path(d[a]) == Some(rest[i]) && local_path(d[b])
                        == Some(rest[j]);
                assert(ls[a] == d[a] && ls[b] == d[b]);
            } else {
                assert(r[i] == rest[i]);
                let a = choose|a: int| 0 <= a < d.len() && local_path(d[a]) == Some(rest[i]);
                assert(ls[a] == d[a]);
                assert(ls[ls.len() - 1] == ls.last());
            }
        }
    }
}

} // verus!
