//! The path resolver: turns the input paths into targets or failures.
//!
//! Looking at the file system is left to the caller: for each path that is
//! not the standard-input sentinel it hands over a `Probe` of what it found,
//! and the decisions are made here.

use vstd::prelude::*;

verus! {

/// The kind of a file system entry.
#[derive(Clone, Copy, Debug, PartialEq, Eq, Structural)]
pub enum FileKind {
    File,
    Dir,
    Other,
}

/// One step of a directory walk.
#[derive(Debug)]
pub enum Walked {
    /// An entry reached by the walk, with its path and kind.
    Entry(String, FileKind),
    /// An entry the walk could not read.
    Failed,
}

/// What looking up one input path found.
#[derive(Debug)]
pub enum Probe {
    /// The metadata could not be read; the system's error text.
    Failed(String),
    /// The kind of the entry and, for a directory walked in recursive mode,
    /// what the walk met, in order (empty otherwise).
    Found(FileKind, Vec<Walked>),
}

/// A resolved entry: a target path, or a failure message.
pub open spec fn entry_view(e: Result<String, String>) -> Result<Seq<char>, Seq<char>> {
    match e {
        Ok(s) => Ok(s@),
        Err(m) => Err(m@),
    }
}

/// Each resolved entry as a target path or a failure message.
pub open spec fn entries_view(v: Seq<Result<String, String>>) -> Seq<Result<Seq<char>, Seq<char>>> {
    v.map_values(|e: Result<String, String>| entry_view(e))
}

/// The path that stands for standard input.
pub open spec fn is_sentinel(path: Seq<char>) -> bool {
    path == "-"@
}

/// The regular files that a walk met, in the order met.
pub open spec fn walked_files(ws: Seq<Walked>) -> Seq<Seq<char>> {
    ws.filter_map(
        |w: Walked|
            match w {
                Walked::Entry(p, FileKind::File) => Some(p@),
                _ => None,
            },
    )
}

/// Each path as a target.
pub open spec fn targets(files: Seq<Seq<char>>) -> Seq<Result<Seq<char>, Seq<char>>> {
    files.map_values(|f: Seq<char>| Ok(f))
}

/// The message for a path whose lookup failed with `text`.
pub open spec fn failure_message(path: Seq<char>, text: Seq<char>) -> Seq<char> {
    path + ": "@ + text
}

/// The message for a directory given without recursive mode.
pub open spec fn directory_message(path: Seq<char>) -> Seq<char> {
    path + " is a directory"@
}

/// The entries that one input path resolves to.
pub open spec fn resolve_one(path: Seq<char>, probe: Probe, recursive: bool) -> Seq<
    Result<Seq<char>, Seq<char>>,
> {
    if is_sentinel(path) {
        seq![Ok(path)]
    } else {
        match probe {
            Probe::Failed(text) => seq![Err(failure_message(path, text@))],
            Probe::Found(FileKind::File, _) => seq![Ok(path)],
            Probe::Found(FileKind::Dir, ws) => if recursive {
                targets(walked_files(ws@))
            } else {
                seq![Err(directory_message(path))]
            },
            Probe::Found(FileKind::Other, _) => seq![],
        }
    }
}

/// The entries that all input paths resolve to, path after path.
pub open spec fn resolve_all(paths: Seq<Seq<char>>, probes: Seq<Probe>, recursive: bool) -> Seq<
    Result<Seq<char>, Seq<char>>,
>
    decreases paths.len(),
{
    if paths.len() == 0 {
        seq![]
    } else {
        resolve_all(paths.drop_last(), probes.drop_last(), recursive) + resolve_one(
            paths.last(),
            probes[paths.len() - 1],
            recursive,
        )
    }
}

/// Whether `path` is the sentinel for standard input; such a path is never
/// looked up.
pub fn is_stdin(path: &str) -> (r: bool)
    ensures
        r == is_sentinel(path@),
{
    proof {
        reveal_strlit("-");
    }
    if path.unicode_len() == 1 {
        let c = path.get_char(0);
        if c == '-' {
            assert(path@ =~= "-"@);
            return true;
        }
    }
    false
}

/// Whether an entry of `kind` has to be walked.
pub fn needs_walk(kind: FileKind, recursive: bool) -> (r: bool)
    ensures
        r == (recursive && kind == FileKind::Dir),
{
    recursive && kind == FileKind::Dir
}

/// The targets for the regular files that a walk met.
fn walked_targets(ws: &Vec<Walked>) -> (r: Vec<Result<String, String>>)
    ensures
        entries_view(r@) == targets(walked_files(ws@)),
{
    let mut result: Vec<Result<String, String>> = Vec::new();
    let mut i: usize = 0;
    while i < ws.len()
        invariant
            i <= ws.len(),
            entries_view(result@) == targets(walked_files(ws@.take(i as int))),
        decreases ws.len() - i,
    {
        let ghost before = result@;
        proof {
            let next = ws@.take(i as int + 1);
            assert(next.drop_last() == ws@.take(i as int));
            assert(next.last() == ws@[i as int]);
        }
        match &ws[i] {
            Walked::Entry(p, FileKind::File) => {
                let copy = p.clone();
                result.push(Ok(copy));
                assert(entries_view(result@) =~= entries_view(before).push(Ok(p@)));
                assert(targets(walked_files(ws@.take(i as int + 1))) =~= targets(
                    walked_files(ws@.take(i as int)),
                ).push(Ok(p@)));
            },
            _ => {},
        }
        i = i + 1;
    }
    assert(ws@.take(ws.len() as int) == ws@);
    result
}

/// The message for a path whose lookup failed with `text`.
pub fn failure_text(path: &str, text: &str) -> (r: String)
    ensures
        r@ == failure_message(path@, text@),
{
    let mut m = String::from_str(path);
    m.append(": ");
    m.append(text);
    m
}

/// The entries that one input path resolves to.
fn resolve_path(path: &String, probe: &Probe, recursive: bool) -> (r: Vec<
    Result<String, String>,
>)
    ensures
        entries_view(r@) == resolve_one(path@, *probe, recursive),
{
    if is_stdin(path.as_str()) {
        let r = vec![Ok(path.clone())];
        assert(entries_view(r@) =~= seq![Ok(path@)]);
        return r;
    }
    match probe {
        Probe::Failed(text) => {
            let r = vec![Err(failure_text(path.as_str(), text.as_str()))];
            assert(entries_view(r@) =~= resolve_one(path@, *probe, recursive));
            r
        },
        Probe::Found(FileKind::File, _) => {
            let r = vec![Ok(path.clone())];
            assert(entries_view(r@) =~= resolve_one(path@, *probe, recursive));
            r
        },
        Probe::Found(FileKind::Dir, ws) => {
            if recursive {
                walked_targets(ws)
            } else {
                let mut m = String::from_str(path.as_str());
                m.append(" is a directory");
                let r = vec![Err(m)];
                assert(entries_view(r@) =~= resolve_one(path@, *probe, recursive));
                r
            }
        },
        Probe::Found(FileKind::Other, _) => {
            let r: Vec<Result<String, String>> = Vec::new();
            assert(entries_view(r@) =~= resolve_one(path@, *probe, recursive));
            r
        },
    }
}

/// Resolves each of `paths`, in order, into targets or failures; `probes[i]`
/// is what looking up `paths[i]` found (it is not read for the sentinel).
/// A failure for one path does not stop the others.
pub fn find_files(paths: &Vec<String>, recursive: bool, probes: &Vec<Probe>) -> (r: Vec<
    Result<String, String>,
>)
    requires
        probes.len() == paths.len(),
    ensures
        entries_view(r@) == resolve_all(paths.deep_view(), probes@, recursive),
{
    let mut result: Vec<Result<String, String>> = Vec::new();
    let mut i: usize = 0;
    while i < paths.len()
        invariant
            i <= paths.len(),
            probes.len() == paths.len(),
            entries_view(result@) == resolve_all(
                paths.deep_view().take(i as int),
                probes@.take(i as int),
                recursive,
            ),
        decreases paths.len() - i,
    {
        let ghost before = result@;
        let mut more = resolve_path(&paths[i], &probes[i], recursive);
        let ghost added = more@;
        result.append(&mut more);
        proof {
            let ps = paths.deep_view().take(i as int + 1);
            let qs = probes@.take(i as int + 1);
            assert(ps.drop_last() == paths.deep_view().take(i as int));
            assert(qs.drop_last() == probes@.take(i as int));
            assert(ps.last() == paths[i as int]@);
            assert(qs[ps.len() - 1] == probes[i as int]);
            assert(entries_view(result@) =~= entries_view(before) + entries_view(added));
        }
        i = i + 1;
    }
    assert(paths.deep_view().take(paths.len() as int) == paths.deep_view());
    assert(probes@.take(paths.len() as int) == probes@);
    result
}

/// Resolving two lists of paths one after the other gives what resolving them
/// together gives: each path is resolved on its own.
pub proof fn lemma_resolve_concat(
    a: Seq<Seq<char>>,
    pa: Seq<Probe>,
    b: Seq<Seq<char>>,
    pb: Seq<Probe>,
    recursive: bool,
)
    requires
        pa.len() == a.len(),
        pb.len() == b.len(),
    ensures
        resolve_all(a + b, pa + pb, recursive) == resolve_all(a, pa, recursive) + resolve_all(
            b,
            pb,
            recursive,
        ),
    decreases b.len(),
{
    if b.len() == 0 {
        assert(a + b == a);
        assert(pa + pb == pa);
        assert(resolve_all(a, pa, recursive) + resolve_all(b, pb, recursive) =~= resolve_all(
            a,
            pa,
            recursive,
        ));
    } else {
        lemma_resolve_concat(a, pa, b.drop_last(), pb.drop_last(), recursive);
        assert((a + b).drop_last() == a + b.drop_last());
        assert((pa + pb).drop_last() == pa + pb.drop_last());
        assert((a + b).last() == b.last());
        assert((pa + pb)[(a + b).len() - 1] == pb[b.len() - 1]);
        assert(resolve_all(a + b, pa + pb, recursive) =~= resolve_all(a, pa, recursive)
            + resolve_all(b, pb, recursive));
    }
}

/// The sentinel resolves to itself as a single target, whatever was found
/// on the file system and in either mode.
pub proof fn lemma_stdin_always_resolves(probe: Probe, recursive: bool)
    ensures
        resolve_all(seq!["-"@], seq![probe], recursive) == seq![Ok::<Seq<char>, Seq<char>>("-"@)],
{
    lemma_resolve_single("-"@, probe, recursive);
    assert(resolve_all(seq!["-"@], seq![probe], recursive) =~= seq![Ok::<Seq<char>, Seq<char>>("-"@)]);
}

/// A list of one path resolves as that path does.
proof fn lemma_resolve_single(path: Seq<char>, probe: Probe, recursive: bool)
    ensures
        resolve_all(seq![path], seq![probe], recursive) == resolve_one(path, probe, recursive),
{
    assert(seq![path].drop_last() =~= Seq::<Seq<char>>::empty());
    assert(seq![probe].drop_last() =~= Seq::<Probe>::empty());
    assert(resolve_all(Seq::<Seq<char>>::empty(), Seq::<Probe>::empty(), recursive) == Seq::<
        Result<Seq<char>, Seq<char>>,
    >::empty());
    assert(resolve_all(seq![path], seq![probe], recursive) =~= resolve_one(path, probe, recursive));
}

/// A regular file resolves to one target, the path as given.
pub proof fn lemma_file_resolves(path: Seq<char>, walked: Vec<Walked>)
    requires
        !is_sentinel(path),
    ensures
        resolve_all(seq![path], seq![Probe::Found(FileKind::File, walked)], false) == seq![
            Ok::<Seq<char>, Seq<char>>(path),
        ],
{
    lemma_resolve_single(path, Probe::Found(FileKind::File, walked), false);
}

/// A directory without recursive mode resolves to one failure, saying that
/// the path is a directory.
pub proof fn lemma_directory_rejected(path: Seq<char>, walked: Vec<Walked>)
    requires
        !is_sentinel(path),
    ensures
        resolve_all(seq![path], seq![Probe::Found(FileKind::Dir, walked)], false) == seq![
            Err::<Seq<char>, Seq<char>>(path + " is a directory"@),
        ],
{
    lemma_resolve_single(path, Probe::Found(FileKind::Dir, walked), false);
}

/// A directory in recursive mode resolves to one target per regular file
/// that the walk met, in the order met, and to nothing else: a path is a
/// target exactly when the walk met a regular file there.
pub proof fn lemma_directory_walked(path: Seq<char>, walked: Vec<Walked>)
    requires
        !is_sentinel(path),
    ensures
        resolve_all(seq![path], seq![Probe::Found(FileKind::Dir, walked)], true) == targets(
            walked_files(walked@),
        ),
        forall|e: Result<Seq<char>, Seq<char>>|
            resolve_all(seq![path], seq![Probe::Found(FileKind::Dir, walked)], true).contains(e)
                <==> (exists|i: int|
                0 <= i < walked@.len() && e == Ok::<Seq<char>, Seq<char>>(
                    walked_path(walked@[i]),
                ) && walked@[i] matches Walked::Entry(_, FileKind::File)),
{
    lemma_resolve_single(path, Probe::Found(FileKind::Dir, walked), true);
    lemma_walked_targets(walked@);
}

/// The path of a walk step (empty for a failed one).
pub open spec fn walked_path(w: Walked) -> Seq<char> {
    match w {
        Walked::Entry(p, _) => p@,
        Walked::Failed => seq![],
    }
}

proof fn lemma_walked_targets(ws: Seq<Walked>)
    ensures
        forall|e: Result<Seq<char>, Seq<char>>|
            targets(walked_files(ws)).contains(e) <==> (exists|i: int|
                0 <= i < ws.len() && e == Ok::<Seq<char>, Seq<char>>(walked_path(ws[i]))
                    && ws[i] matches Walked::Entry(_, FileKind::File)),
    decreases ws.len(),
{
    if ws.len() > 0 {
        let rest = ws.drop_last();
        lemma_walked_targets(rest);
        let w = ws.last();
        assert forall|e: Result<Seq<char>, Seq<char>>|
            targets(walked_files(ws)).contains(e) <==> (exists|i: int|
                0 <= i < ws.len() && e == Ok::<Seq<char>, Seq<char>>(walked_path(ws[i]))
                    && ws[i] matches Walked::Entry(_, FileKind::File)) by {
            if w matches Walked::Entry(_, FileKind::File) {
                assert(targets(walked_files(ws)) =~= targets(walked_files(rest)).push(
                    Ok(walked_path(w)),
                ));
            } else {
                assert(targets(walked_files(ws)) =~= targets(walked_files(rest)));
            }
            if targets(walked_files(ws)).contains(e) {
                if targets(walked_files(rest)).contains(e) {
                    let i = choose|i: int|
                        0 <= i < rest.len() && e == Ok::<Seq<char>, Seq<char>>(
                            walked_path(rest[i]),
                        ) && rest[i] matches Walked::Entry(_, FileKind::File);
                    assert(ws[i] == rest[i]);
                } else {
                    assert(ws[ws.len() - 1] == w);
                }
            }
            if exists|i: int|
                0 <= i < ws.len() && e == Ok::<Seq<char>, Seq<char>>(walked_path(ws[i]))
                    && ws[i] matches Walked::Entry(_, FileKind::File) {
                let i = choose|i: int|
                    0 <= i < ws.len() && e == Ok::<Seq<char>, Seq<char>>(walked_path(ws[i]))
                        && ws[i] matches Walked::Entry(_, FileKind::File);
                if i < ws.len() - 1 {
                    assert(rest[i] == ws[i]);
                    assert(targets(walked_files(rest)).contains(e));
                    let k = choose|k: int| 0 <= k < targets(walked_files(rest)).len() && targets(walked_files(rest))[k] == e;
                    assert(targets(walked_files(ws))[k] == e);
                } else {
                    assert(targets(walked_files(ws)).last() == e);
                }
            }
        }
    } else {
        assert(targets(walked_files(ws)) =~= Seq::<Result<Seq<char>, Seq<char>>>::empty());
    }
}

/// A path whose lookup failed resolves to one failure, with the system's
/// text, and the paths after it resolve as they would on their own.
pub proof fn lemma_failure_isolated(
    path: Seq<char>,
    text: String,
    rest: Seq<Seq<char>>,
    rest_probes: Seq<Probe>,
    recursive: bool,
)
    requires
        !is_sentinel(path),
        rest_probes.len() == rest.len(),
    ensures
        resolve_all(seq![path] + rest, seq![Probe::Failed(text)] + rest_probes, recursive) == seq![
            Err::<Seq<char>, Seq<char>>(failure_message(path, text@)),
        ] + resolve_all(rest, rest_probes, recursive),
{
    lemma_resolve_single(path, Probe::Failed(text), recursive);
    lemma_resolve_concat(seq![path], seq![Probe::Failed(text)], rest, rest_probes, recursive);
}

} // verus!
