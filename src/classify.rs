//! Path classification: deciding whether a changed path is noise, ignorable,
//! or a relevant source change.
//!
//! Paths are handled as text with `/` as the separator. Components, the file
//! name and the extension follow the rules of `std::path` on Unix: empty and
//! `.` components are skipped, a final `..` has no file name, and a file name
//! whose only dot is its first character has no extension.
use crate::text::{span_is, texts};
use vstd::prelude::*;

verus! {

/// `p[i..j]` is one whole component of `p`.
pub open spec fn is_component(p: Seq<char>, i: int, j: int) -> bool {
    &&& 0 <= i <= j <= p.len()
    &&& (i == 0 || p[i - 1] == '/')
    &&& (j == p.len() || p[j] == '/')
    &&& forall|k: int| i <= k < j ==> p[k] != '/'
}

/// Names of directories whose contents never trigger a rebuild: build output,
/// dependency caches and version control.
pub open spec fn is_ignored_dir_name(c: Seq<char>) -> bool {
    ||| c == "build"@
    ||| c == "public"@
    ||| c == "dist"@
    ||| c == "target"@
    ||| c == "node_modules"@
    ||| c == ".git"@
}

/// Some component of `p` is an ignored directory name.
pub open spec fn under_ignored_dir(p: Seq<char>) -> bool {
    exists|i: int, j: int| is_component(p, i, j) && is_ignored_dir_name(#[trigger] p.subrange(i, j))
}

/// Start of the segment of `p` that ends at `j`: the position just after the
/// last separator before `j`, or 0.
pub open spec fn segment_start(p: Seq<char>, j: int) -> int
    decreases j,
{
    if j <= 0 {
        0
    } else if p[j - 1] == '/' {
        j
    } else {
        segment_start(p, j - 1)
    }
}

/// `p[s..j]` is empty or `.`: a segment that path parsing skips.
pub open spec fn is_skipped_segment(p: Seq<char>, s: int, j: int) -> bool {
    j == s || (j == s + 1 && p[s] == '.')
}

/// End of the last segment of `p[0..j]` that is not skipped (the first
/// segment always counts).
pub open spec fn name_end(p: Seq<char>, j: int) -> int
    decreases j,
{
    let s = segment_start(p, j);
    if s <= 0 || j <= 0 {
        j
    } else if is_skipped_segment(p, s, j) {
        name_end(p, s - 1)
    } else {
        j
    }
}

/// The last component of `p`, when it names a file or directory.
pub open spec fn file_name(p: Seq<char>) -> Option<Seq<char>> {
    let e = name_end(p, p.len() as int);
    let n = p.subrange(segment_start(p, e), e);
    if n.len() == 0 || n == seq!['.'] || n == seq!['.', '.'] {
        None
    } else {
        Some(n)
    }
}

/// Position of the last `.` in `n[0..j]`, or -1.
pub open spec fn last_dot(n: Seq<char>, j: int) -> int
    decreases j,
{
    if j <= 0 {
        -1
    } else if n[j - 1] == '.' {
        j - 1
    } else {
        last_dot(n, j - 1)
    }
}

/// The text after the last dot of the file name, unless that dot is the
/// name's first character.
pub open spec fn extension(p: Seq<char>) -> Option<Seq<char>> {
    match file_name(p) {
        None => None,
        Some(n) => {
            let k = last_dot(n, n.len() as int);
            if k <= 0 {
                None
            } else {
                Some(n.subrange(k + 1, n.len() as int))
            }
        },
    }
}

/// Extensions of generated or transient files: compiled styles and scripts,
/// source maps, editor swap files and temp files.
pub open spec fn is_noise_extension(e: Seq<char>) -> bool {
    ||| e == "css"@
    ||| e == "js"@
    ||| e == "map"@
    ||| e == "swp"@
    ||| e == "swo"@
    ||| e == "tmp"@
}

/// Extensions of the sources a rebuild depends on.
pub open spec fn is_source_extension(e: Seq<char>) -> bool {
    ||| e == "rs"@
    ||| e == "ts"@
    ||| e == "tsx"@
    ||| e == "scss"@
    ||| e == "sass"@
    ||| e == "toml"@
}

/// An editor backup, the type-checker's incremental build record, or a file
/// with a noise extension.
pub open spec fn ignored_file(p: Seq<char>) -> bool {
    ||| (match file_name(p) {
        Some(n) => n.last() == '~' || n == "tsconfig.tsbuildinfo"@,
        None => false,
    })
    ||| (match extension(p) {
        Some(e) => is_noise_extension(e),
        None => false,
    })
}

pub open spec fn watched_source(p: Seq<char>) -> bool {
    match extension(p) {
        Some(e) => is_source_extension(e),
        None => false,
    }
}

/// A change to `p` should trigger a rebuild.
pub open spec fn relevant(p: Seq<char>) -> bool {
    !under_ignored_dir(p) && !ignored_file(p) && watched_source(p)
}

fn ignored_dir_name_at(p: &str, i: usize, j: usize) -> (r: bool)
    requires
        i <= j <= p@.len(),
    ensures
        r == is_ignored_dir_name(p@.subrange(i as int, j as int)),
{
    span_is(p, i, j, "build") || span_is(p, i, j, "public") || span_is(p, i, j, "dist")
        || span_is(p, i, j, "target") || span_is(p, i, j, "node_modules") || span_is(
        p,
        i,
        j,
        ".git",
    )
}

/// True when some component of `path` is a build output, dependency cache or
/// version-control directory.
pub fn is_ignored_dir(path: &str) -> (r: bool)
    ensures
        r == under_ignored_dir(path@),
{
    let len = path.unicode_len();
    let ghost p = path@;
    let mut start: usize = 0;
    let mut j: usize = 0;
    while j < len
        invariant
            len == p.len(),
            p == path@,
            start <= j <= len,
            start == 0 || p[start - 1] == '/',
            forall|k: int| start <= k < j ==> p[k] != '/',
            forall|a: int, b: int|
                #![trigger is_component(p, a, b)]
                is_component(p, a, b) && b < j ==> !is_ignored_dir_name(p.subrange(a, b)),
        decreases len - j,
    {
        if path.get_char(j) == '/' {
            if ignored_dir_name_at(path, start, j) {
                assert(is_component(p, start as int, j as int));
                return true;
            }
            proof {
                lemma_component_ending_at(p, start as int, j as int);
            }
            start = j + 1;
        } else {
            assert forall|a: int, b: int|
                #![trigger is_component(p, a, b)]
                is_component(p, a, b) && b < j + 1 implies !is_ignored_dir_name(
                p.subrange(a, b),
            ) by {
                if b == j {
                    assert(p[j as int] != '/');
                }
            }
        }
        j = j + 1;
    }
    if ignored_dir_name_at(path, start, len) {
        assert(is_component(p, start as int, len as int));
        return true;
    }
    proof {
        lemma_component_ending_at(p, start as int, len as int);
    }
    false
}

/// The only component that ends at `j` is the one that starts at `start`.
proof fn lemma_component_ending_at(p: Seq<char>, start: int, j: int)
    requires
        0 <= start <= j <= p.len(),
        start == 0 || p[start - 1] == '/',
        forall|k: int| start <= k < j ==> p[k] != '/',
    ensures
        forall|a: int| #[trigger] is_component(p, a, j) ==> a == start,
{
    assert forall|a: int| #[trigger] is_component(p, a, j) implies a == start by {
        if a < start {
            assert(p[start - 1] == '/');
        } else if a > start {
            assert(p[a - 1] == '/');
        }
    }
}

/// Start of the segment of `path` that ends at `j`.
fn segment_start_at(path: &str, j: usize) -> (s: usize)
    requires
        j <= path@.len(),
    ensures
        s == segment_start(path@, j as int),
        s <= j,
{
    let mut k = j;
    while k > 0 && path.get_char(k - 1) != '/'
        invariant
            k <= j <= path@.len(),
            segment_start(path@, k as int) == segment_start(path@, j as int),
        decreases k,
    {
        k = k - 1;
    }
    k
}

/// Where the file name of `path` stands in it, if it has one.
fn file_name_span(path: &str) -> (r: Option<(usize, usize)>)
    ensures
        match r {
            Some((s, e)) => s <= e <= path@.len() && file_name(path@) == Some(
                path@.subrange(s as int, e as int),
            ),
            None => file_name(path@) is None,
        },
{
    let ghost p = path@;
    let len = path.unicode_len();
    let mut j = len;
    loop
        invariant
            p == path@,
            j <= len == p.len(),
            name_end(p, j as int) == name_end(p, len as int),
        ensures
            j <= len,
            name_end(p, len as int) == j,
        decreases j,
    {
        let s = segment_start_at(path, j);
        if s == 0 || j == 0 {
            break;
        }
        let skipped = j == s || (j == s + 1 && path.get_char(s) == '.');
        if !skipped {
            break;
        }
        j = s - 1;
    }
    let s = segment_start_at(path, j);
    let ghost n = p.subrange(s as int, j as int);
    let n_len = j - s;
    if n_len == 0 {
        return None;
    }
    if n_len == 1 && path.get_char(s) == '.' {
        assert(n =~= seq!['.']);
        return None;
    }
    if n_len == 2 && path.get_char(s) == '.' && path.get_char(s + 1) == '.' {
        assert(n =~= seq!['.', '.']);
        return None;
    }
    let c0 = path.get_char(s);
    assert(n.len() == n_len && n[0] == c0);
    assert(n != seq!['.']) by {
        if n =~= seq!['.'] {
            assert(seq!['.'].len() == 1 && seq!['.'][0] == '.');
        }
    }
    assert(n != seq!['.', '.']) by {
        if n =~= seq!['.', '.'] {
            assert(seq!['.', '.'].len() == 2);
            assert(n[1] == p[s + 1]);
        }
    }
    Some((s, j))
}

/// Where the extension of `path` stands in it, if it has one.
fn extension_span(path: &str) -> (r: Option<(usize, usize)>)
    ensures
        match r {
            Some((a, b)) => a <= b <= path@.len() && extension(path@) == Some(
                path@.subrange(a as int, b as int),
            ),
            None => extension(path@) is None,
        },
{
    let ghost p = path@;
    match file_name_span(path) {
        None => None,
        Some((s, e)) => {
            let ghost n = p.subrange(s as int, e as int);
            let mut k = e;
            while k > s && path.get_char(k - 1) != '.'
                invariant
                    p == path@,
                    s <= k <= e <= p.len(),
                    n == p.subrange(s as int, e as int),
                    last_dot(n, k - s) == last_dot(n, n.len() as int),
                decreases k,
            {
                k = k - 1;
            }
            if k <= s + 1 {
                None
            } else {
                assert(n.subrange(k - s, n.len() as int) =~= p.subrange(k as int, e as int));
                Some((k, e))
            }
        },
    }
}

/// True for editor backups (`~` suffix), the type-checker's incremental
/// build record, and files with a generated or transient extension.
pub fn is_ignored_file(path: &str) -> (r: bool)
    ensures
        r == ignored_file(path@),
{
    if let Some((s, e)) = file_name_span(path) {
        if path.get_char(e - 1) == '~' || span_is(path, s, e, "tsconfig.tsbuildinfo") {
            return true;
        }
    }
    match extension_span(path) {
        Some((a, b)) => {
            span_is(path, a, b, "css") || span_is(path, a, b, "js") || span_is(path, a, b, "map")
                || span_is(path, a, b, "swp") || span_is(path, a, b, "swo") || span_is(
                path,
                a,
                b,
                "tmp",
            )
        },
        None => false,
    }
}

/// True when the extension of `path` is one of the source kinds a rebuild
/// depends on.
pub fn is_watched_source(path: &str) -> (r: bool)
    ensures
        r == watched_source(path@),
{
    match extension_span(path) {
        Some((a, b)) => {
            span_is(path, a, b, "rs") || span_is(path, a, b, "ts") || span_is(path, a, b, "tsx")
                || span_is(path, a, b, "scss") || span_is(path, a, b, "sass") || span_is(
                path,
                a,
                b,
                "toml",
            )
        },
        None => false,
    }
}

/// True when a change to `path` should trigger a rebuild. The ignore checks
/// come first: an ignored path is never relevant, whatever its extension.
pub fn is_relevant(path: &str) -> (r: bool)
    ensures
        r == relevant(path@),
{
    if is_ignored_dir(path) || is_ignored_file(path) {
        return false;
    }
    is_watched_source(path)
}

/// Any path under an ignored directory is ignored, whatever its extension,
/// and so is never relevant.
pub proof fn lemma_under_ignored_dir(prefix: Seq<char>, dir: Seq<char>, rest: Seq<char>)
    requires
        is_ignored_dir_name(dir),
        prefix.len() == 0 || prefix.last() == '/',
    ensures
        under_ignored_dir(prefix + dir + seq!['/'] + rest),
        !relevant(prefix + dir + seq!['/'] + rest),
{
    reveal_strlit("build");
    reveal_strlit("public");
    reveal_strlit("dist");
    reveal_strlit("target");
    reveal_strlit("node_modules");
    reveal_strlit(".git");
    let p = prefix + dir + seq!['/'] + rest;
    let i = prefix.len() as int;
    let j = i + dir.len();
    assert(p.subrange(i, j) =~= dir);
    assert forall|k: int| i <= k < j implies p[k] != '/' by {
        assert(p[k] == dir[k - i]);
    }
    assert(is_component(p, i, j));
}

/// A path is relevant exactly when its extension is a watched source kind
/// and it is neither under an ignored directory nor an ignored file.
pub proof fn lemma_relevant_exactly(p: Seq<char>)
    ensures
        relevant(p) <==> (watched_source(p) && !under_ignored_dir(p) && !ignored_file(p)),
        watched_source(p) ==> extension(p) is Some,
{
}

/// The relevant paths of `ps`, in their order.
pub open spec fn relevant_subset(ps: Seq<Seq<char>>) -> Seq<Seq<char>>
    decreases ps.len(),
{
    if ps.len() == 0 {
        seq![]
    } else {
        let rest = relevant_subset(ps.drop_last());
        if relevant(ps.last()) {
            rest.push(ps.last())
        } else {
            rest
        }
    }
}

/// The paths of a batch of changes that should trigger a rebuild, in the
/// order they were reported.
pub fn relevant_changes(paths: &Vec<String>) -> (r: Vec<String>)
    ensures
        texts(r@) == relevant_subset(texts(paths@)),
{
    let mut out: Vec<String> = Vec::new();
    let mut i: usize = 0;
    while i < paths.len()
        invariant
            i <= paths@.len(),
            texts(out@) == relevant_subset(texts(paths@).take(i as int)),
        decreases paths@.len() - i,
    {
        let ghost before = out@;
        assert(texts(paths@).take(i + 1).drop_last() =~= texts(paths@).take(i as int));
        if is_relevant(paths[i].as_str()) {
            out.push(paths[i].clone());
            assert(texts(out@) =~= texts(before).push(paths@[i as int]@));
        }
        i = i + 1;
    }
    assert(texts(paths@).take(i as int) =~= texts(paths@));
    out
}

} // verus!
