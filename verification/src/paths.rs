//! File paths held as text, with the few `std::path` operations the
//! planning logic needs. A path is read through its components
//! (`crate::order::path_parts`). What `file_name`, `file_stem` and
//! `extension` give is stated as their documentation describes it; what
//! `parent` and `join` give is named, with the facts about components
//! that their documentation gives. Paths follow the Unix rules (`/` is the
//! only separator), as on Termux and Linux where the program runs.

use vstd::prelude::*;

use crate::order::{path_parts, PathPart};
use crate::text::split_from;

verus! {

/// No `/` in the text.
pub open spec fn no_sep(s: Seq<char>) -> bool {
    forall|i: int| 0 <= i < s.len() ==> s[i] != '/'
}

pub proof fn lemma_no_sep_add(a: Seq<char>, b: Seq<char>)
    requires
        no_sep(a),
        no_sep(b),
    ensures
        no_sep(a + b),
{
    assert forall|i: int| 0 <= i < (a + b).len() implies (a + b)[i] != '/' by {
        if i < a.len() {
            assert((a + b)[i] == a[i]);
        } else {
            assert((a + b)[i] == b[i - a.len()]);
        }
    }
}

/// A single normal path component: not empty, no `/`, not `.` or `..`.
pub open spec fn plain_name(s: Seq<char>) -> bool {
    &&& s.len() > 0
    &&& no_sep(s)
    &&& s != seq!['.']
    &&& s != seq!['.', '.']
}

/// `Path::file_name`: the final component, when it is a normal one
/// (`None` for an empty path, the root, or a path ending in `..`).
#[verifier::opaque]
pub open spec fn path_file_name(p: Seq<char>) -> Option<Seq<char>> {
    let parts = path_parts(p);
    if parts.len() == 0 {
        None
    } else {
        match parts.last() {
            PathPart::Normal(n) => Some(n),
            _ => None,
        }
    }
}

/// Position of the last `c` among the first `i` characters, or -1.
pub open spec fn last_of(f: Seq<char>, c: char, i: int) -> int
    decreases i,
{
    if i <= 0 {
        -1
    } else if f[i - 1] == c {
        i - 1
    } else {
        last_of(f, c, i - 1)
    }
}

/// The text after the last `/` (all of it when there is none).
pub open spec fn last_segment(n: Seq<char>) -> Seq<char> {
    n.skip(last_of(n, '/', n.len() as int) + 1)
}

/// The stem of a file name: the part before its last `.`; the whole name
/// when it has no `.` other than a leading one.
pub open spec fn name_stem(f: Seq<char>) -> Seq<char> {
    let j = last_of(f, '.', f.len() as int);
    if j <= 0 {
        f
    } else {
        f.take(j)
    }
}

/// The extension of a file name: the part after its last `.`; none when it
/// has no `.` other than a leading one.
pub open spec fn name_ext(f: Seq<char>) -> Option<Seq<char>> {
    let j = last_of(f, '.', f.len() as int);
    if j <= 0 {
        None
    } else {
        Some(f.skip(j + 1))
    }
}

/// `Path::file_stem`: the stem of the file name, if there is one.
pub open spec fn path_file_stem(p: Seq<char>) -> Option<Seq<char>> {
    match path_file_name(p) {
        Some(f) => Some(name_stem(f)),
        None => None,
    }
}

/// `Path::extension`: the extension of the file name, if there is one.
pub open spec fn path_extension(p: Seq<char>) -> Option<Seq<char>> {
    match path_file_name(p) {
        Some(f) => name_ext(f),
        None => None,
    }
}

proof fn lemma_split_no_sep(s: Seq<char>, start: int, i: int)
    requires
        0 <= start <= i <= s.len(),
        forall|k: int| start <= k < i ==> s[k] != '/',
    ensures
        forall|j: int|
            0 <= j < split_from(s, '/', start, i).len() ==> no_sep(
                #[trigger] split_from(s, '/', start, i)[j],
            ),
    decreases s.len() - i,
{
    let r = split_from(s, '/', start, i);
    let piece = s.subrange(start, i);
    assert forall|k: int| 0 <= k < piece.len() implies piece[k] != '/' by {
        assert(piece[k] == s[start + k]);
    }
    if i >= s.len() {
        assert(r == seq![piece]);
        assert forall|j: int| 0 <= j < r.len() implies no_sep(#[trigger] r[j]) by {
            assert(r[j] == piece);
        }
    } else if s[i] == '/' {
        lemma_split_no_sep(s, i + 1, i + 1);
        let rest = split_from(s, '/', i + 1, i + 1);
        assert(r == seq![piece] + rest);
        assert forall|j: int| 0 <= j < r.len() implies no_sep(#[trigger] r[j]) by {
            if j > 0 {
                assert(r[j] == rest[j - 1]);
            } else {
                assert(r[j] == piece);
            }
        }
    } else {
        lemma_split_no_sep(s, start, i + 1);
        assert(r == split_from(s, '/', start, i + 1));
    }
}

proof fn lemma_later_parts_no_sep(pcs: Seq<Seq<char>>)
    requires
        forall|j: int| 0 <= j < pcs.len() ==> no_sep(#[trigger] pcs[j]),
    ensures
        forall|j: int|
            0 <= j < crate::order::later_parts(pcs).len() ==> (
            #[trigger] crate::order::later_parts(pcs)[j] matches PathPart::Normal(n) ==> no_sep(n)),
    decreases pcs.len(),
{
    if pcs.len() > 0 {
        let tail = pcs.drop_first();
        assert forall|j: int| 0 <= j < tail.len() implies no_sep(#[trigger] tail[j]) by {
            assert(tail[j] == pcs[j + 1]);
        }
        lemma_later_parts_no_sep(tail);
        assert(no_sep(pcs[0]));
    }
}

/// A file name never holds a separator.
pub proof fn lemma_file_name_no_sep(p: Seq<char>)
    ensures
        path_file_name(p) matches Some(f) ==> no_sep(f),
{
    reveal(path_file_name);
    if p.len() > 0 {
        let pcs = crate::text::split_seq(p, '/');
        crate::cpu::lemma_split_from_nonempty(p, '/', 0, 0);
        lemma_split_no_sep(p, 0, 0);
        let tail = pcs.drop_first();
        assert forall|j: int| 0 <= j < tail.len() implies no_sep(#[trigger] tail[j]) by {
            assert(tail[j] == pcs[j + 1]);
        }
        lemma_later_parts_no_sep(tail);
        assert(no_sep(pcs[0]));
        let parts = path_parts(p);
        let later = crate::order::later_parts(tail);
        assert(parts == seq![crate::order::first_part(pcs[0])] + later);
        if later.len() > 0 {
            assert(parts.last() == later[later.len() - 1]);
        }
    }
}

/// A file stem never holds a separator.
pub proof fn lemma_file_stem_no_sep(p: Seq<char>)
    ensures
        path_file_stem(p) matches Some(s) ==> no_sep(s),
{
    lemma_file_name_no_sep(p);
    if let Some(f) = path_file_name(p) {
        let j = last_of(f, '.', f.len() as int);
        if j > 0 {
            assert forall|i: int| 0 <= i < f.take(j).len() implies f.take(j)[i] != '/' by {
                lemma_last_of_bound(f, '.', f.len() as int);
                assert(f.take(j)[i] == f[i]);
            }
        }
    }
}

proof fn lemma_last_of_bound(f: Seq<char>, c: char, i: int)
    requires
        0 <= i <= f.len(),
    ensures
        -1 <= last_of(f, c, i) < i,
        forall|k: int| last_of(f, c, i) < k < i ==> f[k] != c,
    decreases i,
{
    if i > 0 && f[i - 1] != c {
        lemma_last_of_bound(f, c, i - 1);
    }
}

proof fn lemma_last_of_prefix(a: Seq<char>, b: Seq<char>, c: char, i: int)
    requires
        0 <= i <= a.len(),
    ensures
        last_of(a + b, c, i) == last_of(a, c, i),
    decreases i,
{
    if i > 0 {
        assert((a + b)[i - 1] == a[i - 1]);
        lemma_last_of_prefix(a, b, c, i - 1);
    }
}

proof fn lemma_last_of_tail(a: Seq<char>, b: Seq<char>, c: char, i: int)
    requires
        a.len() <= i <= a.len() + b.len(),
        forall|k: int| 0 <= k < b.len() ==> b[k] != c,
    ensures
        last_of(a + b, c, i) == last_of(a, c, a.len() as int),
    decreases i,
{
    if i > a.len() {
        assert((a + b)[i - 1] == b[i - 1 - a.len()]);
        lemma_last_of_tail(a, b, c, i - 1);
    } else {
        lemma_last_of_prefix(a, b, c, i);
    }
}

/// Text without a separator added at the end joins the last segment.
pub proof fn lemma_last_segment_add(a: Seq<char>, b: Seq<char>)
    requires
        no_sep(b),
    ensures
        last_segment(a + b) == last_segment(a) + b,
{
    lemma_last_of_tail(a, b, '/', (a + b).len() as int);
    lemma_last_of_bound(a, '/', a.len() as int);
    let j = last_of(a, '/', a.len() as int);
    assert((a + b).skip(j + 1) =~= a.skip(j + 1) + b);
}

/// The last segment holds no separator.
pub proof fn lemma_last_segment_no_sep(n: Seq<char>)
    ensures
        no_sep(last_segment(n)),
{
    lemma_last_of_bound(n, '/', n.len() as int);
    let j = last_of(n, '/', n.len() as int);
    assert forall|i: int| 0 <= i < last_segment(n).len() implies last_segment(n)[i] != '/' by {
        assert(last_segment(n)[i] == n[j + 1 + i]);
    }
}

/// A path without a file name ends in no normal component.
pub proof fn lemma_no_file_name(p: Seq<char>)
    ensures
        path_file_name(p) is None ==> path_parts(p).len() == 0 || !(path_parts(p).last() is Normal),
{
    reveal(path_file_name);
}

/// What `Path::parent` gives for a path.
pub uninterp spec fn path_parent(p: Seq<char>) -> Option<Seq<char>>;

/// What `Path::join` gives for a base path and a name.
pub uninterp spec fn path_join(base: Seq<char>, name: Seq<char>) -> Seq<char>;

/// `std::path::Path::file_name` on a path given as text: the final
/// component when it is a normal one.
#[verifier::external_body]
pub(crate) fn file_name(p: &str) -> (r: Option<String>)
    ensures
        r.deep_view() == path_file_name(p@),
{
    std::path::Path::new(p).file_name().map(|n| n.to_string_lossy().into_owned())
}

/// `std::path::Path::file_stem` on a path given as text: the file name up
/// to its last `.` (the whole name when it has no `.` but a leading one).
#[verifier::external_body]
pub(crate) fn file_stem(p: &str) -> (r: Option<String>)
    ensures
        r.deep_view() == path_file_stem(p@),
{
    std::path::Path::new(p).file_stem().map(|n| n.to_string_lossy().into_owned())
}

/// `std::path::Path::extension` on a path given as text: the file name
/// after its last `.` (none when it has no `.` but a leading one).
#[verifier::external_body]
pub(crate) fn extension(p: &str) -> (r: Option<String>)
    ensures
        r.deep_view() == path_extension(p@),
{
    std::path::Path::new(p).extension().map(|n| n.to_string_lossy().into_owned())
}

/// `std::path::Path::parent` on a path given as text. The contract names
/// the result and gives its components: the path's without the last one;
/// none for an empty path or one that ends in the root. The text itself
/// (such as whether a trailing `/` is kept) is not stated.
#[verifier::external_body]
pub(crate) fn parent(p: &str) -> (r: Option<String>)
    ensures
        r.deep_view() == path_parent(p@),
        r is None <==> (path_parts(p@).len() == 0 || path_parts(p@).last() == PathPart::Root),
        r matches Some(q) ==> path_parts(q@) == path_parts(p@).drop_last(),
{
    std::path::Path::new(p).parent().map(|n| n.to_string_lossy().into_owned())
}

/// `std::path::Path::join` of a base path and a name, both given as text.
/// The contract names the result and gives three facts: an absolute name
/// replaces the base; a plain name (one normal component) is adjoined as
/// one more component; and a name whose last segment is plain ends the
/// result with that component. The text of the result for other relative
/// names is not stated.
#[verifier::external_body]
pub(crate) fn join(base: &str, name: &str) -> (r: String)
    ensures
        r@ == path_join(base@, name@),
        name@.len() > 0 && name@[0] == '/' ==> r@ == name@,
        plain_name(name@) ==> path_parts(r@) == path_parts(base@).push(PathPart::Normal(name@)),
        plain_name(last_segment(name@)) ==> path_parts(r@).len() > 0 && path_parts(r@).last()
            == PathPart::Normal(last_segment(name@)),
{
    std::path::Path::new(base).join(name).to_string_lossy().into_owned()
}

} // verus!
