//! Ordering of texts and of file paths, and sorting of path lists.
//!
//! Paths are ordered as `std::path::Path` orders Unix paths: component by
//! component, where repeated separators and `.` after the start are not
//! components, the root comes before `.`, `.` before `..`, and those
//! before a name; names compare by their characters' code points (the
//! byte order of UTF-8).

use vstd::prelude::*;
use vstd::relations::{antisymmetric, sorted_by, strongly_connected, transitive};

use crate::text::{chars_of, split_chars, split_seq};

verus! {

/// Lexicographic order of sequences over an order of their items: a
/// proper prefix comes first.
pub open spec fn lex_le<T>(a: Seq<T>, b: Seq<T>, le: spec_fn(T, T) -> bool) -> bool
    decreases a.len(),
{
    if a.len() == 0 {
        true
    } else if b.len() == 0 {
        false
    } else if a[0] == b[0] {
        lex_le(a.drop_first(), b.drop_first(), le)
    } else {
        le(a[0], b[0])
    }
}

/// A total preorder: every two items compare, and the order chains.
pub open spec fn total_preorder<T>(le: spec_fn(T, T) -> bool) -> bool {
    strongly_connected(le) && transitive(le)
}

/// A total order: a total preorder where only equal items compare both
/// ways.
pub open spec fn total_order<T>(le: spec_fn(T, T) -> bool) -> bool {
    total_preorder(le) && antisymmetric(le)
}

proof fn lemma_lex_total<T>(a: Seq<T>, b: Seq<T>, le: spec_fn(T, T) -> bool)
    requires
        strongly_connected(le),
    ensures
        lex_le(a, b, le) || lex_le(b, a, le),
    decreases a.len(),
{
    if a.len() > 0 && b.len() > 0 {
        if a[0] == b[0] {
            lemma_lex_total(a.drop_first(), b.drop_first(), le);
        } else {
            assert(le(a[0], b[0]) || le(b[0], a[0]));
        }
    }
}

proof fn lemma_lex_trans<T>(a: Seq<T>, b: Seq<T>, c: Seq<T>, le: spec_fn(T, T) -> bool)
    requires
        total_order(le),
        lex_le(a, b, le),
        lex_le(b, c, le),
    ensures
        lex_le(a, c, le),
    decreases a.len(),
{
    if a.len() > 0 && b.len() > 0 && c.len() > 0 {
        if a[0] == b[0] && b[0] == c[0] {
            lemma_lex_trans(a.drop_first(), b.drop_first(), c.drop_first(), le);
        } else if a[0] == b[0] {
            assert(le(b[0], c[0]));
        } else if b[0] == c[0] {
            assert(le(a[0], b[0]));
        } else {
            assert(le(a[0], b[0]) && le(b[0], c[0]));
            assert(le(a[0], c[0]));
            if a[0] == c[0] {
                assert(le(b[0], a[0]));
            }
        }
    }
}

proof fn lemma_lex_antisym<T>(a: Seq<T>, b: Seq<T>, le: spec_fn(T, T) -> bool)
    requires
        antisymmetric(le),
        lex_le(a, b, le),
        lex_le(b, a, le),
    ensures
        a == b,
    decreases a.len(),
{
    if a.len() > 0 && b.len() > 0 {
        if a[0] == b[0] {
            lemma_lex_antisym(a.drop_first(), b.drop_first(), le);
            assert(a =~= seq![a[0]] + a.drop_first());
            assert(b =~= seq![b[0]] + b.drop_first());
        } else {
            assert(le(a[0], b[0]) && le(b[0], a[0]));
        }
    }
}

/// The lexicographic order over a total order is a total order.
pub proof fn lemma_lex_total_order<T>(le: spec_fn(T, T) -> bool)
    requires
        total_order(le),
    ensures
        total_order(|a: Seq<T>, b: Seq<T>| lex_le(a, b, le)),
{
    lemma_lex_total_preorder(le);
    let l = |a: Seq<T>, b: Seq<T>| lex_le(a, b, le);
    assert forall|a: Seq<T>, b: Seq<T>| #[trigger] l(a, b) && #[trigger] l(b, a) implies a == b by {
        lemma_lex_antisym(a, b, le);
    }
}

/// The lexicographic order over a total order is a total preorder.
pub proof fn lemma_lex_total_preorder<T>(le: spec_fn(T, T) -> bool)
    requires
        total_order(le),
    ensures
        total_preorder(|a: Seq<T>, b: Seq<T>| lex_le(a, b, le)),
{
    let l = |a: Seq<T>, b: Seq<T>| lex_le(a, b, le);
    assert forall|a: Seq<T>, b: Seq<T>| #[trigger] l(a, b) || #[trigger] l(b, a) by {
        lemma_lex_total(a, b, le);
    }
    assert forall|a: Seq<T>, b: Seq<T>, c: Seq<T>| #[trigger] l(a, b) && #[trigger] l(b, c) implies l(
        a,
        c,
    ) by {
        lemma_lex_trans(a, b, c, le);
    }
}

/// Characters by code point.
pub open spec fn char_le(x: char, y: char) -> bool {
    x <= y
}

/// Texts in code-point order (`str`'s order).
pub open spec fn text_le(a: Seq<char>, b: Seq<char>) -> bool {
    lex_le(a, b, char_order())
}

pub open spec fn char_order() -> spec_fn(char, char) -> bool {
    |x: char, y: char| char_le(x, y)
}

/// A component of a path.
pub enum PathPart {
    Root,
    Cur,
    Parent,
    Normal(Seq<char>),
}

pub open spec fn part_rank(p: PathPart) -> int {
    match p {
        PathPart::Root => 0,
        PathPart::Cur => 1,
        PathPart::Parent => 2,
        PathPart::Normal(_) => 3,
    }
}

pub open spec fn part_le(x: PathPart, y: PathPart) -> bool {
    if part_rank(x) != part_rank(y) {
        part_rank(x) < part_rank(y)
    } else {
        match (x, y) {
            (PathPart::Normal(a), PathPart::Normal(b)) => text_le(a, b),
            _ => true,
        }
    }
}

/// The components after the first piece: empty pieces (repeated
/// separators) and `.` are dropped.
pub open spec fn later_parts(pcs: Seq<Seq<char>>) -> Seq<PathPart>
    decreases pcs.len(),
{
    if pcs.len() == 0 {
        seq![]
    } else {
        let h = pcs[0];
        let tail = later_parts(pcs.drop_first());
        if h.len() == 0 || h == seq!['.'] {
            tail
        } else if h == seq!['.', '.'] {
            seq![PathPart::Parent] + tail
        } else {
            seq![PathPart::Normal(h)] + tail
        }
    }
}

/// The first component: the root for an absolute path, `.` kept only here.
pub open spec fn first_part(h: Seq<char>) -> PathPart {
    if h.len() == 0 {
        PathPart::Root
    } else if h == seq!['.'] {
        PathPart::Cur
    } else if h == seq!['.', '.'] {
        PathPart::Parent
    } else {
        PathPart::Normal(h)
    }
}

/// The components of a Unix path.
pub open spec fn path_parts(p: Seq<char>) -> Seq<PathPart> {
    if p.len() == 0 {
        seq![]
    } else {
        let pcs = split_seq(p, '/');
        seq![first_part(pcs[0])] + later_parts(pcs.drop_first())
    }
}

/// Paths component by component.
pub open spec fn path_le(a: Seq<char>, b: Seq<char>) -> bool {
    lex_le(path_parts(a), path_parts(b), part_order())
}

pub open spec fn part_order() -> spec_fn(PathPart, PathPart) -> bool {
    |x: PathPart, y: PathPart| part_le(x, y)
}

pub open spec fn path_order() -> spec_fn(Seq<char>, Seq<char>) -> bool {
    |a: Seq<char>, b: Seq<char>| path_le(a, b)
}

/// Paths in order form a total preorder (two spellings of one path, such
/// as `a/b` and `a//b`, compare equal both ways).
pub proof fn lemma_path_order()
    ensures
        total_preorder(path_order()),
{
    let cl = char_order();
    assert(total_order(cl));
    lemma_lex_total_order(cl);
    let tl = |a: Seq<char>, b: Seq<char>| lex_le(a, b, cl);
    assert forall|a: Seq<char>, b: Seq<char>| #[trigger] text_le(a, b) == tl(a, b) by {
    }
    let pl = part_order();
    assert forall|x: PathPart, y: PathPart| #[trigger] pl(x, y) || #[trigger] pl(y, x) by {
        if part_rank(x) == part_rank(y) {
            if let (PathPart::Normal(a), PathPart::Normal(b)) = (x, y) {
                assert(tl(a, b) || tl(b, a));
            }
        }
    }
    assert forall|x: PathPart, y: PathPart, z: PathPart| #[trigger] pl(x, y) && #[trigger] pl(
        y,
        z,
    ) implies pl(x, z) by {
        if part_rank(x) == part_rank(y) && part_rank(y) == part_rank(z) {
            if let (PathPart::Normal(a), PathPart::Normal(b), PathPart::Normal(c)) = (x, y, z) {
                assert(tl(a, b) && tl(b, c));
                assert(tl(a, c));
            }
        }
    }
    assert forall|x: PathPart, y: PathPart| #[trigger] pl(x, y) && #[trigger] pl(y, x) implies x
        == y by {
        if let (PathPart::Normal(a), PathPart::Normal(b)) = (x, y) {
            assert(tl(a, b) && tl(b, a));
        }
    }
    lemma_lex_total_preorder(pl);
    let ll = |a: Seq<PathPart>, b: Seq<PathPart>| lex_le(a, b, pl);
    assert forall|a: Seq<char>, b: Seq<char>| #[trigger] path_order()(a, b) || #[trigger] path_order()(
        b,
        a,
    ) by {
        assert(ll(path_parts(a), path_parts(b)) || ll(path_parts(b), path_parts(a)));
    }
    assert forall|a: Seq<char>, b: Seq<char>, c: Seq<char>| #[trigger] path_order()(a, b)
        && #[trigger] path_order()(b, c) implies path_order()(a, c) by {
        assert(ll(path_parts(a), path_parts(b)) && ll(path_parts(b), path_parts(c)));
        assert(ll(path_parts(a), path_parts(c)));
    }
}

/// A path component as held while comparing.
pub enum Component {
    Root,
    Cur,
    Parent,
    Normal(Vec<char>),
}

impl View for Component {
    type V = PathPart;

    open spec fn view(&self) -> PathPart {
        match self {
            Component::Root => PathPart::Root,
            Component::Cur => PathPart::Cur,
            Component::Parent => PathPart::Parent,
            Component::Normal(n) => PathPart::Normal(n@),
        }
    }
}

pub open spec fn parts_view(v: Seq<Component>) -> Seq<PathPart> {
    Seq::new(v.len(), |i: int| v[i]@)
}

fn is_dot(v: &Vec<char>) -> (r: bool)
    ensures
        r == (v@ == seq!['.']),
{
    let r = v.len() == 1 && v[0] == '.';
    assert(r ==> v@ =~= seq!['.']);
    r
}

fn is_dot_dot(v: &Vec<char>) -> (r: bool)
    ensures
        r == (v@ == seq!['.', '.']),
{
    let r = v.len() == 2 && v[0] == '.' && v[1] == '.';
    assert(r ==> v@ =~= seq!['.', '.']);
    r
}

proof fn lemma_later_parts_push(pcs: Seq<Seq<char>>, h: Seq<char>)
    ensures
        later_parts(pcs.push(h)) == later_parts(pcs) + later_parts(seq![h]),
    decreases pcs.len(),
{
    if pcs.len() == 0 {
        assert(pcs.push(h) =~= seq![h]);
        assert(later_parts(pcs) =~= Seq::<PathPart>::empty());
        assert(later_parts(seq![h]) =~= Seq::<PathPart>::empty() + later_parts(seq![h]));
    } else {
        lemma_later_parts_push(pcs.drop_first(), h);
        assert(pcs.push(h).drop_first() =~= pcs.drop_first().push(h));
        let t1 = later_parts(pcs.drop_first().push(h));
        let t0 = later_parts(pcs.drop_first());
        assert(seq![PathPart::Parent] + t1 =~= (seq![PathPart::Parent] + t0) + later_parts(seq![h]));
        assert(seq![PathPart::Normal(pcs[0])] + t1 =~= (seq![PathPart::Normal(pcs[0])] + t0)
            + later_parts(seq![h]));
    }
}

/// The components of a path.
pub fn components(p: &str) -> (r: Vec<Component>)
    ensures
        parts_view(r@) == path_parts(p@),
{
    let v = chars_of(p);
    let mut r: Vec<Component> = Vec::new();
    if v.len() == 0 {
        assert(parts_view(r@) =~= path_parts(p@));
        return r;
    }
    let pcs = split_chars(&v, '/');
    let ghost ps = split_seq(p@, '/');
    assert(pcs.deep_view() == ps);
    assert(pcs@.len() > 0) by {
        crate::cpu::lemma_split_from_nonempty(v@, '/', 0, 0);
    }
    let h = &pcs[0];
    assert(h@ == ps[0]);
    if h.len() == 0 {
        r.push(Component::Root);
    } else if is_dot(h) {
        r.push(Component::Cur);
    } else if is_dot_dot(h) {
        r.push(Component::Parent);
    } else {
        r.push(Component::Normal(h.clone()));
    }
    assert(parts_view(r@) =~= seq![first_part(ps[0])]);
    let mut i: usize = 1;
    while i < pcs.len()
        invariant
            pcs.deep_view() == ps,
            1 <= i <= ps.len(),
            parts_view(r@) == seq![first_part(ps[0])] + later_parts(ps.subrange(1, i as int)),
        decreases ps.len() - i,
    {
        let c = &pcs[i];
        assert(c@ == ps[i as int]);
        let ghost before = r@;
        proof {
            lemma_later_parts_push(ps.subrange(1, i as int), ps[i as int]);
            assert(ps.subrange(1, i as int).push(ps[i as int]) =~= ps.subrange(1, i + 1));
            assert(seq![c@].drop_first() =~= Seq::<Seq<char>>::empty());
        }
        assert(later_parts(seq![c@].drop_first()) =~= Seq::<PathPart>::empty());
        if c.len() == 0 || is_dot(c) {
            assert(later_parts(seq![c@]) =~= Seq::<PathPart>::empty());
            assert(parts_view(r@) =~= seq![first_part(ps[0])] + later_parts(ps.subrange(1, i + 1)));
        } else if is_dot_dot(c) {
            r.push(Component::Parent);
            assert(later_parts(seq![c@]) =~= seq![PathPart::Parent]);
            assert(parts_view(r@) =~= parts_view(before).push(PathPart::Parent));
            assert(parts_view(r@) =~= seq![first_part(ps[0])] + later_parts(ps.subrange(1, i + 1)));
        } else {
            r.push(Component::Normal(c.clone()));
            assert(later_parts(seq![c@]) =~= seq![PathPart::Normal(c@)]);
            assert(parts_view(r@) =~= parts_view(before).push(PathPart::Normal(c@)));
            assert(parts_view(r@) =~= seq![first_part(ps[0])] + later_parts(ps.subrange(1, i + 1)));
        }
        i += 1;
    }
    assert(ps.subrange(1, ps.len() as int) =~= ps.drop_first());
    r
}

proof fn lemma_lex_skip<T>(a: Seq<T>, b: Seq<T>, le: spec_fn(T, T) -> bool, i: int)
    requires
        0 <= i < a.len(),
        i < b.len(),
        a[i] == b[i],
    ensures
        lex_le(a.skip(i), b.skip(i), le) == lex_le(a.skip(i + 1), b.skip(i + 1), le),
{
    assert(a.skip(i).drop_first() =~= a.skip(i + 1));
    assert(b.skip(i).drop_first() =~= b.skip(i + 1));
}

/// Texts in code-point order.
pub fn text_le_exec(a: &[char], b: &[char]) -> (r: bool)
    ensures
        r == text_le(a@, b@),
{
    let mut i: usize = 0;
    assert(a@.skip(0) =~= a@);
    assert(b@.skip(0) =~= b@);
    while i < a.len() && i < b.len() && a[i] == b[i]
        invariant
            i <= a@.len(),
            i <= b@.len(),
            text_le(a@, b@) == lex_le(a@.skip(i as int), b@.skip(i as int), char_order()),
        decreases a@.len() - i,
    {
        proof {
            lemma_lex_skip(a@, b@, char_order(), i as int);
        }
        i += 1;
    }
    if i == a.len() {
        true
    } else if i == b.len() {
        false
    } else {
        a[i] <= b[i]
    }
}

fn part_le_exec(x: &Component, y: &Component) -> (r: bool)
    ensures
        r == part_le(x@, y@),
{
    match (x, y) {
        (Component::Normal(a), Component::Normal(b)) => text_le_exec(a.as_slice(), b.as_slice()),
        _ => {
            let rx: u8 = match x {
                Component::Root => 0,
                Component::Cur => 1,
                Component::Parent => 2,
                Component::Normal(_) => 3,
            };
            let ry: u8 = match y {
                Component::Root => 0,
                Component::Cur => 1,
                Component::Parent => 2,
                Component::Normal(_) => 3,
            };
            if rx != ry {
                rx < ry
            } else {
                true
            }
        },
    }
}

fn same_part(x: &Component, y: &Component) -> (r: bool)
    ensures
        r == (x@ == y@),
{
    match (x, y) {
        (Component::Root, Component::Root) => true,
        (Component::Cur, Component::Cur) => true,
        (Component::Parent, Component::Parent) => true,
        (Component::Normal(a), Component::Normal(b)) => crate::text::eq_chars(a.as_slice(), b.as_slice()),
        _ => false,
    }
}

/// Paths in `Path`'s order.
pub fn path_le_exec(a: &str, b: &str) -> (r: bool)
    ensures
        r == path_le(a@, b@),
{
    let ca = components(a);
    let cb = components(b);
    let ghost pa = parts_view(ca@);
    let ghost pb = parts_view(cb@);
    let ghost pl = part_order();
    let mut i: usize = 0;
    assert(pa.skip(0) =~= pa);
    assert(pb.skip(0) =~= pb);
    while i < ca.len() && i < cb.len() && same_part(&ca[i], &cb[i])
        invariant
            pa == parts_view(ca@),
            pb == parts_view(cb@),
            pa == path_parts(a@),
            pb == path_parts(b@),
            i <= ca@.len(),
            i <= cb@.len(),
            path_le(a@, b@) == lex_le(pa.skip(i as int), pb.skip(i as int), pl),
        decreases ca@.len() - i,
    {
        proof {
            lemma_lex_skip(pa, pb, pl, i as int);
        }
        i += 1;
    }
    if i == ca.len() {
        true
    } else if i == cb.len() {
        false
    } else {
        assert(pa.skip(i as int)[0] == pa[i as int]);
        part_le_exec(&ca[i], &cb[i])
    }
}

/// Sorts paths into `Path` order. Paths that compare equal both ways (two
/// spellings of one path) keep no particular order among themselves.
pub fn sort_paths(v: &Vec<String>) -> (r: Vec<String>)
    ensures
        r.deep_view().to_multiset() == v.deep_view().to_multiset(),
        sorted_by(r.deep_view(), path_order()),
{
    proof {
        lemma_path_order();
    }
    let ghost le = path_order();
    let mut r: Vec<String> = Vec::new();
    let mut i: usize = 0;
    assert(r.deep_view() =~= v.deep_view().take(0));
    while i < v.len()
        invariant
            i <= v@.len(),
            le == path_order(),
            total_preorder(le),
            r.deep_view().to_multiset() == v.deep_view().take(i as int).to_multiset(),
            sorted_by(r.deep_view(), le),
        decreases v@.len() - i,
    {
        let x = v[i].clone();
        let ghost rv = r.deep_view();
        let mut k: usize = r.len();
        while k > 0 && !path_le_exec(r[k - 1].as_str(), x.as_str())
            invariant
                k <= r@.len(),
                rv == r.deep_view(),
                le == path_order(),
                forall|j: int| k <= j < rv.len() ==> !le(#[trigger] rv[j], x@),
            decreases k,
        {
            assert(rv[k - 1] == r@[k - 1]@);
            assert(le(rv[k - 1], x@) == path_le(rv[k - 1], x@));
            k -= 1;
        }
        assert(k > 0 ==> le(rv[k - 1], x@)) by {
            if k > 0 {
                assert(rv[k - 1] == r@[k - 1]@);
                assert(le(rv[k - 1], x@) == path_le(rv[k - 1], x@));
            }
        }
        r.insert(k, x);
        let ghost nv = rv.insert(k as int, x@);
        assert(r.deep_view() =~= nv);
        proof {
            assert forall|a: int, b: int| 0 <= a < b < nv.len() implies #[trigger] le(
                nv[a],
                nv[b],
            ) by {
                if b < k {
                    assert(nv[a] == rv[a] && nv[b] == rv[b]);
                } else if a > k {
                    assert(nv[a] == rv[a - 1] && nv[b] == rv[b - 1]);
                } else if a == k {
                    assert(nv[b] == rv[b - 1]);
                    assert(!le(rv[b - 1], x@));
                    assert(le(rv[b - 1], x@) || le(x@, rv[b - 1]));
                } else if b == k {
                    assert(nv[a] == rv[a]);
                    if a < k - 1 {
                        assert(le(rv[a], rv[k - 1]));
                    }
                } else {
                    assert(nv[a] == rv[a] && nv[b] == rv[b - 1]);
                }
            }
            vstd::seq_lib::to_multiset_insert(rv, k as int, x@);
            assert(v.deep_view().take(i + 1) =~= v.deep_view().take(i as int).push(v@[i as int]@));
            vstd::seq_lib::to_multiset_build(v.deep_view().take(i as int), v@[i as int]@);
        }
        i += 1;
    }
    assert(v.deep_view().take(i as int) =~= v.deep_view());
    r
}

/// Two paths name the same place as `Path`'s `==` sees it: the same
/// components.
pub fn same_path(a: &str, b: &str) -> (r: bool)
    ensures
        r == (path_parts(a@) == path_parts(b@)),
{
    let ca = components(a);
    let cb = components(b);
    if ca.len() != cb.len() {
        assert(parts_view(ca@).len() != parts_view(cb@).len());
        return false;
    }
    let mut i: usize = 0;
    while i < ca.len()
        invariant
            ca@.len() == cb@.len(),
            parts_view(ca@) == path_parts(a@),
            parts_view(cb@) == path_parts(b@),
            i <= ca@.len(),
            forall|k: int| 0 <= k < i ==> parts_view(ca@)[k] == parts_view(cb@)[k],
        decreases ca@.len() - i,
    {
        if !same_part(&ca[i], &cb[i]) {
            assert(parts_view(ca@)[i as int] != parts_view(cb@)[i as int]);
            return false;
        }
        i += 1;
    }
    assert(parts_view(ca@) =~= parts_view(cb@));
    true
}

} // verus!
