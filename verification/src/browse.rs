//! The file browser: moving through a folder's entries with the keyboard
//! and marking several files. Reading a folder is the application's part:
//! it hands the browser the folder's sub-folders and files, or the error
//! it got.

use vstd::prelude::*;
use vstd::relations::sorted_by;

use crate::errors::{dir_error, dir_error_spec, IoKind};
use crate::lang::Lang;
use crate::order::{path_order, sort_paths};
use crate::order::{path_parts, same_path, PathPart};
use crate::paths::{extension, join, parent, path_extension, path_join, path_parent};
use crate::text::{clone_strings, str_eq, to_owned};
use crate::util::{is_media_ext, is_media_ext_spec};

verus! {

/// What the browser was opened for.
#[derive(Clone, Copy, PartialEq, Eq, Structural, Debug)]
pub enum PickMode {
    /// Media files, several marked with Space.
    Files,
    /// One folder, scanned with its sub-folders.
    Folder,
    /// The output folder.
    OutDir,
    /// The folder sources are moved to.
    MoveDir,
}

/// A line of the listing.
#[derive(Debug)]
pub struct Entry {
    pub path: String,
    pub is_dir: bool,
}

/// What confirming the browser gives.
#[derive(Debug)]
pub enum PickResult {
    /// Files or folders to add.
    Paths(Vec<String>),
    /// The chosen folder (output or move target).
    Dir(String),
}

#[derive(Debug)]
pub struct Browse {
    pub mode: PickMode,
    /// Interface language (for error lines).
    pub lang: Lang,
    /// The folder shown.
    pub cur: String,
    /// Sub-folders first, then files, each in path order.
    pub entries: Vec<Entry>,
    pub sel: usize,
    /// Marked paths, none twice.
    pub marked: Vec<String>,
    /// Why the folder could not be read.
    pub error: Option<String>,
}

/// Entries as (path, is a folder) pairs.
pub open spec fn entries_view(v: Seq<Entry>) -> Seq<(Seq<char>, bool)> {
    Seq::new(v.len(), |i: int| (v[i].path@, v[i].is_dir))
}

/// Paths tagged as folders or as files.
pub open spec fn tagged(v: Seq<Seq<char>>, is_dir: bool) -> Seq<(Seq<char>, bool)> {
    Seq::new(v.len(), |i: int| (v[i], is_dir))
}

/// The selection after moving down one line.
pub open spec fn down_spec(sel: nat, len: nat) -> nat {
    if sel + 1 < len {
        sel + 1
    } else {
        sel
    }
}

/// `q` with `p` marked if it was not, unmarked if it was.
pub open spec fn toggled(s: Set<Seq<char>>, p: Seq<char>) -> Set<Seq<char>> {
    if s.contains(p) {
        s.remove(p)
    } else {
        s.insert(p)
    }
}

/// Paths of the file (non-folder) entries.
pub open spec fn file_paths(v: Seq<(Seq<char>, bool)>) -> Set<Seq<char>> {
    Set::new(|p: Seq<char>| exists|i: int| 0 <= i < v.len() && v[i] == (p, false))
}

/// The marks after "mark all": every file of the folder unmarked when all
/// of them were marked, else every one of them marked.
pub open spec fn mark_all_spec(s: Set<Seq<char>>, files: Set<Seq<char>>) -> Set<Seq<char>> {
    if files.subset_of(s) {
        s.difference(files)
    } else {
        s.union(files)
    }
}

impl Browse {
    /// The marks as a set.
    pub open spec fn marked_set(&self) -> Set<Seq<char>> {
        Set::new(|q: Seq<char>| self.marked.deep_view().contains(q))
    }

    /// No path is marked twice.
    pub open spec fn wf(&self) -> bool {
        self.marked.deep_view().no_duplicates()
    }

    pub open spec fn entries_spec(&self) -> Seq<(Seq<char>, bool)> {
        entries_view(self.entries@)
    }

    /// The browser on folder `cur`, before it is read: nothing listed,
    /// nothing marked.
    pub fn new(mode: PickMode, cur: String) -> (b: Browse)
        ensures
            b.wf(),
            b.mode == mode,
            b.lang == Lang::Tr,
            b.cur@ == cur@,
            b.entries@.len() == 0,
            b.sel == 0,
            b.marked@.len() == 0,
            b.error is None,
    {
        let b = Browse {
            mode,
            lang: Lang::Tr,
            cur,
            entries: Vec::new(),
            sel: 0,
            marked: Vec::new(),
            error: None,
        };
        assert(b.marked.deep_view() =~= Seq::<Seq<char>>::empty());
        b
    }

    /// Shows a folder's contents: its sub-folders `dirs`, then its files
    /// `files`, each sorted; the selection stays where it was when it still
    /// points at a line, else it goes to the last line.
    pub fn set_listing(&mut self, dirs: &Vec<String>, files: &Vec<String>)
        ensures
            final(self).error is None,
            exists|d: Seq<Seq<char>>, f: Seq<Seq<char>>|
                {
                    &&& d.to_multiset() == dirs.deep_view().to_multiset()
                    &&& f.to_multiset() == files.deep_view().to_multiset()
                    &&& sorted_by(d, path_order())
                    &&& sorted_by(f, path_order())
                    &&& final(self).entries_spec() == tagged(d, true) + tagged(f, false)
                },
            final(self).sel == (if old(self).sel < final(self).entries@.len() {
                old(self).sel as int
            } else if final(self).entries@.len() == 0 {
                0
            } else {
                final(self).entries@.len() - 1
            }),
            final(self).entries@.len() == dirs@.len() + files@.len(),
            final(self).mode == old(self).mode,
            final(self).lang == old(self).lang,
            final(self).cur@ == old(self).cur@,
            final(self).marked.deep_view() == old(self).marked.deep_view(),
    {
        let sd = sort_paths(dirs);
        let sf = sort_paths(files);
        proof {
            vstd::seq_lib::to_multiset_len(sd.deep_view());
            vstd::seq_lib::to_multiset_len(dirs.deep_view());
            vstd::seq_lib::to_multiset_len(sf.deep_view());
            vstd::seq_lib::to_multiset_len(files.deep_view());
        }
        let mut entries: Vec<Entry> = Vec::new();
        let mut i: usize = 0;
        assert(sd.deep_view().len() == sd@.len());
        assert(sf.deep_view().len() == sf@.len());
        while i < sd.len()
            invariant
                i <= sd@.len(),
                sd.deep_view().len() == sd@.len(),
                entries_view(entries@) == tagged(sd.deep_view().take(i as int), true),
            decreases sd@.len() - i,
        {
            let p = sd[i].clone();
            assert(p@ == sd.deep_view()[i as int]);
            let ghost before = entries@;
            entries.push(Entry { path: p, is_dir: true });
            let ghost ev = entries_view(entries@);
            let ghost tv = tagged(sd.deep_view().take(i + 1), true);
            assert(entries_view(before).len() == before.len());
            assert(before.len() == i);
            assert(entries@.len() == i + 1);
            assert(sd.deep_view().take(i + 1).len() == i + 1);
            assert(tv.len() == i + 1);
            assert(ev.len() == tv.len());
            assert forall|k: int| 0 <= k < ev.len() implies ev[k] == tv[k] by {
                if k < i {
                    assert(entries@[k] == before[k]);
                    assert(entries_view(before)[k] == ev[k]);
                } else {
                    assert(entries@[k].path@ == p@);
                }
            }
            assert(ev =~= tv);
            i += 1;
        }
        assert(sd.deep_view().take(i as int) =~= sd.deep_view());
        let mut j: usize = 0;
        while j < sf.len()
            invariant
                j <= sf@.len(),
                sf.deep_view().len() == sf@.len(),
                entries_view(entries@) == tagged(sd.deep_view(), true) + tagged(
                    sf.deep_view().take(j as int),
                    false,
                ),
            decreases sf@.len() - j,
        {
            let p = sf[j].clone();
            assert(p@ == sf.deep_view()[j as int]);
            let ghost before = entries@;
            entries.push(Entry { path: p, is_dir: false });
            let ghost ev = entries_view(entries@);
            let ghost tv = tagged(sd.deep_view(), true) + tagged(sf.deep_view().take(j + 1), false);
            assert(entries_view(before).len() == before.len());
            assert(entries@.len() == before.len() + 1);
            assert(sf.deep_view().take(j + 1).len() == j + 1);
            assert(ev.len() == tv.len());
            assert forall|k: int| 0 <= k < ev.len() implies ev[k] == tv[k] by {
                if k < before.len() {
                    assert(entries@[k] == before[k]);
                    assert(entries_view(before)[k] == ev[k]);
                } else {
                    assert(entries@[k].path@ == p@);
                }
            }
            assert(ev =~= tv);
            j += 1;
        }
        assert(sf.deep_view().take(j as int) =~= sf.deep_view());
        self.entries = entries;
        self.error = None;
        let n = self.entries.len();
        if self.sel >= n {
            self.sel = if n == 0 {
                0
            } else {
                n - 1
            };
        }
    }

    /// Shows that the folder could not be read: the error line in the
    /// interface language, nothing listed.
    pub fn set_read_error(&mut self, raw: &str, kind: IoKind)
        ensures
            final(self).error matches Some(e) && e@ == dir_error_spec(
                old(self).cur@,
                raw@,
                kind,
                old(self).lang,
            ),
            final(self).entries@.len() == 0,
            final(self).sel == 0,
            final(self).mode == old(self).mode,
            final(self).lang == old(self).lang,
            final(self).cur@ == old(self).cur@,
            final(self).marked.deep_view() == old(self).marked.deep_view(),
    {
        self.error = Some(dir_error(self.cur.as_str(), raw, kind, self.lang));
        self.entries = Vec::new();
        self.sel = 0;
    }

    pub fn up(&mut self)
        ensures
            final(self).sel == (if old(self).sel > 0 {
                old(self).sel - 1
            } else {
                0
            }),
            final(self).entries@ == old(self).entries@,
            final(self).marked@ == old(self).marked@,
            final(self).cur == old(self).cur,
            final(self).mode == old(self).mode,
            final(self).lang == old(self).lang,
            final(self).error == old(self).error,
    {
        if self.sel > 0 {
            self.sel -= 1;
        }
    }

    pub fn down(&mut self)
        ensures
            final(self).sel == down_spec(old(self).sel as nat, old(self).entries@.len()),
            final(self).entries@ == old(self).entries@,
            final(self).marked@ == old(self).marked@,
            final(self).cur == old(self).cur,
            final(self).mode == old(self).mode,
            final(self).lang == old(self).lang,
            final(self).error == old(self).error,
    {
        if self.sel < self.entries.len() && self.sel + 1 < self.entries.len() {
            self.sel += 1;
        }
    }

    /// The entry under the cursor.
    pub fn current(&self) -> (r: Option<&Entry>)
        ensures
            r is Some <==> self.sel < self.entries@.len(),
            r matches Some(e) ==> *e == self.entries@[self.sel as int],
    {
        if self.sel < self.entries.len() {
            Some(&self.entries[self.sel])
        } else {
            None
        }
    }
}

/// `PickResult` with its texts taken by their characters.
pub enum PickResultView {
    Paths(Seq<Seq<char>>),
    Dir(Seq<char>),
}

impl View for PickResult {
    type V = PickResultView;

    open spec fn view(&self) -> PickResultView {
        match self {
            PickResult::Paths(v) => PickResultView::Paths(v.deep_view()),
            PickResult::Dir(d) => PickResultView::Dir(d@),
        }
    }
}

fn find_text(v: &Vec<String>, p: &str) -> (r: Option<usize>)
    ensures
        r matches Some(i) ==> i < v@.len() && v.deep_view()[i as int] == p@,
        r is None ==> !v.deep_view().contains(p@),
{
    let mut i: usize = 0;
    while i < v.len()
        invariant
            i <= v@.len(),
            v.deep_view().len() == v@.len(),
            forall|k: int| 0 <= k < i ==> v.deep_view()[k] != p@,
        decreases v@.len() - i,
    {
        if str_eq(v[i].as_str(), p) {
            return Some(i);
        }
        i += 1;
    }
    None
}

proof fn lemma_remove_no_dup(s: Seq<Seq<char>>, i: int)
    requires
        s.no_duplicates(),
        0 <= i < s.len(),
    ensures
        s.remove(i).no_duplicates(),
        forall|q: Seq<char>| s.remove(i).contains(q) <==> (s.contains(q) && q != s[i]),
{
    let t = s.remove(i);
    assert forall|a: int, b: int| 0 <= a < b < t.len() implies t[a] != t[b] by {
        let a2 = if a < i {
            a
        } else {
            a + 1
        };
        let b2 = if b < i {
            b
        } else {
            b + 1
        };
        assert(t[a] == s[a2] && t[b] == s[b2]);
    }
    assert forall|q: Seq<char>| t.contains(q) <==> (s.contains(q) && q != s[i]) by {
        if t.contains(q) {
            let a = choose|a: int| 0 <= a < t.len() && t[a] == q;
            let a2 = if a < i {
                a
            } else {
                a + 1
            };
            assert(s[a2] == q);
        }
        if s.contains(q) && q != s[i] {
            let a = choose|a: int| 0 <= a < s.len() && s[a] == q;
            if a < i {
                assert(t[a] == q);
            } else {
                assert(t[a - 1] == q);
            }
        }
    }
}

proof fn lemma_push_no_dup(s: Seq<Seq<char>>, p: Seq<char>)
    requires
        s.no_duplicates(),
        !s.contains(p),
    ensures
        s.push(p).no_duplicates(),
        forall|q: Seq<char>| s.push(p).contains(q) <==> (s.contains(q) || q == p),
{
    let t = s.push(p);
    assert forall|a: int, b: int| 0 <= a < b < t.len() implies t[a] != t[b] by {
        if b == s.len() {
            assert(t[a] == s[a]);
        }
    }
    assert forall|q: Seq<char>| t.contains(q) <==> (s.contains(q) || q == p) by {
        if t.contains(q) {
            let a = choose|a: int| 0 <= a < t.len() && t[a] == q;
            if a < s.len() {
                assert(s[a] == q);
            }
        }
        if s.contains(q) {
            let a = choose|a: int| 0 <= a < s.len() && s[a] == q;
            assert(t[a] == q);
        }
        if q == p {
            assert(t[s.len() as int] == q);
        }
    }
}

impl Browse {
    /// Marks `p` (no change if it is marked).
    fn mark(&mut self, p: &str)
        requires
            old(self).wf(),
        ensures
            final(self).wf(),
            final(self).marked_set() == old(self).marked_set().insert(p@),
            final(self).entries@ == old(self).entries@,
            final(self).sel == old(self).sel,
            final(self).cur == old(self).cur,
            final(self).mode == old(self).mode,
            final(self).lang == old(self).lang,
            final(self).error == old(self).error,
    {
        match find_text(&self.marked, p) {
            Some(_) => {
                assert(self.marked_set() =~= old(self).marked_set().insert(p@));
            },
            None => {
                let ghost s = self.marked.deep_view();
                self.marked.push(to_owned(p));
                assert(self.marked.deep_view() =~= s.push(p@));
                proof {
                    lemma_push_no_dup(s, p@);
                }
                assert(self.marked_set() =~= old(self).marked_set().insert(p@));
            },
        }
    }

    /// Unmarks `p` (no change if it is not marked).
    fn unmark(&mut self, p: &str)
        requires
            old(self).wf(),
        ensures
            final(self).wf(),
            final(self).marked_set() == old(self).marked_set().remove(p@),
            final(self).entries@ == old(self).entries@,
            final(self).sel == old(self).sel,
            final(self).cur == old(self).cur,
            final(self).mode == old(self).mode,
            final(self).lang == old(self).lang,
            final(self).error == old(self).error,
    {
        match find_text(&self.marked, p) {
            Some(i) => {
                let ghost s = self.marked.deep_view();
                self.marked.remove(i);
                assert(self.marked.deep_view() =~= s.remove(i as int));
                proof {
                    lemma_remove_no_dup(s, i as int);
                }
                assert(self.marked_set() =~= old(self).marked_set().remove(p@));
            },
            None => {
                assert(self.marked_set() =~= old(self).marked_set().remove(p@));
            },
        }
    }

    /// Space: marks the entry under the cursor, or unmarks it when it was
    /// marked, and moves down one line.
    pub fn toggle_mark(&mut self)
        requires
            old(self).wf(),
        ensures
            final(self).wf(),
            old(self).sel < old(self).entries@.len() ==> {
                &&& final(self).marked_set() == toggled(
                    old(self).marked_set(),
                    old(self).entries@[old(self).sel as int].path@,
                )
                &&& final(self).sel == down_spec(old(self).sel as nat, old(self).entries@.len())
            },
            old(self).sel >= old(self).entries@.len() ==> final(self).marked_set() == old(
                self,
            ).marked_set() && final(self).sel == old(self).sel,
            final(self).entries@ == old(self).entries@,
            final(self).cur == old(self).cur,
            final(self).mode == old(self).mode,
            final(self).lang == old(self).lang,
            final(self).error == old(self).error,
    {
        if self.sel >= self.entries.len() {
            return;
        }
        let p = self.entries[self.sel].path.clone();
        if find_text(&self.marked, p.as_str()).is_some() {
            self.unmark(p.as_str());
        } else {
            assert(!old(self).marked_set().contains(p@));
            self.mark(p.as_str());
        }
        self.down();
    }

    /// Clears every mark.
    pub fn clear_marks(&mut self)
        ensures
            final(self).wf(),
            final(self).marked_set() == Set::<Seq<char>>::empty(),
            final(self).entries@ == old(self).entries@,
            final(self).sel == old(self).sel,
            final(self).cur == old(self).cur,
            final(self).mode == old(self).mode,
            final(self).lang == old(self).lang,
            final(self).error == old(self).error,
    {
        self.marked = Vec::new();
        assert(self.marked.deep_view() =~= Seq::<Seq<char>>::empty());
        assert(self.marked_set() =~= Set::<Seq<char>>::empty());
    }
}

/// What confirming gives: in file mode the marked paths in order, or,
/// with nothing marked, the entry under the cursor; in the other modes
/// the folder shown (`Paths` for a folder to scan, `Dir` for a target).
pub open spec fn confirm_post(b: Browse, r: PickResultView) -> bool {
    &&& b.mode == PickMode::Files && b.marked@.len() > 0 ==> (r matches PickResultView::Paths(v)
        && v.to_multiset() == b.marked.deep_view().to_multiset() && sorted_by(v, path_order()))
    &&& b.mode == PickMode::Files && b.marked@.len() == 0 ==> r == PickResultView::Paths(
        if b.sel < b.entries@.len() {
            seq![b.entries@[b.sel as int].path@]
        } else {
            Seq::<Seq<char>>::empty()
        },
    )
    &&& b.mode == PickMode::Folder ==> r == PickResultView::Paths(seq![b.cur@])
    &&& (b.mode == PickMode::OutDir || b.mode == PickMode::MoveDir) ==> r == PickResultView::Dir(
        b.cur@,
    )
}

proof fn lemma_file_paths_step(ev: Seq<(Seq<char>, bool)>, k: int)
    requires
        0 <= k < ev.len(),
    ensures
        file_paths(ev.take(k + 1)) == (if ev[k].1 {
            file_paths(ev.take(k))
        } else {
            file_paths(ev.take(k)).insert(ev[k].0)
        }),
{
    let a = ev.take(k + 1);
    let b = ev.take(k);
    let rhs = if ev[k].1 {
        file_paths(b)
    } else {
        file_paths(b).insert(ev[k].0)
    };
    assert forall|p: Seq<char>| file_paths(a).contains(p) <==> rhs.contains(p) by {
        if file_paths(a).contains(p) {
            let i = choose|i: int| 0 <= i < a.len() && a[i] == (p, false);
            if i < k {
                assert(b[i] == (p, false));
            }
        }
        if file_paths(b).contains(p) {
            let i = choose|i: int| 0 <= i < b.len() && b[i] == (p, false);
            assert(a[i] == (p, false));
        }
        if !ev[k].1 && p == ev[k].0 {
            assert(a[k] == (p, false));
        }
    }
    assert(file_paths(a) =~= rhs);
}

impl Browse {
    /// Marks every file (not folder) of the folder; when all of them were
    /// marked already, unmarks them instead.
    pub fn mark_all_files(&mut self)
        requires
            old(self).wf(),
        ensures
            final(self).wf(),
            final(self).marked_set() == mark_all_spec(
                old(self).marked_set(),
                file_paths(old(self).entries_spec()),
            ),
            final(self).entries@ == old(self).entries@,
            final(self).sel == old(self).sel,
            final(self).cur == old(self).cur,
            final(self).mode == old(self).mode,
            final(self).lang == old(self).lang,
            final(self).error == old(self).error,
    {
        let ghost ev = self.entries_spec();
        let ghost m0 = self.marked_set();
        let n = self.entries.len();
        let mut every = true;
        let mut k: usize = 0;
        while k < n
            invariant
                n == self.entries@.len(),
                ev == self.entries_spec(),
                m0 == self.marked_set(),
                k <= n,
                every == file_paths(ev.take(k as int)).subset_of(m0),
            decreases n - k,
        {
            proof {
                lemma_file_paths_step(ev, k as int);
            }
            let e = &self.entries[k];
            assert(ev[k as int] == (e.path@, e.is_dir));
            let ghost fk = file_paths(ev.take(k as int));
            proof {
                if !e.is_dir {
                    let f1 = fk.insert(e.path@);
                    if fk.subset_of(m0) && m0.contains(e.path@) {
                        assert forall|q: Seq<char>| f1.contains(q) implies m0.contains(q) by {
                            if q != e.path@ {
                                assert(fk.contains(q));
                            }
                        }
                    }
                    if f1.subset_of(m0) {
                        assert(f1.contains(e.path@));
                        assert forall|q: Seq<char>| fk.contains(q) implies m0.contains(q) by {
                            assert(f1.contains(q));
                        }
                    }
                }
            }
            if !e.is_dir && find_text(&self.marked, e.path.as_str()).is_none() {
                every = false;
            }
            k += 1;
        }
        assert(ev.take(n as int) =~= ev);
        let ghost files = file_paths(ev);
        let mut k: usize = 0;
        assert(ev.take(0) =~= Seq::<(Seq<char>, bool)>::empty());
        assert(file_paths(ev.take(0)) =~= Set::<Seq<char>>::empty());
        assert(m0.union(Set::<Seq<char>>::empty()) =~= m0);
        assert(m0.difference(Set::<Seq<char>>::empty()) =~= m0);
        while k < n
            invariant
                n == self.entries@.len(),
                ev == self.entries_spec(),
                k <= n,
                self.wf(),
                every == files.subset_of(m0),
                files == file_paths(ev),
                self.marked_set() == (if every {
                    m0.difference(file_paths(ev.take(k as int)))
                } else {
                    m0.union(file_paths(ev.take(k as int)))
                }),
                self.sel == old(self).sel,
                self.cur == old(self).cur,
                self.mode == old(self).mode,
                self.lang == old(self).lang,
                self.error == old(self).error,
                self.entries@ == old(self).entries@,
            decreases n - k,
        {
            proof {
                lemma_file_paths_step(ev, k as int);
            }
            let p = self.entries[k].path.clone();
            let is_dir = self.entries[k].is_dir;
            assert(ev[k as int] == (p@, is_dir));
            let ghost before = self.marked_set();
            if !is_dir {
                if every {
                    self.unmark(p.as_str());
                    assert(self.marked_set() =~= m0.difference(file_paths(ev.take(k + 1))));
                } else {
                    self.mark(p.as_str());
                    assert(self.marked_set() =~= m0.union(file_paths(ev.take(k + 1))));
                }
            }
            k += 1;
        }
    }

    /// Enter: opens a folder (the folder must then be read: the result is
    /// `true`); on a media file, marks or unmarks it as Space does.
    pub fn enter(&mut self) -> (reload: bool)
        requires
            old(self).wf(),
        ensures
            final(self).wf(),
            reload <==> old(self).sel < old(self).entries@.len() && old(self).entries@[old(
                self,
            ).sel as int].is_dir,
            reload ==> final(self).cur@ == old(self).entries@[old(self).sel as int].path@
                && final(self).sel == 0 && final(self).marked_set() == old(self).marked_set(),
            !reload && old(self).sel < old(self).entries@.len() && is_media_ext_spec(
                match path_extension(old(self).entries@[old(self).sel as int].path@) {
                    Some(e) => e,
                    None => Seq::<char>::empty(),
                },
            ) ==> final(self).marked_set() == toggled(
                old(self).marked_set(),
                old(self).entries@[old(self).sel as int].path@,
            ) && final(self).sel == down_spec(old(self).sel as nat, old(self).entries@.len())
                && final(self).cur == old(self).cur,
            !reload && !(old(self).sel < old(self).entries@.len() && is_media_ext_spec(
                match path_extension(old(self).entries@[old(self).sel as int].path@) {
                    Some(e) => e,
                    None => Seq::<char>::empty(),
                },
            )) ==> final(self).marked_set() == old(self).marked_set() && final(self).sel == old(
                self,
            ).sel && final(self).cur == old(self).cur,
            final(self).entries@ == old(self).entries@,
            final(self).mode == old(self).mode,
            final(self).lang == old(self).lang,
            final(self).error == old(self).error,
    {
        if self.sel >= self.entries.len() {
            return false;
        }
        let path = self.entries[self.sel].path.clone();
        if self.entries[self.sel].is_dir {
            self.cur = path;
            self.sel = 0;
            return true;
        }
        let ext = match extension(path.as_str()) {
            Some(e) => e,
            None => String::new(),
        };
        assert(ext@ == match path_extension(path@) {
            Some(e) => e,
            None => Seq::<char>::empty(),
        });
        if is_media_ext(ext.as_str()) {
            self.toggle_mark();
        }
        false
    }

    /// Goes to the parent folder (which must then be read: the result is
    /// `true`); at the top there is none and nothing changes.
    pub fn go_up(&mut self) -> (reload: bool)
        ensures
            reload <==> path_parent(old(self).cur@) is Some,
            reload ==> final(self).cur@ == path_parent(old(self).cur@)->0 && final(self).sel == 0
                && path_parts(final(self).cur@) == path_parts(old(self).cur@).drop_last(),
            !reload <==> (path_parts(old(self).cur@).len() == 0 || path_parts(old(self).cur@).last()
                == PathPart::Root),
            !reload ==> final(self).cur == old(self).cur && final(self).sel == old(self).sel,
            final(self).entries@ == old(self).entries@,
            final(self).marked@ == old(self).marked@,
            final(self).mode == old(self).mode,
            final(self).lang == old(self).lang,
            final(self).error == old(self).error,
    {
        match parent(self.cur.as_str()) {
            Some(p) => {
                self.cur = p;
                self.sel = 0;
                true
            },
            None => false,
        }
    }

    /// What confirming gives: in file mode the marked paths in order, or,
    /// with nothing marked, the entry under the cursor; in the other modes
    /// the folder shown (`Paths` for a folder to scan, `Dir` for a target).
    pub fn confirm(&self) -> (r: PickResult)
        ensures
            confirm_post(*self, r@),
    {
        match self.mode {
            PickMode::Files => {
                if self.marked.len() > 0 {
                    PickResult::Paths(sort_paths(&self.marked))
                } else {
                    let mut out: Vec<String> = Vec::new();
                    if self.sel < self.entries.len() {
                        out.push(self.entries[self.sel].path.clone());
                    }
                    assert(out.deep_view() =~= (if self.sel < self.entries@.len() {
                        seq![self.entries@[self.sel as int].path@]
                    } else {
                        Seq::<Seq<char>>::empty()
                    }));
                    PickResult::Paths(out)
                }
            },
            PickMode::Folder => {
                let mut out: Vec<String> = Vec::new();
                out.push(self.cur.clone());
                assert(out.deep_view() =~= seq![self.cur@]);
                PickResult::Paths(out)
            },
            PickMode::OutDir => PickResult::Dir(self.cur.clone()),
            PickMode::MoveDir => PickResult::Dir(self.cur.clone()),
        }
    }
}

/// Marking a path twice leaves the marks as they were.
pub proof fn lemma_toggle_twice(s: Set<Seq<char>>, p: Seq<char>)
    ensures
        toggled(toggled(s, p), p) == s,
{
    if s.contains(p) {
        assert(s.remove(p).insert(p) =~= s);
    } else {
        assert(s.insert(p).remove(p) =~= s);
    }
}

/// "Mark all" marks every file of the folder when some was unmarked, and
/// pressed again from there it gives back the marks it started from
/// without them.
pub proof fn lemma_mark_all(s: Set<Seq<char>>, files: Set<Seq<char>>)
    ensures
        !files.subset_of(s) ==> files.subset_of(mark_all_spec(s, files)),
        files.subset_of(s) ==> mark_all_spec(s, files).intersect(files) == Set::<Seq<char>>::empty(),
        files.subset_of(s) && files != Set::<Seq<char>>::empty() ==> mark_all_spec(
            mark_all_spec(s, files),
            files,
        ) == s,
{
    if files.subset_of(s) {
        assert(s.difference(files).intersect(files) =~= Set::<Seq<char>>::empty());
        if files != Set::<Seq<char>>::empty() {
            assert(exists|y: Seq<char>| files.contains(y)) by {
                if !(exists|y: Seq<char>| files.contains(y)) {
                    assert(files =~= Set::<Seq<char>>::empty());
                }
            }
            let x = choose|y: Seq<char>| files.contains(y);
            assert(!s.difference(files).contains(x));
            assert(s.difference(files).union(files) =~= s);
        }
    }
}

/// A list of labelled folders, both taken by their characters.
pub open spec fn starts_view(v: Seq<(&'static str, String)>) -> Seq<(Seq<char>, Seq<char>)> {
    Seq::new(v.len(), |i: int| (v[i].0@, v[i].1@))
}

/// Some folder of the list is `p` (as `Path`'s `==` compares).
pub open spec fn lists_path(v: Seq<(Seq<char>, Seq<char>)>, p: Seq<char>) -> bool {
    exists|i: int| 0 <= i < v.len() && path_parts(#[trigger] v[i].1) == path_parts(p)
}

/// The entry `(label, path)` when `present`, else nothing.
pub open spec fn entry_if(present: bool, label: Seq<char>, path: Seq<char>) -> Seq<(Seq<char>, Seq<char>)> {
    if present {
        seq![(label, path)]
    } else {
        seq![]
    }
}

/// The browser's quick-start folders, in order: the shared storage with
/// its `Music` and `Movies` folders (on Termux), the home folder, the
/// phone's usual storage paths, the downloads folder unless listed
/// already, and `/` unless listed already. `shared` is the shared folder
/// when it exists; `music`, `movies`, `sdcard`, `sdcard_dl` and `emulated`
/// say whether those folders exist; `downloads` is given when it is a
/// folder.
pub open spec fn quick_starts_spec(
    shared: Option<Seq<char>>,
    music: bool,
    movies: bool,
    home: Option<Seq<char>>,
    sdcard: bool,
    sdcard_dl: bool,
    emulated: bool,
    downloads: Option<Seq<char>>,
) -> Seq<(Seq<char>, Seq<char>)> {
    let a = match shared {
        Some(s) => seq![("Depolama"@, s)] + entry_if(music, "Music"@, path_join(s, "Music"@))
            + entry_if(movies, "Movies"@, path_join(s, "Movies"@)),
        None => seq![],
    };
    let b = a + match home {
        Some(h) => seq![("~"@, h)],
        None => seq![],
    } + entry_if(sdcard, "/sdcard"@, "/sdcard"@) + entry_if(
        sdcard_dl,
        "/sdcard/Download"@,
        "/sdcard/Download"@,
    ) + entry_if(emulated, "/storage/emulated/0"@, "/storage/emulated/0"@);
    let c = match downloads {
        Some(d) => if lists_path(b, d) {
            b
        } else {
            b.push(("Downloads"@, d))
        },
        None => b,
    };
    if lists_path(c, "/"@) {
        c
    } else {
        c.push(("/"@, "/"@))
    }
}

fn push_start(v: &mut Vec<(&'static str, String)>, label: &'static str, path: String)
    ensures
        starts_view(final(v)@) == starts_view(old(v)@).push((label@, path@)),
{
    let ghost before = starts_view(v@);
    v.push((label, path));
    assert(starts_view(v@) =~= before.push((label@, path@)));
}

fn lists_path_exec(v: &Vec<(&'static str, String)>, p: &str) -> (r: bool)
    ensures
        r == lists_path(starts_view(v@), p@),
{
    let ghost sv = starts_view(v@);
    let mut i: usize = 0;
    while i < v.len()
        invariant
            i <= v@.len(),
            sv == starts_view(v@),
            forall|k: int| 0 <= k < i ==> path_parts(#[trigger] sv[k].1) != path_parts(p@),
        decreases v@.len() - i,
    {
        if same_path(v[i].1.as_str(), p) {
            assert(path_parts(sv[i as int].1) == path_parts(p@));
            return true;
        }
        i += 1;
    }
    false
}

pub fn quick_starts(
    shared: Option<String>,
    music: bool,
    movies: bool,
    home: Option<String>,
    sdcard: bool,
    sdcard_dl: bool,
    emulated: bool,
    downloads: Option<String>,
) -> (r: Vec<(&'static str, String)>)
    ensures
        starts_view(r@) == quick_starts_spec(
            shared.deep_view(),
            music,
            movies,
            home.deep_view(),
            sdcard,
            sdcard_dl,
            emulated,
            downloads.deep_view(),
        ),
{
    let mut v: Vec<(&'static str, String)> = Vec::new();
    match shared {
        Some(s) => {
            let m = join(s.as_str(), "Music");
            let mv = join(s.as_str(), "Movies");
            push_start(&mut v, "Depolama", s);
            if music {
                push_start(&mut v, "Music", m);
            }
            if movies {
                push_start(&mut v, "Movies", mv);
            }
        },
        None => {},
    }
    let ghost a = starts_view(v@);
    let ghost sa = match shared.deep_view() {
        Some(x) => seq![("Depolama"@, x)] + entry_if(music, "Music"@, path_join(x, "Music"@))
            + entry_if(movies, "Movies"@, path_join(x, "Movies"@)),
        None => Seq::<(Seq<char>, Seq<char>)>::empty(),
    };
    assert(a =~= sa);
    match home {
        Some(h) => push_start(&mut v, "~", h),
        None => {},
    }
    if sdcard {
        push_start(&mut v, "/sdcard", to_owned("/sdcard"));
    }
    if sdcard_dl {
        push_start(&mut v, "/sdcard/Download", to_owned("/sdcard/Download"));
    }
    if emulated {
        push_start(&mut v, "/storage/emulated/0", to_owned("/storage/emulated/0"));
    }
    let ghost b = starts_view(v@);
    let ghost sb = sa + match home.deep_view() {
        Some(x) => seq![("~"@, x)],
        None => Seq::<(Seq<char>, Seq<char>)>::empty(),
    } + entry_if(sdcard, "/sdcard"@, "/sdcard"@) + entry_if(
        sdcard_dl,
        "/sdcard/Download"@,
        "/sdcard/Download"@,
    ) + entry_if(emulated, "/storage/emulated/0"@, "/storage/emulated/0"@);
    assert(b =~= sb);
    match downloads {
        Some(d) => if !lists_path_exec(&v, d.as_str()) {
            push_start(&mut v, "Downloads", d);
        },
        None => {},
    }
    if !lists_path_exec(&v, "/") {
        push_start(&mut v, "/", to_owned("/"));
    }
    v
}

/// Going up from a folder entered from `d` (a sub-folder: `d`'s components
/// and one more name, as reading a folder lists them) leads back to `d`, as
/// paths compare. `child` is where `enter` went, `up` where `go_up` went.
pub proof fn lemma_up_undoes_enter(d: Seq<char>, name: Seq<char>, child: Seq<char>, up: Seq<char>)
    requires
        path_parts(child) == path_parts(d).push(PathPart::Normal(name)),
        path_parts(up) == path_parts(child).drop_last(),
    ensures
        path_parts(up) == path_parts(d),
{
    assert(path_parts(d).push(PathPart::Normal(name)).drop_last() =~= path_parts(d));
}

} // verus!
