//! Processor facts and the parallel plan derived from them: how many jobs
//! run at once and how many encoder threads each job gets.

use vstd::prelude::*;

use crate::text::{
    chars_of, eq_chars, match_at, split_chars, split_from, split_seq, starts_with_seq, string_of,
    sub_chars, trim_chars, trim_seq,
};

verus! {

pub struct CpuInfo {
    /// Model name, for display only (empty when unknown).
    pub model: String,
    /// Physical cores, where the platform reports them.
    pub physical: Option<u32>,
    /// Logical threads (hyper-threading included).
    pub logical: u32,
}

/// Half the logical threads, kept within 2..=8.
pub open spec fn auto_workers_spec(logical: u32) -> nat {
    let h = logical / 2;
    if h < 2 {
        2
    } else if h > 8 {
        8
    } else {
        h as nat
    }
}

/// Jobs that run at once: the automatic count for setting 0, else the
/// setting kept within 1..=16; never more than the jobs there are (and at
/// least one).
pub open spec fn plan_workers(logical: u32, setting: u32, n_jobs: nat) -> nat {
    let w: nat = if setting == 0 {
        auto_workers_spec(logical)
    } else if setting > 16 {
        16
    } else {
        setting as nat
    };
    let cap: nat = if n_jobs == 0 {
        1
    } else {
        n_jobs
    };
    if w < cap {
        w
    } else {
        cap
    }
}

/// Logical threads shared out evenly over the workers (at least one each).
pub open spec fn plan_threads(logical: u32, workers: nat) -> nat {
    let t = logical as nat / workers;
    if t < 1 {
        1
    } else {
        t
    }
}

impl CpuInfo {
    /// Automatic number of parallel jobs.
    pub fn auto_workers(&self) -> (r: usize)
        ensures
            r == auto_workers_spec(self.logical),
            2 <= r <= 8,
    {
        let h: u32 = self.logical / 2;
        if h < 2 {
            2
        } else if h > 8 {
            8
        } else {
            h as usize
        }
    }
}

/// Parallel plan: (jobs at once, threads per job).
pub fn plan(cpu: &CpuInfo, workers: u32, n_jobs: usize) -> (r: (usize, u32))
    ensures
        r.0 == plan_workers(cpu.logical, workers, n_jobs as nat),
        r.1 == plan_threads(cpu.logical, r.0 as nat),
        1 <= r.0 <= 16,
        n_jobs > 0 ==> r.0 <= n_jobs,
        r.1 >= 1,
        r.0 as int * r.1 as int <= cpu.logical || r.1 == 1,
        n_jobs == 1 ==> r.0 == 1 && r.1 == (if cpu.logical < 1 {
            1
        } else {
            cpu.logical
        }),
{
    let w: usize = if workers == 0 {
        cpu.auto_workers()
    } else if workers > 16 {
        16
    } else {
        workers as usize
    };
    let cap: usize = if n_jobs == 0 {
        1
    } else {
        n_jobs
    };
    let w = if w < cap {
        w
    } else {
        cap
    };
    let t0: u32 = cpu.logical / (w as u32);
    let t: u32 = if t0 < 1 {
        1
    } else {
        t0
    };
    let ghost wi = w as int;
    let ghost li = cpu.logical as int;
    let ghost ti = t0 as int;
    assert(ti == li / wi);
    assert(wi * ti <= li) by (nonlinear_arith)
        requires
            wi >= 1,
            li >= 0,
            ti == li / wi,
    ;
    if n_jobs == 1 {
        assert(w == 1);
        assert(li / 1 == li) by (nonlinear_arith);
        assert(t0 == cpu.logical);
    }
    (w, t)
}

// ---------------------------------------------------------------------------
// Reading the Linux processor table
// ---------------------------------------------------------------------------

/// `str::lines`: pieces between `\n`; a `\r` before a `\n` is dropped and an
/// empty piece after a final `\n` does not count.
pub open spec fn line_piece(p: Seq<char>) -> Seq<char> {
    if p.len() > 0 && p.last() == '\r' {
        p.drop_last()
    } else {
        p
    }
}

pub open spec fn lines_seq(s: Seq<char>) -> Seq<Seq<char>> {
    let p = split_seq(s, '\n');
    let body = Seq::new((p.len() - 1) as nat, |i: int| line_piece(p[i]));
    if p.last().len() == 0 {
        body
    } else {
        body.push(p.last())
    }
}

pub proof fn lemma_split_from_nonempty(s: Seq<char>, sep: char, start: int, i: int)
    ensures
        split_from(s, sep, start, i).len() >= 1,
    decreases s.len() - i,
{
    if i >= s.len() {
    } else if s[i] == sep {
        lemma_split_from_nonempty(s, sep, i + 1, i + 1);
    } else {
        lemma_split_from_nonempty(s, sep, start, i + 1);
    }
}

pub fn lines_of(s: &Vec<char>) -> (r: Vec<Vec<char>>)
    ensures
        r.deep_view() == lines_seq(s@),
{
    let p = split_chars(s, '\n');
    let ghost ps = p.deep_view();
    proof {
        lemma_split_from_nonempty(s@, '\n', 0, 0);
    }
    assert(ps.len() >= 1);
    let n = p.len();
    let mut r: Vec<Vec<char>> = Vec::new();
    let mut i: usize = 0;
    while i + 1 < n
        invariant
            n == ps.len(),
            ps == p.deep_view(),
            n >= 1,
            i <= n - 1,
            r.deep_view() =~= lines_seq(s@).take(i as int),
            ps == split_seq(s@, '\n'),
        decreases n - i,
    {
        let piece = &p[i];
        assert(piece.deep_view() =~= piece@);
        assert(ps[i as int] == piece@);
        let k = piece.len();
        let line = if k > 0 && piece[k - 1] == '\r' {
            sub_chars(piece, 0, k - 1)
        } else {
            sub_chars(piece, 0, k)
        };
        let ghost lv = line@;
        assert(lv =~= line_piece(ps[i as int]));
        assert(lines_seq(s@)[i as int] == lv);
        assert(line.deep_view() =~= lv);
        let ghost rv = r@;
        let ghost before = r.deep_view();
        r.push(line);
        assert(r@ == rv.push(line));
        i += 1;
        assert(r.deep_view() =~= before.push(lv));
        assert(r.deep_view() =~= lines_seq(s@).take(i as int));
    }
    let last = &p[n - 1];
    assert(last.deep_view() =~= last@);
    assert(ps.last() == last@);
    let ghost body = Seq::new((ps.len() - 1) as nat, |j: int| line_piece(ps[j]));
    assert(lines_seq(s@).take(i as int) =~= body);
    assert(r.deep_view() =~= body);
    if last.len() > 0 {
        let line = sub_chars(last, 0, last.len());
        let ghost lv = line@;
        assert(line.deep_view() =~= lv);
        let ghost rv = r@;
        let ghost before = r.deep_view();
        r.push(line);
        assert(r@ == rv.push(line));
        assert(r.deep_view() =~= before.push(lv));
        assert(lines_seq(s@) == body.push(ps.last()));
        assert(lv =~= ps.last());
    } else {
        assert(lines_seq(s@) == body);
    }
    assert(r.deep_view() =~= lines_seq(s@));
    r
}

/// What follows `p` at the start of `s`, if `s` starts with `p`.
pub open spec fn strip_prefix_seq(s: Seq<char>, p: Seq<char>) -> Option<Seq<char>> {
    if starts_with_seq(s, p) {
        Some(s.subrange(p.len() as int, s.len() as int))
    } else {
        None
    }
}

/// Index of the first `c` in `s` at or after `i`, if any.
pub open spec fn find_from(s: Seq<char>, c: char, i: int) -> Option<int>
    decreases s.len() - i,
{
    if i < 0 || i >= s.len() {
        None
    } else if s[i] == c {
        Some(i)
    } else {
        find_from(s, c, i + 1)
    }
}

/// `str::split_once(c)`, the part after the separator.
pub open spec fn after_first(s: Seq<char>, c: char) -> Option<Seq<char>> {
    match find_from(s, c, 0) {
        Some(k) => Some(s.subrange(k + 1, s.len() as int)),
        None => None,
    }
}

pub proof fn lemma_find_from_bounds(s: Seq<char>, c: char, i: int)
    ensures
        find_from(s, c, i) matches Some(k) ==> i <= k < s.len() && s[k] == c,
    decreases s.len() - i,
{
    if i < 0 || i >= s.len() {
    } else if s[i] == c {
    } else {
        lemma_find_from_bounds(s, c, i + 1);
    }
}

pub fn find_char(s: &Vec<char>, c: char) -> (r: Option<usize>)
    ensures
        r matches Some(k) ==> find_from(s@, c, 0) == Some(k as int),
        r is None ==> find_from(s@, c, 0) is None,
{
    let mut i: usize = 0;
    while i < s.len()
        invariant
            i <= s@.len(),
            find_from(s@, c, i as int) == find_from(s@, c, 0),
        decreases s@.len() - i,
    {
        if s[i] == c {
            return Some(i);
        }
        i += 1;
    }
    None
}

/// Value after the first `:` of a line that starts with `key`, trimmed.
pub open spec fn field_value(line: Seq<char>, key: Seq<char>) -> Option<Seq<char>> {
    match strip_prefix_seq(line, key) {
        Some(rest) => match after_first(rest, ':') {
            Some(v) => Some(trim_seq(v)),
            None => None,
        },
        None => None,
    }
}

pub fn field_of(line: &Vec<char>, key: &str) -> (r: Option<Vec<char>>)
    ensures
        r.deep_view() == field_value(line@, key@),
{
    let k = chars_of(key);
    if !match_at(line.as_slice(), k.as_slice(), 0) {
        return None;
    }
    let rest = sub_chars(line, k.len(), line.len());
    match find_char(&rest, ':') {
        Some(j) => {
            proof {
                lemma_find_from_bounds(rest@, ':', 0);
            }
            let after = sub_chars(&rest, j + 1, rest.len());
            let t = trim_chars(&after);
            let ghost tv = t@;
            assert(t.deep_view() =~= tv);
            Some(t)
        },
        None => None,
    }
}

/// State while reading the table: model name, current physical id and the
/// distinct (physical id, core id) pairs in order of appearance.
pub struct CpuScan {
    pub model: Seq<char>,
    pub phys: Seq<char>,
    pub cores: Seq<(Seq<char>, Seq<char>)>,
}

pub open spec fn scan_line(st: CpuScan, line: Seq<char>) -> CpuScan {
    if strip_prefix_seq(line, "model name"@) is Some {
        match field_value(line, "model name"@) {
            Some(v) => if st.model.len() == 0 {
                CpuScan { model: v, ..st }
            } else {
                st
            },
            None => st,
        }
    } else if strip_prefix_seq(line, "physical id"@) is Some {
        match field_value(line, "physical id"@) {
            Some(v) => CpuScan { phys: v, ..st },
            None => st,
        }
    } else if strip_prefix_seq(line, "core id"@) is Some {
        match field_value(line, "core id"@) {
            Some(v) => if st.cores.contains((st.phys, v)) {
                st
            } else {
                CpuScan { cores: st.cores.push((st.phys, v)), ..st }
            },
            None => st,
        }
    } else {
        st
    }
}

pub open spec fn scan_lines(lines: Seq<Seq<char>>) -> CpuScan
    decreases lines.len(),
{
    if lines.len() == 0 {
        CpuScan { model: seq![], phys: seq![], cores: seq![] }
    } else {
        scan_line(scan_lines(lines.drop_last()), lines.last())
    }
}

/// Model name and physical core count read from `/proc/cpuinfo` text.
pub open spec fn cpuinfo_spec(text: Seq<char>) -> (Seq<char>, Option<nat>) {
    let st = scan_lines(lines_seq(text));
    (st.model, if st.cores.len() == 0 {
        None
    } else {
        Some(st.cores.len())
    })
}

fn contains_pair(v: &Vec<(Vec<char>, Vec<char>)>, a: &Vec<char>, b: &Vec<char>) -> (r: bool)
    ensures
        r == v.deep_view().contains((a@, b@)),
{
    let mut i: usize = 0;
    while i < v.len()
        invariant
            i <= v@.len(),
            forall|j: int| 0 <= j < i ==> v.deep_view()[j] != (a@, b@),
        decreases v@.len() - i,
    {
        let (x, y) = &v[i];
        if eq_chars(x.as_slice(), a.as_slice()) && eq_chars(y.as_slice(), b.as_slice()) {
            assert(v.deep_view()[i as int] == (x@, y@));
            assert(x.deep_view() =~= x@ && y.deep_view() =~= y@);
            return true;
        }
        assert(x.deep_view() =~= x@ && y.deep_view() =~= y@);
        i += 1;
    }
    false
}

/// Reads the model name and the number of distinct physical cores from the
/// text of `/proc/cpuinfo`.
pub fn raw_info(text: &str) -> (r: (String, Option<u32>))
    ensures
        r.0@ == cpuinfo_spec(text@).0,
        r.1 matches Some(n) ==> cpuinfo_spec(text@).1 == Some(n as nat),
        r.1 is None ==> cpuinfo_spec(text@).1 is None || cpuinfo_spec(text@).1.unwrap() > u32::MAX,
{
    let chars = chars_of(text);
    let lines = lines_of(&chars);
    let ghost ls = lines.deep_view();
    let mut model: Vec<char> = Vec::new();
    let mut phys: Vec<char> = Vec::new();
    let mut cores: Vec<(Vec<char>, Vec<char>)> = Vec::new();
    let mut i: usize = 0;
    assert(ls.take(0) =~= Seq::<Seq<char>>::empty());
    assert(cores.deep_view() =~= Seq::<(Seq<char>, Seq<char>)>::empty());
    assert(model@ =~= Seq::<char>::empty());
    while i < lines.len()
        invariant
            ls == lines.deep_view(),
            ls == lines_seq(text@),
            i <= ls.len(),
            scan_lines(ls.take(i as int)) == (CpuScan {
                model: model@,
                phys: phys@,
                cores: cores.deep_view(),
            }),
        decreases ls.len() - i,
    {
        let line = &lines[i];
        assert(line.deep_view() =~= line@);
        assert(ls.take(i + 1).drop_last() =~= ls.take(i as int));
        assert(ls.take(i + 1).last() == line@);
        let mn = chars_of("model name");
        let pi = chars_of("physical id");
        let ci = chars_of("core id");
        if match_at(line.as_slice(), mn.as_slice(), 0) {
            if let Some(v) = field_of(line, "model name") {
                assert(v.deep_view() =~= v@);
                if model.len() == 0 {
                    model = v;
                }
            }
        } else if match_at(line.as_slice(), pi.as_slice(), 0) {
            if let Some(v) = field_of(line, "physical id") {
                assert(v.deep_view() =~= v@);
                phys = v;
            }
        } else if match_at(line.as_slice(), ci.as_slice(), 0) {
            if let Some(v) = field_of(line, "core id") {
                assert(v.deep_view() =~= v@);
                if !contains_pair(&cores, &phys, &v) {
                    let ghost before = cores.deep_view();
                    let ghost cv = cores@;
                    let pair = (phys.clone(), v);
                    assert(pair.0@ == phys@);
                    let ghost pv = (pair.0@, pair.1@);
                    assert(pair.deep_view() == pv) by {
                        assert(pair.0.deep_view() =~= pair.0@);
                        assert(pair.1.deep_view() =~= pair.1@);
                    }
                    cores.push(pair);
                    assert(cores@ == cv.push(pair));
                    assert(cores.deep_view() =~= before.push(pv));
                }
            }
        }
        i += 1;
    }
    assert(ls.take(ls.len() as int) =~= ls);
    let name = string_of(model.as_slice());
    let n = cores.len();
    if n == 0 {
        (name, None)
    } else if n > 0xffff_ffff {
        (name, None)
    } else {
        (name, Some(n as u32))
    }
}

} // verus!
