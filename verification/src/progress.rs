//! What a running ffmpeg reports: its `-progress` lines turned into
//! progress and speed, and its error output turned into a short message.

use vstd::prelude::*;

use crate::cpu::{lines_of, lines_seq};
use crate::num::u64_text;
use crate::text::{
    chars_of, join_seq, join_strings, starts_with_seq, string_of, sub_chars, to_owned, trim_seq,
};

verus! {

/// What one progress line says.
#[derive(Debug, PartialEq, Eq)]
pub enum ProgressEvent {
    /// Progress in thousandths of the job.
    Permille(u32),
    /// The encoder's speed, as shown (`x1.5`).
    Speed(String),
    /// Nothing to report.
    Nothing,
}

pub enum ProgressEventView {
    Permille(u32),
    Speed(Seq<char>),
    Nothing,
}

impl View for ProgressEvent {
    type V = ProgressEventView;

    open spec fn view(&self) -> ProgressEventView {
        match self {
            ProgressEvent::Permille(p) => ProgressEventView::Permille(*p),
            ProgressEvent::Speed(s) => ProgressEventView::Speed(s@),
            ProgressEvent::Nothing => ProgressEventView::Nothing,
        }
    }
}

/// A whole number with an optional sign: its value, negatives as 0.
pub open spec fn signed_text(s: Seq<char>) -> Option<nat> {
    if s.len() > 1 && s[0] == '-' && s[1] != '+' {
        match u64_text(s.drop_first()) {
            Some(_) => Some(0),
            None => None,
        }
    } else {
        u64_text(s)
    }
}

/// `part / whole` in thousandths, at most 1000.
pub open spec fn permille_of(part: nat, whole: nat) -> u32 {
    let p = part * 1000 / whole;
    if p > 1000 {
        1000
    } else {
        p as u32
    }
}

/// The event of a progress line for a job lasting `total_us`
/// microseconds: `out_time_us=` (microseconds) and `out_time_ms=` (read as
/// milliseconds) give progress, `speed=` gives the speed unless it is
/// empty, `0.0` or `N/A`.
pub open spec fn progress_spec(line: Seq<char>, total_us: nat) -> ProgressEventView {
    if starts_with_seq(line, "out_time_us="@) {
        match signed_text(line.skip(12)) {
            Some(us) => if total_us > 0 {
                ProgressEventView::Permille(permille_of(us, total_us))
            } else {
                ProgressEventView::Nothing
            },
            None => ProgressEventView::Nothing,
        }
    } else if starts_with_seq(line, "out_time_ms="@) {
        match signed_text(line.skip(12)) {
            Some(ms) => if total_us > 0 {
                ProgressEventView::Permille(permille_of(ms * 1000, total_us))
            } else {
                ProgressEventView::Nothing
            },
            None => ProgressEventView::Nothing,
        }
    } else if starts_with_seq(line, "speed="@) {
        let t = trim_seq(line.skip(6));
        if t.len() > 0 && t != "0.0"@ && t != "N/A"@ {
            ProgressEventView::Speed("x"@ + t)
        } else {
            ProgressEventView::Nothing
        }
    } else {
        ProgressEventView::Nothing
    }
}

fn signed_value(v: &Vec<char>, a: usize) -> (r: Option<u64>)
    requires
        a <= v@.len(),
    ensures
        match r {
            Some(x) => signed_text(v@.skip(a as int)) == Some(x as nat),
            None => signed_text(v@.skip(a as int)) is None,
        },
{
    let n = v.len();
    if a < n && n - a > 1 && v[a] == '-' && v[a + 1] != '+' {
        assert(v@.skip(a as int).drop_first() =~= v@.subrange(a + 1, n as int));
        match crate::num::parse_u64_range(v, a + 1, n) {
            Some(_) => Some(0),
            None => None,
        }
    } else {
        assert(v@.skip(a as int) =~= v@.subrange(a as int, n as int));
        crate::num::parse_u64_range(v, a, n)
    }
}

fn permille_exec(part: u128, whole: u64) -> (r: u32)
    requires
        whole > 0,
        part <= u64::MAX as u128 * 1000,
    ensures
        r == permille_of(part as nat, whole as nat),
{
    let p: u128 = part * 1000 / (whole as u128);
    if p > 1000 {
        1000
    } else {
        p as u32
    }
}

pub fn progress_event(line: &str, total_us: u64) -> (r: ProgressEvent)
    ensures
        r@ == progress_spec(line@, total_us as nat),
{
    proof {
        reveal_strlit("out_time_us=");
        reveal_strlit("out_time_ms=");
        reveal_strlit("speed=");
    }
    let v = chars_of(line);
    let us_key = chars_of("out_time_us=");
    let ms_key = chars_of("out_time_ms=");
    let sp_key = chars_of("speed=");
    if crate::text::match_at(v.as_slice(), us_key.as_slice(), 0) {
        match signed_value(&v, 12) {
            Some(us) => if total_us > 0 {
                ProgressEvent::Permille(permille_exec(us as u128, total_us))
            } else {
                ProgressEvent::Nothing
            },
            None => ProgressEvent::Nothing,
        }
    } else if crate::text::match_at(v.as_slice(), ms_key.as_slice(), 0) {
        match signed_value(&v, 12) {
            Some(ms) => if total_us > 0 {
                ProgressEvent::Permille(permille_exec(ms as u128 * 1000, total_us))
            } else {
                ProgressEvent::Nothing
            },
            None => ProgressEvent::Nothing,
        }
    } else if crate::text::match_at(v.as_slice(), sp_key.as_slice(), 0) {
        let rest = sub_chars(&v, 6, v.len());
        assert(rest@ =~= line@.skip(6));
        let rs = string_of(rest.as_slice());
        let t = crate::text::trim(rs.as_str());
        let tv = chars_of(t.as_str());
        let zero = chars_of("0.0");
        let na = chars_of("N/A");
        if tv.len() > 0 && !crate::text::eq_chars(tv.as_slice(), zero.as_slice())
            && !crate::text::eq_chars(tv.as_slice(), na.as_slice()) {
            let mut s = to_owned("x");
            s.append(t.as_str());
            ProgressEvent::Speed(s)
        } else {
            ProgressEvent::Nothing
        }
    } else {
        ProgressEvent::Nothing
    }
}

/// The message of a failed job: the last ten lines of ffmpeg's error
/// output joined with ` | `, or a fixed sentence when there is nothing.
pub open spec fn failure_spec(stderr: Seq<char>) -> Seq<char> {
    let ls = lines_seq(stderr);
    let start = if ls.len() > 10 {
        ls.len() - 10
    } else {
        0
    };
    let t = join_seq(ls.subrange(start as int, ls.len() as int), " | "@);
    if trim_seq(t).len() == 0 {
        "ffmpeg hata kodu döndü (detay yok)"@
    } else {
        t
    }
}

pub fn failure_message(stderr: &str) -> (r: String)
    ensures
        r@ == failure_spec(stderr@),
{
    let v = chars_of(stderr);
    let ls = lines_of(&v);
    let n = ls.len();
    let start: usize = if n > 10 {
        n - 10
    } else {
        0
    };
    let ghost lv = ls.deep_view();
    let mut tail: Vec<String> = Vec::new();
    let mut i: usize = start;
    while i < n
        invariant
            start <= i <= n,
            n == ls@.len(),
            lv == ls.deep_view(),
            lv.len() == n,
            tail.deep_view() == lv.subrange(start as int, i as int),
        decreases n - i,
    {
        let s = string_of(ls[i].as_slice());
        assert(s@ == lv[i as int]);
        let ghost before = tail.deep_view();
        tail.push(s);
        assert(tail.deep_view() =~= before.push(lv[i as int]));
        assert(tail.deep_view() =~= lv.subrange(start as int, i + 1));
        i += 1;
    }
    let t = join_strings(&tail, " | ");
    let tt = crate::text::trim(t.as_str());
    if crate::text::is_empty_str(tt.as_str()) {
        to_owned("ffmpeg hata kodu döndü (detay yok)")
    } else {
        t
    }
}

} // verus!
