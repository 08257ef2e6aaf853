//! The arithmetic and text shaping behind the terminal screens: label
//! texts, the visible window of a list, word wrapping by byte width,
//! popup sizes clamped to the screen and the main screen's rows (solved by
//! ratatui's layout). Drawing itself is the application's.

use ratatui::layout::{Constraint, Direction, Layout, Rect};
use vstd::prelude::*;

use crate::lang::{text, tr, Key, Lang};
use crate::text::{
    byte_len, char_byte_len, chars_of, ends_with_char, ends_with_seq, split_chars, split_seq,
    string_of, to_owned, utf8_len,
};

verus! {

/// Below this many columns the interface is not drawn.
pub const MIN_COLS: u16 = 20;

/// Below this many rows the interface is not drawn.
pub const MIN_ROWS: u16 = 8;

/// Share of the screen's height for the header, in percent.
pub const PCT_HEADER: u16 = 13;

/// Share for the queue, in percent.
pub const PCT_QUEUE: u16 = 15;

/// Share for the log, in percent.
pub const PCT_LOG: u16 = 13;

/// Share for the status line, in percent.
pub const PCT_STATUS: u16 = 4;

/// Least height of the body, the panel that takes what the others leave.
pub const MIN_BODY: u16 = 3;

/// What ratatui's `Layout` gives for a `width` x `height` area at the
/// origin split into five rows: `Percentage(top)`, `Min(mid)`,
/// `Percentage(a)`, `Percentage(b)`, `Percentage(c)`; each row as
/// (x, y, width, height).
pub uninterp spec fn layout_rows(
    width: u16,
    height: u16,
    top: u16,
    mid: u16,
    a: u16,
    b: u16,
    c: u16,
) -> Seq<(u16, u16, u16, u16)>;

/// `ratatui::layout::Layout::split`, vertical, of a `width` x `height`
/// area at the origin into the five rows `layout_rows` describes. The
/// contract names the result for the main screen's constraints only (the
/// library's shares, on at least `MIN_ROWS` rows), where the solver's
/// optimum is unique; with other shares several splits can cost the same
/// and the solver, which walks hash maps seeded per process, may return any
/// of them. The solver's arithmetic is not restated; what its source shows
/// of every outcome is: one row per constraint, each at the area's left
/// edge and of its full width.
#[verifier::external_body]
fn split_rows(width: u16, height: u16, top: u16, mid: u16, a: u16, b: u16, c: u16) -> (r: Vec<
    (u16, u16, u16, u16),
>)
    requires
        height >= MIN_ROWS,
        top == PCT_HEADER && mid == MIN_BODY && a == PCT_QUEUE && b == PCT_LOG && c == PCT_STATUS,
    ensures
        r@ == layout_rows(width, height, top, mid, a, b, c),
        r@.len() == 5,
        forall|i: int| 0 <= i < r@.len() ==> (#[trigger] r@[i]).0 == 0 && r@[i].2 == width,
{
    let rows = Layout::default().direction(Direction::Vertical).constraints([
        Constraint::Percentage(top),
        Constraint::Min(mid),
        Constraint::Percentage(a),
        Constraint::Percentage(b),
        Constraint::Percentage(c),
    ]).split(Rect::new(0, 0, width, height));
    rows.iter().map(|q| (q.x, q.y, q.width, q.height)).collect()
}

/// The main screen's rows for a `width` x `height` terminal (at least
/// `MIN_ROWS` rows; below that the interface is not drawn): header, body,
/// queue, log and status line, each as (x, y, width, height) and spanning
/// the whole width. Fixed shares are percentages and the body takes the
/// rest, so that no fixed length can push a panel out of the screen.
pub fn main_layout(width: u16, height: u16) -> (r: Vec<(u16, u16, u16, u16)>)
    requires
        height >= MIN_ROWS,
    ensures
        r@ == layout_rows(width, height, PCT_HEADER, MIN_BODY, PCT_QUEUE, PCT_LOG, PCT_STATUS),
        r@.len() == 5,
        forall|i: int| 0 <= i < r@.len() ==> (#[trigger] r@[i]).0 == 0 && r@[i].2 == width,
{
    split_rows(width, height, PCT_HEADER, MIN_BODY, PCT_QUEUE, PCT_LOG, PCT_STATUS)
}

/// A translation used as a label: it ends in `:` (added when missing).
pub open spec fn lab_spec(s: Seq<char>) -> Seq<char> {
    if ends_with_seq(s, seq![':']) {
        s
    } else {
        s.push(':')
    }
}

pub fn lab(lang: Lang, k: Key) -> (r: String)
    ensures
        r@ == lab_spec(text(lang, k)@),
{
    let s = tr(lang, k);
    let v = chars_of(s);
    let mut r = to_owned(s);
    if !ends_with_char(v.as_slice(), ':') {
        crate::text::push_char(&mut r, ':');
    }
    r
}

/// The visible part `[start, end)` of a list of `len` rows in a box of
/// `height` rows, keeping the selected row in the middle where it can.
pub open spec fn window_spec(len: int, sel: int, height: int) -> (int, int) {
    if height == 0 || len <= height {
        (0, len)
    } else {
        let half = height / 2;
        let s0 = if sel >= half {
            sel - half
        } else {
            0
        };
        let start = if s0 < len - height {
            s0
        } else {
            len - height
        };
        (start, start + height)
    }
}

pub fn window(len: usize, sel: usize, height: usize) -> (r: (usize, usize))
    ensures
        r.0 as int == window_spec(len as int, sel as int, height as int).0,
        r.1 as int == window_spec(len as int, sel as int, height as int).1,
{
    if height == 0 || len <= height {
        return (0, len);
    }
    let half = height / 2;
    let s0 = if sel >= half {
        sel - half
    } else {
        0
    };
    let start = if s0 < len - height {
        s0
    } else {
        len - height
    };
    (start, start + height)
}

/// The window never leaves the list, shows as many rows as fit, and shows
/// the selected row.
pub proof fn lemma_window_bounds(len: int, sel: int, height: int)
    requires
        0 <= len,
        0 <= sel,
        0 <= height,
    ensures
        0 <= window_spec(len, sel, height).0 <= window_spec(len, sel, height).1 <= len,
        height > 0 ==> window_spec(len, sel, height).1 - window_spec(len, sel, height).0 == (
        if len < height {
            len
        } else {
            height
        }),
        height > 0 && sel < len ==> window_spec(len, sel, height).0 <= sel < window_spec(
            len,
            sel,
            height,
        ).1,
{
}

/// State of the wrapping: the lines finished and the line being filled.
pub open spec fn wrap_state(words: Seq<Seq<char>>, n: nat, width: nat) -> (Seq<Seq<char>>, Seq<char>)
    decreases n,
{
    if n == 0 || n > words.len() {
        (seq![], seq![])
    } else {
        let (out, cur) = wrap_state(words, (n - 1) as nat, width);
        let word = words[n - 1];
        let flush = byte_len(cur) + byte_len(word) + 1 > width && cur.len() > 0;
        let out2 = if flush {
            out.push(cur)
        } else {
            out
        };
        let cur2 = if flush {
            seq![]
        } else {
            cur
        };
        let cur3 = if cur2.len() > 0 {
            cur2.push(' ')
        } else {
            cur2
        };
        (out2, cur3 + word)
    }
}

/// Lines of at most `width` bytes made of the space-separated words of `s`
/// (a longer word stands on a line of its own); width 0 keeps `s` whole.
pub open spec fn wrap_spec(s: Seq<char>, width: nat) -> Seq<Seq<char>> {
    if width == 0 {
        seq![s]
    } else {
        let words = split_seq(s, ' ');
        let (out, cur) = wrap_state(words, words.len(), width);
        if cur.len() > 0 {
            out.push(cur)
        } else {
            out
        }
    }
}

proof fn lemma_byte_len_push(s: Seq<char>, c: char)
    ensures
        byte_len(s.push(c)) == byte_len(s) + utf8_len(c),
{
    assert(s.push(c).drop_last() =~= s);
}

proof fn lemma_byte_len_concat(a: Seq<char>, b: Seq<char>)
    ensures
        byte_len(a + b) == byte_len(a) + byte_len(b),
    decreases b.len(),
{
    if b.len() == 0 {
        assert(a + b =~= a);
    } else {
        lemma_byte_len_concat(a, b.drop_last());
        assert((a + b).drop_last() =~= a + b.drop_last());
    }
}

proof fn lemma_byte_len_bound(s: Seq<char>)
    ensures
        byte_len(s) <= 4 * s.len(),
        s.len() > 0 ==> byte_len(s) > 0,
    decreases s.len(),
{
    if s.len() > 0 {
        lemma_byte_len_bound(s.drop_last());
    }
}

/// Byte length of a text given by its characters.
fn bytes_of(v: &[char]) -> (r: u128)
    ensures
        r == byte_len(v@),
{
    let mut r: u128 = 0;
    let mut i: usize = 0;
    while i < v.len()
        invariant
            i <= v@.len(),
            r == byte_len(v@.take(i as int)),
            r <= 4 * i,
        decreases v@.len() - i,
    {
        proof {
            lemma_byte_len_push(v@.take(i as int), v@[i as int]);
            assert(v@.take(i as int).push(v@[i as int]) =~= v@.take(i + 1));
        }
        r = r + char_byte_len(v[i]) as u128;
        i += 1;
    }
    assert(v@.take(i as int) =~= v@);
    r
}

pub fn wrap(s: &str, width: usize) -> (r: Vec<String>)
    ensures
        r.deep_view() == wrap_spec(s@, width as nat),
{
    if width == 0 {
        let mut r: Vec<String> = Vec::new();
        r.push(to_owned(s));
        assert(r.deep_view() =~= seq![s@]);
        return r;
    }
    let v = chars_of(s);
    let words = split_chars(&v, ' ');
    let ghost ws = split_seq(s@, ' ');
    let mut out: Vec<String> = Vec::new();
    let mut cur: Vec<char> = Vec::new();
    let mut cur_b: u128 = 0;
    let mut i: usize = 0;
    while i < words.len()
        invariant
            words.deep_view() == ws,
            width > 0,
            i <= ws.len(),
            out.deep_view() == wrap_state(ws, i as nat, width as nat).0,
            cur@ == wrap_state(ws, i as nat, width as nat).1,
            cur_b == byte_len(cur@),
        decreases ws.len() - i,
    {
        let word = &words[i];
        let ghost wv = ws[i as int];
        assert(word@ == wv) by {
            assert(words.deep_view()[i as int] == words@[i as int]@);
        }
        let wb = bytes_of(word.as_slice());
        let cl = cur.len();
        let wl = word.len();
        proof {
            lemma_byte_len_bound(cur@);
            lemma_byte_len_bound(wv);
        }
        assert(cur_b + wb + 1 <= 4 * (cl as u128) + 4 * (wl as u128) + 1);
        if cur_b + wb + 1 > width as u128 && cl > 0 {
            let line = string_of(cur.as_slice());
            let ghost before = out.deep_view();
            out.push(line);
            assert(out.deep_view() =~= before.push(cur@));
            cur = Vec::new();
            cur_b = 0;
        }
        if cur.len() > 0 {
            let ghost c0 = cur@;
            cur.push(' ');
            proof {
                lemma_byte_len_push(c0, ' ');
            }
            cur_b = cur_b + 1;
        }
        let ghost c1 = cur@;
        let mut j: usize = 0;
        while j < word.len()
            invariant
                j <= word@.len(),
                cur@ == c1 + word@.take(j as int),
            decreases word@.len() - j,
        {
            cur.push(word[j]);
            j += 1;
            assert(cur@ =~= c1 + word@.take(j as int));
        }
        assert(word@.take(j as int) =~= word@);
        proof {
            lemma_byte_len_concat(c1, wv);
        }
        cur_b = cur_b + wb;
        i += 1;
    }
    if cur.len() > 0 {
        let ghost before = out.deep_view();
        out.push(string_of(cur.as_slice()));
        assert(out.deep_view() =~= before.push(cur@));
    }
    out
}

/// Every line wrapping has finished, and the line it is filling, fits
/// the width or is one word of the input.
proof fn lemma_wrap_state_fits(words: Seq<Seq<char>>, n: nat, width: nat)
    requires
        n <= words.len(),
    ensures
        forall|k: int|
            0 <= k < wrap_state(words, n, width).0.len() ==> (#[trigger] wrap_state(
                words,
                n,
                width,
            ).0[k]).len() > 0 && (byte_len(wrap_state(words, n, width).0[k]) <= width
                || words.contains(wrap_state(words, n, width).0[k])),
        byte_len(wrap_state(words, n, width).1) <= width || words.contains(
            wrap_state(words, n, width).1,
        ),
    decreases n,
{
    if n > 0 {
        lemma_wrap_state_fits(words, (n - 1) as nat, width);
        let (out, cur) = wrap_state(words, (n - 1) as nat, width);
        let word = words[n - 1];
        assert(words.contains(word)) by {
            assert(words[n - 1] == word);
        }
        let flush = byte_len(cur) + byte_len(word) + 1 > width && cur.len() > 0;
        if !flush && cur.len() > 0 {
            lemma_byte_len_push(cur, ' ');
            lemma_byte_len_concat(cur.push(' '), word);
        } else {
            assert(seq![] + word =~= word);
        }
    }
}

/// Wrapped lines are never empty, and each fits the width unless it is a
/// single word longer than the width.
pub proof fn lemma_wrap_lines_fit(s: Seq<char>, width: nat)
    requires
        width > 0,
    ensures
        forall|k: int|
            0 <= k < wrap_spec(s, width).len() ==> (#[trigger] wrap_spec(s, width)[k]).len() > 0
                && (byte_len(wrap_spec(s, width)[k]) <= width || split_seq(s, ' ').contains(
                wrap_spec(s, width)[k],
            )),
{
    let words = split_seq(s, ' ');
    lemma_wrap_state_fits(words, words.len(), width);
}

/// `percent` per cent of `total` (the quotient cut to 16 bits, as the
/// conversion does), kept within `min..=max` and never above `total`.
pub open spec fn pct_spec(total: nat, percent: nat, min: nat, max: nat) -> nat {
    let x = (total * percent / 100) % 0x1_0000;
    let c = if x < min {
        min
    } else if x > max {
        max
    } else {
        x
    };
    if c < total {
        c
    } else {
        total
    }
}

fn pct_of(total: u16, percent: u16, min: u16, max: u16) -> (r: u16)
    requires
        min <= max,
    ensures
        r == pct_spec(total as nat, percent as nat, min as nat, max as nat),
        r <= total,
{
    assert((total as u32) * (percent as u32) <= 0xffff * 0xffff) by (nonlinear_arith)
        requires
            total <= 0xffff,
            percent <= 0xffff,
    ;
    let p: u32 = (total as u32) * (percent as u32) / 100;
    let x: u16 = (p % 0x1_0000) as u16;
    let c = if x < min {
        min
    } else if x > max {
        max
    } else {
        x
    };
    if c < total {
        c
    } else {
        total
    }
}

/// Width of a box: a share of the screen width, clamped (`min <= max`);
/// it never exceeds the screen.
pub fn pct(width: u16, percent: u16, min: u16, max: u16) -> (r: u16)
    requires
        min <= max,
    ensures
        r == pct_spec(width as nat, percent as nat, min as nat, max as nat),
        r <= width,
{
    pct_of(width, percent, min, max)
}

/// Height of a box, by the same rule as `pct`.
pub fn pct_h(height: u16, percent: u16, min: u16, max: u16) -> (r: u16)
    requires
        min <= max,
    ensures
        r == pct_spec(height as nat, percent as nat, min as nat, max as nat),
        r <= height,
{
    pct_of(height, percent, min, max)
}

} // verus!
