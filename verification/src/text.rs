//! Character-level text helpers with their meaning stated over `Seq<char>`:
//! whitespace trimming, splitting, searching, replacing and decimal digits.

use vstd::prelude::*;
use vstd::string::*;

verus! {

// ---------------------------------------------------------------------------
// Characters
// ---------------------------------------------------------------------------

/// The Unicode `White_Space` property (what `char::is_whitespace` tests).
pub open spec fn is_ws(c: char) -> bool {
    let u = c as u32;
    ||| u == 9 || u == 10 || u == 11 || u == 12 || u == 13 || u == 32
    ||| u == 0x85 || u == 0xa0 || u == 0x1680
    ||| (0x2000 <= u && u <= 0x200a)
    ||| u == 0x2028 || u == 0x2029 || u == 0x202f || u == 0x205f || u == 0x3000
}

pub fn is_whitespace(c: char) -> (r: bool)
    ensures
        r == is_ws(c),
{
    let u = c as u32;
    u == 9 || u == 10 || u == 11 || u == 12 || u == 13 || u == 32 || u == 0x85 || u == 0xa0
        || u == 0x1680 || (0x2000 <= u && u <= 0x200a) || u == 0x2028 || u == 0x2029
        || u == 0x202f || u == 0x205f || u == 0x3000
}

/// Lower-case folding used when a text is compared with an ASCII word:
/// ASCII capitals and the Kelvin sign (the one non-ASCII character whose
/// lower case is an ASCII letter) fold; every other character stays.
pub open spec fn fold(c: char) -> char {
    let u = c as u32;
    if 65 <= u && u <= 90 {
        ((u + 32) as u32) as char
    } else if u == 0x212a {
        'k'
    } else {
        c
    }
}

pub fn fold_char(c: char) -> (r: char)
    ensures
        r == fold(c),
{
    let u = c as u32;
    if 65 <= u && u <= 90 {
        let l: u8 = (u + 32) as u8;
        l as char
    } else if u == 0x212a {
        'k'
    } else {
        c
    }
}

/// Folding twice folds once.
pub proof fn lemma_fold_twice(c: char)
    ensures
        fold(fold(c)) == fold(c),
{
    let u = c as u32;
    if 65 <= u && u <= 90 {
        assert((((u + 32) as u32) as char) as u32 == u + 32);
    } else if u == 0x212a {
        assert('k' as u32 == 107);
    }
}

pub open spec fn fold_seq(s: Seq<char>) -> Seq<char> {
    Seq::new(s.len(), |i: int| fold(s[i]))
}

/// Length of a character in UTF-8 bytes.
pub open spec fn utf8_len(c: char) -> nat {
    let u = c as u32;
    if u < 0x80 {
        1
    } else if u < 0x800 {
        2
    } else if u < 0x10000 {
        3
    } else {
        4
    }
}

/// Length of a text in UTF-8 bytes (what `str::len` gives).
pub open spec fn byte_len(s: Seq<char>) -> nat
    decreases s.len(),
{
    if s.len() == 0 {
        0
    } else {
        byte_len(s.drop_last()) + utf8_len(s.last())
    }
}

pub fn char_byte_len(c: char) -> (r: usize)
    ensures
        r == utf8_len(c),
{
    let u = c as u32;
    if u < 0x80 {
        1
    } else if u < 0x800 {
        2
    } else if u < 0x10000 {
        3
    } else {
        4
    }
}

// ---------------------------------------------------------------------------
// Conversions between `str`, `String` and `Vec<char>`
// ---------------------------------------------------------------------------

/// `String::push`: the contract claims that the character is appended at
/// the end of the text.
#[verifier::external_body]
pub(crate) fn push_char(s: &mut String, c: char)
    ensures
        final(s)@ == old(s)@.push(c),
{
    s.push(c);
}

pub fn chars_of(s: &str) -> (v: Vec<char>)
    ensures
        v@ == s@,
{
    let n = s.unicode_len();
    let mut v: Vec<char> = Vec::new();
    let mut i: usize = 0;
    while i < n
        invariant
            n == s@.len(),
            i <= n,
            v@ == s@.take(i as int),
        decreases n - i,
    {
        v.push(s.get_char(i));
        i += 1;
        assert(v@ =~= s@.take(i as int));
    }
    assert(v@ =~= s@);
    v
}

pub fn string_of(v: &[char]) -> (s: String)
    ensures
        s@ == v@,
{
    let mut s = String::new();
    let mut i: usize = 0;
    while i < v.len()
        invariant
            i <= v@.len(),
            s@ == v@.take(i as int),
        decreases v@.len() - i,
    {
        push_char(&mut s, v[i]);
        i += 1;
        assert(s@ =~= v@.take(i as int));
    }
    assert(s@ =~= v@);
    s
}

pub fn to_owned(s: &str) -> (r: String)
    ensures
        r@ == s@,
{
    String::from_str(s)
}

/// `a + b` as a new string.
pub fn cat(a: &str, b: &str) -> (r: String)
    ensures
        r@ == a@ + b@,
{
    let mut r = String::from_str(a);
    r.append(b);
    r
}

pub fn sub_chars(v: &Vec<char>, a: usize, b: usize) -> (r: Vec<char>)
    requires
        a <= b <= v@.len(),
    ensures
        r@ == v@.subrange(a as int, b as int),
{
    let mut r: Vec<char> = Vec::new();
    let mut i: usize = a;
    while i < b
        invariant
            a <= i <= b <= v@.len(),
            r@ == v@.subrange(a as int, i as int),
        decreases b - i,
    {
        r.push(v[i]);
        i += 1;
        assert(r@ =~= v@.subrange(a as int, i as int));
    }
    r
}

pub fn eq_chars(a: &[char], b: &[char]) -> (r: bool)
    ensures
        r == (a@ == b@),
{
    if a.len() != b.len() {
        return false;
    }
    let mut i: usize = 0;
    while i < a.len()
        invariant
            a@.len() == b@.len(),
            i <= a@.len(),
            forall|j: int| 0 <= j < i ==> a@[j] == b@[j],
        decreases a@.len() - i,
    {
        if a[i] != b[i] {
            return false;
        }
        i += 1;
    }
    assert(a@ =~= b@);
    true
}

pub fn str_eq(a: &str, b: &str) -> (r: bool)
    ensures
        r == (a@ == b@),
{
    let x = chars_of(a);
    let y = chars_of(b);
    eq_chars(x.as_slice(), y.as_slice())
}

// ---------------------------------------------------------------------------
// Decimal numbers
// ---------------------------------------------------------------------------

pub open spec fn digit(d: nat) -> char {
    if d == 0 {
        '0'
    } else if d == 1 {
        '1'
    } else if d == 2 {
        '2'
    } else if d == 3 {
        '3'
    } else if d == 4 {
        '4'
    } else if d == 5 {
        '5'
    } else if d == 6 {
        '6'
    } else if d == 7 {
        '7'
    } else if d == 8 {
        '8'
    } else {
        '9'
    }
}

/// Decimal digits of `n`, most significant first, no leading zeros.
pub open spec fn dec(n: nat) -> Seq<char>
    decreases n,
{
    if n < 10 {
        seq![digit(n)]
    } else {
        dec(n / 10).push(digit(n % 10))
    }
}

pub fn digit_char(d: u64) -> (c: char)
    requires
        d < 10,
    ensures
        c == digit(d as nat),
{
    if d == 0 {
        '0'
    } else if d == 1 {
        '1'
    } else if d == 2 {
        '2'
    } else if d == 3 {
        '3'
    } else if d == 4 {
        '4'
    } else if d == 5 {
        '5'
    } else if d == 6 {
        '6'
    } else if d == 7 {
        '7'
    } else if d == 8 {
        '8'
    } else {
        '9'
    }
}

/// Appends the decimal digits of `n`.
pub fn push_dec(s: &mut String, n: u64)
    ensures
        final(s)@ == old(s)@ + dec(n as nat),
    decreases n,
{
    if n < 10 {
        push_char(s, digit_char(n));
        assert(final(s)@ =~= old(s)@ + dec(n as nat));
    } else {
        push_dec(s, n / 10);
        push_char(s, digit_char(n % 10));
        assert(final(s)@ =~= old(s)@ + dec(n as nat));
    }
}

pub fn dec_string(n: u64) -> (s: String)
    ensures
        s@ == dec(n as nat),
{
    let mut s = String::new();
    push_dec(&mut s, n);
    assert(s@ =~= dec(n as nat));
    s
}

/// Value of a digit character, if it is one of `0`..`9`.
pub open spec fn digit_value(c: char) -> Option<nat> {
    let u = c as u32;
    if 48 <= u && u <= 57 {
        Some((u - 48) as nat)
    } else {
        None
    }
}

pub fn digit_of(c: char) -> (r: Option<u64>)
    ensures
        r matches Some(d) ==> digit_value(c) == Some(d as nat) && d < 10,
        r is None ==> digit_value(c) is None,
{
    let u = c as u32;
    if 48 <= u && u <= 57 {
        Some((u - 48) as u64)
    } else {
        None
    }
}

/// All characters are digits.
pub open spec fn all_digits(s: Seq<char>) -> bool {
    forall|i: int| 0 <= i < s.len() ==> (#[trigger] digit_value(s[i])) is Some
}

/// Value of a digit string (0 for the empty one).
pub open spec fn digits_value(s: Seq<char>) -> nat
    decreases s.len(),
{
    if s.len() == 0 {
        0
    } else {
        digits_value(s.drop_last()) * 10 + digit_value(s.last()).unwrap_or(0)
    }
}

// ---------------------------------------------------------------------------
// Trimming
// ---------------------------------------------------------------------------

/// First index at or after `i` that holds no whitespace (or the length).
pub open spec fn lead(s: Seq<char>, i: int) -> int
    decreases s.len() - i,
{
    if 0 <= i < s.len() && is_ws(s[i]) {
        lead(s, i + 1)
    } else {
        i
    }
}

/// End of `s[lo..j]` once trailing whitespace is cut.
pub open spec fn trail(s: Seq<char>, lo: int, j: int) -> int
    decreases j - lo,
{
    if lo < j && j <= s.len() && is_ws(s[j - 1]) {
        trail(s, lo, j - 1)
    } else {
        j
    }
}

/// `str::trim`: leading and trailing whitespace removed.
pub open spec fn trim_seq(s: Seq<char>) -> Seq<char> {
    let a = lead(s, 0);
    s.subrange(a, trail(s, a, s.len() as int))
}

pub proof fn lemma_lead_bounds(s: Seq<char>, i: int)
    requires
        0 <= i <= s.len(),
    ensures
        i <= lead(s, i) <= s.len(),
        forall|k: int| i <= k < lead(s, i) ==> is_ws(#[trigger] s[k]),
        lead(s, i) < s.len() ==> !is_ws(s[lead(s, i)]),
    decreases s.len() - i,
{
    if i < s.len() && is_ws(s[i]) {
        lemma_lead_bounds(s, i + 1);
    }
}

pub proof fn lemma_trail_bounds(s: Seq<char>, lo: int, j: int)
    requires
        0 <= lo <= j <= s.len(),
    ensures
        lo <= trail(s, lo, j) <= j,
        forall|k: int| trail(s, lo, j) <= k < j ==> is_ws(#[trigger] s[k]),
        trail(s, lo, j) > lo ==> !is_ws(s[trail(s, lo, j) - 1]),
    decreases j - lo,
{
    if lo < j && is_ws(s[j - 1]) {
        lemma_trail_bounds(s, lo, j - 1);
    }
}

/// Index range of the trimmed part of `v`.
pub fn trim_bounds(v: &Vec<char>) -> (r: (usize, usize))
    ensures
        r.0 == lead(v@, 0),
        r.1 == trail(v@, lead(v@, 0), v@.len() as int),
        r.0 <= r.1 <= v@.len(),
{
    let n = v.len();
    let mut a: usize = 0;
    while a < n && is_whitespace(v[a])
        invariant
            n == v@.len(),
            a <= n,
            lead(v@, a as int) == lead(v@, 0),
        decreases n - a,
    {
        a += 1;
    }
    let mut b: usize = n;
    while b > a && is_whitespace(v[b - 1])
        invariant
            n == v@.len(),
            a <= b <= n,
            a == lead(v@, 0),
            trail(v@, a as int, b as int) == trail(v@, a as int, n as int),
        decreases b,
    {
        b -= 1;
    }
    (a, b)
}

pub fn trim_chars(v: &Vec<char>) -> (r: Vec<char>)
    ensures
        r@ == trim_seq(v@),
{
    let (a, b) = trim_bounds(v);
    sub_chars(v, a, b)
}

pub fn trim(s: &str) -> (r: String)
    ensures
        r@ == trim_seq(s@),
{
    let v = chars_of(s);
    let t = trim_chars(&v);
    string_of(t.as_slice())
}

// ---------------------------------------------------------------------------
// Splitting
// ---------------------------------------------------------------------------

/// Pieces of `s[start..]` cut at every `sep`, scanning from `i` (`str::split`).
pub open spec fn split_from(s: Seq<char>, sep: char, start: int, i: int) -> Seq<Seq<char>>
    decreases s.len() - i,
{
    if i >= s.len() {
        seq![s.subrange(start, s.len() as int)]
    } else if s[i] == sep {
        seq![s.subrange(start, i)] + split_from(s, sep, i + 1, i + 1)
    } else {
        split_from(s, sep, start, i + 1)
    }
}

pub open spec fn split_seq(s: Seq<char>, sep: char) -> Seq<Seq<char>> {
    split_from(s, sep, 0, 0)
}

pub fn split_chars(v: &Vec<char>, sep: char) -> (r: Vec<Vec<char>>)
    ensures
        r.deep_view() == split_seq(v@, sep),
{
    let n = v.len();
    let mut r: Vec<Vec<char>> = Vec::new();
    let mut start: usize = 0;
    let mut i: usize = 0;
    while i < n
        invariant
            n == v@.len(),
            start <= i <= n,
            r.deep_view() + split_from(v@, sep, start as int, i as int) == split_seq(v@, sep),
        decreases n - i,
    {
        if v[i] == sep {
            let piece = sub_chars(v, start, i);
            let ghost before = r.deep_view();
            let ghost pv = piece@;
            assert(piece.deep_view() =~= pv);
            let ghost rv = r@;
            r.push(piece);
            assert(r@ == rv.push(piece));
            assert(r.deep_view() =~= before.push(pv));
            assert(before + split_from(v@, sep, start as int, i as int) == before + (seq![pv]
                + split_from(v@, sep, (i + 1) as int, (i + 1) as int)));
            assert(r.deep_view() + split_from(v@, sep, (i + 1) as int, (i + 1) as int) =~= before
                + (seq![pv] + split_from(v@, sep, (i + 1) as int, (i + 1) as int)));
            start = i + 1;
        }
        i += 1;
    }
    let piece = sub_chars(v, start, n);
    let ghost before = r.deep_view();
    let ghost pv = piece@;
    assert(piece.deep_view() =~= pv);
    let ghost rv = r@;
    r.push(piece);
    assert(r@ == rv.push(piece));
    assert(r.deep_view() =~= before.push(pv));
    assert(r.deep_view() =~= before + split_from(v@, sep, start as int, n as int));
    r
}

/// Whitespace-separated words of `s[start..]`, scanning from `i`
/// (`str::split_whitespace`).
pub open spec fn words_from(s: Seq<char>, start: int, i: int) -> Seq<Seq<char>>
    decreases s.len() - i,
{
    if i >= s.len() {
        if start < s.len() {
            seq![s.subrange(start, s.len() as int)]
        } else {
            seq![]
        }
    } else if is_ws(s[i]) {
        (if start < i {
            seq![s.subrange(start, i)]
        } else {
            seq![]
        }) + words_from(s, i + 1, i + 1)
    } else {
        words_from(s, start, i + 1)
    }
}

pub open spec fn words(s: Seq<char>) -> Seq<Seq<char>> {
    words_from(s, 0, 0)
}

pub fn split_words(v: &Vec<char>) -> (r: Vec<String>)
    ensures
        r.deep_view() == words(v@),
{
    let n = v.len();
    let mut r: Vec<String> = Vec::new();
    let mut start: usize = 0;
    let mut i: usize = 0;
    while i < n
        invariant
            n == v@.len(),
            start <= i <= n,
            r.deep_view() + words_from(v@, start as int, i as int) == words(v@),
        decreases n - i,
    {
        if is_whitespace(v[i]) {
            let ghost before = r.deep_view();
            if start < i {
                let piece = sub_chars(v, start, i);
                let w = string_of(piece.as_slice());
                let ghost wv = w@;
                let ghost rv = r@;
                r.push(w);
                assert(r@ == rv.push(w));
                assert(r.deep_view() =~= before.push(wv));
            }
            assert(r.deep_view() + words_from(v@, (i + 1) as int, (i + 1) as int) =~= before
                + words_from(v@, start as int, i as int));
            start = i + 1;
        }
        i += 1;
    }
    let ghost before = r.deep_view();
    if start < n {
        let piece = sub_chars(v, start, n);
        let w = string_of(piece.as_slice());
        let ghost wv = w@;
        let ghost rv = r@;
        r.push(w);
        assert(r@ == rv.push(w));
        assert(r.deep_view() =~= before.push(wv));
    }
    assert(r.deep_view() =~= before + words_from(v@, start as int, n as int));
    r
}

// ---------------------------------------------------------------------------
// Searching and replacing
// ---------------------------------------------------------------------------

/// `p` occurs in `s` at index `i`.
pub open spec fn has_at(s: Seq<char>, p: Seq<char>, i: int) -> bool {
    0 <= i && i + p.len() <= s.len() && s.subrange(i, i + p.len()) == p
}

pub open spec fn contains_seq(s: Seq<char>, p: Seq<char>) -> bool {
    exists|i: int| #[trigger] has_at(s, p, i)
}

pub open spec fn starts_with_seq(s: Seq<char>, p: Seq<char>) -> bool {
    has_at(s, p, 0)
}

pub open spec fn ends_with_seq(s: Seq<char>, p: Seq<char>) -> bool {
    has_at(s, p, s.len() - p.len())
}

pub fn match_at(s: &[char], p: &[char], i: usize) -> (r: bool)
    ensures
        r == has_at(s@, p@, i as int),
{
    if i > s.len() || p.len() > s.len() - i {
        return false;
    }
    let mut j: usize = 0;
    while j < p.len()
        invariant
            s@.len() <= usize::MAX,
            i + p@.len() <= s@.len(),
            j <= p@.len(),
            forall|k: int| 0 <= k < j ==> s@[i + k] == p@[k],
        decreases p@.len() - j,
    {
        if s[i + j] != p[j] {
            assert(s@.subrange(i as int, i + p@.len())[j as int] != p@[j as int]);
            return false;
        }
        j += 1;
    }
    assert(s@.subrange(i as int, i + p@.len()) =~= p@);
    true
}

pub fn contains_chars(s: &[char], p: &[char]) -> (r: bool)
    ensures
        r == contains_seq(s@, p@),
{
    let mut i: usize = 0;
    loop
        invariant
            i <= s@.len(),
            forall|k: int| 0 <= k < i ==> !has_at(s@, p@, k),
        decreases s@.len() - i,
    {
        if match_at(s, p, i) {
            return true;
        }
        if i == s.len() {
            assert forall|k: int| !has_at(s@, p@, k) by {
                if 0 <= k && k < i {
                }
            }
            return false;
        }
        i += 1;
    }
}

pub fn ends_with_char(s: &[char], c: char) -> (r: bool)
    ensures
        r == ends_with_seq(s@, seq![c]),
{
    if s.len() == 0 {
        return false;
    }
    let r = s[s.len() - 1] == c;
    assert(r ==> s@.subrange(s@.len() - 1, s@.len() as int) =~= seq![c]);
    assert(s@.subrange(s@.len() - 1, s@.len() as int)[0] == s@[s@.len() - 1]);
    r
}

/// `str::replace` with a non-empty pattern, scanning from `i`: every
/// leftmost non-overlapping occurrence of `p` becomes `t`.
pub open spec fn replace_from(s: Seq<char>, p: Seq<char>, t: Seq<char>, i: int) -> Seq<char>
    decreases s.len() - i,
{
    if i < 0 || i >= s.len() {
        seq![]
    } else if p.len() > 0 && has_at(s, p, i) {
        t + replace_from(s, p, t, i + p.len())
    } else {
        seq![s[i]] + replace_from(s, p, t, i + 1)
    }
}

pub open spec fn replace_seq(s: Seq<char>, p: Seq<char>, t: Seq<char>) -> Seq<char> {
    replace_from(s, p, t, 0)
}

pub fn replace_chars(s: &[char], p: &[char], t: &[char]) -> (r: Vec<char>)
    requires
        p@.len() > 0,
    ensures
        r@ == replace_seq(s@, p@, t@),
{
    let mut r: Vec<char> = Vec::new();
    let mut i: usize = 0;
    while i < s.len()
        invariant
            p@.len() > 0,
            r@ + replace_from(s@, p@, t@, i as int) == replace_seq(s@, p@, t@),
        decreases s@.len() - i,
    {
        let ghost before = r@;
        let ghost k = i;
        if match_at(s, p, i) {
            let mut j: usize = 0;
            while j < t.len()
                invariant
                    j <= t@.len(),
                    r@ == before + t@.take(j as int),
                decreases t@.len() - j,
            {
                r.push(t[j]);
                j += 1;
                assert(r@ =~= before + t@.take(j as int));
            }
            assert(t@.take(t@.len() as int) =~= t@);
            i = i + p.len();
            assert(r@ + replace_from(s@, p@, t@, i as int) =~= before + replace_from(
                s@,
                p@,
                t@,
                k as int,
            ));
        } else {
            r.push(s[i]);
            i += 1;
            assert(r@ + replace_from(s@, p@, t@, i as int) =~= before + replace_from(
                s@,
                p@,
                t@,
                k as int,
            ));
        }
    }
    assert(replace_from(s@, p@, t@, i as int) =~= Seq::<char>::empty());
    assert(r@ =~= replace_seq(s@, p@, t@));
    r
}

pub fn replace_str(s: &str, p: &str, t: &str) -> (r: String)
    requires
        p@.len() > 0,
    ensures
        r@ == replace_seq(s@, p@, t@),
{
    let a = chars_of(s);
    let b = chars_of(p);
    let c = chars_of(t);
    let v = replace_chars(a.as_slice(), b.as_slice(), c.as_slice());
    string_of(v.as_slice())
}

pub fn fold_chars(s: &[char]) -> (r: Vec<char>)
    ensures
        r@ == fold_seq(s@),
{
    let mut r: Vec<char> = Vec::new();
    let mut i: usize = 0;
    while i < s.len()
        invariant
            i <= s@.len(),
            r@ == fold_seq(s@).take(i as int),
        decreases s@.len() - i,
    {
        r.push(fold_char(s[i]));
        i += 1;
        assert(r@ =~= fold_seq(s@).take(i as int));
    }
    assert(r@ =~= fold_seq(s@));
    r
}

} // verus!

verus! {

// ---------------------------------------------------------------------------
// Lists of strings
// ---------------------------------------------------------------------------

/// `slice::join`: the items with `sep` between neighbours.
pub open spec fn join_seq(v: Seq<Seq<char>>, sep: Seq<char>) -> Seq<char>
    decreases v.len(),
{
    if v.len() == 0 {
        seq![]
    } else if v.len() == 1 {
        v[0]
    } else {
        join_seq(v.drop_last(), sep) + sep + v.last()
    }
}

pub fn join_strings(v: &Vec<String>, sep: &str) -> (r: String)
    ensures
        r@ == join_seq(v.deep_view(), sep@),
{
    let mut r = String::new();
    let mut i: usize = 0;
    let ghost dv = v.deep_view();
    while i < v.len()
        invariant
            dv == v.deep_view(),
            i <= dv.len(),
            r@ == join_seq(dv.take(i as int), sep@),
        decreases dv.len() - i,
    {
        let ghost prev = r@;
        if i > 0 {
            r.append(sep);
        }
        r.append(v[i].as_str());
        assert(dv.take(i + 1).drop_last() =~= dv.take(i as int));
        assert(dv.take(i + 1).last() == v[i as int]@);
        i += 1;
        if i == 1 {
            assert(dv.take(1) =~= seq![dv[0]]);
            assert(r@ =~= join_seq(dv.take(i as int), sep@));
        } else {
            assert(r@ =~= join_seq(dv.take(i as int), sep@));
        }
    }
    assert(dv.take(dv.len() as int) =~= dv);
    r
}

pub fn clone_strings(v: &Vec<String>) -> (r: Vec<String>)
    ensures
        r.deep_view() == v.deep_view(),
        r@ == v@,
{
    let mut r: Vec<String> = Vec::new();
    let mut i: usize = 0;
    while i < v.len()
        invariant
            i <= v@.len(),
            r@ == v@.take(i as int),
        decreases v@.len() - i,
    {
        r.push(v[i].clone());
        i += 1;
        assert(r@ =~= v@.take(i as int));
    }
    assert(r@ =~= v@);
    r
}

/// Strings from string slices.
pub open spec fn views_of(v: Seq<&str>) -> Seq<Seq<char>> {
    Seq::new(v.len(), |i: int| v[i]@)
}

/// Appends each item of `items`.
pub fn push_all(a: &mut Vec<String>, items: &[&str])
    ensures
        final(a).deep_view() == old(a).deep_view() + views_of(items@),
{
    let mut i: usize = 0;
    let ghost start = a.deep_view();
    while i < items.len()
        invariant
            i <= items@.len(),
            a.deep_view() == start + views_of(items@).take(i as int),
        decreases items@.len() - i,
    {
        let s = to_owned(items[i]);
        let ghost sv = s@;
        let ghost av = a@;
        let ghost before = a.deep_view();
        a.push(s);
        assert(a@ == av.push(s));
        assert(a.deep_view() =~= before.push(sv));
        i += 1;
        assert(a.deep_view() =~= start + views_of(items@).take(i as int));
    }
    assert(views_of(items@).take(items@.len() as int) =~= views_of(items@));
}

/// Appends one owned string.
pub fn push_string(a: &mut Vec<String>, s: String)
    ensures
        final(a).deep_view() == old(a).deep_view().push(s@),
{
    let ghost sv = s@;
    let ghost av = a@;
    let ghost before = a.deep_view();
    a.push(s);
    assert(a@ == av.push(s));
    assert(a.deep_view() =~= before.push(sv));
}

/// Appends every string of `b`.
pub fn append_strings(a: &mut Vec<String>, b: &Vec<String>)
    ensures
        final(a).deep_view() == old(a).deep_view() + b.deep_view(),
{
    let mut i: usize = 0;
    let ghost start = a.deep_view();
    while i < b.len()
        invariant
            i <= b@.len(),
            a.deep_view() == start + b.deep_view().take(i as int),
        decreases b@.len() - i,
    {
        push_string(a, b[i].clone());
        i += 1;
        assert(a.deep_view() =~= start + b.deep_view().take(i as int));
    }
    assert(b.deep_view().take(b@.len() as int) =~= b.deep_view());
}

} // verus!

verus! {

pub fn is_empty_str(s: &str) -> (r: bool)
    ensures
        r == (s@.len() == 0),
{
    s.unicode_len() == 0
}

} // verus!
