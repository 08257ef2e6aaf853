//! Reading and writing decimal numbers: unsigned integers, fixed-point
//! decimals scaled to integer units, and fixed-width fractions.

use vstd::prelude::*;

use crate::text::{
    all_digits, chars_of, dec, digit, digit_of, digit_value, digits_value, push_char, push_dec,
};

verus! {

pub open spec fn pow10(k: nat) -> nat
    decreases k,
{
    if k == 0 {
        1
    } else {
        10 * pow10((k - 1) as nat)
    }
}

/// The text after an optional leading `+`.
pub open spec fn unsigned_body(s: Seq<char>) -> Seq<char> {
    if s.len() > 0 && s[0] == '+' {
        s.drop_first()
    } else {
        s
    }
}

/// `u64::from_str`: an optional `+`, then one or more ASCII digits whose
/// value fits in 64 bits.
pub open spec fn u64_text(s: Seq<char>) -> Option<nat> {
    let d = unsigned_body(s);
    if d.len() > 0 && all_digits(d) && digits_value(d) <= u64::MAX {
        Some(digits_value(d))
    } else {
        None
    }
}

pub proof fn lemma_digits_prefix(d: Seq<char>, i: int)
    requires
        0 <= i <= d.len(),
        all_digits(d),
    ensures
        digits_value(d.take(i)) <= digits_value(d),
    decreases d.len() - i,
{
    if i < d.len() {
        lemma_digits_prefix(d, i + 1);
        assert(d.take(i + 1).drop_last() =~= d.take(i));
        assert(digits_value(d.take(i + 1)) == digits_value(d.take(i)) * 10 + digit_value(
            d[i],
        ).unwrap_or(0));
    } else {
        assert(d.take(i) =~= d);
    }
}

/// Value of the digits `v[a..b]`, when they are all digits and fit in 64 bits.
pub fn digits_to_u64(v: &Vec<char>, a: usize, b: usize) -> (r: Option<u64>)
    requires
        a <= b <= v@.len(),
    ensures
        ({
            let d = v@.subrange(a as int, b as int);
            r == if all_digits(d) && digits_value(d) <= u64::MAX {
                Some(digits_value(d) as u64)
            } else {
                None
            }
        }),
{
    let ghost d = v@.subrange(a as int, b as int);
    let mut acc: u64 = 0;
    let mut i: usize = a;
    while i < b
        invariant
            a <= i <= b <= v@.len(),
            d == v@.subrange(a as int, b as int),
            all_digits(d.take(i - a)),
            acc == digits_value(d.take(i - a)),
        decreases b - i,
    {
        let c = v[i];
        assert(d[i - a] == c);
        match digit_of(c) {
            None => {
                assert(!all_digits(d));
                return None;
            },
            Some(x) => {
                assert(d.take(i - a + 1).drop_last() =~= d.take(i - a));
                assert(d.take(i - a + 1).last() == c);
                if acc > (u64::MAX - x) / 10 {
                    assert(digits_value(d.take(i - a + 1)) > u64::MAX) by (nonlinear_arith)
                        requires
                            acc > (u64::MAX - x) / 10,
                            digits_value(d.take(i - a + 1)) == acc * 10 + x,
                            x < 10,
                    ;
                    proof {
                        if all_digits(d) {
                            lemma_digits_prefix(d, i - a + 1);
                        }
                    }
                    return None;
                }
                assert(acc * 10 + x <= u64::MAX) by (nonlinear_arith)
                    requires
                        acc <= (u64::MAX - x) / 10,
                        x < 10,
                ;
                acc = acc * 10 + x;
                i += 1;
                assert(all_digits(d.take(i - a))) by {
                    assert forall|j: int| 0 <= j < d.take(i - a).len() implies (#[trigger] digit_value(
                        d.take(i - a)[j],
                    )) is Some by {
                        if j < i - a - 1 {
                            assert(d.take(i - a)[j] == d.take(i - a - 1)[j]);
                        }
                    }
                }
            },
        }
    }
    assert(d.take(b - a) =~= d);
    Some(acc)
}

/// `u64::from_str` on `v[a..b]`.
pub fn parse_u64_range(v: &Vec<char>, a: usize, b: usize) -> (r: Option<u64>)
    requires
        a <= b <= v@.len(),
    ensures
        r matches Some(x) ==> u64_text(v@.subrange(a as int, b as int)) == Some(x as nat),
        r is None ==> u64_text(v@.subrange(a as int, b as int)) is None,
{
    let ghost s = v@.subrange(a as int, b as int);
    let mut a2 = a;
    if a < b && v[a] == '+' {
        a2 = a + 1;
        assert(unsigned_body(s) =~= v@.subrange(a2 as int, b as int));
    } else {
        assert(unsigned_body(s) =~= v@.subrange(a2 as int, b as int));
    }
    if a2 == b {
        return None;
    }
    digits_to_u64(v, a2, b)
}

pub fn parse_u64(s: &str) -> (r: Option<u64>)
    ensures
        r matches Some(x) ==> u64_text(s@) == Some(x as nat),
        r is None ==> u64_text(s@) is None,
{
    let v = chars_of(s);
    let r = parse_u64_range(&v, 0, v.len());
    assert(v@.subrange(0, v@.len() as int) =~= s@);
    r
}

// ---------------------------------------------------------------------------
// Fixed-point decimals
// ---------------------------------------------------------------------------

/// The first `k` fraction digits, padded with zeros: the fraction scaled by
/// `10^k` and cut.
pub open spec fn frac_digits(f: Seq<char>, k: nat) -> Seq<char> {
    Seq::new(k, |i: int| if i < f.len() { f[i] } else { '0' })
}

/// Index of the first `.`, if any.
pub open spec fn dot_at(s: Seq<char>, i: int) -> Option<int>
    decreases s.len() - i,
{
    if i < 0 || i >= s.len() {
        None
    } else if s[i] == '.' {
        Some(i)
    } else {
        dot_at(s, i + 1)
    }
}

/// Digits before the first dot.
pub open spec fn int_part(d: Seq<char>) -> Seq<char> {
    match dot_at(d, 0) {
        Some(j) => d.take(j),
        None => d,
    }
}

/// Digits after the first dot.
pub open spec fn frac_part(d: Seq<char>) -> Seq<char> {
    match dot_at(d, 0) {
        Some(j) => d.skip(j + 1),
        None => seq![],
    }
}

/// A decimal `[+]int[.frac]` with at least one digit, scaled by `10^k` and
/// cut to an integer; `None` when malformed or past 64 bits.
pub open spec fn decimal_text(s: Seq<char>, k: nat) -> Option<nat> {
    let d = unsigned_body(s);
    let ip = int_part(d);
    let fp = frac_part(d);
    let v = digits_value(ip) * pow10(k) + digits_value(frac_digits(fp, k));
    if ip.len() + fp.len() > 0 && all_digits(ip) && all_digits(fp) && v <= u64::MAX {
        Some(v)
    } else {
        None
    }
}

pub proof fn lemma_dot_at(s: Seq<char>, i: int)
    requires
        0 <= i,
    ensures
        dot_at(s, i) matches Some(j) ==> i <= j < s.len() && s[j] == '.',
        dot_at(s, i) is None ==> forall|j: int| i <= j < s.len() ==> s[j] != '.',
    decreases s.len() - i,
{
    if i < s.len() && s[i] != '.' {
        lemma_dot_at(s, i + 1);
    }
}

pub proof fn lemma_frac_digits_all(f: Seq<char>, k: nat)
    requires
        all_digits(f),
    ensures
        all_digits(frac_digits(f, k)),
{
    assert forall|i: int| 0 <= i < frac_digits(f, k).len() implies (#[trigger] digit_value(
        frac_digits(f, k)[i],
    )) is Some by {
        if i < f.len() {
            assert(digit_value(f[i]) is Some);
        }
    }
}

pub proof fn lemma_pow10_pos(k: nat)
    ensures
        pow10(k) >= 1,
    decreases k,
{
    if k > 0 {
        lemma_pow10_pos((k - 1) as nat);
    }
}

/// A digit string is worth less than ten to the power of its length.
pub proof fn lemma_digits_bound(d: Seq<char>)
    requires
        all_digits(d),
    ensures
        digits_value(d) < pow10(d.len()),
    decreases d.len(),
{
    if d.len() > 0 {
        let p = d.drop_last();
        assert(all_digits(p)) by {
            assert forall|i: int| 0 <= i < p.len() implies (#[trigger] digit_value(p[i])) is Some by {
                assert(p[i] == d[i]);
            }
        }
        lemma_digits_bound(p);
        let x = digit_value(d.last()).unwrap_or(0);
        assert(digit_value(d[d.len() - 1]) is Some);
        assert(x < 10);
        assert(digits_value(p) * 10 + x < pow10(p.len()) * 10) by (nonlinear_arith)
            requires
                digits_value(p) < pow10(p.len()),
                x < 10,
        ;
        assert(pow10(d.len()) == 10 * pow10(p.len()));
    }
}

/// Every character of `v[a..b]` is a digit.
pub fn all_digits_range(v: &Vec<char>, a: usize, b: usize) -> (r: bool)
    requires
        a <= b <= v@.len(),
    ensures
        r == all_digits(v@.subrange(a as int, b as int)),
{
    let ghost d = v@.subrange(a as int, b as int);
    let mut q: usize = a;
    while q < b
        invariant
            a <= q <= b <= v@.len(),
            d == v@.subrange(a as int, b as int),
            forall|jj: int| 0 <= jj < q - a ==> (#[trigger] digit_value(d[jj])) is Some,
        decreases b - q,
    {
        if digit_of(v[q]).is_none() {
            assert(digit_value(d[q - a]) is None);
            return false;
        }
        q += 1;
    }
    true
}

/// Scaled value of a decimal `v[a..b]` (see `decimal_text`).
pub fn parse_decimal_range(v: &Vec<char>, a: usize, b: usize, k: usize) -> (r: Option<u64>)
    requires
        a <= b <= v@.len(),
        k <= 18,
    ensures
        r matches Some(x) ==> decimal_text(v@.subrange(a as int, b as int), k as nat) == Some(
            x as nat,
        ),
        r is None ==> decimal_text(v@.subrange(a as int, b as int), k as nat) is None,
{
    let ghost s = v@.subrange(a as int, b as int);
    let mut a2 = a;
    if a < b && v[a] == '+' {
        a2 = a + 1;
    }
    let ghost d = v@.subrange(a2 as int, b as int);
    assert(unsigned_body(s) =~= d);
    // locate the dot
    let mut j: usize = a2;
    while j < b && v[j] != '.'
        invariant
            a2 <= j <= b <= v@.len(),
            d == v@.subrange(a2 as int, b as int),
            dot_at(d, j - a2) == dot_at(d, 0),
        decreases b - j,
    {
        j += 1;
    }
    let fs: usize = if j < b {
        j + 1
    } else {
        b
    };
    let ghost ip = v@.subrange(a2 as int, j as int);
    let ghost fp = v@.subrange(fs as int, b as int);
    if j < b {
        assert(dot_at(d, 0) == Some(j - a2));
        assert(d.take(j - a2) =~= ip);
        assert(d.skip(j - a2 + 1) =~= fp);
    } else {
        assert(dot_at(d, 0) is None);
        assert(d =~= ip);
        assert(fp =~= Seq::<char>::empty());
    }
    assert(int_part(d) == ip);
    assert(frac_part(d) == fp);
    if j == a2 && fs == b {
        return None;
    }
    if !all_digits_range(v, a2, j) || !all_digits_range(v, fs, b) {
        return None;
    }
    proof {
        lemma_pow10_pos(k as nat);
    }
    let iv = match digits_to_u64(v, a2, j) {
        Some(x) => x,
        None => {
            assert(digits_value(ip) * pow10(k as nat) >= digits_value(ip)) by (nonlinear_arith)
                requires
                    pow10(k as nat) >= 1,
            ;
            return None;
        },
    };
    let fd = frac_vec(v, fs, b, k);
    let ghost fds = frac_digits(fp, k as nat);
    proof {
        lemma_frac_digits_all(fp, k as nat);
        lemma_digits_bound(fds);
        lemma_pow10_mono(k as nat, 18);
        lemma_pow10_exact(18);
    }
    assert(fd@.subrange(0, k as int) =~= fds);
    let fv = match digits_to_u64(&fd, 0, k) {
        Some(x) => x,
        None => {
            return None;
        },
    };
    let scale = pow10_u64(k);
    combine(iv, scale, fv)
}

/// Some digit of the text is not `0`.
pub open spec fn nonzero_in(s: Seq<char>) -> bool {
    exists|i: int| 0 <= i < s.len() && #[trigger] s[i] != '0'
}

/// An odd decimal digit.
pub open spec fn odd_digit(c: char) -> bool {
    match digit_value(c) {
        Some(e) => e % 2 == 1,
        None => false,
    }
}

/// Whether a decimal cut to `k` fraction digits (`k >= 1`) rounds up: the
/// next digit is above 5, or 5 followed by more than zeros, or exactly 5
/// after an odd last kept digit (ties go to the even neighbour).
pub open spec fn round_up(s: Seq<char>, k: nat) -> bool {
    let fp = frac_part(unsigned_body(s));
    &&& k >= 1
    &&& fp.len() > k
    &&& match digit_value(fp[k as int]) {
        Some(d) => d > 5 || (d == 5 && (nonzero_in(fp.skip(k + 1 as int)) || odd_digit(fp[k - 1]))),
        None => false,
    }
}

/// A decimal scaled by `10^k` and rounded to the nearest integer, ties to
/// even; `None` when malformed or past 64 bits.
pub open spec fn decimal_round(s: Seq<char>, k: nat) -> Option<nat> {
    match decimal_text(s, k) {
        Some(v) => if round_up(s, k) {
            if v + 1 <= u64::MAX {
                Some(v + 1)
            } else {
                None
            }
        } else {
            Some(v)
        },
        None => None,
    }
}

/// Where the fraction digits of `v[a..b]` start (`b` without a dot).
fn frac_start(v: &Vec<char>, a: usize, b: usize) -> (f: usize)
    requires
        a <= b <= v@.len(),
    ensures
        f <= b,
        v@.subrange(f as int, b as int) == frac_part(unsigned_body(v@.subrange(a as int, b as int))),
{
    let ghost s = v@.subrange(a as int, b as int);
    let mut a2 = a;
    if a < b && v[a] == '+' {
        a2 = a + 1;
    }
    let ghost d = v@.subrange(a2 as int, b as int);
    assert(unsigned_body(s) =~= d);
    let mut j: usize = a2;
    while j < b && v[j] != '.'
        invariant
            a2 <= j <= b <= v@.len(),
            d == v@.subrange(a2 as int, b as int),
            dot_at(d, j - a2) == dot_at(d, 0),
        decreases b - j,
    {
        j += 1;
    }
    if j < b {
        assert(dot_at(d, 0) == Some(j - a2));
        assert(d.skip(j - a2 + 1) =~= v@.subrange(j + 1, b as int));
        j + 1
    } else {
        assert(dot_at(d, 0) is None);
        assert(v@.subrange(b as int, b as int) =~= Seq::<char>::empty());
        b
    }
}

/// Scaled and rounded value of a decimal `v[a..b]` (see `decimal_round`).
pub fn parse_decimal_rounded(v: &Vec<char>, a: usize, b: usize, k: usize) -> (r: Option<u64>)
    requires
        a <= b <= v@.len(),
        1 <= k <= 18,
    ensures
        r matches Some(x) ==> decimal_round(v@.subrange(a as int, b as int), k as nat) == Some(x as nat),
        r is None ==> decimal_round(v@.subrange(a as int, b as int), k as nat) is None,
{
    let x = match parse_decimal_range(v, a, b, k) {
        Some(x) => x,
        None => {
            return None;
        },
    };
    let f = frac_start(v, a, b);
    let ghost fp = v@.subrange(f as int, b as int);
    if b - f <= k {
        return Some(x);
    }
    let up = match digit_of(v[f + k]) {
        Some(d) => if d > 5 {
            true
        } else if d < 5 {
            false
        } else {
            let mut nz = false;
            let mut q: usize = f + k + 1;
            while q < b
                invariant
                    f + k + 1 <= q <= b <= v@.len(),
                    fp == v@.subrange(f as int, b as int),
                    nz == nonzero_in(fp.skip(k + 1 as int).take(q - (f + k + 1))),
                decreases b - q,
            {
                let ghost t = fp.skip(k + 1 as int);
                let ghost m = q - (f + k + 1);
                assert(t[m] == v@[q as int]);
                assert(t.take(m + 1) =~= t.take(m).push(t[m]));
                if v[q] != '0' {
                    nz = true;
                    assert(t.take(m + 1)[m] != '0');
                } else {
                    assert(nonzero_in(t.take(m + 1)) ==> nonzero_in(t.take(m))) by {
                        if nonzero_in(t.take(m + 1)) {
                            let i = choose|i: int| 0 <= i < t.take(m + 1).len() && #[trigger] t.take(m + 1)[i] != '0';
                            assert(i < m);
                            assert(t.take(m)[i] == t.take(m + 1)[i]);
                        }
                    }
                    assert(nonzero_in(t.take(m)) ==> nonzero_in(t.take(m + 1))) by {
                        if nonzero_in(t.take(m)) {
                            let i = choose|i: int| 0 <= i < t.take(m).len() && #[trigger] t.take(m)[i] != '0';
                            assert(t.take(m + 1)[i] == t.take(m)[i]);
                        }
                    }
                }
                q += 1;
            }
            assert(fp.skip(k + 1 as int).take(b - (f + k + 1)) =~= fp.skip(k + 1 as int));
            let odd = match digit_of(v[f + k - 1]) {
                Some(e) => e % 2 == 1,
                None => false,
            };
            assert(fp[k - 1] == v@[f + k - 1]);
            nz || odd
        },
        None => false,
    };
    assert(fp[k as int] == v@[f + k]);
    if up {
        if x == 0xffff_ffff_ffff_ffff {
            return None;
        }
        Some(x + 1)
    } else {
        Some(x)
    }
}

/// `frac_digits` of `v[fs..b]` as a vector.
fn frac_vec(v: &Vec<char>, fs: usize, b: usize, k: usize) -> (fd: Vec<char>)
    requires
        fs <= b <= v@.len(),
    ensures
        fd@ == frac_digits(v@.subrange(fs as int, b as int), k as nat),
{
    let ghost fp = v@.subrange(fs as int, b as int);
    let ghost fds = frac_digits(fp, k as nat);
    let mut fd: Vec<char> = Vec::new();
    let mut i: usize = 0;
    while i < k
        invariant
            i <= k,
            fs <= b <= v@.len(),
            fp == v@.subrange(fs as int, b as int),
            fds == frac_digits(fp, k as nat),
            fd@ == fds.take(i as int),
        decreases k - i,
    {
        if i < b - fs {
            fd.push(v[fs + i]);
        } else {
            fd.push('0');
        }
        i += 1;
        assert(fd@ =~= fds.take(i as int));
    }
    assert(fd@ =~= fds);
    fd
}

pub fn pow10_u64(k: usize) -> (r: u64)
    requires
        k <= 18,
    ensures
        r == pow10(k as nat),
{
    let mut scale: u64 = 1;
    let mut e: usize = 0;
    while e < k
        invariant
            e <= k <= 18,
            scale == pow10(e as nat),
        decreases k - e,
    {
        proof {
            lemma_pow10_mono((e + 1) as nat, 18);
            lemma_pow10_exact(18);
        }
        scale = scale * 10;
        e += 1;
    }
    scale
}

/// `iv * scale + fv` when it fits in 64 bits.
fn combine(iv: u64, scale: u64, fv: u64) -> (r: Option<u64>)
    ensures
        r matches Some(x) ==> x == iv * scale + fv,
        r is None ==> iv * scale + fv > u64::MAX,
{
    let ghost a = iv as int;
    let ghost c = scale as int;
    assert(a * c <= 0xffff_ffff_ffff_ffff * 0xffff_ffff_ffff_ffff) by (nonlinear_arith)
        requires
            0 <= a <= 0xffff_ffff_ffff_ffff,
            0 <= c <= 0xffff_ffff_ffff_ffff,
    ;
    let whole: u128 = (iv as u128) * (scale as u128);
    if whole > 0xffff_ffff_ffff_ffff {
        return None;
    }
    let total: u128 = whole + (fv as u128);
    if total > 0xffff_ffff_ffff_ffff {
        return None;
    }
    Some(total as u64)
}

pub proof fn lemma_pow10_le(i: nat)
    requires
        i <= 17,
    ensures
        pow10(i) <= 100_000_000_000_000_000,
    decreases i,
{
    if i > 0 {
        lemma_pow10_le((i - 1) as nat);
        assert(pow10(i) == 10 * pow10((i - 1) as nat));
        if i == 17 {
            assert(pow10(16) <= 10_000_000_000_000_000) by {
                lemma_pow10_exact(16);
            }
        } else {
            lemma_pow10_mono((i - 1) as nat, 16);
            lemma_pow10_exact(16);
        }
    }
}

pub proof fn lemma_pow10_exact(i: nat)
    requires
        i <= 18,
    ensures
        i == 16 ==> pow10(i) == 10_000_000_000_000_000,
        i == 17 ==> pow10(i) == 100_000_000_000_000_000,
        i == 18 ==> pow10(i) == 1_000_000_000_000_000_000,
    decreases i,
{
    reveal_with_fuel(pow10, 19);
}

pub proof fn lemma_pow10_mono(a: nat, b: nat)
    requires
        a <= b,
    ensures
        pow10(a) <= pow10(b),
    decreases b - a,
{
    if a < b {
        lemma_pow10_mono(a, (b - 1) as nat);
        lemma_pow10_pos((b - 1) as nat);
    }
}

// ---------------------------------------------------------------------------
// Writing
// ---------------------------------------------------------------------------

/// `n` written with exactly `w` digits (zero padded, cut to the low digits).
pub open spec fn padded(n: nat, w: nat) -> Seq<char>
    decreases w,
{
    if w == 0 {
        seq![]
    } else {
        padded(n / 10, (w - 1) as nat).push(digit(n % 10))
    }
}

pub fn push_padded(s: &mut String, n: u64, w: usize)
    ensures
        final(s)@ == old(s)@ + padded(n as nat, w as nat),
    decreases w,
{
    if w == 0 {
        assert(final(s)@ =~= old(s)@ + padded(n as nat, w as nat));
    } else {
        push_padded(s, n / 10, w - 1);
        push_char(s, crate::text::digit_char(n % 10));
        assert(final(s)@ =~= old(s)@ + padded(n as nat, w as nat));
    }
}

/// `{:.3}` of `ms / 1000`: whole part, a dot and three digits.
pub open spec fn fixed3(ms: nat) -> Seq<char> {
    dec(ms / 1000) + seq!['.'] + padded(ms % 1000, 3)
}

pub fn push_fixed3(s: &mut String, ms: u64)
    ensures
        final(s)@ == old(s)@ + fixed3(ms as nat),
{
    let ghost s0 = s@;
    push_dec(s, ms / 1000);
    push_char(s, '.');
    push_padded(s, ms % 1000, 3);
    assert(s@ =~= s0 + fixed3(ms as nat));
}

} // verus!
