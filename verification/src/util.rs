//! Small shared helpers: media extensions, size, duration and bit-rate
//! texts, shortened names and numbered output names.

use vstd::prelude::*;

use crate::ffmpeg::Media;
use crate::text::{
    chars_of, dec, digit, digit_char, eq_chars, fold, fold_chars, fold_seq, push_char, push_dec,
    replace_seq, replace_str, string_of, sub_chars, to_owned,
};
use crate::num::{padded, push_padded};
use crate::paths::{extension, file_name, file_stem, join, parent, path_extension, path_file_name, path_file_stem, path_join, path_parent};

verus! {

/// Extensions of the files the program takes as input.
pub open spec fn media_exts() -> Seq<&'static str> {
    seq!["mp3", "flac", "wav", "ogg", "oga", "opus", "m4a", "aac", "wma", "ape", "mp4", "mkv", "avi", "mov", "webm", "wmv", "flv", "m4v", "ts", "m2ts", "mpg", "mpeg", "3gp", "vob", "jpg", "jpeg", "png", "webp", "bmp", "gif", "tif", "tiff", "avif"]
}

/// The extension, lower-cased, is one of `media_exts`.
pub open spec fn is_media_ext_spec(ext: Seq<char>) -> bool {
    exists|i: int| 0 <= i < media_exts().len() && fold_seq(ext) == (#[trigger] media_exts()[i])@
}

/// The media-extension check ignores ASCII case: a text is accepted
/// exactly when its lower-case form is, and two texts equal but for case
/// are accepted alike.
pub proof fn lemma_media_ext_ignores_case(a: Seq<char>, b: Seq<char>)
    ensures
        is_media_ext_spec(a) == is_media_ext_spec(fold_seq(a)),
        fold_seq(a) == fold_seq(b) ==> is_media_ext_spec(a) == is_media_ext_spec(b),
{
    assert forall|i: int| 0 <= i < a.len() implies fold(fold(a[i])) == fold(a[i]) by {
        crate::text::lemma_fold_twice(a[i]);
    }
    assert(fold_seq(fold_seq(a)) =~= fold_seq(a));
}

/// The input files are the usual audio, video and picture formats: an
/// extension is taken, in any letter case, exactly when it is one of mp3,
/// flac, wav, ogg, oga, opus, m4a, aac, wma, ape (audio); mp4, mkv, avi,
/// mov, webm, wmv, flv, m4v, ts, m2ts, mpg, mpeg, 3gp, vob (video); jpg,
/// jpeg, png, webp, bmp, gif, tif, tiff, avif (pictures).
pub proof fn lemma_media_exts(ext: Seq<char>)
    ensures
        is_media_ext_spec(ext) <==> {
            let f = fold_seq(ext);
            f == "mp3"@
            || f == "flac"@
            || f == "wav"@
            || f == "ogg"@
            || f == "oga"@
            || f == "opus"@
            || f == "m4a"@
            || f == "aac"@
            || f == "wma"@
            || f == "ape"@
            || f == "mp4"@
            || f == "mkv"@
            || f == "avi"@
            || f == "mov"@
            || f == "webm"@
            || f == "wmv"@
            || f == "flv"@
            || f == "m4v"@
            || f == "ts"@
            || f == "m2ts"@
            || f == "mpg"@
            || f == "mpeg"@
            || f == "3gp"@
            || f == "vob"@
            || f == "jpg"@
            || f == "jpeg"@
            || f == "png"@
            || f == "webp"@
            || f == "bmp"@
            || f == "gif"@
            || f == "tif"@
            || f == "tiff"@
            || f == "avif"@
        },
{
    let f = fold_seq(ext);
    if is_media_ext_spec(ext) {
        let i = choose|i: int| 0 <= i < media_exts().len() && f == (#[trigger] media_exts()[i])@;
        assert(0 <= i < 33);
    }
    if f == "mp3"@ {
        assert(f == media_exts()[0]@);
    }
    if f == "flac"@ {
        assert(f == media_exts()[1]@);
    }
    if f == "wav"@ {
        assert(f == media_exts()[2]@);
    }
    if f == "ogg"@ {
        assert(f == media_exts()[3]@);
    }
    if f == "oga"@ {
        assert(f == media_exts()[4]@);
    }
    if f == "opus"@ {
        assert(f == media_exts()[5]@);
    }
    if f == "m4a"@ {
        assert(f == media_exts()[6]@);
    }
    if f == "aac"@ {
        assert(f == media_exts()[7]@);
    }
    if f == "wma"@ {
        assert(f == media_exts()[8]@);
    }
    if f == "ape"@ {
        assert(f == media_exts()[9]@);
    }
    if f == "mp4"@ {
        assert(f == media_exts()[10]@);
    }
    if f == "mkv"@ {
        assert(f == media_exts()[11]@);
    }
    if f == "avi"@ {
        assert(f == media_exts()[12]@);
    }
    if f == "mov"@ {
        assert(f == media_exts()[13]@);
    }
    if f == "webm"@ {
        assert(f == media_exts()[14]@);
    }
    if f == "wmv"@ {
        assert(f == media_exts()[15]@);
    }
    if f == "flv"@ {
        assert(f == media_exts()[16]@);
    }
    if f == "m4v"@ {
        assert(f == media_exts()[17]@);
    }
    if f == "ts"@ {
        assert(f == media_exts()[18]@);
    }
    if f == "m2ts"@ {
        assert(f == media_exts()[19]@);
    }
    if f == "mpg"@ {
        assert(f == media_exts()[20]@);
    }
    if f == "mpeg"@ {
        assert(f == media_exts()[21]@);
    }
    if f == "3gp"@ {
        assert(f == media_exts()[22]@);
    }
    if f == "vob"@ {
        assert(f == media_exts()[23]@);
    }
    if f == "jpg"@ {
        assert(f == media_exts()[24]@);
    }
    if f == "jpeg"@ {
        assert(f == media_exts()[25]@);
    }
    if f == "png"@ {
        assert(f == media_exts()[26]@);
    }
    if f == "webp"@ {
        assert(f == media_exts()[27]@);
    }
    if f == "bmp"@ {
        assert(f == media_exts()[28]@);
    }
    if f == "gif"@ {
        assert(f == media_exts()[29]@);
    }
    if f == "tif"@ {
        assert(f == media_exts()[30]@);
    }
    if f == "tiff"@ {
        assert(f == media_exts()[31]@);
    }
    if f == "avif"@ {
        assert(f == media_exts()[32]@);
    }
}

pub fn is_media_ext(ext: &str) -> (r: bool)
    ensures
        r == is_media_ext_spec(ext@),
{
    let v = chars_of(ext);
    let f = fold_chars(v.as_slice());
    let list: [&str; 33] = ["mp3", "flac", "wav", "ogg", "oga", "opus", "m4a", "aac", "wma", "ape", "mp4", "mkv", "avi", "mov", "webm", "wmv", "flv", "m4v", "ts", "m2ts", "mpg", "mpeg", "3gp", "vob", "jpg", "jpeg", "png", "webp", "bmp", "gif", "tif", "tiff", "avif"];
    assert(list@ == media_exts());
    let mut i: usize = 0;
    while i < 33
        invariant
            i <= 33,
            list@ == media_exts(),
            f@ == fold_seq(ext@),
            forall|j: int| 0 <= j < i ==> f@ != (#[trigger] media_exts()[j])@,
        decreases 33 - i,
    {
        let e = chars_of(list[i]);
        if eq_chars(f.as_slice(), e.as_slice()) {
            assert(f@ == media_exts()[i as int]@);
            return true;
        }
        i += 1;
    }
    false
}

} // verus!

verus! {

/// `b / v` in tenths, rounded to nearest with ties to even (how `{:.1}`
/// writes a quotient that is exact in binary).
pub open spec fn tenths(b: nat, v: nat) -> nat {
    let t = 10 * b / v;
    let r = 10 * b % v;
    if 2 * r > v || (2 * r == v && t % 2 == 1) {
        t + 1
    } else {
        t
    }
}

/// A tenths count written with one decimal.
pub open spec fn one_decimal(t: nat) -> Seq<char> {
    dec(t / 10) + "."@ + seq![digit(t % 10)]
}

/// Size text: the largest of GB, MB, KB, B (binary multiples) not above the
/// size, with one decimal; `0 B` for nothing.
pub open spec fn fmt_size_spec(b: nat) -> Seq<char> {
    if b >= 0x4000_0000 {
        one_decimal(tenths(b, 0x4000_0000)) + " GB"@
    } else if b >= 0x10_0000 {
        one_decimal(tenths(b, 0x10_0000)) + " MB"@
    } else if b >= 0x400 {
        one_decimal(tenths(b, 0x400)) + " KB"@
    } else if b >= 1 {
        one_decimal(tenths(b, 1)) + " B"@
    } else {
        "0 B"@
    }
}

fn tenths_exec(b: u64, v: u64) -> (t: u128)
    requires
        v >= 1,
    ensures
        t == tenths(b as nat, v as nat),
{
    let b10: u128 = (b as u128) * 10;
    let t: u128 = b10 / (v as u128);
    let r: u128 = b10 % (v as u128);
    if 2 * r > (v as u128) || (2 * r == (v as u128) && t % 2 == 1) {
        t + 1
    } else {
        t
    }
}

fn push_one_decimal(s: &mut String, t: u128)
    requires
        t / 10 <= u64::MAX,
    ensures
        final(s)@ == old(s)@ + one_decimal(t as nat),
{
    let whole: u64 = (t / 10) as u64;
    let d: u64 = (t % 10) as u64;
    let ghost s0 = s@;
    push_dec(s, whole);
    push_char(s, '.');
    push_char(s, digit_char(d));
    assert(whole as nat == (t as nat) / 10);
    assert(d as nat == (t as nat) % 10);
    proof {
        reveal_strlit(".");
    }
    assert(s@ =~= s0 + one_decimal(t as nat));
}

pub fn fmt_size(b: u64) -> (r: String)
    ensures
        r@ == fmt_size_spec(b as nat),
{
    let (v, unit): (u64, &str) = if b >= 0x4000_0000 {
        (0x4000_0000, " GB")
    } else if b >= 0x10_0000 {
        (0x10_0000, " MB")
    } else if b >= 0x400 {
        (0x400, " KB")
    } else if b >= 1 {
        (1, " B")
    } else {
        return to_owned("0 B");
    };
    let t = tenths_exec(b, v);
    assert(t / 10 <= u64::MAX) by (nonlinear_arith)
        requires
            v == 1 ==> t == (b as int) * 10,
            v != 1 ==> v >= 1024 && t <= (b as int) * 10 / (v as int) + 1,
            b <= 0xffff_ffff_ffff_ffff,
    ;
    let mut r = String::new();
    push_one_decimal(&mut r, t);
    r.append(unit);
    r
}

/// Seconds with one decimal from milliseconds.
pub open spec fn secs_text(millis: nat) -> Seq<char> {
    one_decimal(tenths(millis, 1000))
}

pub fn fmt_secs(millis: u64) -> (r: String)
    ensures
        r@ == secs_text(millis as nat),
{
    let t = tenths_exec(millis, 1000);
    assert(t / 10 <= u64::MAX) by (nonlinear_arith)
        requires
            t <= (millis as int) * 10 / 1000 + 1,
            millis <= 0xffff_ffff_ffff_ffff,
    ;
    let mut r = String::new();
    push_one_decimal(&mut r, t);
    r
}

/// Duration text from microseconds: `h:mm:ss` from an hour on, else
/// `m:ss`; `-` for nothing.
pub open spec fn fmt_dur_spec(us: nat) -> Seq<char> {
    let t = us / 1_000_000;
    let h = t / 3600;
    let m = t % 3600 / 60;
    let s = t % 60;
    if us == 0 {
        "-"@
    } else if h > 0 {
        dec(h) + ":"@ + padded(m, 2) + ":"@ + padded(s, 2)
    } else {
        dec(m) + ":"@ + padded(s, 2)
    }
}

pub fn fmt_dur(us: u64) -> (r: String)
    ensures
        r@ == fmt_dur_spec(us as nat),
{
    if us == 0 {
        return to_owned("-");
    }
    let t = us / 1_000_000;
    let h = t / 3600;
    let m = t % 3600 / 60;
    let s = t % 60;
    let mut r = String::new();
    if h > 0 {
        push_dec(&mut r, h);
        r.append(":");
        push_padded(&mut r, m, 2);
    } else {
        push_dec(&mut r, m);
    }
    r.append(":");
    push_padded(&mut r, s, 2);
    r
}

/// At most `max` characters: longer texts keep `max - 3` characters and end
/// in `...`.
pub open spec fn truncate_spec(s: Seq<char>, max: nat) -> Seq<char> {
    if s.len() <= max {
        s
    } else {
        s.take(if max >= 3 {
            (max - 3) as int
        } else {
            0
        }) + "..."@
    }
}

pub fn truncate(s: &str, max: usize) -> (r: String)
    ensures
        r@ == truncate_spec(s@, max as nat),
{
    let v = chars_of(s);
    if v.len() <= max {
        return to_owned(s);
    }
    let keep: usize = if max >= 3 {
        max - 3
    } else {
        0
    };
    let head = sub_chars(&v, 0, keep);
    let mut r = string_of(head.as_slice());
    r.append("...");
    assert(head@ =~= s@.take(keep as int));
    r
}

/// Source bit rate in kbps: the container's, else size over duration.
pub open spec fn src_kbps_spec(m: Media) -> Option<nat> {
    match m.bit_rate {
        Some(b) => Some((b / 1000) as nat),
        None => if m.duration_us > 0 {
            let k: nat = m.size as nat * 8000 / m.duration_us as nat;
            Some(
                if k > u64::MAX {
                    u64::MAX as nat
                } else {
                    k
                },
            )
        } else {
            None
        },
    }
}

pub fn src_kbps(m: &Media) -> (r: Option<u64>)
    ensures
        r matches Some(x) ==> src_kbps_spec(*m) == Some(x as nat),
        r is None ==> src_kbps_spec(*m) is None,
{
    match m.bit_rate {
        Some(b) => Some(b / 1000),
        None => if m.duration_us > 0 {
            let k: u128 = (m.size as u128) * 8000 / (m.duration_us as u128);
            if k > 0xffff_ffff_ffff_ffff {
                Some(0xffff_ffff_ffff_ffff)
            } else {
                Some(k as u64)
            }
        } else {
            None
        },
    }
}

/// Name of the first file of a numbered output (`%03d` becomes `001`).
pub open spec fn first_part_spec(name: Seq<char>) -> Seq<char> {
    replace_seq(name, "%03d"@, "001"@)
}

pub fn first_part_name(name: &str) -> (r: String)
    ensures
        r@ == first_part_spec(name@),
{
    proof {
        reveal_strlit("%03d");
    }
    replace_str(name, "%03d", "001")
}

/// The file that shows whether a conversion produced its output: for a
/// numbered output its first part (`%03d` read as `001`, in the output's
/// folder, `.` when it has none), else the output itself.
pub open spec fn output_check_spec(output: Seq<char>, pattern: bool) -> Seq<char> {
    if pattern {
        let name = match path_file_name(output) {
            Some(n) => n,
            None => seq![],
        };
        let dir = match path_parent(output) {
            Some(d) => d,
            None => seq!['.'],
        };
        path_join(dir, first_part_spec(name))
    } else {
        output
    }
}

pub fn output_check_path(output: &str, pattern: bool) -> (r: String)
    ensures
        r@ == output_check_spec(output@, pattern),
{
    if !pattern {
        return to_owned(output);
    }
    let name = match file_name(output) {
        Some(n) => n,
        None => String::new(),
    };
    let first = first_part_name(name.as_str());
    let dir = match parent(output) {
        Some(d) => d,
        None => {
            let mut d = String::new();
            push_char(&mut d, '.');
            d
        },
    };
    assert(dir@ == (match path_parent(output@) {
        Some(d) => d,
        None => seq!['.'],
    })) by {
        if path_parent(output@) is None {
            assert(dir@ =~= seq!['.']);
        }
    }
    join(dir.as_str(), first.as_str())
}

/// The output is there: for a numbered output its first part is a file;
/// else the output is a file that is not empty. `is_file` and `len`
/// describe the file `output_check_path` names.
pub fn output_ok(pattern: bool, is_file: bool, len: u64) -> (r: bool)
    ensures
        r == (is_file && (pattern || len > 0)),
{
    is_file && (pattern || len > 0)
}

/// The `n`-th name tried when moving `src` into `dir`: its own name first,
/// then `{stem}_{n}.{ext}` (or `{stem}_{n}` without an extension) while the
/// name is taken; none for a path without a file name.
pub open spec fn move_target_spec(src: Seq<char>, dir: Seq<char>, n: nat) -> Option<Seq<char>> {
    match path_file_name(src) {
        None => None,
        Some(f) => Some(
            if n == 0 {
                path_join(dir, f)
            } else {
                let stem = match path_file_stem(src) {
                    Some(s) => s,
                    None => seq![],
                };
                match path_extension(src) {
                    Some(e) => path_join(dir, stem + "_"@ + dec(n) + "."@ + e),
                    None => path_join(dir, stem + "_"@ + dec(n)),
                }
            },
        ),
    }
}

pub fn move_target(src: &str, dir: &str, n: u32) -> (r: Option<String>)
    ensures
        r.deep_view() == move_target_spec(src@, dir@, n as nat),
{
    let f = match file_name(src) {
        Some(f) => f,
        None => {
            return None;
        },
    };
    if n == 0 {
        return Some(join(dir, f.as_str()));
    }
    let mut name = match file_stem(src) {
        Some(s) => s,
        None => String::new(),
    };
    name.append("_");
    push_dec(&mut name, n as u64);
    match extension(src) {
        Some(e) => {
            name.append(".");
            name.append(e.as_str());
        },
        None => {},
    }
    Some(join(dir, name.as_str()))
}

} // verus!

verus! {

/// The first index from `n` on whose entry is `false`.
pub open spec fn first_free(taken: Seq<bool>, n: int) -> Option<int>
    decreases taken.len() - n,
{
    if n < 0 || n >= taken.len() {
        None
    } else if !taken[n] {
        Some(n)
    } else {
        first_free(taken, n + 1)
    }
}

/// Where a move of `src` into `dir` goes: the first of `move_target`'s
/// names that is not taken (`taken[n]` says whether the `n`-th name is
/// taken); none when every name asked about is taken or `src` has no file
/// name.
pub fn move_destination(src: &str, dir: &str, taken: &Vec<bool>) -> (r: Option<String>)
    requires
        taken@.len() <= u32::MAX,
    ensures
        r.deep_view() == match first_free(taken@, 0) {
            Some(n) => move_target_spec(src@, dir@, n as nat),
            None => None,
        },
{
    let mut i: usize = 0;
    while i < taken.len()
        invariant
            i <= taken@.len() <= u32::MAX,
            first_free(taken@, 0) == first_free(taken@, i as int),
        decreases taken@.len() - i,
    {
        if !taken[i] {
            return move_target(src, dir, i as u32);
        }
        i += 1;
    }
    None
}

} // verus!
