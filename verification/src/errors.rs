//! Operating-system error texts turned into plain sentences in the
//! interface language: the raw system wording ("Permission denied",
//! "os error 13", ...) is never shown as it is.

use vstd::prelude::*;

use crate::lang::Lang;
use crate::text::{
    chars_of, contains_chars, contains_seq, digit_of, digit_value, fold_chars, fold_seq, has_at,
    to_owned,
};

verus! {

/// What kind of failure an I/O error reports (the cases the messages tell
/// apart; every other kind is `Other`).
#[derive(Clone, Copy, PartialEq, Eq, Structural, Debug)]
pub enum IoKind {
    NotFound,
    PermissionDenied,
    AlreadyExists,
    InvalidInput,
    InvalidData,
    Other,
}

/// `p` occurs in `raw` compared without regard to ASCII case.
pub open spec fn mentions(raw: Seq<char>, p: &'static str) -> bool {
    contains_seq(fold_seq(raw), p@)
}

/// Error code `p` (such as `os error 2`) occurs in `raw` without a further
/// digit after it, compared without regard to ASCII case.
pub open spec fn mentions_code(raw: Seq<char>, p: &'static str) -> bool {
    exists|i: int|
        #[trigger] has_at(fold_seq(raw), p@, i) && (i + p@.len() >= raw.len() || !is_digit(
            fold_seq(raw)[i + p@.len()],
        ))
}

/// The sentence for a known system error wording in `raw`, if there is one.
/// The patterns are tried in this order.
pub open spec fn known_message(raw: Seq<char>, lang: Lang) -> Option<&'static str> {
    if mentions(raw, "permission denied") || mentions_code(raw, "os error 13") || mentions(
        raw,
        "eacces",
    ) {
        Some(
            match lang {
                Lang::Tr => "Erişim izni yok (izin verilmemiş bir klasör olabilir)",
                Lang::En => "Permission denied (the folder may not be accessible)",
            },
        )
    } else if mentions(raw, "no such file or directory") || mentions_code(raw, "os error 2") {
        Some(
            match lang {
                Lang::Tr => "Dosya ya da klasör bulunamadı",
                Lang::En => "File or folder not found",
            },
        )
    } else if mentions(raw, "is a directory") || mentions_code(raw, "os error 21") {
        Some(
            match lang {
                Lang::Tr => "Bu bir klasör, dosya değil",
                Lang::En => "That is a folder, not a file",
            },
        )
    } else if mentions(raw, "no space left") || mentions_code(raw, "os error 28") {
        Some(
            match lang {
                Lang::Tr => "Cihazda yer kalmadı",
                Lang::En => "No space left on device",
            },
        )
    } else if mentions(raw, "read-only file system") || mentions_code(raw, "os error 30") {
        Some(
            match lang {
                Lang::Tr => "Dosya sistemi salt okunur",
                Lang::En => "File system is read-only",
            },
        )
    } else if mentions(raw, "text file busy") {
        Some(
            match lang {
                Lang::Tr => "Dosya şu an başka bir işlem tarafından kullanılıyor",
                Lang::En => "File is currently in use by another process",
            },
        )
    } else {
        None
    }
}

fn mentions_exec(low: &[char], p: &'static str) -> (r: bool)
    ensures
        r == contains_seq(low@, p@),
{
    let pv = chars_of(p);
    contains_chars(low, pv.as_slice())
}

fn mentions_code_exec(low: &[char], p: &'static str) -> (r: bool)
    ensures
        r == exists|i: int|
            #[trigger] has_at(low@, p@, i) && (i + p@.len() >= low@.len() || !is_digit(low@[i + p@.len()])),
{
    let pv = chars_of(p);
    let n = low.len();
    let mut i: usize = 0;
    while i < n
        invariant
            n == low@.len(),
            pv@ == p@,
            forall|j: int| 0 <= j < i ==> !(#[trigger] has_at(low@, p@, j) && (j + p@.len() >= low@.len()
                || !is_digit(low@[j + p@.len()]))),
        decreases n - i,
    {
        if crate::text::match_at(low, pv.as_slice(), i) {
            let end = i + pv.len();
            if end >= n || digit_of(low[end]).is_none() {
                return true;
            }
        }
        i += 1;
    }
    if pv.len() == 0 {
        assert(low@.subrange(n as int, n as int) =~= p@);
        assert(has_at(low@, p@, n as int));
        return true;
    }
    assert forall|j: int| has_at(low@, p@, j) implies !(j + p@.len() >= low@.len() || !is_digit(
        low@[j + p@.len()],
    )) by {
        assert(j < n);
    }
    false
}

/// Folding ASCII letters (and the Kelvin sign) finds these ASCII patterns
/// exactly where a search of the fully lower-cased text does: no pattern
/// holds a `k` or ends in an `i`, the only ASCII letters other characters
/// lower-case into.
fn match_pattern(raw: &str, lang: Lang) -> (r: Option<&'static str>)
    ensures
        r == known_message(raw@, lang),
{
    let v = chars_of(raw);
    let low = fold_chars(v.as_slice());
    let low = low.as_slice();
    let tr = lang == Lang::Tr;
    if mentions_exec(low, "permission denied") || mentions_code_exec(low, "os error 13")
        || mentions_exec(low, "eacces") {
        Some(
            if tr {
                "Erişim izni yok (izin verilmemiş bir klasör olabilir)"
            } else {
                "Permission denied (the folder may not be accessible)"
            },
        )
    } else if mentions_exec(low, "no such file or directory") || mentions_code_exec(low, "os error 2") {
        Some(
            if tr {
                "Dosya ya da klasör bulunamadı"
            } else {
                "File or folder not found"
            },
        )
    } else if mentions_exec(low, "is a directory") || mentions_code_exec(low, "os error 21") {
        Some(
            if tr {
                "Bu bir klasör, dosya değil"
            } else {
                "That is a folder, not a file"
            },
        )
    } else if mentions_exec(low, "no space left") || mentions_code_exec(low, "os error 28") {
        Some(
            if tr {
                "Cihazda yer kalmadı"
            } else {
                "No space left on device"
            },
        )
    } else if mentions_exec(low, "read-only file system") || mentions_code_exec(low, "os error 30") {
        Some(
            if tr {
                "Dosya sistemi salt okunur"
            } else {
                "File system is read-only"
            },
        )
    } else if mentions_exec(low, "text file busy") {
        Some(
            if tr {
                "Dosya şu an başka bir işlem tarafından kullanılıyor"
            } else {
                "File is currently in use by another process"
            },
        )
    } else {
        None
    }
}

/// Number of raw system fragments `map_text` knows.
pub const FRAGMENT_COUNT: usize = 15;

/// The raw system fragments `map_text` replaces. Where two can start at
/// the same place, the longer comes first.
pub open spec fn fragment(k: int) -> &'static str {
    if k == 0 {
        "Permission denied (os error 13)"
    } else if k == 1 {
        "No such file or directory (os error 2)"
    } else if k == 2 {
        "Is a directory (os error 21)"
    } else if k == 3 {
        "No space left on device (os error 28)"
    } else if k == 4 {
        "Read-only file system (os error 30)"
    } else if k == 5 {
        "No such file or directory"
    } else if k == 6 {
        "No space left on device"
    } else if k == 7 {
        "Read-only file system"
    } else if k == 8 {
        "Permission denied"
    } else if k == 9 {
        "Is a directory"
    } else if k == 10 {
        "os error 13"
    } else if k == 11 {
        "os error 21"
    } else if k == 12 {
        "os error 28"
    } else if k == 13 {
        "os error 30"
    } else if k == 14 {
        "os error 2"
    } else {
        ""
    }
}

/// Which sentence a fragment stands for: 0 permission, 1 not found, 2 a
/// folder, 3 no space, 4 read-only.
pub open spec fn fragment_group(k: int) -> int {
    if k == 0 {
        0
    } else if k == 1 {
        1
    } else if k == 2 {
        2
    } else if k == 3 {
        3
    } else if k == 4 {
        4
    } else if k == 5 {
        1
    } else if k == 6 {
        3
    } else if k == 7 {
        4
    } else if k == 8 {
        0
    } else if k == 9 {
        2
    } else if k == 10 {
        0
    } else if k == 11 {
        2
    } else if k == 12 {
        3
    } else if k == 13 {
        4
    } else if k == 14 {
        1
    } else {
        0
    }
}

/// The sentence of a group.
pub open spec fn group_message(g: int, lang: Lang) -> &'static str {
    if g == 0 {
        match lang {
            Lang::Tr => "Erişim izni yok (izin verilmemiş bir klasör olabilir)",
            Lang::En => "Permission denied (the folder may not be accessible)",
        }
    } else if g == 1 {
        match lang {
            Lang::Tr => "Dosya ya da klasör bulunamadı",
            Lang::En => "File or folder not found",
        }
    } else if g == 2 {
        match lang {
            Lang::Tr => "Bu bir klasör, dosya değil",
            Lang::En => "That is a folder, not a file",
        }
    } else if g == 3 {
        match lang {
            Lang::Tr => "Cihazda yer kalmadı",
            Lang::En => "No space left on device",
        }
    } else if g == 4 {
        match lang {
            Lang::Tr => "Dosya sistemi salt okunur",
            Lang::En => "File system is read-only",
        }
    } else {
        match lang {
            Lang::Tr => "Dosya işlemi başarısız",
            Lang::En => "File operation failed",
        }
    }
}

pub open spec fn is_digit(c: char) -> bool {
    digit_value(c) is Some
}

/// Fragment `k` stands at position `i` of `s`; one that ends in a number
/// only where no further digit follows (`os error 2` is not in
/// `os error 21`).
pub open spec fn fragment_at(s: Seq<char>, i: int, k: int) -> bool {
    let f = fragment(k)@;
    &&& f.len() > 0
    &&& has_at(s, f, i)
    &&& is_digit(f.last()) ==> (i + f.len() >= s.len() || !is_digit(s[i + f.len()]))
}

/// The first fragment from `k` on that stands at position `i`.
pub open spec fn first_fragment(s: Seq<char>, i: int, k: int) -> Option<int>
    decreases FRAGMENT_COUNT - k,
{
    if k < 0 || k >= FRAGMENT_COUNT {
        None
    } else if fragment_at(s, i, k) {
        Some(k)
    } else {
        first_fragment(s, i, k + 1)
    }
}

pub proof fn lemma_first_fragment(s: Seq<char>, i: int, k: int)
    ensures
        first_fragment(s, i, k) matches Some(j) ==> 0 <= j < FRAGMENT_COUNT && fragment_at(s, i, j),
    decreases FRAGMENT_COUNT - k,
{
    if 0 <= k < FRAGMENT_COUNT && !fragment_at(s, i, k) {
        lemma_first_fragment(s, i, k + 1);
    }
}

/// The text from position `i` on, read left to right: where a fragment
/// stands, its sentence replaces it and reading goes on after it.
pub open spec fn map_scan(s: Seq<char>, i: int, lang: Lang) -> Seq<char>
    decreases s.len() - i,
{
    if i < 0 || i >= s.len() {
        seq![]
    } else {
        match first_fragment(s, i, 0) {
            Some(k) => {
                proof {
                    lemma_first_fragment(s, i, 0);
                }
                group_message(fragment_group(k), lang)@ + map_scan(s, i + fragment(k)@.len(), lang)
            },
            None => seq![s[i]] + map_scan(s, i + 1, lang),
        }
    }
}

/// Free text with every raw system fragment in it replaced by its sentence,
/// each once, the longest at each place, the sentences never read again.
pub open spec fn map_text_spec(raw: Seq<char>, lang: Lang) -> Seq<char> {
    map_scan(raw, 0, lang)
}

fn fragment_str(k: usize) -> (r: &'static str)
    requires
        k < FRAGMENT_COUNT,
    ensures
        r == fragment(k as int),
{
    if k == 0 {
        "Permission denied (os error 13)"
    } else if k == 1 {
        "No such file or directory (os error 2)"
    } else if k == 2 {
        "Is a directory (os error 21)"
    } else if k == 3 {
        "No space left on device (os error 28)"
    } else if k == 4 {
        "Read-only file system (os error 30)"
    } else if k == 5 {
        "No such file or directory"
    } else if k == 6 {
        "No space left on device"
    } else if k == 7 {
        "Read-only file system"
    } else if k == 8 {
        "Permission denied"
    } else if k == 9 {
        "Is a directory"
    } else if k == 10 {
        "os error 13"
    } else if k == 11 {
        "os error 21"
    } else if k == 12 {
        "os error 28"
    } else if k == 13 {
        "os error 30"
    } else if k == 14 {
        "os error 2"
    } else {
        ""
    }
}

fn fragment_message(k: usize, lang: Lang) -> (r: &'static str)
    requires
        k < FRAGMENT_COUNT,
    ensures
        r == group_message(fragment_group(k as int), lang),
{
    let g: usize = if k == 0 {
        0
    } else if k == 1 {
        1
    } else if k == 2 {
        2
    } else if k == 3 {
        3
    } else if k == 4 {
        4
    } else if k == 5 {
        1
    } else if k == 6 {
        3
    } else if k == 7 {
        4
    } else if k == 8 {
        0
    } else if k == 9 {
        2
    } else if k == 10 {
        0
    } else if k == 11 {
        2
    } else if k == 12 {
        3
    } else if k == 13 {
        4
    } else if k == 14 {
        1
    } else {
        0
    };
    match (g, lang) {
        (0, Lang::Tr) => "Erişim izni yok (izin verilmemiş bir klasör olabilir)",
        (0, Lang::En) => "Permission denied (the folder may not be accessible)",
        (1, Lang::Tr) => "Dosya ya da klasör bulunamadı",
        (1, Lang::En) => "File or folder not found",
        (2, Lang::Tr) => "Bu bir klasör, dosya değil",
        (2, Lang::En) => "That is a folder, not a file",
        (3, Lang::Tr) => "Cihazda yer kalmadı",
        (3, Lang::En) => "No space left on device",
        (4, Lang::Tr) => "Dosya sistemi salt okunur",
        (4, Lang::En) => "File system is read-only",
        (_, Lang::Tr) => "Dosya işlemi başarısız",
        (_, Lang::En) => "File operation failed",
    }
}

fn fragment_at_exec(v: &[char], i: usize, k: usize) -> (r: bool)
    requires
        k < FRAGMENT_COUNT,
    ensures
        r == fragment_at(v@, i as int, k as int),
{
    let f = chars_of(fragment_str(k));
    if f.len() == 0 || !crate::text::match_at(v, f.as_slice(), i) {
        return false;
    }
    assert(has_at(v@, f@, i as int));
    let vl = v.len();
    assert(i + f@.len() <= vl);
    let end = i + f.len();
    if digit_of(f[f.len() - 1]).is_none() || end >= v.len() {
        return true;
    }
    digit_of(v[end]).is_none()
}

fn first_fragment_exec(v: &[char], i: usize) -> (r: Option<usize>)
    ensures
        match r {
            Some(k) => k < FRAGMENT_COUNT && first_fragment(v@, i as int, 0) == Some(k as int),
            None => first_fragment(v@, i as int, 0) is None,
        },
{
    let mut k: usize = 0;
    while k < FRAGMENT_COUNT
        invariant
            k <= FRAGMENT_COUNT,
            first_fragment(v@, i as int, 0) == first_fragment(v@, i as int, k as int),
        decreases FRAGMENT_COUNT - k,
    {
        if fragment_at_exec(v, i, k) {
            return Some(k);
        }
        k += 1;
    }
    None
}

pub fn map_text(raw: &str, lang: Lang) -> (r: String)
    ensures
        r@ == map_text_spec(raw@, lang),
{
    let v = chars_of(raw);
    let n = v.len();
    let mut out = String::new();
    let mut i: usize = 0;
    while i < n
        invariant
            n == v@.len(),
            v@ == raw@,
            i <= n,
            out@ + map_scan(v@, i as int, lang) == map_scan(v@, 0, lang),
        decreases n - i,
    {
        proof {
            lemma_first_fragment(v@, i as int, 0);
        }
        match first_fragment_exec(v.as_slice(), i) {
            Some(k) => {
                let ghost before = out@;
                out.append(fragment_message(k, lang));
                let len = chars_of(fragment_str(k)).len();
                assert(before + map_scan(v@, i as int, lang) == out@ + map_scan(v@, (i + len) as int, lang));
                i = i + len;
            },
            None => {
                let ghost before = out@;
                crate::text::push_char(&mut out, v[i]);
                assert(before + map_scan(v@, i as int, lang) =~= out@ + map_scan(v@, i + 1, lang));
                i = i + 1;
            },
        }
    }
    assert(map_scan(v@, n as int, lang) =~= Seq::<char>::empty());
    assert(out@ =~= map_scan(v@, 0, lang));
    out
}

/// The general sentence for an error of a kind no known wording matched.
pub open spec fn kind_message(kind: IoKind, lang: Lang) -> &'static str {
    match kind {
        IoKind::NotFound => match lang {
            Lang::Tr => "Dosya ya da klasör bulunamadı",
            Lang::En => "File or folder not found",
        },
        IoKind::PermissionDenied => match lang {
            Lang::Tr => "Erişim izni yok",
            Lang::En => "Permission denied",
        },
        IoKind::AlreadyExists => match lang {
            Lang::Tr => "Zaten var",
            Lang::En => "Already exists",
        },
        IoKind::InvalidInput | IoKind::InvalidData => match lang {
            Lang::Tr => "Geçersiz veri",
            Lang::En => "Invalid data",
        },
        IoKind::Other => match lang {
            Lang::Tr => "Dosya işlemi başarısız",
            Lang::En => "File operation failed",
        },
    }
}

fn kind_text(kind: IoKind, lang: Lang) -> (r: &'static str)
    ensures
        r == kind_message(kind, lang),
{
    let tr = lang == Lang::Tr;
    match kind {
        IoKind::NotFound => if tr {
            "Dosya ya da klasör bulunamadı"
        } else {
            "File or folder not found"
        },
        IoKind::PermissionDenied => if tr {
            "Erişim izni yok"
        } else {
            "Permission denied"
        },
        IoKind::AlreadyExists => if tr {
            "Zaten var"
        } else {
            "Already exists"
        },
        IoKind::InvalidInput | IoKind::InvalidData => if tr {
            "Geçersiz veri"
        } else {
            "Invalid data"
        },
        IoKind::Other => if tr {
            "Dosya işlemi başarısız"
        } else {
            "File operation failed"
        },
    }
}

/// The sentence shown for an I/O error with text `raw` and kind `kind`:
/// the one for a known wording in the text, else the one for the kind.
pub open spec fn io_error_spec(raw: Seq<char>, kind: IoKind, lang: Lang) -> Seq<char> {
    match known_message(raw, lang) {
        Some(m) => m@,
        None => kind_message(kind, lang)@,
    }
}

/// The error is given by its text (`to_string`) and its kind.
pub fn io_error(raw: &str, kind: IoKind, lang: Lang) -> (r: String)
    ensures
        r@ == io_error_spec(raw@, kind, lang),
{
    match match_pattern(raw, lang) {
        Some(m) => to_owned(m),
        None => to_owned(kind_text(kind, lang)),
    }
}

/// The line the file browser shows for a folder that could not be read.
pub open spec fn dir_error_spec(path: Seq<char>, raw: Seq<char>, kind: IoKind, lang: Lang) -> Seq<
    char,
> {
    path + match lang {
        Lang::Tr => " açılamadı: "@,
        Lang::En => " could not be opened: "@,
    } + io_error_spec(raw, kind, lang)
}

/// `path` is the folder as displayed.
pub fn dir_error(path: &str, raw: &str, kind: IoKind, lang: Lang) -> (r: String)
    ensures
        r@ == dir_error_spec(path@, raw@, kind, lang),
{
    let why = io_error(raw, kind, lang);
    let mut r = to_owned(path);
    match lang {
        Lang::Tr => r.append(" açılamadı: "),
        Lang::En => r.append(" could not be opened: "),
    }
    r.append(why.as_str());
    r
}

/// The user never sees the raw text: two errors of one kind whose texts
/// hold the same known wording (or none) get the same sentence, whatever
/// else the texts say.
pub proof fn lemma_raw_text_hidden(raw1: Seq<char>, raw2: Seq<char>, kind: IoKind, lang: Lang)
    requires
        known_message(raw1, lang) == known_message(raw2, lang),
    ensures
        io_error_spec(raw1, kind, lang) == io_error_spec(raw2, kind, lang),
{
}

} // verus!
