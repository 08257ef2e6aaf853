//! Joining several files into one with ffmpeg's concat demuxer: the list
//! file it reads, where the result goes, and the job.

use vstd::prelude::*;

use crate::app::out_dir_spec;
use crate::config::{OutMode, OutModeView};
use crate::ffmpeg::{JobSpec, JobSpecView, Media};
use crate::lang::{text, tr, Key, Lang};
use crate::order::{path_parts, same_path};
use crate::paths::{join, parent, path_join, path_parent};
use crate::text::{
    dec, dec_string, push_all, push_dec, replace_seq, replace_str, to_owned, trim, trim_seq,
    views_of,
};

verus! {

/// A list entry: `file '<path>'`, backslashes made slashes and each quote
/// written `'\''`, then a line break.
pub open spec fn concat_line(p: Seq<char>) -> Seq<char> {
    "file '"@ + replace_seq(replace_seq(p, "\\"@, "/"@), "'"@, "'\\''"@) + "'\n"@
}

/// The concat list of the files in order.
pub open spec fn concat_text(paths: Seq<Seq<char>>) -> Seq<char>
    decreases paths.len(),
{
    if paths.len() == 0 {
        seq![]
    } else {
        concat_text(paths.drop_last()) + concat_line(paths.last())
    }
}

pub fn concat_list(files: &Vec<Media>) -> (r: String)
    ensures
        r@ == concat_text(Seq::new(files@.len(), |i: int| files@[i].path@)),
{
    proof {
        reveal_strlit("\\");
        reveal_strlit("/");
        reveal_strlit("'");
    }
    let ghost ps = Seq::new(files@.len(), |i: int| files@[i].path@);
    let mut r = String::new();
    let mut i: usize = 0;
    while i < files.len()
        invariant
            i <= files@.len(),
            ps == Seq::new(files@.len(), |i: int| files@[i].path@),
            r@ == concat_text(ps.take(i as int)),
            "\\"@.len() > 0,
            "'"@.len() > 0,
        decreases files@.len() - i,
    {
        let a = replace_str(files[i].path.as_str(), "\\", "/");
        let b = replace_str(a.as_str(), "'", "'\\''");
        r.append("file '");
        r.append(b.as_str());
        r.append("'\n");
        proof {
            assert(ps.take(i + 1).drop_last() =~= ps.take(i as int));
            assert(ps.take(i + 1).last() == files@[i as int].path@);
        }
        i += 1;
    }
    assert(ps.take(i as int) =~= ps);
    r
}

/// The merged file's stem: the chosen name trimmed, `birlesmis` when
/// there is none.
pub open spec fn merge_stem(name: Seq<char>) -> Seq<char> {
    if trim_seq(name).len() == 0 {
        "birlesmis"@
    } else {
        trim_seq(name)
    }
}

/// Some file of the list is at `out` (as `Path`'s `==` compares).
pub open spec fn hits_source(files: Seq<Media>, out: Seq<char>) -> bool {
    exists|i: int| 0 <= i < files.len() && path_parts(#[trigger] files[i].path@) == path_parts(out)
}

/// (stem, output path) of a merge: `{stem}.mp4` in the output folder (the
/// first file's folder when outputs go beside their sources); when that is
/// one of the sources, `{stem}_birlesik.mp4`.
pub open spec fn merge_target_spec(files: Seq<Media>, out_mode: OutModeView, name: Seq<char>) -> (
    Seq<char>,
    Seq<char>,
) {
    let dir = out_dir_spec(out_mode, files[0].path@);
    let stem = merge_stem(name);
    let out = path_join(dir, stem + ".mp4"@);
    if hits_source(files, out) {
        (stem + "_birlesik"@, path_join(dir, stem + "_birlesik"@ + ".mp4"@))
    } else {
        (stem, out)
    }
}

fn hits_source_exec(files: &Vec<Media>, out: &str) -> (r: bool)
    ensures
        r == hits_source(files@, out@),
{
    let mut i: usize = 0;
    while i < files.len()
        invariant
            i <= files@.len(),
            forall|k: int| 0 <= k < i ==> path_parts(#[trigger] files@[k].path@) != path_parts(out@),
        decreases files@.len() - i,
    {
        if same_path(files[i].path.as_str(), out) {
            return true;
        }
        i += 1;
    }
    false
}

pub fn merge_target(files: &Vec<Media>, out_mode: &OutMode, name: &str) -> (r: (String, String))
    requires
        files@.len() > 0,
    ensures
        (r.0@, r.1@) == merge_target_spec(files@, out_mode@, name@),
{
    let dir = match out_mode {
        OutMode::Dir(d) => d.clone(),
        OutMode::Source => match parent(files[0].path.as_str()) {
            Some(p) => p,
            None => String::new(),
        },
    };
    let t = trim(name);
    let stem = if crate::text::is_empty_str(t.as_str()) {
        to_owned("birlesmis")
    } else {
        t
    };
    let mut file = stem.clone();
    file.append(".mp4");
    let out = join(dir.as_str(), file.as_str());
    if hits_source_exec(files, out.as_str()) {
        let mut stem2 = stem;
        stem2.append("_birlesik");
        let mut file2 = stem2.clone();
        file2.append(".mp4");
        let ghost s2 = stem2@;
        assert(file2@ =~= s2 + ".mp4"@);
        let out2 = join(dir.as_str(), file2.as_str());
        (stem2, out2)
    } else {
        (stem, out)
    }
}

/// The merge's encoder arguments and description: re-encoded to H.264 and
/// AAC, or streams copied.
pub open spec fn merge_args_spec(reencode: bool, lang: Lang) -> (Seq<Seq<char>>, Seq<char>) {
    if reencode {
        (
            seq![
                "-c:v"@,
                "libx264"@,
                "-preset"@,
                "medium"@,
                "-crf"@,
                "23"@,
                "-pix_fmt"@,
                "yuv420p"@,
                "-c:a"@,
                "aac"@,
                "-b:a"@,
                "192k"@,
                "-movflags"@,
                "+faststart"@,
            ],
            text(lang, Key::MergeDescRe)@,
        )
    } else {
        (seq!["-c"@, "copy"@], text(lang, Key::MergeDescCopy)@)
    }
}

/// Sum of the files' durations in microseconds (kept within 64 bits).
pub open spec fn total_us(files: Seq<Media>) -> nat
    decreases files.len(),
{
    if files.len() == 0 {
        0
    } else {
        let t: nat = total_us(files.drop_last()) + files.last().duration_us as nat;
        if t > u64::MAX {
            u64::MAX as nat
        } else {
            t
        }
    }
}

/// The merge job: the list file read with the concat demuxer, all the
/// processor's threads, the files' total duration; skipped when the output
/// exists and overwriting is off.
pub open spec fn merge_job_spec(
    files: Seq<Media>,
    out: Seq<char>,
    list: Seq<char>,
    reencode: bool,
    logical: u32,
    lang: Lang,
    exists: bool,
    overwrite: bool,
) -> JobSpecView {
    let skip = exists && !overwrite;
    JobSpecView {
        job_index: 0,
        input_prefix_args: seq!["-f"@, "concat"@, "-safe"@, "0"@],
        input: list,
        input_name: dec(files.len()) + " "@ + text(lang, Key::UnitFile)@,
        output: out,
        args: seq!["-threads"@, dec(if logical < 1 { 1 } else { logical as nat })] + merge_args_spec(
            reencode,
            lang,
        ).0,
        duration_us: total_us(files) as u64,
        target_desc: merge_args_spec(reencode, lang).1,
        skip,
        skip_reason: if skip {
            Some(text(lang, Key::SkipExists)@)
        } else {
            None
        },
        output_is_pattern: false,
        cleanup: Some(list),
    }
}

fn total_us_exec(files: &Vec<Media>) -> (r: u64)
    ensures
        r == total_us(files@),
{
    let mut t: u64 = 0;
    let mut i: usize = 0;
    while i < files.len()
        invariant
            i <= files@.len(),
            t == total_us(files@.take(i as int)),
        decreases files@.len() - i,
    {
        assert(files@.take(i + 1).drop_last() =~= files@.take(i as int));
        let d = files[i].duration_us;
        t = if t > u64::MAX - d {
            u64::MAX
        } else {
            t + d
        };
        i += 1;
    }
    assert(files@.take(i as int) =~= files@);
    t
}

pub fn merge_job(
    files: &Vec<Media>,
    out: String,
    list: String,
    reencode: bool,
    logical: u32,
    lang: Lang,
    exists: bool,
    overwrite: bool,
) -> (r: JobSpec)
    ensures
        r@ == merge_job_spec(files@, out@, list@, reencode, logical, lang, exists, overwrite),
{
    let mut args: Vec<String> = Vec::new();
    args.push(to_owned("-threads"));
    args.push(dec_string(if logical < 1 {
        1
    } else {
        logical as u64
    }));
    let ghost head = args.deep_view();
    let desc = if reencode {
        push_all(
            &mut args,
            &[
                "-c:v",
                "libx264",
                "-preset",
                "medium",
                "-crf",
                "23",
                "-pix_fmt",
                "yuv420p",
                "-c:a",
                "aac",
                "-b:a",
                "192k",
                "-movflags",
                "+faststart",
            ],
        );
        proof {
            assert(views_of(
                seq![
                    "-c:v",
                    "libx264",
                    "-preset",
                    "medium",
                    "-crf",
                    "23",
                    "-pix_fmt",
                    "yuv420p",
                    "-c:a",
                    "aac",
                    "-b:a",
                    "192k",
                    "-movflags",
                    "+faststart",
                ],
            ) =~= merge_args_spec(true, lang).0);
        }
        to_owned(tr(lang, Key::MergeDescRe))
    } else {
        push_all(&mut args, &["-c", "copy"]);
        proof {
            assert(views_of(seq!["-c", "copy"]) =~= merge_args_spec(false, lang).0);
        }
        to_owned(tr(lang, Key::MergeDescCopy))
    };
    assert(args.deep_view() =~= seq!["-threads"@, dec(if logical < 1 { 1 } else { logical as nat })]
        + merge_args_spec(reencode, lang).0);
    let mut prefix: Vec<String> = Vec::new();
    push_all(&mut prefix, &["-f", "concat", "-safe", "0"]);
    assert(views_of(seq!["-f", "concat", "-safe", "0"]) =~= seq!["-f"@, "concat"@, "-safe"@, "0"@]);
    assert(prefix.deep_view() =~= seq!["-f"@, "concat"@, "-safe"@, "0"@]);
    let mut name = dec_string(files.len() as u64);
    name.append(" ");
    name.append(tr(lang, Key::UnitFile));
    let skip = exists && !overwrite;
    let cleanup = Some(list.clone());
    JobSpec {
        job_index: 0,
        input_prefix_args: prefix,
        input: list,
        input_name: name,
        output: out,
        args,
        duration_us: total_us_exec(files),
        target_desc: desc,
        skip,
        skip_reason: if skip {
            Some(to_owned(tr(lang, Key::SkipExists)))
        } else {
            None
        },
        output_is_pattern: false,
        cleanup,
    }
}

} // verus!
