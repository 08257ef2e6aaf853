//! The terminal client's state and what it decides: where each output
//! goes, which jobs run with which arguments, what the queue shows, what
//! becomes of a source file, and the log. Everything that touches the
//! disk, the terminal or the ffmpeg processes is done by the application,
//! which hands the results back here as plain values.

use std::collections::VecDeque;

use vstd::prelude::*;

use crate::browse::{Browse, PickMode, PickResult, PickResultView};
use crate::errors::{dir_error, dir_error_spec, IoKind};
use crate::config::{OutMode, OutModeView, Settings, SrcAction, Theme};
use crate::cpu::{plan_threads, plan_workers, CpuInfo};
use crate::ffmpeg::{job_args, job_args_spec, Ffmpeg, JobMsg, JobSpec, JobSpecView, Media};
use crate::lang::{text, tr, Key, Lang};
use crate::order::{path_parts, same_path, PathPart};
use crate::paths::{
    file_name, file_stem, join, no_sep, parent, path_file_name, path_file_stem, path_join, path_parent,
};
use crate::profiles::{
    build, build_args, build_error, build_prefix, desc_spec, ext_spec, lemma_ext_plain, Preset,
    Profile,
};
use crate::text::{
    clone_strings, dec, dec_string, join_seq, join_strings, push_dec, push_string, to_owned,
};

verus! {

/// Which screen has the keyboard.
#[derive(Clone, Copy, PartialEq, Eq, Structural, Debug)]
pub enum Mode {
    Main,
    Browse,
    Preset,
    Settings,
    Help,
}

/// Which panel of the main screen has the focus.
#[derive(Clone, Copy, PartialEq, Eq, Structural, Debug)]
pub enum Focus {
    Files,
    Profile,
    Details,
    Queue,
    Log,
}

pub open spec fn focus_next(f: Focus) -> Focus {
    match f {
        Focus::Files => Focus::Profile,
        Focus::Profile => Focus::Details,
        Focus::Details => Focus::Queue,
        Focus::Queue => Focus::Log,
        Focus::Log => Focus::Files,
    }
}

pub open spec fn focus_prev(f: Focus) -> Focus {
    match f {
        Focus::Files => Focus::Log,
        Focus::Profile => Focus::Files,
        Focus::Details => Focus::Profile,
        Focus::Queue => Focus::Details,
        Focus::Log => Focus::Queue,
    }
}

impl Focus {
    pub fn next(self) -> (r: Focus)
        ensures
            r == focus_next(self),
    {
        match self {
            Focus::Files => Focus::Profile,
            Focus::Profile => Focus::Details,
            Focus::Details => Focus::Queue,
            Focus::Queue => Focus::Log,
            Focus::Log => Focus::Files,
        }
    }

    pub fn prev(self) -> (r: Focus)
        ensures
            r == focus_prev(self),
    {
        match self {
            Focus::Files => Focus::Log,
            Focus::Profile => Focus::Files,
            Focus::Details => Focus::Profile,
            Focus::Queue => Focus::Details,
            Focus::Log => Focus::Queue,
        }
    }
}

/// Tab and Shift-Tab undo each other, and five Tabs go round all panels.
pub proof fn lemma_focus_cycle(f: Focus)
    ensures
        focus_prev(focus_next(f)) == f,
        focus_next(focus_prev(f)) == f,
        focus_next(focus_next(focus_next(focus_next(focus_next(f))))) == f,
{
}

/// State of a queued job.
#[derive(Debug)]
pub enum JobState {
    Queued,
    Running,
    Done,
    Skipped(String),
    Failed(String),
}

/// A line of the queue.
#[derive(Debug)]
pub struct JobRow {
    /// The index of the row's job (its file's position in the list).
    pub job: usize,
    pub name: String,
    pub target: String,
    pub src_size: u64,
    /// Progress in thousandths.
    pub permille: u32,
    pub speed: Option<String>,
    pub state: JobState,
}

/// Fields that take typed text.
#[derive(Clone, Copy, PartialEq, Eq, Structural, Debug)]
pub enum InputTarget {
    CustomArgs,
    TrimStart,
    TrimEnd,
    MergeName,
}

/// A text field being edited.
#[derive(Debug)]
pub struct InputState {
    pub target: InputTarget,
    pub buf: String,
}

/// The plan of a run: the preview and the run both come from it.
pub struct JobPlan {
    /// One job for every file the preset applies to, skipped ones too.
    pub specs: Vec<JobSpec>,
    /// Files the preset cannot be used for: (name, why).
    pub errors: Vec<(String, String)>,
    /// The jobs that run, with the automatic `-threads` in front.
    pub runnable: Vec<JobSpec>,
    pub workers: usize,
    pub threads: u32,
}

// ---------------------------------------------------------------------------
// Output paths and jobs
// ---------------------------------------------------------------------------

/// The folder an output goes to: the chosen folder, or the source's own.
pub open spec fn out_dir_spec(out_mode: OutModeView, src: Seq<char>) -> Seq<char> {
    match out_mode {
        OutModeView::Dir(d) => d,
        OutModeView::Source => match path_parent(src) {
            Some(p) => p,
            None => seq![],
        },
    }
}

/// The name an output is built from: the source's stem, else its name.
pub open spec fn stem_spec(m: Media) -> Seq<char> {
    match path_file_stem(m.path@) {
        Some(s) => s,
        None => m.name@,
    }
}

/// The output path: `{stem}.{ext}` (numbered `{stem}_parca_%03d.{ext}` for
/// a split) in the output folder; where that would be the source itself,
/// `{stem}_donusen.{ext}`, so that a source is never overwritten.
pub open spec fn output_spec(p: Profile, m: Media, out_mode: OutModeView) -> Seq<char> {
    let r = p.preset.resolve_kind(m.kind);
    let ext = ext_spec(r, p);
    let dir = out_dir_spec(out_mode, m.path@);
    let stem = stem_spec(m);
    let name = if r == Preset::Split {
        stem + "_parca_%03d."@ + ext
    } else {
        stem + "."@ + ext
    };
    let first = path_join(dir, name);
    if path_parts(first) == path_parts(m.path@) {
        path_join(dir, stem + "_donusen."@ + ext)
    } else {
        first
    }
}

/// The job for one file; `exists` says whether its output is already on
/// disk (then it is skipped unless overwriting is on).
pub open spec fn spec_for_spec(
    p: Profile,
    m: Media,
    out_mode: OutModeView,
    overwrite: bool,
    lang: Lang,
    exists: bool,
) -> JobSpecView {
    let r = p.preset.resolve_kind(m.kind);
    let skip = exists && !overwrite;
    JobSpecView {
        job_index: 0,
        input_prefix_args: build_prefix(p, m),
        input: m.path@,
        input_name: m.name@,
        output: output_spec(p, m, out_mode),
        args: build_args(p, m),
        duration_us: m.duration_us,
        target_desc: desc_spec(r, p, lang),
        skip,
        skip_reason: if skip {
            Some(text(lang, Key::SkipExists)@)
        } else {
            None
        },
        output_is_pattern: r == Preset::Split,
        cleanup: None,
    }
}

/// The command line shown and run: the binary, then the job's arguments,
/// separated by spaces.
pub open spec fn cmd_spec(bin: Seq<char>, job: JobSpecView) -> Seq<char> {
    bin + " "@ + join_seq(job_args_spec(job), " "@)
}

pub fn cmd_string(ffmpeg_bin: &str, spec: &JobSpec) -> (r: String)
    ensures
        r@ == cmd_spec(ffmpeg_bin@, spec@),
{
    let args = job_args(spec);
    let joined = join_strings(&args, " ");
    let mut r = to_owned(ffmpeg_bin);
    r.append(" ");
    r.append(joined.as_str());
    r
}

fn append_text(r: &mut String, s: &str)
    ensures
        final(r)@ == old(r)@ + s@,
{
    r.append(s);
}

/// The output path of a file under the profile, when the preset applies.
pub fn output_for(p: &Profile, m: &Media, out_mode: &OutMode, lang: Lang) -> (r: Option<String>)
    ensures
        r is Some <==> build_error(*p, *m, lang) is None,
        r matches Some(o) ==> o@ == output_spec(*p, *m, out_mode@),
        r matches Some(o) ==> path_parts(o@) != path_parts(m.path@),
{
    match build(p, m, lang) {
        Ok(b) => Some(output_of(p, m, out_mode, &b.ext, b.output_is_pattern)),
        Err(_) => None,
    }
}

/// A job never writes over its own input.
pub open spec fn writes_elsewhere(j: JobSpecView) -> bool {
    path_parts(j.output) != path_parts(j.input)
}

fn output_of(p: &Profile, m: &Media, out_mode: &OutMode, ext: &String, pattern: bool) -> (r: String)
    requires
        ext@ == ext_spec(p.preset.resolve_kind(m.kind), *p),
        pattern == (p.preset.resolve_kind(m.kind) == Preset::Split),
        p.preset.resolve_kind(m.kind) != Preset::Merge,
    ensures
        r@ == output_spec(*p, *m, out_mode@),
        path_parts(r@) != path_parts(m.path@),
{
    proof {
        lemma_ext_plain(p.preset.resolve_kind(m.kind), *p);
        crate::paths::lemma_file_stem_no_sep(m.path@);
        reveal_strlit("_parca_%03d.");
        reveal_strlit(".");
        reveal_strlit("_donusen.");
    }
    let dir = match out_mode {
        OutMode::Dir(d) => d.clone(),
        OutMode::Source => match parent(m.path.as_str()) {
            Some(q) => q,
            None => String::new(),
        },
    };
    let stem = match file_stem(m.path.as_str()) {
        Some(s) => s,
        None => m.name.clone(),
    };
    let mut name = stem.clone();
    if pattern {
        append_text(&mut name, "_parca_%03d.");
    } else {
        append_text(&mut name, ".");
    }
    append_text(&mut name, ext.as_str());
    let ghost mid = if pattern {
        "_parca_%03d."@
    } else {
        "."@
    };
    assert(name@ == stem@ + mid + ext@);
    let first = join(dir.as_str(), name.as_str());
    proof {
        assert(no_sep("_parca_%03d."@));
        assert(no_sep("."@));
        assert(no_sep(mid));
        crate::paths::lemma_no_sep_add(mid, ext@);
        if path_file_stem(m.path@) is None {
            // Without a stem the source ends in no normal component, while
            // the output ends in one.
            assert(name@ =~= stem@ + (mid + ext@));
            crate::paths::lemma_last_segment_add(stem@, mid + ext@);
            crate::paths::lemma_last_segment_no_sep(stem@);
            crate::paths::lemma_no_sep_add(crate::paths::last_segment(stem@), mid + ext@);
            assert(crate::paths::last_segment(name@) =~= crate::paths::last_segment(stem@) + (mid + ext@));
            let seg = crate::paths::last_segment(name@);
            assert(mid.len() >= 1);
            assert(ext@.len() >= 3);
            assert(seg.len() >= 4);
            assert(seg != seq!['.']) by {
                assert(seq!['.'].len() == 1);
            }
            assert(seg != seq!['.', '.']) by {
                assert(seq!['.', '.'].len() == 2);
            }
            assert(crate::paths::plain_name(seg));
            crate::paths::lemma_no_file_name(m.path@);
            assert(path_parts(first@) != path_parts(m.path@));
        }
    }
    if same_path(first.as_str(), m.path.as_str()) {
        let mut alt = stem;
        append_text(&mut alt, "_donusen.");
        append_text(&mut alt, ext.as_str());
        assert(alt@ == stem@ + "_donusen."@ + ext@);
        let out = join(dir.as_str(), alt.as_str());
        proof {
            if path_file_stem(m.path@) is Some {
                assert(no_sep(stem@));
                assert(no_sep("_donusen."@));
                crate::paths::lemma_no_sep_add(stem@, mid);
                crate::paths::lemma_no_sep_add(stem@, "_donusen."@);
                crate::paths::lemma_no_sep_add(stem@ + mid, ext@);
                crate::paths::lemma_no_sep_add(stem@ + "_donusen."@, ext@);
                assert(crate::paths::plain_name(name@));
                assert(crate::paths::plain_name(alt@));
                assert(alt@.len() != name@.len());
                assert(path_parts(out@).last() == PathPart::Normal(alt@));
                assert(path_parts(first@).last() == PathPart::Normal(name@));
            }
        }
        out
    } else {
        first
    }
}

/// The job for one file, or why the preset cannot be used for it.
pub fn spec_for(
    p: &Profile,
    m: &Media,
    out_mode: &OutMode,
    overwrite: bool,
    lang: Lang,
    exists: bool,
) -> (r: Result<JobSpec, String>)
    ensures
        match r {
            Ok(s) => build_error(*p, *m, lang) is None && s@ == spec_for_spec(
                *p,
                *m,
                out_mode@,
                overwrite,
                lang,
                exists,
            ),
            Err(e) => build_error(*p, *m, lang) == Some(e@),
        },
        r matches Ok(s) ==> path_parts(s.output@) != path_parts(m.path@),
        r matches Ok(s) ==> writes_elsewhere(s@),
{
    let b = match build(p, m, lang) {
        Ok(b) => b,
        Err(e) => {
            return Err(e);
        },
    };
    let out = output_of(p, m, out_mode, &b.ext, b.output_is_pattern);
    let skip = exists && !overwrite;
    let skip_reason = if skip {
        Some(to_owned(tr(lang, Key::SkipExists)))
    } else {
        None
    };
    let s = JobSpec {
        job_index: 0,
        input_prefix_args: b.prefix_args,
        input: m.path.clone(),
        input_name: m.name.clone(),
        output: out,
        args: b.args,
        duration_us: m.duration_us,
        target_desc: b.desc,
        skip,
        skip_reason,
        output_is_pattern: b.output_is_pattern,
        cleanup: None,
    };
    assert(s@.skip_reason == spec_for_spec(*p, *m, out_mode@, overwrite, lang, exists).skip_reason);
    Ok(s)
}

/// A job with another index.
pub open spec fn with_index(s: JobSpecView, i: usize) -> JobSpecView {
    JobSpecView { job_index: i, ..s }
}

/// A job with the automatic thread count in front of its arguments (a
/// `-threads` of the user's own, later in the list, wins in ffmpeg).
pub open spec fn with_threads(s: JobSpecView, threads: nat) -> JobSpecView {
    JobSpecView { args: seq!["-threads"@, dec(threads)] + s.args, ..s }
}

/// The jobs of the first `n` files, each with its file's index; files the
/// preset cannot be used for have none.
pub open spec fn specs_spec(
    p: Profile,
    files: Seq<Media>,
    out_mode: OutModeView,
    overwrite: bool,
    lang: Lang,
    exists: Seq<bool>,
    n: nat,
) -> Seq<JobSpecView>
    decreases n,
{
    if n == 0 || n > files.len() {
        seq![]
    } else {
        let prev = specs_spec(p, files, out_mode, overwrite, lang, exists, (n - 1) as nat);
        let m = files[n - 1];
        if build_error(p, m, lang) is None {
            prev.push(
                with_index(
                    spec_for_spec(p, m, out_mode, overwrite, lang, exists[n - 1]),
                    (n - 1) as usize,
                ),
            )
        } else {
            prev
        }
    }
}

/// (name, why) of each of the first `n` files the preset cannot be used for.
pub open spec fn errors_spec(p: Profile, files: Seq<Media>, lang: Lang, n: nat) -> Seq<
    (Seq<char>, Seq<char>),
>
    decreases n,
{
    if n == 0 || n > files.len() {
        seq![]
    } else {
        let prev = errors_spec(p, files, lang, (n - 1) as nat);
        let m = files[n - 1];
        match build_error(p, m, lang) {
            Some(e) => prev.push((m.name@, e)),
            None => prev,
        }
    }
}

/// The jobs among the first `n` that are not skipped, with the thread count.
pub open spec fn runnable_spec(specs: Seq<JobSpecView>, threads: nat, n: nat) -> Seq<JobSpecView>
    decreases n,
{
    if n == 0 || n > specs.len() {
        seq![]
    } else {
        let prev = runnable_spec(specs, threads, (n - 1) as nat);
        if specs[n - 1].skip {
            prev
        } else {
            prev.push(with_threads(specs[n - 1], threads))
        }
    }
}

proof fn lemma_runnable_elsewhere(specs: Seq<JobSpecView>, threads: nat, n: nat)
    requires
        forall|k: int| 0 <= k < specs.len() ==> writes_elsewhere(#[trigger] specs[k]),
    ensures
        forall|k: int|
            0 <= k < runnable_spec(specs, threads, n).len() ==> writes_elsewhere(
                #[trigger] runnable_spec(specs, threads, n)[k],
            ),
    decreases n,
{
    if n > 0 && n <= specs.len() {
        lemma_runnable_elsewhere(specs, threads, (n - 1) as nat);
        let prev = runnable_spec(specs, threads, (n - 1) as nat);
        let cur = runnable_spec(specs, threads, n);
        assert(writes_elsewhere(specs[n - 1]));
        assert(writes_elsewhere(with_threads(specs[n - 1], threads)));
        assert forall|k: int| 0 <= k < cur.len() implies writes_elsewhere(#[trigger] cur[k]) by {
            if k < prev.len() {
                assert(cur[k] == prev[k]);
            }
        }
    }
}

/// How many of the first `n` jobs are not skipped.
pub open spec fn run_count(specs: Seq<JobSpecView>, n: nat) -> nat
    decreases n,
{
    if n == 0 || n > specs.len() {
        0
    } else {
        run_count(specs, (n - 1) as nat) + if specs[n - 1].skip {
            0nat
        } else {
            1nat
        }
    }
}

pub open spec fn specs_view(v: Seq<JobSpec>) -> Seq<JobSpecView> {
    Seq::new(v.len(), |i: int| v[i]@)
}

pub open spec fn errors_view(v: Seq<(String, String)>) -> Seq<(Seq<char>, Seq<char>)> {
    Seq::new(v.len(), |i: int| (v[i].0@, v[i].1@))
}

/// Jobs for all files, and the files the preset cannot be used for.
pub fn build_specs(
    p: &Profile,
    files: &Vec<Media>,
    out_mode: &OutMode,
    overwrite: bool,
    lang: Lang,
    exists: &Vec<bool>,
) -> (r: (Vec<JobSpec>, Vec<(String, String)>))
    requires
        exists@.len() == files@.len(),
    ensures
        specs_view(r.0@) == specs_spec(*p, files@, out_mode@, overwrite, lang, exists@, files@.len()),
        errors_view(r.1@) == errors_spec(*p, files@, lang, files@.len()),
        forall|k: int| 0 <= k < r.0@.len() ==> writes_elsewhere(#[trigger] r.0@[k]@),
{
    let mut specs: Vec<JobSpec> = Vec::new();
    let mut errors: Vec<(String, String)> = Vec::new();
    let mut i: usize = 0;
    while i < files.len()
        invariant
            exists@.len() == files@.len(),
            i <= files@.len(),
            specs_view(specs@) == specs_spec(*p, files@, out_mode@, overwrite, lang, exists@, i as nat),
            errors_view(errors@) == errors_spec(*p, files@, lang, i as nat),
            forall|k: int| 0 <= k < specs@.len() ==> writes_elsewhere(#[trigger] specs@[k]@),
        decreases files@.len() - i,
    {
        let m = &files[i];
        let ghost sv = specs_view(specs@);
        let ghost ev = errors_view(errors@);
        match spec_for(p, m, out_mode, overwrite, lang, exists[i]) {
            Ok(s) => {
                let mut s = s;
                s.job_index = i;
                let ghost sw = s@;
                specs.push(s);
                assert(specs_view(specs@) =~= sv.push(sw));
                assert(errors_view(errors@) =~= errors_spec(*p, files@, lang, (i + 1) as nat));
            },
            Err(e) => {
                let name = m.name.clone();
                errors.push((name, e));
                assert(errors_view(errors@) =~= ev.push((m.name@, e@)));
                assert(specs_view(specs@) =~= specs_spec(*p, files@, out_mode@, overwrite, lang, exists@, (i + 1) as nat));
            },
        }
        i += 1;
    }
    (specs, errors)
}

fn count_runnable(specs: &Vec<JobSpec>) -> (n: usize)
    ensures
        n == run_count(specs_view(specs@), specs@.len()),
{
    let ghost sv = specs_view(specs@);
    let mut n: usize = 0;
    let mut i: usize = 0;
    while i < specs.len()
        invariant
            sv == specs_view(specs@),
            i <= specs@.len(),
            n == run_count(sv, i as nat),
            n <= i,
        decreases specs@.len() - i,
    {
        if !specs[i].skip {
            n += 1;
        }
        i += 1;
    }
    n
}

fn runnable_of(specs: &Vec<JobSpec>, threads: u32) -> (r: Vec<JobSpec>)
    ensures
        specs_view(r@) == runnable_spec(specs_view(specs@), threads as nat, specs@.len()),
{
    let ghost sv = specs_view(specs@);
    let mut r: Vec<JobSpec> = Vec::new();
    let mut i: usize = 0;
    while i < specs.len()
        invariant
            sv == specs_view(specs@),
            i <= specs@.len(),
            specs_view(r@) == runnable_spec(sv, threads as nat, i as nat),
        decreases specs@.len() - i,
    {
        if !specs[i].skip {
            let mut j = specs[i].duplicate();
            let mut args: Vec<String> = Vec::new();
            args.push(to_owned("-threads"));
            args.push(dec_string(threads as u64));
            let ghost head = args.deep_view();
            assert(head =~= seq!["-threads"@, dec(threads as nat)]);
            let ghost old_args = j.args.deep_view();
            crate::text::append_strings(&mut args, &j.args);
            j.args = args;
            let ghost jv = j@;
            assert(jv == with_threads(sv[i as int], threads as nat));
            let ghost before = specs_view(r@);
            r.push(j);
            assert(specs_view(r@) =~= before.push(jv));
        }
        i += 1;
    }
    r
}

/// The plan of a run: every file's job, the files that cannot be
/// converted, the jobs that run (with `-threads` in front) and the
/// parallelism for that many jobs.
pub fn job_plan(
    p: &Profile,
    files: &Vec<Media>,
    out_mode: &OutMode,
    overwrite: bool,
    lang: Lang,
    exists: &Vec<bool>,
    cpu: &CpuInfo,
    workers_setting: u32,
) -> (plan: JobPlan)
    requires
        exists@.len() == files@.len(),
    ensures
        specs_view(plan.specs@) == specs_spec(*p, files@, out_mode@, overwrite, lang, exists@, files@.len()),
        errors_view(plan.errors@) == errors_spec(*p, files@, lang, files@.len()),
        plan.workers == plan_workers(cpu.logical, workers_setting, run_count(specs_view(plan.specs@), plan.specs@.len())),
        plan.threads == plan_threads(cpu.logical, plan.workers as nat),
        specs_view(plan.runnable@) == runnable_spec(specs_view(plan.specs@), plan.threads as nat, plan.specs@.len()),
        forall|k: int| 0 <= k < plan.specs@.len() ==> writes_elsewhere(#[trigger] plan.specs@[k]@),
        forall|k: int| 0 <= k < plan.runnable@.len() ==> writes_elsewhere(#[trigger] plan.runnable@[k]@),
{
    let (specs, errors) = build_specs(p, files, out_mode, overwrite, lang, exists);
    let n_run = count_runnable(&specs);
    let (workers, threads) = crate::cpu::plan(cpu, workers_setting, n_run);
    let runnable = runnable_of(&specs, threads);
    proof {
        let sv = specs_view(specs@);
        assert forall|k: int| 0 <= k < sv.len() implies writes_elsewhere(#[trigger] sv[k]) by {
            assert(sv[k] == specs@[k]@);
        }
        lemma_runnable_elsewhere(sv, threads as nat, specs@.len());
        assert forall|k: int| 0 <= k < runnable@.len() implies writes_elsewhere(#[trigger] runnable@[k]@) by {
            assert(specs_view(runnable@)[k] == runnable@[k]@);
        }
    }
    JobPlan { specs, errors, runnable, workers, threads }
}

/// The first job from index `i` on whose input is the path `path` (as
/// `Path`'s `==` compares).
pub open spec fn find_input(v: Seq<JobSpecView>, path: Seq<char>, i: int) -> Option<int>
    decreases v.len() - i,
{
    if i < 0 || i >= v.len() {
        None
    } else if path_parts(v[i].input) == path_parts(path) {
        Some(i)
    } else {
        find_input(v, path, i + 1)
    }
}

/// The first error from index `i` on for a file named `name`.
pub open spec fn find_name(v: Seq<(Seq<char>, Seq<char>)>, name: Seq<char>, i: int) -> Option<int>
    decreases v.len() - i,
{
    if i < 0 || i >= v.len() {
        None
    } else if v[i].0 == name {
        Some(i)
    } else {
        find_name(v, name, i + 1)
    }
}

/// What the screen shows as a file's command: the command of its job
/// that runs; else `(why)` for a skipped job or a file the preset cannot
/// take; else `-`.
pub open spec fn preview_spec(
    specs: Seq<JobSpecView>,
    errors: Seq<(Seq<char>, Seq<char>)>,
    runnable: Seq<JobSpecView>,
    m: Media,
    bin: Seq<char>,
) -> Seq<char> {
    match find_input(runnable, m.path@, 0) {
        Some(k) => cmd_spec(bin, runnable[k]),
        None => {
            let reason = match find_input(specs, m.path@, 0) {
                Some(k) => specs[k].skip_reason,
                None => None,
            };
            match reason {
                Some(r) => "("@ + r + ")"@,
                None => match find_name(errors, m.name@, 0) {
                    Some(k) => "("@ + errors[k].1 + ")"@,
                    None => "-"@,
                },
            }
        },
    }
}

fn find_input_exec(v: &Vec<JobSpec>, path: &str) -> (r: Option<usize>)
    ensures
        match r {
            Some(k) => find_input(specs_view(v@), path@, 0) == Some(k as int) && k < v@.len(),
            None => find_input(specs_view(v@), path@, 0) is None,
        },
{
    let ghost sv = specs_view(v@);
    let mut i: usize = 0;
    while i < v.len()
        invariant
            sv == specs_view(v@),
            i <= v@.len(),
            find_input(sv, path@, 0) == find_input(sv, path@, i as int),
        decreases v@.len() - i,
    {
        if same_path(v[i].input.as_str(), path) {
            return Some(i);
        }
        i += 1;
    }
    None
}

fn find_name_exec(v: &Vec<(String, String)>, name: &str) -> (r: Option<usize>)
    ensures
        match r {
            Some(k) => find_name(errors_view(v@), name@, 0) == Some(k as int) && k < v@.len(),
            None => find_name(errors_view(v@), name@, 0) is None,
        },
{
    let ghost ev = errors_view(v@);
    let mut i: usize = 0;
    while i < v.len()
        invariant
            ev == errors_view(v@),
            i <= v@.len(),
            find_name(ev, name@, 0) == find_name(ev, name@, i as int),
        decreases v@.len() - i,
    {
        if crate::text::str_eq(v[i].0.as_str(), name) {
            return Some(i);
        }
        i += 1;
    }
    None
}

fn parenthesized(s: &str) -> (r: String)
    ensures
        r@ == "("@ + s@ + ")"@,
{
    let mut r = to_owned("(");
    r.append(s);
    r.append(")");
    r
}

/// The command shown for a file, from the plan the run uses.
pub fn preview_of(plan: &JobPlan, m: &Media, bin: &str) -> (r: String)
    ensures
        r@ == preview_spec(
            specs_view(plan.specs@),
            errors_view(plan.errors@),
            specs_view(plan.runnable@),
            *m,
            bin@,
        ),
{
    if let Some(k) = find_input_exec(&plan.runnable, m.path.as_str()) {
        return cmd_string(bin, &plan.runnable[k]);
    }
    if let Some(k) = find_input_exec(&plan.specs, m.path.as_str()) {
        if let Some(r) = &plan.specs[k].skip_reason {
            return parenthesized(r.as_str());
        }
    }
    if let Some(k) = find_name_exec(&plan.errors, m.name.as_str()) {
        return parenthesized(plan.errors[k].1.as_str());
    }
    proof {
        reveal_strlit("-");
    }
    to_owned("-")
}

// ---------------------------------------------------------------------------
// The client state
// ---------------------------------------------------------------------------

/// Most log lines kept.
pub const LOG_MAX: usize = 600;

/// The client's state. The application keeps beside it only the channel
/// from the worker pool.
pub struct App {
    pub lang: Lang,
    pub settings: Settings,
    pub cpu: CpuInfo,
    /// The located ffmpeg, or why it was not found.
    pub ff: Result<Ffmpeg, String>,
    pub ff_version: String,
    pub files: Vec<Media>,
    pub sel: usize,
    /// Paths waiting to be probed, first in first out.
    pub pending_probe: VecDeque<String>,
    pub probed_total: usize,
    pub profile: Profile,
    pub jobs: Vec<JobRow>,
    pub running: bool,
    /// Log lines, each with whether it reports an error.
    pub log: Vec<(String, bool)>,
    /// Colours are off (`NO_COLOR`).
    pub no_color: bool,
    /// The storage message shown instead of the interface, if any.
    pub storage_error: Option<String>,
    pub mode: Mode,
    pub focus: Focus,
    pub browse: Option<Browse>,
    pub preset_sel: usize,
    pub settings_sel: usize,
    pub input: Option<InputState>,
    pub quit_confirm: bool,
    pub theme: Theme,
    /// The jobs of the running queue (for the source actions).
    pub started: Vec<JobSpec>,
    /// The "panels do not fit" warning was dismissed.
    pub fit_ack: bool,
}

pub open spec fn log_view(v: Seq<(String, bool)>) -> Seq<(Seq<char>, bool)> {
    Seq::new(v.len(), |i: int| (v[i].0@, v[i].1))
}

/// The log after adding a line: the oldest lines go beyond `LOG_MAX`.
pub open spec fn log_push(log: Seq<(Seq<char>, bool)>, line: Seq<char>, is_err: bool) -> Seq<
    (Seq<char>, bool),
> {
    let v = log.push((line, is_err));
    if v.len() > LOG_MAX {
        v.subrange(v.len() - LOG_MAX, v.len() as int)
    } else {
        v
    }
}

/// The first log line: where ffmpeg was found, or why it was not.
pub open spec fn first_log_line(ff: Result<Ffmpeg, String>, lang: Lang) -> (Seq<char>, bool) {
    match ff {
        Ok(f) => (text(lang, Key::LogOk)@ + " ffmpeg bulundu: "@ + f.source@, false),
        Err(e) => ("[Hata] "@ + e@, true),
    }
}

/// A path is already listed or queued (compared as `Path`s).
pub open spec fn known_path(files: Seq<Media>, pending: Seq<Seq<char>>, p: Seq<char>) -> bool {
    (exists|i: int| 0 <= i < files.len() && path_parts(#[trigger] files[i].path@) == path_parts(p))
        || (exists|j: int| 0 <= j < pending.len() && path_parts(#[trigger] pending[j]) == path_parts(p))
}

impl App {
    /// The browser's marks hold no path twice; the preset cursor is on the
    /// menu.
    pub open spec fn wf(&self) -> bool {
        &&& (self.browse matches Some(b) ==> b.wf())
        &&& self.preset_sel < crate::profiles::PRESET_COUNT
    }
}

impl App {
    /// The state at start: settings as loaded, the processor, the ffmpeg
    /// lookup's result and the environment's answers; one log line saying
    /// where ffmpeg is.
    pub fn new(
        settings: Settings,
        cpu: CpuInfo,
        ff: Result<Ffmpeg, String>,
        ff_version: String,
        no_color: bool,
        storage_error: Option<String>,
    ) -> (app: App)
        ensures
            app.lang == crate::lang::parse_spec(settings.lang@),
            app.theme == settings.theme,
            app.settings == settings,
            app.cpu == cpu,
            app.ff == ff,
            app.ff_version == ff_version,
            app.no_color == no_color,
            app.storage_error == storage_error,
            app.files@.len() == 0,
            app.sel == 0,
            app.pending_probe@.len() == 0,
            app.probed_total == 0,
            crate::profiles::default_profile(app.profile),
            app.jobs@.len() == 0,
            !app.running,
            log_view(app.log@) == seq![first_log_line(ff, app.lang)],
            app.mode == Mode::Main,
            app.focus == Focus::Files,
            app.browse is None,
            app.preset_sel == 0,
            app.settings_sel == 0,
            app.input is None,
            !app.quit_confirm,
            app.started@.len() == 0,
            !app.fit_ack,
            app.wf(),
    {
        let lang = settings.lang();
        let theme = settings.theme;
        let mut log: Vec<(String, bool)> = Vec::new();
        match &ff {
            Ok(f) => {
                let mut line = to_owned(tr(lang, Key::LogOk));
                line.append(" ffmpeg bulundu: ");
                line.append(f.source.as_str());
                log.push((line, false));
            },
            Err(e) => {
                let mut line = to_owned("[Hata] ");
                line.append(e.as_str());
                log.push((line, true));
            },
        }
        assert(log_view(log@) =~= seq![first_log_line(ff, lang)]);
        App {
            lang,
            settings,
            cpu,
            ff,
            ff_version,
            files: Vec::new(),
            sel: 0,
            pending_probe: VecDeque::new(),
            probed_total: 0,
            profile: Profile::default(),
            jobs: Vec::new(),
            running: false,
            log,
            no_color,
            storage_error,
            mode: Mode::Main,
            focus: Focus::Files,
            browse: None,
            preset_sel: 0,
            settings_sel: 0,
            input: None,
            quit_confirm: false,
            theme,
            started: Vec::new(),
            fit_ack: false,
        }
    }

    /// Adds a log line; beyond `LOG_MAX` lines the oldest go.
    pub fn push_log(&mut self, line: String, is_err: bool)
        ensures
            log_view(final(self).log@) == log_push(log_view(old(self).log@), line@, is_err),
            final(self).files@ == old(self).files@,
            final(self).jobs@ == old(self).jobs@,
            final(self).pending_probe@ == old(self).pending_probe@,
            final(self).started@ == old(self).started@,
            final(self).settings == old(self).settings,
            final(self).lang == old(self).lang,
            final(self).sel == old(self).sel,
            final(self).running == old(self).running,
            final(self).probed_total == old(self).probed_total,
            final(self).mode == old(self).mode,
            final(self).browse == old(self).browse,
            final(self).storage_error == old(self).storage_error,
            final(self).ff == old(self).ff,
            final(self).profile == old(self).profile,
            final(self).cpu == old(self).cpu,
            same_but_log(*old(self), *final(self)),
    {
        let ghost lv = log_view(self.log@);
        let ghost lw = line@;
        self.log.push((line, is_err));
        assert(log_view(self.log@) =~= lv.push((lw, is_err)));
        let n = self.log.len();
        if n > LOG_MAX {
            let ghost full = log_view(self.log@);
            let start = n - LOG_MAX;
            let mut kept: Vec<(String, bool)> = Vec::new();
            let mut i: usize = start;
            while i < n
                invariant
                    n == self.log@.len(),
                    full == log_view(self.log@),
                    start <= i <= n,
                    log_view(kept@) == full.subrange(start as int, i as int),
                decreases n - i,
            {
                let t = self.log[i].0.clone();
                assert(t@ == full[i as int].0);
                let item = (t, self.log[i].1);
                let ghost kv = log_view(kept@);
                kept.push(item);
                assert(kv.len() == i - start);
                assert(log_view(kept@).len() == i + 1 - start);
                assert forall|k: int| 0 <= k < i + 1 - start implies log_view(kept@)[k] == full.subrange(
                    start as int,
                    i + 1,
                )[k] by {
                    if k < i - start {
                        assert(log_view(kept@)[k] == kv[k]);
                    }
                }
                assert(log_view(kept@) =~= full.subrange(start as int, i + 1));
                i += 1;
            }
            self.log = kept;
        }
    }

    /// Queues a path for probing unless it is listed or queued already.
    pub fn enqueue_probe(&mut self, p: String)
        ensures
            final(self).pending_probe.deep_view() == (if known_path(
                old(self).files@,
                old(self).pending_probe.deep_view(),
                p@,
            ) {
                old(self).pending_probe.deep_view()
            } else {
                old(self).pending_probe.deep_view().push(p@)
            }),
            final(self).files@ == old(self).files@,
            final(self).log@ == old(self).log@,
            final(self).ff == old(self).ff,
            final(self).lang == old(self).lang,
    {
        let mut i: usize = 0;
        while i < self.files.len()
            invariant
                i <= self.files@.len(),
                forall|k: int| 0 <= k < i ==> path_parts(#[trigger] self.files@[k].path@) != path_parts(p@),
            decreases self.files@.len() - i,
        {
            if same_path(self.files[i].path.as_str(), p.as_str()) {
                return;
            }
            i += 1;
        }
        let ghost pv = self.pending_probe.deep_view();
        let mut j: usize = 0;
        while j < self.pending_probe.len()
            invariant
                j <= self.pending_probe@.len(),
                pv == self.pending_probe.deep_view(),
                forall|k: int| 0 <= k < i ==> path_parts(#[trigger] self.files@[k].path@) != path_parts(p@),
                i == self.files@.len(),
                forall|k: int| 0 <= k < j ==> path_parts(#[trigger] pv[k]) != path_parts(p@),
            decreases self.pending_probe@.len() - j,
        {
            assert(pv[j as int] == self.pending_probe@[j as int]@);
            if same_path(self.pending_probe[j].as_str(), p.as_str()) {
                return;
            }
            j += 1;
        }
        let ghost pw = p@;
        self.pending_probe.push_back(p);
        assert(self.pending_probe.deep_view() =~= pv.push(pw));
    }

    /// Paths are waiting to be probed.
    pub fn probing(&self) -> (r: bool)
        ensures
            r == (self.pending_probe@.len() > 0),
    {
        self.pending_probe.len() > 0
    }

    /// Takes the next path to probe. With no ffmpeg there is nothing to
    /// probe with: the path is dropped and `None` comes back.
    pub fn take_probe(&mut self) -> (r: Option<String>)
        ensures
            old(self).pending_probe@.len() == 0 ==> r is None && final(self).pending_probe@ == old(
                self,
            ).pending_probe@,
            old(self).pending_probe@.len() > 0 ==> final(self).pending_probe@ == old(
                self,
            ).pending_probe@.drop_first() && (match r {
                Some(p) => old(self).ff is Ok && p == old(self).pending_probe@[0],
                None => old(self).ff is Err,
            }),
            final(self).files@ == old(self).files@,
            final(self).log@ == old(self).log@,
            final(self).ff == old(self).ff,
    {
        let p = match self.pending_probe.pop_front() {
            Some(p) => p,
            None => {
                return None;
            },
        };
        assert(self.pending_probe@ =~= old(self).pending_probe@.drop_first());
        if self.ff.is_err() {
            return None;
        }
        Some(p)
    }

    /// A probed file joins the list.
    pub fn probe_ok(&mut self, m: Media)
        requires
            old(self).probed_total < usize::MAX,
        ensures
            final(self).files@ == old(self).files@.push(m),
            final(self).probed_total == old(self).probed_total + 1,
            final(self).log@ == old(self).log@,
            final(self).pending_probe@ == old(self).pending_probe@,
    {
        self.probed_total = self.probed_total + 1;
        self.files.push(m);
    }
}

/// The log line for a file ffprobe could not read: its name and the
/// error in plain words.
pub open spec fn probe_failed_line(p: Seq<char>, err: Seq<char>, lang: Lang) -> Seq<char> {
    text(lang, Key::LogSkippedFile)@ + " "@ + (match path_file_name(p) {
        Some(n) => n,
        None => p,
    }) + ": "@ + crate::errors::map_text_spec(err, lang)
}

impl App {
    /// Logs that the file `p` could not be probed (`err` is the error text).
    pub fn probe_failed(&mut self, p: &str, err: &str)
        ensures
            log_view(final(self).log@) == log_push(
                log_view(old(self).log@),
                probe_failed_line(p@, err@, old(self).lang),
                true,
            ),
            final(self).files@ == old(self).files@,
            final(self).pending_probe@ == old(self).pending_probe@,
            final(self).lang == old(self).lang,
    {
        let name = match file_name(p) {
            Some(n) => n,
            None => to_owned(p),
        };
        let mut line = to_owned(tr(self.lang, Key::LogSkippedFile));
        line.append(" ");
        line.append(name.as_str());
        line.append(": ");
        let mapped = crate::errors::map_text(err, self.lang);
        line.append(mapped.as_str());
        self.push_log(line, true);
    }
}

/// The queue after offering each of `list[..n]` to `enqueue_probe`.
pub open spec fn enqueue_all(files: Seq<Media>, pending: Seq<Seq<char>>, list: Seq<Seq<char>>, n: nat) -> Seq<
    Seq<char>,
>
    decreases n,
{
    if n == 0 || n > list.len() {
        pending
    } else {
        let prev = enqueue_all(files, pending, list, (n - 1) as nat);
        if known_path(files, prev, list[n - 1]) {
            prev
        } else {
            prev.push(list[n - 1])
        }
    }
}

/// What applying a browser choice leaves for the application to do.
pub struct PickOutcome {
    /// Paths to add (folders are scanned), in order.
    pub add: Vec<String>,
    /// The settings changed and are to be saved.
    pub save: bool,
}

/// Counts of running, queued, finished and failed jobs.
pub open spec fn count_state(jobs: Seq<JobRow>, n: nat, which: int) -> nat
    decreases n,
{
    if n == 0 || n > jobs.len() {
        0
    } else {
        count_state(jobs, (n - 1) as nat, which) + if state_code(jobs[n - 1].state) == which {
            1nat
        } else {
            0nat
        }
    }
}

/// 0 queued, 1 running, 2 done, 3 skipped, 4 failed.
pub open spec fn state_code(s: JobState) -> int {
    match s {
        JobState::Queued => 0,
        JobState::Running => 1,
        JobState::Done => 2,
        JobState::Skipped(_) => 3,
        JobState::Failed(_) => 4,
    }
}

fn state_code_exec(s: &JobState) -> (r: u8)
    ensures
        r == state_code(*s),
{
    match s {
        JobState::Queued => 0,
        JobState::Running => 1,
        JobState::Done => 2,
        JobState::Skipped(_) => 3,
        JobState::Failed(_) => 4,
    }
}

fn count_jobs(jobs: &Vec<JobRow>, which: u8) -> (n: usize)
    ensures
        n == count_state(jobs@, jobs@.len(), which as int),
{
    let mut n: usize = 0;
    let mut i: usize = 0;
    while i < jobs.len()
        invariant
            i <= jobs@.len(),
            n == count_state(jobs@, i as nat, which as int),
            n <= i,
        decreases jobs@.len() - i,
    {
        if state_code_exec(&jobs[i].state) == which {
            n += 1;
        }
        i += 1;
    }
    n
}

/// Every field but the log is as before.
pub open spec fn same_but_log(a: App, b: App) -> bool {
    &&& b.lang == a.lang
    &&& b.settings == a.settings
    &&& b.cpu == a.cpu
    &&& b.ff == a.ff
    &&& b.ff_version == a.ff_version
    &&& b.files@ == a.files@
    &&& b.sel == a.sel
    &&& b.pending_probe@ == a.pending_probe@
    &&& b.probed_total == a.probed_total
    &&& b.profile == a.profile
    &&& b.jobs@ == a.jobs@
    &&& b.running == a.running
    &&& b.no_color == a.no_color
    &&& b.storage_error == a.storage_error
    &&& b.mode == a.mode
    &&& b.focus == a.focus
    &&& b.browse == a.browse
    &&& b.preset_sel == a.preset_sel
    &&& b.settings_sel == a.settings_sel
    &&& b.input == a.input
    &&& b.quit_confirm == a.quit_confirm
    &&& b.theme == a.theme
    &&& b.started@ == a.started@
    &&& b.fit_ack == a.fit_ack
}

/// What applying a browser choice does: the browser closes; paths to add
/// come back; a chosen output or move folder goes into the settings (to be
/// saved) with a log line; nothing else changes.
pub open spec fn apply_pick_post(a: App, b: App, r: PickResultView, add: Seq<Seq<char>>, save: bool) -> bool {
    &&& b.mode == Mode::Main
    &&& b.browse is None
    &&& match r {
        PickResultView::Paths(v) => add == v && !save && b.settings == a.settings && b.log@ == a.log@,
        PickResultView::Dir(d) => save && match a.browse {
            Some(br) if br.mode == PickMode::OutDir => {
                &&& b.settings.out_mode@ == OutModeView::Dir(d)
                &&& b.settings.src_move_dir == a.settings.src_move_dir
                &&& log_view(b.log@) == log_push(
                    log_view(a.log@),
                    text(a.lang, Key::LabelOutput)@ + ": "@ + d,
                    false,
                )
                &&& add.len() == 0
            },
            Some(br) if br.mode == PickMode::MoveDir => {
                &&& b.settings.src_move_dir.deep_view() == Some(d)
                &&& b.settings.out_mode == a.settings.out_mode
                &&& log_view(b.log@) == log_push(
                    log_view(a.log@),
                    text(a.lang, Key::LabelSrcAction)@ + ": "@ + d,
                    false,
                )
                &&& add.len() == 0
            },
            _ => add == seq![d] && b.settings == a.settings && b.log@ == a.log@,
        },
    }
    &&& b.settings.lang == a.settings.lang
    &&& b.settings.workers == a.settings.workers
    &&& b.settings.overwrite == a.settings.overwrite
    &&& b.settings.theme == a.settings.theme
    &&& b.settings.src_action == a.settings.src_action
    &&& b.lang == a.lang
    &&& b.cpu == a.cpu
    &&& b.ff == a.ff
    &&& b.ff_version == a.ff_version
    &&& b.files@ == a.files@
    &&& b.sel == a.sel
    &&& b.pending_probe@ == a.pending_probe@
    &&& b.probed_total == a.probed_total
    &&& b.profile == a.profile
    &&& b.jobs@ == a.jobs@
    &&& b.running == a.running
    &&& b.no_color == a.no_color
    &&& b.storage_error == a.storage_error
    &&& b.focus == a.focus
    &&& b.preset_sel == a.preset_sel
    &&& b.settings_sel == a.settings_sel
    &&& b.input == a.input
    &&& b.quit_confirm == a.quit_confirm
    &&& b.theme == a.theme
    &&& b.started@ == a.started@
    &&& b.fit_ack == a.fit_ack
}

/// Every field but the language (and its code in the settings) is as
/// before.
pub open spec fn same_but_lang(a: App, b: App) -> bool {
    &&& b.cpu == a.cpu
    &&& b.ff == a.ff
    &&& b.ff_version == a.ff_version
    &&& b.files@ == a.files@
    &&& b.sel == a.sel
    &&& b.pending_probe@ == a.pending_probe@
    &&& b.probed_total == a.probed_total
    &&& b.profile == a.profile
    &&& b.jobs@ == a.jobs@
    &&& b.running == a.running
    &&& b.log@ == a.log@
    &&& b.no_color == a.no_color
    &&& b.storage_error == a.storage_error
    &&& b.mode == a.mode
    &&& b.focus == a.focus
    &&& b.browse == a.browse
    &&& b.preset_sel == a.preset_sel
    &&& b.settings_sel == a.settings_sel
    &&& b.input == a.input
    &&& b.quit_confirm == a.quit_confirm
    &&& b.theme == a.theme
    &&& b.started@ == a.started@
    &&& b.fit_ack == a.fit_ack
}

impl App {
    /// A scanned folder: logs how many media files it holds and queues
    /// them. `dir` is the folder as displayed.
    pub fn folder_scanned(&mut self, dir: &str, found: &Vec<String>)
        ensures
            log_view(final(self).log@) == log_push(
                log_view(old(self).log@),
                text(old(self).lang, Key::LogFolder)@ + " "@ + dir@ + " ("@ + dec(found@.len() as nat)
                    + " "@ + text(old(self).lang, Key::UnitFile)@ + ")"@,
                false,
            ),
            final(self).pending_probe.deep_view() == enqueue_all(
                old(self).files@,
                old(self).pending_probe.deep_view(),
                found.deep_view(),
                found@.len(),
            ),
            final(self).files@ == old(self).files@,
            final(self).lang == old(self).lang,
    {
        let mut line = to_owned(tr(self.lang, Key::LogFolder));
        line.append(" ");
        line.append(dir);
        line.append(" (");
        push_dec(&mut line, found.len() as u64);
        line.append(" ");
        line.append(tr(self.lang, Key::UnitFile));
        line.append(")");
        self.push_log(line, false);
        let ghost files = self.files@;
        let ghost p0 = self.pending_probe.deep_view();
        let mut i: usize = 0;
        while i < found.len()
            invariant
                i <= found@.len(),
                files == self.files@,
                self.pending_probe.deep_view() == enqueue_all(files, p0, found.deep_view(), i as nat),
                self.lang == old(self).lang,
                log_view(self.log@) == log_push(
                    log_view(old(self).log@),
                    text(old(self).lang, Key::LogFolder)@ + " "@ + dir@ + " ("@ + dec(found@.len() as nat)
                        + " "@ + text(old(self).lang, Key::UnitFile)@ + ")"@,
                    false,
                ),
            decreases found@.len() - i,
        {
            let f = found[i].clone();
            assert(f@ == found.deep_view()[i as int]);
            self.enqueue_probe(f);
            i += 1;
        }
    }

    /// Logs that a folder to add could not be read.
    pub fn folder_unreadable(&mut self, dir: &str, raw: &str, kind: IoKind)
        ensures
            log_view(final(self).log@) == log_push(
                log_view(old(self).log@),
                dir_error_spec(dir@, raw@, kind, old(self).lang),
                true,
            ),
            final(self).files@ == old(self).files@,
            final(self).pending_probe@ == old(self).pending_probe@,
    {
        let m = dir_error(dir, raw, kind, self.lang);
        self.push_log(m, true);
    }

    /// The folder the browser should start in, when there is a preferred
    /// one: the output folder, the move folder, or the first file's folder.
    pub fn browse_start(&self, mode: PickMode) -> (r: Option<String>)
        ensures
            r.deep_view() == (match mode {
                PickMode::OutDir => match self.settings.out_mode@ {
                    OutModeView::Dir(d) => Some(d),
                    OutModeView::Source => None,
                },
                PickMode::MoveDir => self.settings.src_move_dir.deep_view(),
                _ => if self.files@.len() > 0 {
                    path_parent(self.files@[0].path@)
                } else {
                    None
                },
            }),
    {
        match mode {
            PickMode::OutDir => match &self.settings.out_mode {
                OutMode::Dir(d) => Some(d.clone()),
                OutMode::Source => None,
            },
            PickMode::MoveDir => crate::ffmpeg::clone_opt(&self.settings.src_move_dir),
            _ => if self.files.len() > 0 {
                parent(self.files[0].path.as_str())
            } else {
                None
            },
        }
    }

    /// Opens the browser on folder `cur` (it is read next).
    pub fn open_browse(&mut self, mode: PickMode, cur: String)
        ensures
            final(self).mode == Mode::Browse,
            final(self).browse matches Some(b) && b.mode == mode && b.cur@ == cur@ && b.lang
                == old(self).lang && b.wf() && b.marked@.len() == 0 && b.entries@.len() == 0
                && b.sel == 0,
            final(self).settings == old(self).settings,
            final(self).files@ == old(self).files@,
            final(self).log@ == old(self).log@,
            final(self).lang == old(self).lang,
    {
        let mut b = Browse::new(mode, cur);
        b.lang = self.lang;
        self.browse = Some(b);
        self.mode = Mode::Browse;
    }

    pub fn cancel_browse(&mut self)
        ensures
            final(self).browse is None,
            final(self).mode == Mode::Main,
            final(self).settings == old(self).settings,
            final(self).files@ == old(self).files@,
            final(self).log@ == old(self).log@,
            final(self).lang == old(self).lang,
    {
        self.browse = None;
        self.mode = Mode::Main;
    }

    /// Applies what the browser gave: paths to add come back for the
    /// application to scan; a chosen output or move folder goes into the
    /// settings (which are then to be saved) with a log line. The browser
    /// closes.
    pub fn apply_pick(&mut self, r: PickResult) -> (out: PickOutcome)
        ensures
            apply_pick_post(*old(self), *final(self), r@, out.add.deep_view(), out.save),
    {
        let bmode = match &self.browse {
            Some(b) => Some(b.mode),
            None => None,
        };
        let out = match r {
            PickResult::Paths(v) => PickOutcome { add: v, save: false },
            PickResult::Dir(d) => {
                let mut add: Vec<String> = Vec::new();
                match bmode {
                    Some(PickMode::OutDir) => {
                        let mut line = to_owned(tr(self.lang, Key::LabelOutput));
                        line.append(": ");
                        line.append(d.as_str());
                        self.settings.out_mode = OutMode::Dir(d);
                        self.push_log(line, false);
                    },
                    Some(PickMode::MoveDir) => {
                        let mut line = to_owned(tr(self.lang, Key::LabelSrcAction));
                        line.append(": ");
                        line.append(d.as_str());
                        self.settings.src_move_dir = Some(d);
                        self.push_log(line, false);
                    },
                    _ => {
                        let ghost dv = d@;
                        add.push(d);
                        assert(add.deep_view() =~= seq![dv]);
                    },
                }
                PickOutcome { add, save: true }
            },
        };
        self.mode = Mode::Main;
        self.browse = None;
        out
    }

    /// The storage check was made again; when access has appeared, the
    /// log says so.
    pub fn recheck_storage(&mut self, health: Option<String>)
        ensures
            final(self).storage_error == health,
            log_view(final(self).log@) == (if old(self).storage_error is Some && health is None {
                log_push(log_view(old(self).log@), text(old(self).lang, Key::StorageOk)@, false)
            } else {
                log_view(old(self).log@)
            }),
            final(self).lang == old(self).lang,
            final(self).settings == old(self).settings,
    {
        let before = self.storage_error.is_some();
        let now_ok = health.is_none();
        self.storage_error = health;
        if now_ok && before {
            let l = self.lang;
            self.push_log(to_owned(tr(l, Key::StorageOk)), false);
        }
    }

    /// Switches the interface language and stores it in the settings (which
    /// are then to be saved).
    pub fn set_lang(&mut self, l: Lang)
        ensures
            final(self).lang == l,
            final(self).settings.lang@ == l.code(),
            crate::lang::parse_spec(final(self).settings.lang@) == l,
            final(self).settings.theme == old(self).settings.theme,
            final(self).settings.workers == old(self).settings.workers,
            final(self).settings.overwrite == old(self).settings.overwrite,
            final(self).settings.src_action == old(self).settings.src_action,
            final(self).settings.out_mode@ == old(self).settings.out_mode@,
            final(self).settings.src_move_dir.deep_view() == old(self).settings.src_move_dir.deep_view(),
            same_but_lang(*old(self), *final(self)),
    {
        self.lang = l;
        self.settings.set_lang(l);
    }

    /// Where outputs go, as the status line says it.
    pub fn out_label(&self) -> (r: String)
        ensures
            r@ == match self.settings.out_mode@ {
                OutModeView::Source => text(self.lang, Key::OutSource)@,
                OutModeView::Dir(d) => d,
            },
    {
        match &self.settings.out_mode {
            OutMode::Source => to_owned(tr(self.lang, Key::OutSource)),
            OutMode::Dir(d) => d.clone(),
        }
    }

    /// (running, queued, done, failed) jobs.
    pub fn counts(&self) -> (r: (usize, usize, usize, usize))
        ensures
            r.0 == count_state(self.jobs@, self.jobs@.len(), 1),
            r.1 == count_state(self.jobs@, self.jobs@.len(), 0),
            r.2 == count_state(self.jobs@, self.jobs@.len(), 2),
            r.3 == count_state(self.jobs@, self.jobs@.len(), 4),
    {
        (count_jobs(&self.jobs, 1), count_jobs(&self.jobs, 0), count_jobs(&self.jobs, 2), count_jobs(
            &self.jobs,
            4,
        ))
    }

    pub fn selected_media(&self) -> (r: Option<&Media>)
        ensures
            r is Some <==> self.sel < self.files@.len(),
            r matches Some(m) ==> *m == self.files@[self.sel as int],
    {
        if self.sel < self.files.len() {
            Some(&self.files[self.sel])
        } else {
            None
        }
    }

    /// The ffmpeg binary as the command lines show it.
    pub fn ff_bin(&self) -> (r: String)
        ensures
            r@ == match self.ff {
                Ok(f) => f.ffmpeg@,
                Err(_) => "ffmpeg"@,
            },
    {
        match &self.ff {
            Ok(f) => f.ffmpeg.clone(),
            Err(_) => to_owned("ffmpeg"),
        }
    }

    /// Parallel plan for `n_jobs` jobs under the settings.
    pub fn plan(&self, n_jobs: usize) -> (r: (usize, u32))
        ensures
            r.0 == plan_workers(self.cpu.logical, self.settings.workers, n_jobs as nat),
            r.1 == plan_threads(self.cpu.logical, r.0 as nat),
    {
        crate::cpu::plan(&self.cpu, self.settings.workers, n_jobs)
    }

    /// Each file's output path (none where the preset does not apply): the
    /// application looks up which of them exist.
    pub fn outputs(&self) -> (r: Vec<Option<String>>)
        ensures
            r@.len() == self.files@.len(),
            forall|i: int|
                0 <= i < r@.len() ==> (#[trigger] r@[i]).deep_view() == (if build_error(
                    self.profile,
                    self.files@[i],
                    self.lang,
                ) is None {
                    Some(output_spec(self.profile, self.files@[i], self.settings.out_mode@))
                } else {
                    None
                }),
    {
        let mut r: Vec<Option<String>> = Vec::new();
        let mut i: usize = 0;
        while i < self.files.len()
            invariant
                i <= self.files@.len(),
                r@.len() == i,
                forall|k: int|
                    0 <= k < i ==> (#[trigger] r@[k]).deep_view() == (if build_error(
                        self.profile,
                        self.files@[k],
                        self.lang,
                    ) is None {
                        Some(output_spec(self.profile, self.files@[k], self.settings.out_mode@))
                    } else {
                        None
                    }),
            decreases self.files@.len() - i,
        {
            r.push(output_for(&self.profile, &self.files[i], &self.settings.out_mode, self.lang));
            i += 1;
        }
        r
    }

    /// The plan of a run; `exists[i]` says whether file `i`'s output is
    /// already on disk.
    pub fn job_plan(&self, exists: &Vec<bool>) -> (plan: JobPlan)
        requires
            exists@.len() == self.files@.len(),
        ensures
            specs_view(plan.specs@) == specs_spec(
                self.profile,
                self.files@,
                self.settings.out_mode@,
                self.settings.overwrite,
                self.lang,
                exists@,
                self.files@.len(),
            ),
            errors_view(plan.errors@) == errors_spec(self.profile, self.files@, self.lang, self.files@.len()),
            plan.workers == plan_workers(
                self.cpu.logical,
                self.settings.workers,
                run_count(specs_view(plan.specs@), plan.specs@.len()),
            ),
            plan.threads == plan_threads(self.cpu.logical, plan.workers as nat),
            specs_view(plan.runnable@) == runnable_spec(
                specs_view(plan.specs@),
                plan.threads as nat,
                plan.specs@.len(),
            ),
            forall|k: int| 0 <= k < plan.runnable@.len() ==> writes_elsewhere(#[trigger] plan.runnable@[k]@),
    {
        job_plan(
            &self.profile,
            &self.files,
            &self.settings.out_mode,
            self.settings.overwrite,
            self.lang,
            exists,
            &self.cpu,
            self.settings.workers,
        )
    }

    /// Every file's job under the current settings (see `job_plan`).
    pub open spec fn planned_specs(self, exists: Seq<bool>) -> Seq<JobSpecView> {
        specs_spec(
            self.profile,
            self.files@,
            self.settings.out_mode@,
            self.settings.overwrite,
            self.lang,
            exists,
            self.files@.len(),
        )
    }

    pub open spec fn planned_errors(self) -> Seq<(Seq<char>, Seq<char>)> {
        errors_spec(self.profile, self.files@, self.lang, self.files@.len())
    }

    pub open spec fn planned_workers(self, exists: Seq<bool>) -> nat {
        let sp = self.planned_specs(exists);
        plan_workers(self.cpu.logical, self.settings.workers, run_count(sp, sp.len()))
    }

    pub open spec fn planned_threads(self, exists: Seq<bool>) -> nat {
        plan_threads(self.cpu.logical, self.planned_workers(exists))
    }

    /// The jobs a run starts, exactly as handed to the worker pool.
    pub open spec fn planned_runnable(self, exists: Seq<bool>) -> Seq<JobSpecView> {
        let sp = self.planned_specs(exists);
        runnable_spec(sp, self.planned_threads(exists), sp.len())
    }

    pub open spec fn bin_spec(self) -> Seq<char> {
        match self.ff {
            Ok(f) => f.ffmpeg@,
            Err(_) => "ffmpeg"@,
        }
    }

    /// The command shown for a file: the one the run would start.
    pub fn preview_cmd_for(&self, m: &Media, exists: &Vec<bool>) -> (r: String)
        requires
            exists@.len() == self.files@.len(),
        ensures
            r@ == preview_spec(
                self.planned_specs(exists@),
                self.planned_errors(),
                self.planned_runnable(exists@),
                *m,
                self.bin_spec(),
            ),
            forall|j: int|
                0 <= j < self.planned_runnable(exists@).len() && path_parts(
                    #[trigger] self.planned_runnable(exists@)[j].input,
                ) == path_parts(m.path@) ==> exists|k: int|
                    0 <= k <= j && path_parts(#[trigger] self.planned_runnable(exists@)[k].input)
                        == path_parts(m.path@) && r@ == cmd_spec(
                        self.bin_spec(),
                        self.planned_runnable(exists@)[k],
                    ),
    {
        let plan = self.job_plan(exists);
        let bin = self.ff_bin();
        let r = preview_of(&plan, m, bin.as_str());
        proof {
            assert forall|j: int|
                0 <= j < self.planned_runnable(exists@).len() && path_parts(
                    #[trigger] self.planned_runnable(exists@)[j].input,
                ) == path_parts(m.path@) implies exists|k: int|
                    0 <= k <= j && path_parts(#[trigger] self.planned_runnable(exists@)[k].input)
                        == path_parts(m.path@) && r@ == cmd_spec(
                        self.bin_spec(),
                        self.planned_runnable(exists@)[k],
                    ) by {
                lemma_preview_is_run(*self, *m, exists@, j);
            }
        }
        r
    }
}

/// `JobState` with its texts taken by their characters.
pub enum JobStateView {
    Queued,
    Running,
    Done,
    Skipped(Seq<char>),
    Failed(Seq<char>),
}

impl View for JobState {
    type V = JobStateView;

    open spec fn view(&self) -> JobStateView {
        match self {
            JobState::Queued => JobStateView::Queued,
            JobState::Running => JobStateView::Running,
            JobState::Done => JobStateView::Done,
            JobState::Skipped(s) => JobStateView::Skipped(s@),
            JobState::Failed(s) => JobStateView::Failed(s@),
        }
    }
}

/// A queue line taken by its characters.
pub struct JobRowView {
    pub job: usize,
    pub name: Seq<char>,
    pub target: Seq<char>,
    pub src_size: u64,
    pub permille: u32,
    pub speed: Option<Seq<char>>,
    pub state: JobStateView,
}

impl View for JobRow {
    type V = JobRowView;

    open spec fn view(&self) -> JobRowView {
        JobRowView {
            job: self.job,
            name: self.name@,
            target: self.target@,
            src_size: self.src_size,
            permille: self.permille,
            speed: self.speed.deep_view(),
            state: self.state@,
        }
    }
}

pub open spec fn rows_view(v: Seq<JobRow>) -> Seq<JobRowView> {
    Seq::new(v.len(), |i: int| v[i]@)
}

/// The queue line of a job when a run starts.
pub open spec fn row_spec(s: JobSpecView, files: Seq<Media>) -> JobRowView {
    JobRowView {
        job: s.job_index,
        name: s.input_name,
        target: s.target_desc,
        src_size: if s.job_index < files.len() {
            files[s.job_index as int].size
        } else {
            0
        },
        permille: 0,
        speed: None,
        state: match s.skip_reason {
            Some(r) => JobStateView::Skipped(r),
            None => JobStateView::Queued,
        },
    }
}

/// Log lines added in order.
pub open spec fn log_push_all(log: Seq<(Seq<char>, bool)>, lines: Seq<(Seq<char>, bool)>) -> Seq<
    (Seq<char>, bool),
>
    decreases lines.len(),
{
    if lines.len() == 0 {
        log
    } else {
        log_push(log_push_all(log, lines.drop_last()), lines.last().0, lines.last().1)
    }
}

proof fn lemma_log_push_all_step(log: Seq<(Seq<char>, bool)>, lines: Seq<(Seq<char>, bool)>, x: (Seq<char>, bool))
    ensures
        log_push_all(log, lines.push(x)) == log_push(log_push_all(log, lines), x.0, x.1),
{
    assert(lines.push(x).drop_last() =~= lines);
}

/// The log lines for the files the preset cannot take.
pub open spec fn error_lines(errors: Seq<(Seq<char>, Seq<char>)>, lang: Lang) -> Seq<(Seq<char>, bool)> {
    Seq::new(
        errors.len(),
        |i: int|
            ("["@ + text(lang, Key::QueueSkipped)@ + "] "@ + errors[i].0 + ": "@ + errors[i].1, true),
    )
}

/// The log lines with the command of each job that runs.
pub open spec fn command_lines(jobs: Seq<JobSpecView>, bin: Seq<char>, lang: Lang) -> Seq<(Seq<char>, bool)> {
    Seq::new(
        jobs.len(),
        |i: int| (text(lang, Key::LogCommand)@ + " "@ + jobs[i].input_name + ": "@ + cmd_spec(bin, jobs[i]), false),
    )
}

/// The summary line of a run that starts.
pub open spec fn queue_line(n_run: nat, workers: nat, threads: nat, skipped: nat, lang: Lang) -> Seq<char> {
    text(lang, Key::LogQueue)@ + " "@ + dec(n_run) + " "@ + text(lang, Key::QueueWillRun)@ + " ("@
        + dec(workers) + " × "@ + dec(threads) + "t), "@ + dec(skipped) + " "@ + text(
        lang,
        Key::QueueSkipped,
    )@
}

/// What the application starts: the jobs go to a pool of `workers`
/// threads running `ffmpeg`.
pub struct StartOrder {
    pub ffmpeg: String,
    pub jobs: Vec<JobSpec>,
    pub workers: usize,
}

impl App {
    fn log_lines(&mut self, lines: &Vec<(String, bool)>)
        ensures
            log_view(final(self).log@) == log_push_all(log_view(old(self).log@), log_view(lines@)),
            final(self).files@ == old(self).files@,
            final(self).jobs@ == old(self).jobs@,
            final(self).started@ == old(self).started@,
            final(self).settings == old(self).settings,
            final(self).lang == old(self).lang,
            final(self).running == old(self).running,
            final(self).ff == old(self).ff,
            final(self).pending_probe@ == old(self).pending_probe@,
            final(self).profile == old(self).profile,
            final(self).cpu == old(self).cpu,
    {
        let ghost lv = log_view(lines@);
        let mut i: usize = 0;
        assert(lv.take(0) =~= Seq::<(Seq<char>, bool)>::empty());
        while i < lines.len()
            invariant
                i <= lines@.len(),
                lv == log_view(lines@),
                log_view(self.log@) == log_push_all(log_view(old(self).log@), lv.take(i as int)),
                self.files@ == old(self).files@,
                self.jobs@ == old(self).jobs@,
                self.started@ == old(self).started@,
                self.settings == old(self).settings,
                self.lang == old(self).lang,
                self.running == old(self).running,
                self.ff == old(self).ff,
                self.pending_probe@ == old(self).pending_probe@,
                self.profile == old(self).profile,
                self.cpu == old(self).cpu,
            decreases lines@.len() - i,
        {
            let line = lines[i].0.clone();
            proof {
                lemma_log_push_all_step(log_view(old(self).log@), lv.take(i as int), lv[i as int]);
                assert(lv.take(i as int).push(lv[i as int]) =~= lv.take(i + 1));
            }
            self.push_log(line, lines[i].1);
            i += 1;
        }
        assert(lv.take(i as int) =~= lv);
    }
}

fn error_lines_exec(errors: &Vec<(String, String)>, lang: Lang) -> (r: Vec<(String, bool)>)
    ensures
        log_view(r@) == error_lines(errors_view(errors@), lang),
{
    let mut r: Vec<(String, bool)> = Vec::new();
    let mut i: usize = 0;
    while i < errors.len()
        invariant
            i <= errors@.len(),
            log_view(r@) == error_lines(errors_view(errors@), lang).take(i as int),
        decreases errors@.len() - i,
    {
        let mut line = to_owned("[");
        line.append(tr(lang, Key::QueueSkipped));
        line.append("] ");
        line.append(errors[i].0.as_str());
        line.append(": ");
        line.append(errors[i].1.as_str());
        let ghost lw = line@;
        let ghost before = log_view(r@);
        r.push((line, true));
        assert(log_view(r@) =~= before.push((lw, true)));
        assert(log_view(r@) =~= error_lines(errors_view(errors@), lang).take(i + 1));
        i += 1;
    }
    assert(error_lines(errors_view(errors@), lang).take(i as int) =~= error_lines(errors_view(errors@), lang));
    r
}

fn command_lines_exec(jobs: &Vec<JobSpec>, bin: &str, lang: Lang) -> (r: Vec<(String, bool)>)
    ensures
        log_view(r@) == command_lines(specs_view(jobs@), bin@, lang),
{
    let mut r: Vec<(String, bool)> = Vec::new();
    let mut i: usize = 0;
    while i < jobs.len()
        invariant
            i <= jobs@.len(),
            log_view(r@) == command_lines(specs_view(jobs@), bin@, lang).take(i as int),
        decreases jobs@.len() - i,
    {
        let mut line = to_owned(tr(lang, Key::LogCommand));
        line.append(" ");
        line.append(jobs[i].input_name.as_str());
        line.append(": ");
        let c = cmd_string(bin, &jobs[i]);
        line.append(c.as_str());
        let ghost lw = line@;
        let ghost before = log_view(r@);
        r.push((line, false));
        assert(log_view(r@) =~= before.push((lw, false)));
        assert(log_view(r@) =~= command_lines(specs_view(jobs@), bin@, lang).take(i + 1));
        i += 1;
    }
    assert(command_lines(specs_view(jobs@), bin@, lang).take(i as int) =~= command_lines(specs_view(jobs@), bin@, lang));
    r
}

fn rows_of(specs: &Vec<JobSpec>, files: &Vec<Media>) -> (r: Vec<JobRow>)
    ensures
        rows_view(r@) == Seq::new(specs@.len(), |i: int| row_spec(specs@[i]@, files@)),
{
    let ghost want = Seq::new(specs@.len(), |i: int| row_spec(specs@[i]@, files@));
    let mut r: Vec<JobRow> = Vec::new();
    let mut i: usize = 0;
    while i < specs.len()
        invariant
            i <= specs@.len(),
            want == Seq::new(specs@.len(), |i: int| row_spec(specs@[i]@, files@)),
            rows_view(r@) == want.take(i as int),
        decreases specs@.len() - i,
    {
        let s = &specs[i];
        let size = if s.job_index < files.len() {
            files[s.job_index].size
        } else {
            0
        };
        let state = match &s.skip_reason {
            Some(reason) => JobState::Skipped(reason.clone()),
            None => JobState::Queued,
        };
        let row = JobRow {
            job: s.job_index,
            name: s.input_name.clone(),
            target: s.target_desc.clone(),
            src_size: size,
            permille: 0,
            speed: None,
            state,
        };
        let ghost rw = row@;
        assert(rw == want[i as int]);
        let ghost before = rows_view(r@);
        r.push(row);
        assert(rows_view(r@) =~= before.push(rw));
        assert(rows_view(r@) =~= want.take(i + 1));
        i += 1;
    }
    assert(want.take(i as int) =~= want);
    r
}

fn clone_specs(v: &Vec<JobSpec>) -> (r: Vec<JobSpec>)
    ensures
        specs_view(r@) == specs_view(v@),
{
    let mut r: Vec<JobSpec> = Vec::new();
    let mut i: usize = 0;
    while i < v.len()
        invariant
            i <= v@.len(),
            specs_view(r@) == specs_view(v@).take(i as int),
        decreases v@.len() - i,
    {
        let j = v[i].duplicate();
        let ghost jv = j@;
        let ghost before = specs_view(r@);
        r.push(j);
        assert(specs_view(r@) =~= before.push(jv));
        assert(specs_view(r@) =~= specs_view(v@).take(i + 1));
        i += 1;
    }
    assert(specs_view(v@).take(i as int) =~= specs_view(v@));
    r
}

/// The lines a run logs before it starts: the files left out, then (when
/// something runs) the summary and every command, else that there is
/// nothing to convert.
pub open spec fn start_lines(app: App, exists: Seq<bool>) -> Seq<(Seq<char>, bool)> {
    let sp = app.planned_specs(exists);
    let run = app.planned_runnable(exists);
    let errs = error_lines(app.planned_errors(), app.lang);
    if run.len() == 0 {
        errs.push((text(app.lang, Key::NoFilesToConvert)@, true))
    } else {
        errs.push(
            (
                queue_line(
                    run.len(),
                    app.planned_workers(exists),
                    app.planned_threads(exists),
                    (sp.len() - run.len()) as nat,
                    app.lang,
                ),
                false,
            ),
        ) + command_lines(run, app.bin_spec(), app.lang)
    }
}

proof fn lemma_run_count_le(specs: Seq<JobSpecView>, t: nat, n: nat)
    requires
        n <= specs.len(),
    ensures
        runnable_spec(specs, t, n).len() == run_count(specs, n),
        run_count(specs, n) <= n,
    decreases n,
{
    if n > 0 {
        lemma_run_count_le(specs, t, (n - 1) as nat);
    }
}

impl App {
    /// Starts the queue. Nothing happens while a run is going; without
    /// ffmpeg, or with nothing to run, the log says why. Otherwise the
    /// queue shows every job, the log gets the summary and each command,
    /// and the jobs to hand to the worker pool come back: the very jobs
    /// whose commands the preview shows.
    pub fn start(&mut self, exists: &Vec<bool>) -> (order: Option<StartOrder>)
        requires
            exists@.len() == old(self).files@.len(),
        ensures
            old(self).running ==> order is None && log_view(final(self).log@) == log_view(
                old(self).log@,
            ) && final(self).running,
            !old(self).running && old(self).ff is Err ==> order is None && log_view(
                final(self).log@,
            ) == log_push(
                log_view(old(self).log@),
                text(old(self).lang, Key::LogError)@ + " "@ + text(old(self).lang, Key::NoFfmpegStart)@,
                true,
            ) && !final(self).running,
            !old(self).running && old(self).ff is Ok ==> {
                &&& log_view(final(self).log@) == log_push_all(
                    log_view(old(self).log@),
                    start_lines(*old(self), exists@),
                )
                &&& (order is Some <==> old(self).planned_runnable(exists@).len() > 0)
                &&& final(self).running == order is Some
            },
            order matches Some(o) ==> {
                &&& specs_view(o.jobs@) == old(self).planned_runnable(exists@)
                &&& forall|k: int| 0 <= k < o.jobs@.len() ==> writes_elsewhere(#[trigger] o.jobs@[k]@)
                &&& o.workers == old(self).planned_workers(exists@)
                &&& o.ffmpeg@ == old(self).bin_spec()
                &&& specs_view(final(self).started@) == old(self).planned_runnable(exists@)
                &&& rows_view(final(self).jobs@) == Seq::new(
                    old(self).planned_specs(exists@).len(),
                    |i: int| row_spec(old(self).planned_specs(exists@)[i], old(self).files@),
                )
            },
            order is None ==> final(self).jobs@ == old(self).jobs@ && final(self).started@ == old(
                self,
            ).started@,
            final(self).files@ == old(self).files@,
            final(self).settings == old(self).settings,
            final(self).lang == old(self).lang,
            final(self).profile == old(self).profile,
            final(self).cpu == old(self).cpu,
            final(self).ff == old(self).ff,
    {
        if self.running {
            return None;
        }
        let bin = match &self.ff {
            Ok(f) => f.ffmpeg.clone(),
            Err(_) => {
                let mut line = to_owned(tr(self.lang, Key::LogError));
                line.append(" ");
                line.append(tr(self.lang, Key::NoFfmpegStart));
                self.push_log(line, true);
                return None;
            },
        };
        let plan = self.job_plan(exists);
        let ghost sp = specs_view(plan.specs@);
        proof {
            lemma_run_count_le(sp, plan.threads as nat, sp.len());
        }
        let mut lines = error_lines_exec(&plan.errors, self.lang);
        let ghost errs = log_view(lines@);
        if plan.runnable.len() == 0 {
            lines.push((to_owned(tr(self.lang, Key::NoFilesToConvert)), true));
            assert(log_view(lines@) =~= start_lines(*old(self), exists@));
            self.log_lines(&lines);
            return None;
        }
        let n_run = plan.runnable.len();
        let skipped = plan.specs.len() - n_run;
        let summary = queue_line_exec(n_run, plan.workers, plan.threads, skipped, self.lang);
        lines.push((summary, false));
        let cmds = command_lines_exec(&plan.runnable, bin.as_str(), self.lang);
        append_lines(&mut lines, &cmds);
        assert(log_view(lines@) =~= start_lines(*old(self), exists@));
        self.log_lines(&lines);
        self.jobs = rows_of(&plan.specs, &self.files);
        self.started = clone_specs(&plan.runnable);
        self.running = true;
        Some(StartOrder { ffmpeg: bin, jobs: plan.runnable, workers: plan.workers })
    }
}

fn queue_line_exec(n_run: usize, workers: usize, threads: u32, skipped: usize, lang: Lang) -> (r: String)
    ensures
        r@ == queue_line(n_run as nat, workers as nat, threads as nat, skipped as nat, lang),
{
    let mut summary = to_owned(tr(lang, Key::LogQueue));
    summary.append(" ");
    push_dec(&mut summary, n_run as u64);
    summary.append(" ");
    summary.append(tr(lang, Key::QueueWillRun));
    summary.append(" (");
    push_dec(&mut summary, workers as u64);
    summary.append(" × ");
    push_dec(&mut summary, threads as u64);
    summary.append("t), ");
    push_dec(&mut summary, skipped as u64);
    summary.append(" ");
    summary.append(tr(lang, Key::QueueSkipped));
    summary
}

fn append_lines(lines: &mut Vec<(String, bool)>, more: &Vec<(String, bool)>)
    ensures
        log_view(final(lines)@) == log_view(old(lines)@) + log_view(more@),
{
    let ghost l1 = log_view(lines@);
    let mut k: usize = 0;
    while k < more.len()
        invariant
            k <= more@.len(),
            log_view(lines@) == l1 + log_view(more@).take(k as int),
        decreases more@.len() - k,
    {
        let line = more[k].0.clone();
        let ghost before = log_view(lines@);
        lines.push((line, more[k].1));
        assert(log_view(lines@) =~= before.push(log_view(more@)[k as int]));
        assert(log_view(lines@) =~= l1 + log_view(more@).take(k + 1));
        k += 1;
    }
    assert(log_view(more@).take(k as int) =~= log_view(more@));
}

/// A queue line after a progress report.
pub open spec fn progressed(r: JobRowView, permille: u32, speed: Option<Seq<char>>) -> JobRowView {
    JobRowView {
        state: match r.state {
            JobStateView::Queued => JobStateView::Running,
            _ => r.state,
        },
        permille,
        speed: if speed is Some {
            speed
        } else {
            r.speed
        },
        ..r
    }
}

/// A queue line after its job ended.
pub open spec fn finished(r: JobRowView, ok: bool, msg: Seq<char>) -> JobRowView {
    if ok {
        JobRowView { permille: 1000, state: JobStateView::Done, ..r }
    } else {
        JobRowView { state: JobStateView::Failed(msg), ..r }
    }
}

/// The log line of a job that ended.
pub open spec fn finished_line(
    name: Seq<char>,
    ok: bool,
    msg: Seq<char>,
    out_size: Option<u64>,
    millis: u64,
    lang: Lang,
) -> (Seq<char>, bool) {
    if ok {
        (
            text(lang, Key::LogDone)@ + " "@ + name + " - "@ + (match out_size {
                Some(b) => crate::util::fmt_size_spec(b as nat),
                None => seq![],
            }) + " ("@ + crate::util::secs_text(millis as nat) + " "@ + text(lang, Key::UnitSecond)@
                + ")"@,
            false,
        )
    } else {
        (text(lang, Key::LogError)@ + " "@ + name + ": "@ + msg, true)
    }
}

/// The log line when the whole queue has ended.
pub open spec fn all_done_line(done: nat, failed: nat, lang: Lang) -> (Seq<char>, bool) {
    (
        text(lang, Key::LogQueue)@ + " "@ + text(lang, Key::QueueFinished)@ + ": "@ + dec(done) + " "@
            + text(lang, Key::UnitFinished)@ + ", "@ + dec(failed) + " "@ + text(lang, Key::UnitFailed)@,
        failed > 0,
    )
}

fn clone_opt_string(o: &Option<String>) -> (r: Option<String>)
    ensures
        r.deep_view() == o.deep_view(),
{
    crate::ffmpeg::clone_opt(o)
}

fn clone_state(s: &JobState) -> (r: JobState)
    ensures
        r@ == s@,
{
    match s {
        JobState::Queued => JobState::Queued,
        JobState::Running => JobState::Running,
        JobState::Done => JobState::Done,
        JobState::Skipped(x) => JobState::Skipped(x.clone()),
        JobState::Failed(x) => JobState::Failed(x.clone()),
    }
}

/// The first queue line from `i` on that belongs to job `idx`.
pub open spec fn row_of(rows: Seq<JobRowView>, idx: usize, i: int) -> Option<int>
    decreases rows.len() - i,
{
    if i < 0 || i >= rows.len() {
        None
    } else if rows[i].job == idx {
        Some(i)
    } else {
        row_of(rows, idx, i + 1)
    }
}

impl App {
    fn find_row(&self, idx: usize) -> (r: Option<usize>)
        ensures
            match r {
                Some(k) => k < self.jobs@.len() && row_of(rows_view(self.jobs@), idx, 0) == Some(k as int),
                None => row_of(rows_view(self.jobs@), idx, 0) is None,
            },
    {
        let ghost rv = rows_view(self.jobs@);
        let mut i: usize = 0;
        while i < self.jobs.len()
            invariant
                rv == rows_view(self.jobs@),
                i <= self.jobs@.len(),
                row_of(rv, idx, 0) == row_of(rv, idx, i as int),
            decreases self.jobs@.len() - i,
        {
            assert(rv[i as int].job == self.jobs@[i as int].job);
            if self.jobs[i].job == idx {
                return Some(i);
            }
            i += 1;
        }
        None
    }
}

impl App {
    /// Handles one report of the worker pool about job `idx`, shown on the
    /// queue line that belongs to that job. The result is the index of a job
    /// that ended well: its source action is due.
    pub fn on_msg(&mut self, msg: JobMsg) -> (due: Option<usize>)
        ensures
            match msg {
                JobMsg::Progress { idx, permille, speed } => {
                    &&& rows_view(final(self).jobs@) == match row_of(rows_view(old(self).jobs@), idx, 0) {
                        Some(k) => rows_view(old(self).jobs@).update(
                            k,
                            progressed(rows_view(old(self).jobs@)[k], permille, speed.deep_view()),
                        ),
                        None => rows_view(old(self).jobs@),
                    }
                    &&& log_view(final(self).log@) == log_view(old(self).log@)
                    &&& due is None
                    &&& final(self).running == old(self).running
                },
                JobMsg::Finished { idx, ok, msg, out_size, millis } => {
                    &&& rows_view(final(self).jobs@) == match row_of(rows_view(old(self).jobs@), idx, 0) {
                        Some(k) => rows_view(old(self).jobs@).update(
                            k,
                            finished(rows_view(old(self).jobs@)[k], ok, msg@),
                        ),
                        None => rows_view(old(self).jobs@),
                    }
                    &&& log_view(final(self).log@) == match row_of(rows_view(old(self).jobs@), idx, 0) {
                        Some(k) => log_push(
                            log_view(old(self).log@),
                            finished_line(old(self).jobs@[k].name@, ok, msg@, out_size, millis, old(self).lang).0,
                            finished_line(old(self).jobs@[k].name@, ok, msg@, out_size, millis, old(self).lang).1,
                        ),
                        None => log_view(old(self).log@),
                    }
                    &&& due == (if ok && row_of(rows_view(old(self).jobs@), idx, 0) is Some {
                        Some(idx)
                    } else {
                        None::<usize>
                    })
                    &&& final(self).running == old(self).running
                },
                JobMsg::AllDone => {
                    &&& !final(self).running
                    &&& final(self).jobs@ == old(self).jobs@
                    &&& log_view(final(self).log@) == log_push(
                        log_view(old(self).log@),
                        all_done_line(
                            count_state(old(self).jobs@, old(self).jobs@.len(), 2),
                            count_state(old(self).jobs@, old(self).jobs@.len(), 4),
                            old(self).lang,
                        ).0,
                        all_done_line(
                            count_state(old(self).jobs@, old(self).jobs@.len(), 2),
                            count_state(old(self).jobs@, old(self).jobs@.len(), 4),
                            old(self).lang,
                        ).1,
                    )
                    &&& due is None
                },
            },
            final(self).files@ == old(self).files@,
            final(self).started@ == old(self).started@,
            final(self).settings == old(self).settings,
            final(self).lang == old(self).lang,
    {
        match msg {
            JobMsg::Progress { idx, permille, speed } => {
                if let Some(k) = self.find_row(idx) {
                    let ghost rv = rows_view(self.jobs@);
                    let r = &self.jobs[k];
                    let state = match &r.state {
                        JobState::Queued => JobState::Running,
                        other => clone_state(other),
                    };
                    let new_speed = match speed {
                        Some(sp) => Some(sp),
                        None => clone_opt_string(&r.speed),
                    };
                    let row = JobRow {
                        job: r.job,
                        name: r.name.clone(),
                        target: r.target.clone(),
                        src_size: r.src_size,
                        permille,
                        speed: new_speed,
                        state,
                    };
                    let ghost rw = row@;
                    self.jobs.set(k, row);
                    assert(rows_view(self.jobs@) =~= rv.update(k as int, rw));
                }
                None
            },
            JobMsg::Finished { idx, ok, msg, out_size, millis } => {
                let k = match self.find_row(idx) {
                    Some(k) => k,
                    None => {
                        return None;
                    },
                };
                let ghost rv = rows_view(self.jobs@);
                let name = self.jobs[k].name.clone();
                let line = if ok {
                    let mut line = to_owned(tr(self.lang, Key::LogDone));
                    line.append(" ");
                    line.append(name.as_str());
                    line.append(" - ");
                    match out_size {
                        Some(b) => {
                            let t = crate::util::fmt_size(b);
                            line.append(t.as_str());
                        },
                        None => {},
                    }
                    line.append(" (");
                    let secs = crate::util::fmt_secs(millis);
                    line.append(secs.as_str());
                    line.append(" ");
                    line.append(tr(self.lang, Key::UnitSecond));
                    line.append(")");
                    line
                } else {
                    let mut line = to_owned(tr(self.lang, Key::LogError));
                    line.append(" ");
                    line.append(name.as_str());
                    line.append(": ");
                    line.append(msg.as_str());
                    line
                };
                let r = &self.jobs[k];
                let row = if ok {
                    JobRow {
                        job: r.job,
                        name: r.name.clone(),
                        target: r.target.clone(),
                        src_size: r.src_size,
                        permille: 1000,
                        speed: clone_opt_string(&r.speed),
                        state: JobState::Done,
                    }
                } else {
                    JobRow {
                        job: r.job,
                        name: r.name.clone(),
                        target: r.target.clone(),
                        src_size: r.src_size,
                        permille: r.permille,
                        speed: clone_opt_string(&r.speed),
                        state: JobState::Failed(msg),
                    }
                };
                let ghost rw = row@;
                self.jobs.set(k, row);
                assert(rows_view(self.jobs@) =~= rv.update(k as int, rw));
                self.push_log(line, !ok);
                if ok {
                    Some(idx)
                } else {
                    None
                }
            },
            JobMsg::AllDone => {
                self.running = false;
                let done = count_jobs(&self.jobs, 2);
                let fail = count_jobs(&self.jobs, 4);
                let mut line = to_owned(tr(self.lang, Key::LogQueue));
                line.append(" ");
                line.append(tr(self.lang, Key::QueueFinished));
                line.append(": ");
                push_dec(&mut line, done as u64);
                line.append(" ");
                line.append(tr(self.lang, Key::UnitFinished));
                line.append(", ");
                push_dec(&mut line, fail as u64);
                line.append(" ");
                line.append(tr(self.lang, Key::UnitFailed));
                self.push_log(line, fail > 0);
                None
            },
        }
    }
}

/// The first started job from index `i` on with job index `idx`.
pub open spec fn find_started(v: Seq<JobSpecView>, idx: usize, i: int) -> Option<int>
    decreases v.len() - i,
{
    if i < 0 || i >= v.len() {
        None
    } else if v[i].job_index == idx {
        Some(i)
    } else {
        find_started(v, idx, i + 1)
    }
}

/// What to do with a source file after its job ended well.
pub enum SourceOp {
    /// Leave it.
    Keep,
    /// Delete `input`.
    Delete { input: String, name: String },
    /// Move `input` into `dir`.
    Move { input: String, dir: String, name: String },
    /// Leave it and log this warning.
    Warn(String),
}

pub enum SourceOpView {
    Keep,
    Delete { input: Seq<char>, name: Seq<char> },
    Move { input: Seq<char>, dir: Seq<char>, name: Seq<char> },
    Warn(Seq<char>),
}

impl View for SourceOp {
    type V = SourceOpView;

    open spec fn view(&self) -> SourceOpView {
        match self {
            SourceOp::Keep => SourceOpView::Keep,
            SourceOp::Delete { input, name } => SourceOpView::Delete { input: input@, name: name@ },
            SourceOp::Move { input, dir, name } => SourceOpView::Move {
                input: input@,
                dir: dir@,
                name: name@,
            },
            SourceOp::Warn(w) => SourceOpView::Warn(w@),
        }
    }
}

/// The source action for a job: never a delete or a move unless the
/// output was found (`output_ok`); a move needs a target folder.
pub open spec fn source_op_spec(
    job: Option<JobSpecView>,
    action: SrcAction,
    move_dir: Option<Seq<char>>,
    output_ok: bool,
    lang: Lang,
) -> SourceOpView {
    match job {
        None => SourceOpView::Keep,
        Some(j) => match action {
            SrcAction::Keep => SourceOpView::Keep,
            SrcAction::Delete => if output_ok {
                SourceOpView::Delete { input: j.input, name: j.input_name }
            } else {
                SourceOpView::Warn(
                    text(lang, Key::LogWarning)@ + " "@ + j.input_name + ": "@ + text(lang, Key::OutNotVerifiedDel)@,
                )
            },
            SrcAction::Move => match move_dir {
                None => SourceOpView::Warn(text(lang, Key::LogWarning)@ + " "@ + text(lang, Key::MoveNoDir)@),
                Some(d) => if output_ok {
                    SourceOpView::Move { input: j.input, dir: d, name: j.input_name }
                } else {
                    SourceOpView::Warn(
                        text(lang, Key::LogWarning)@ + " "@ + j.input_name + ": "@ + text(
                            lang,
                            Key::OutNotVerifiedMove,
                        )@,
                    )
                },
            },
        },
    }
}

/// How a delete or a move went.
pub enum SourceOutcome {
    Deleted(String),
    DeleteFailed(String, String),
    Moved(String, String),
    MoveFailed(String, String),
}

impl App {
    /// The started job with index `idx`.
    pub open spec fn job_of(self, idx: int) -> Option<JobSpecView> {
        if 0 <= idx <= usize::MAX {
            match find_started(specs_view(self.started@), idx as usize, 0) {
                Some(k) => Some(specs_view(self.started@)[k]),
                None => None,
            }
        } else {
            None
        }
    }

    fn find_spec(&self, idx: usize) -> (r: Option<usize>)
        ensures
            match r {
                Some(k) => k < self.started@.len() && self.job_of(idx as int) == Some(
                    specs_view(self.started@)[k as int],
                ),
                None => self.job_of(idx as int) is None,
            },
    {
        let ghost sv = specs_view(self.started@);
        let mut i: usize = 0;
        while i < self.started.len()
            invariant
                sv == specs_view(self.started@),
                i <= self.started@.len(),
                find_started(sv, idx, 0) == find_started(sv, idx, i as int),
            decreases self.started@.len() - i,
        {
            assert(sv[i as int].job_index == self.started@[i as int].job_index);
            if self.started[i].job_index == idx {
                return Some(i);
            }
            i += 1;
        }
        None
    }

    /// The output to look for before touching the source of job
    /// `idx`: (output, numbered).
    pub fn source_output(&self, idx: usize) -> (r: Option<(String, bool)>)
        ensures
            match r {
                Some((o, p)) => self.job_of(idx as int) matches Some(j) && o@ == j.output && p
                    == j.output_is_pattern,
                None => self.job_of(idx as int) is None,
            },
    {
        match self.find_spec(idx) {
            Some(k) => Some((self.started[k].output.clone(), self.started[k].output_is_pattern)),
            None => None,
        }
    }

    /// What to do with the source of job `idx`, given whether its
    /// output was found.
    pub fn source_op(&self, idx: usize, output_ok: bool) -> (r: SourceOp)
        ensures
            r@ == source_op_spec(
                self.job_of(idx as int),
                self.settings.src_action,
                self.settings.src_move_dir.deep_view(),
                output_ok,
                self.lang,
            ),
    {
        let k = match self.find_spec(idx) {
            Some(k) => k,
            None => {
                return SourceOp::Keep;
            },
        };
        let j = &self.started[k];
        let lang = self.lang;
        match self.settings.src_action {
            SrcAction::Keep => SourceOp::Keep,
            SrcAction::Delete => if output_ok {
                SourceOp::Delete { input: j.input.clone(), name: j.input_name.clone() }
            } else {
                let mut w = to_owned(tr(lang, Key::LogWarning));
                w.append(" ");
                w.append(j.input_name.as_str());
                w.append(": ");
                w.append(tr(lang, Key::OutNotVerifiedDel));
                SourceOp::Warn(w)
            },
            SrcAction::Move => match &self.settings.src_move_dir {
                None => {
                    let mut w = to_owned(tr(lang, Key::LogWarning));
                    w.append(" ");
                    w.append(tr(lang, Key::MoveNoDir));
                    SourceOp::Warn(w)
                },
                Some(d) => if output_ok {
                    SourceOp::Move { input: j.input.clone(), dir: d.clone(), name: j.input_name.clone() }
                } else {
                    let mut w = to_owned(tr(lang, Key::LogWarning));
                    w.append(" ");
                    w.append(j.input_name.as_str());
                    w.append(": ");
                    w.append(tr(lang, Key::OutNotVerifiedMove));
                    SourceOp::Warn(w)
                },
            },
        }
    }
}

/// The log line of a delete or move and whether it reports an error.
pub open spec fn source_line_spec(o: SourceOutcome, lang: Lang) -> (Seq<char>, bool) {
    match o {
        SourceOutcome::Deleted(n) => (
            text(lang, Key::LogSource)@ + " "@ + text(lang, Key::SrcDeleted)@ + ": "@ + n@,
            false,
        ),
        SourceOutcome::DeleteFailed(n, e) => (
            crate::text::replace_seq(
                crate::text::replace_seq(text(lang, Key::SrcDelFail)@, "{name}"@, n@),
                "{e}"@,
                e@,
            ),
            true,
        ),
        SourceOutcome::Moved(n, d) => (
            text(lang, Key::LogSource)@ + " "@ + text(lang, Key::SrcMoved)@ + ": "@ + n@ + " - "@ + d@,
            false,
        ),
        SourceOutcome::MoveFailed(n, e) => (
            crate::text::replace_seq(
                crate::text::replace_seq(text(lang, Key::SrcMoveFail)@, "{name}"@, n@),
                "{e}"@,
                e@,
            ),
            true,
        ),
    }
}

pub fn source_line(o: &SourceOutcome, lang: Lang) -> (r: (String, bool))
    ensures
        r.0@ == source_line_spec(*o, lang).0,
        r.1 == source_line_spec(*o, lang).1,
{
    proof {
        reveal_strlit("{name}");
        reveal_strlit("{e}");
    }
    match o {
        SourceOutcome::Deleted(n) => {
            let mut l = to_owned(tr(lang, Key::LogSource));
            l.append(" ");
            l.append(tr(lang, Key::SrcDeleted));
            l.append(": ");
            l.append(n.as_str());
            (l, false)
        },
        SourceOutcome::DeleteFailed(n, e) => {
            let a = crate::text::replace_str(tr(lang, Key::SrcDelFail), "{name}", n.as_str());
            (crate::text::replace_str(a.as_str(), "{e}", e.as_str()), true)
        },
        SourceOutcome::Moved(n, d) => {
            let mut l = to_owned(tr(lang, Key::LogSource));
            l.append(" ");
            l.append(tr(lang, Key::SrcMoved));
            l.append(": ");
            l.append(n.as_str());
            l.append(" - ");
            l.append(d.as_str());
            (l, false)
        },
        SourceOutcome::MoveFailed(n, e) => {
            let a = crate::text::replace_str(tr(lang, Key::SrcMoveFail), "{name}", n.as_str());
            (crate::text::replace_str(a.as_str(), "{e}", e.as_str()), true)
        },
    }
}

/// A source file is deleted or moved only when its output was found.
pub proof fn lemma_source_safe(
    job: Option<JobSpecView>,
    action: SrcAction,
    move_dir: Option<Seq<char>>,
    lang: Lang,
)
    ensures
        source_op_spec(job, action, move_dir, false, lang) is Keep || source_op_spec(
            job,
            action,
            move_dir,
            false,
            lang,
        ) is Warn,
{
}

/// The log never holds more than `LOG_MAX` lines, and a line just added
/// is the last one.
pub proof fn lemma_log_bounded(log: Seq<(Seq<char>, bool)>, line: Seq<char>, is_err: bool)
    requires
        log.len() <= LOG_MAX,
    ensures
        log_push(log, line, is_err).len() <= LOG_MAX,
        log_push(log, line, is_err).last() == (line, is_err),
{
}

proof fn lemma_find_input_found(v: Seq<JobSpecView>, p: Seq<char>, i: int, j: int)
    requires
        0 <= i <= j < v.len(),
        path_parts(v[j].input) == path_parts(p),
    ensures
        find_input(v, p, i) matches Some(k) && i <= k <= j && path_parts(v[k].input) == path_parts(p),
    decreases j - i,
{
    if path_parts(v[i].input) != path_parts(p) {
        lemma_find_input_found(v, p, i + 1, j);
    }
}

/// What the screen shows for a file whose job runs is the command of the
/// job that the run hands to the worker pool: for a file with a runnable
/// job (job `j` of the run reads the file's path), the preview is the
/// command of a runnable job reading that path, the first such one.
pub proof fn lemma_preview_is_run(app: App, m: Media, exists: Seq<bool>, j: int)
    requires
        0 <= j < app.planned_runnable(exists).len(),
        path_parts(app.planned_runnable(exists)[j].input) == path_parts(m.path@),
    ensures
        exists|k: int|
            0 <= k <= j && path_parts(#[trigger] app.planned_runnable(exists)[k].input) == path_parts(m.path@)
                && preview_spec(
                app.planned_specs(exists),
                app.planned_errors(),
                app.planned_runnable(exists),
                m,
                app.bin_spec(),
            ) == cmd_spec(app.bin_spec(), app.planned_runnable(exists)[k]),
{
    lemma_find_input_found(app.planned_runnable(exists), m.path@, 0, j);
    let k = find_input(app.planned_runnable(exists), m.path@, 0)->0;
    assert(path_parts(app.planned_runnable(exists)[k].input) == path_parts(m.path@));
}

/// The desktop interface's output path: `{stem}.{ext}` (numbered for a
/// split) in the output folder, with no renaming.
pub open spec fn desktop_output_spec(p: Profile, m: Media, out_mode: OutModeView) -> Seq<char> {
    let r = p.preset.resolve_kind(m.kind);
    let ext = ext_spec(r, p);
    let dir = out_dir_spec(out_mode, m.path@);
    let stem = stem_spec(m);
    path_join(
        dir,
        if r == Preset::Split {
            stem + "_parca_%03d."@ + ext
        } else {
            stem + "."@ + ext
        },
    )
}

/// The desktop interface's job for a file: a job whose output would be the
/// source itself never runs (its source would be lost on failure); one
/// whose output exists is skipped unless overwriting is on.
pub open spec fn desktop_spec_for_spec(
    p: Profile,
    m: Media,
    out_mode: OutModeView,
    overwrite: bool,
    lang: Lang,
    exists: bool,
    idx: usize,
) -> JobSpecView {
    let r = p.preset.resolve_kind(m.kind);
    let out = desktop_output_spec(p, m, out_mode);
    let reason = if path_parts(out) == path_parts(m.path@) {
        Some(text(lang, Key::SkipInPlace)@)
    } else if exists && !overwrite {
        Some(text(lang, Key::SkipExists)@)
    } else {
        None
    };
    JobSpecView {
        job_index: idx,
        input_prefix_args: build_prefix(p, m),
        input: m.path@,
        input_name: m.name@,
        output: out,
        args: build_args(p, m),
        duration_us: m.duration_us,
        target_desc: desc_spec(r, p, lang),
        skip: reason is Some,
        skip_reason: reason,
        output_is_pattern: r == Preset::Split,
        cleanup: None,
    }
}

/// The desktop output path of a file, when the preset applies (the
/// application looks up whether it exists).
pub fn desktop_output(p: &Profile, m: &Media, out_mode: &OutMode, lang: Lang) -> (r: Option<String>)
    ensures
        r is Some <==> build_error(*p, *m, lang) is None,
        r matches Some(o) ==> o@ == desktop_output_spec(*p, *m, out_mode@),
{
    match build(p, m, lang) {
        Ok(b) => Some(desktop_output_of(p, m, out_mode, &b.ext, b.output_is_pattern)),
        Err(_) => None,
    }
}

fn desktop_output_of(p: &Profile, m: &Media, out_mode: &OutMode, ext: &String, pattern: bool) -> (r: String)
    requires
        ext@ == ext_spec(p.preset.resolve_kind(m.kind), *p),
        pattern == (p.preset.resolve_kind(m.kind) == Preset::Split),
    ensures
        r@ == desktop_output_spec(*p, *m, out_mode@),
{
    let dir = match out_mode {
        OutMode::Dir(d) => d.clone(),
        OutMode::Source => match parent(m.path.as_str()) {
            Some(q) => q,
            None => String::new(),
        },
    };
    let mut name = match file_stem(m.path.as_str()) {
        Some(s) => s,
        None => m.name.clone(),
    };
    if pattern {
        append_text(&mut name, "_parca_%03d.");
    } else {
        append_text(&mut name, ".");
    }
    append_text(&mut name, ext.as_str());
    join(dir.as_str(), name.as_str())
}

/// The desktop interface's job for file number `idx`, or why the preset
/// cannot be used for it.
pub fn desktop_spec_for(
    p: &Profile,
    m: &Media,
    out_mode: &OutMode,
    overwrite: bool,
    lang: Lang,
    exists: bool,
    idx: usize,
) -> (r: Result<JobSpec, String>)
    ensures
        match r {
            Ok(s) => build_error(*p, *m, lang) is None && s@ == desktop_spec_for_spec(
                *p,
                *m,
                out_mode@,
                overwrite,
                lang,
                exists,
                idx,
            ),
            Err(e) => build_error(*p, *m, lang) == Some(e@),
        },
{
    let b = match build(p, m, lang) {
        Ok(b) => b,
        Err(e) => {
            return Err(e);
        },
    };
    let out = desktop_output_of(p, m, out_mode, &b.ext, b.output_is_pattern);
    let reason = if same_path(out.as_str(), m.path.as_str()) {
        Some(to_owned(tr(lang, Key::SkipInPlace)))
    } else if exists && !overwrite {
        Some(to_owned(tr(lang, Key::SkipExists)))
    } else {
        None
    };
    let skip = reason.is_some();
    let s = JobSpec {
        job_index: idx,
        input_prefix_args: b.prefix_args,
        input: m.path.clone(),
        input_name: m.name.clone(),
        output: out,
        args: b.args,
        duration_us: m.duration_us,
        target_desc: b.desc,
        skip,
        skip_reason: reason,
        output_is_pattern: b.output_is_pattern,
        cleanup: None,
    };
    assert(s@.skip_reason == desktop_spec_for_spec(*p, *m, out_mode@, overwrite, lang, exists, idx).skip_reason);
    Ok(s)
}

/// On the desktop, a job whose output would be its own source is always
/// skipped: the source is never written over.
pub proof fn lemma_desktop_never_overwrites_source(
    p: Profile,
    m: Media,
    out_mode: OutModeView,
    overwrite: bool,
    lang: Lang,
    exists: bool,
    idx: usize,
)
    ensures
        path_parts(desktop_spec_for_spec(p, m, out_mode, overwrite, lang, exists, idx).output)
            == path_parts(m.path@) ==> desktop_spec_for_spec(p, m, out_mode, overwrite, lang, exists, idx).skip,
{
}

/// The automatic thread count comes first in a job's arguments and the
/// user's own arguments come last, so a `-threads` of the user's wins
/// (ffmpeg takes the last one).
pub proof fn lemma_user_args_last(
    p: Profile,
    m: Media,
    out_mode: OutModeView,
    overwrite: bool,
    lang: Lang,
    exists: bool,
    threads: nat,
)
    ensures
        ({
            let a = with_threads(spec_for_spec(p, m, out_mode, overwrite, lang, exists), threads).args;
            let w = crate::text::words(p.custom_args@);
            &&& a.len() >= 2 + w.len()
            &&& a.subrange(0, 2) == seq!["-threads"@, dec(threads)]
            &&& a.subrange(a.len() - w.len(), a.len() as int) == w
        }),
{
    let a = with_threads(spec_for_spec(p, m, out_mode, overwrite, lang, exists), threads).args;
    let w = crate::text::words(p.custom_args@);
    let r = p.preset.resolve_kind(m.kind);
    let mid = crate::profiles::preset_args(r, p, m, crate::profiles::trim_of(r, p).1)
        + crate::profiles::scale_args(r, p, m);
    assert(a =~= seq!["-threads"@, dec(threads)] + mid + w);
    assert(a.subrange(0, 2) =~= seq!["-threads"@, dec(threads)]);
    assert(a.subrange(a.len() - w.len(), a.len() as int) =~= w);
}

} // verus!
