//! Media facts read from ffprobe, conversion jobs and the exact ffmpeg
//! argument list of a job.

use vstd::prelude::*;

use crate::lang::{text, tr, Key, Lang};
use crate::num::{decimal_text, parse_decimal_range, parse_u64, parse_u64_range, u64_text};
use crate::paths::{file_name, path_file_name};
use crate::text::{
    append_strings, cat, chars_of, clone_strings, dec, dec_string, push_all, push_dec, push_string, str_eq,
    to_owned, views_of,
};

verus! {

/// Where the ffmpeg and ffprobe programs were found.
#[derive(Clone, Debug)]
pub struct Ffmpeg {
    pub ffmpeg: String,
    pub ffprobe: String,
    /// How they were found, for display.
    pub source: String,
}

#[derive(Clone, Copy, PartialEq, Eq, Structural, Debug)]
pub enum Kind {
    Audio,
    Video,
    Image,
}

#[derive(Clone, Debug)]
pub struct VideoInfo {
    pub codec: String,
    pub profile: String,
    pub width: u32,
    pub height: u32,
    /// Frame rate as a fraction; a zero denominator means unknown (0 fps).
    pub fps_num: u64,
    pub fps_den: u64,
    pub pix_fmt: String,
    pub bitrate: Option<u64>,
}

#[derive(Clone, Debug)]
pub struct AudioInfo {
    pub codec: String,
    pub sample_rate: u32,
    pub channels: u32,
    pub bitrate: Option<u64>,
}

#[derive(Clone, Debug)]
pub struct Media {
    pub path: String,
    pub name: String,
    pub kind: Kind,
    pub size: u64,
    /// Duration in microseconds (0 for stills and when unknown).
    pub duration_us: u64,
    pub container: String,
    pub video: Option<VideoInfo>,
    pub audio: Option<AudioInfo>,
    /// Overall bit rate in bits per second.
    pub bit_rate: Option<u64>,
    pub extra: Vec<String>,
    /// An attached picture (cover art) stream is present.
    pub has_cover: bool,
}

// ---------------------------------------------------------------------------
// ffprobe output, as plain values
// ---------------------------------------------------------------------------

/// One entry of ffprobe's `streams` array: each field is what the JSON
/// holds under that name when it has the expected JSON type.
pub struct ProbeStream {
    pub codec_type: Option<String>,
    pub codec_name: Option<String>,
    pub attached_pic: Option<i64>,
    pub profile: Option<String>,
    pub width: Option<u64>,
    pub height: Option<u64>,
    pub avg_frame_rate: Option<String>,
    pub r_frame_rate: Option<String>,
    pub pix_fmt: Option<String>,
    pub bit_rate: Option<String>,
    pub nb_frames: Option<String>,
    /// The stream has a `duration` entry at all.
    pub has_duration: bool,
    pub sample_rate: Option<String>,
    pub channels: Option<u64>,
}

/// ffprobe's `format` object, as plain values.
pub struct ProbeFormat {
    pub duration: Option<String>,
    pub format_name: Option<String>,
    pub bit_rate: Option<String>,
}

pub open spec fn text_or(o: Option<String>, d: Seq<char>) -> Seq<char> {
    match o {
        Some(s) => s@,
        None => d,
    }
}

pub open spec fn st_type(s: ProbeStream) -> Seq<char> {
    text_or(s.codec_type, ""@)
}

pub open spec fn st_name(s: ProbeStream) -> Seq<char> {
    text_or(s.codec_name, "?"@)
}

pub open spec fn st_is_video(s: ProbeStream) -> bool {
    st_type(s) == "video"@
}

pub open spec fn st_is_audio(s: ProbeStream) -> bool {
    st_type(s) == "audio"@
}

pub open spec fn st_attached(s: ProbeStream) -> bool {
    s.attached_pic == Some(1i64)
}

/// `num/den` with both parts unsigned integers and a positive denominator.
pub open spec fn rate_text(t: Seq<char>) -> Option<(nat, nat)> {
    match crate::cpu::find_from(t, '/', 0) {
        Some(k) => match (u64_text(t.take(k)), u64_text(t.skip(k + 1))) {
            (Some(a), Some(b)) => if b > 0 {
                Some((a, b))
            } else {
                None
            },
            _ => None,
        },
        None => None,
    }
}

pub open spec fn opt_rate(o: Option<String>) -> Option<(nat, nat)> {
    match o {
        Some(t) => rate_text(t@),
        None => None,
    }
}

/// Average frame rate, else the real base frame rate.
pub open spec fn st_rate(s: ProbeStream) -> Option<(nat, nat)> {
    match opt_rate(s.avg_frame_rate) {
        Some(r) => Some(r),
        None => opt_rate(s.r_frame_rate),
    }
}

/// The frame rate is positive.
pub open spec fn st_fps_positive(s: ProbeStream) -> bool {
    st_rate(s) matches Some((a, b)) && a > 0
}

pub open spec fn opt_u64_text(o: Option<String>) -> Option<nat> {
    match o {
        Some(t) => u64_text(t@),
        None => None,
    }
}

/// A picture stream: a video stream without a duration that has a single
/// frame or no positive frame rate.
pub open spec fn st_still(s: ProbeStream) -> bool {
    st_is_video(s) && !st_attached(s) && !s.has_duration && (text_or(s.nb_frames, ""@)
        == "1"@ && s.nb_frames is Some || !st_fps_positive(s))
}

/// Index of the last stream that satisfies `f`.
pub open spec fn last_where(v: Seq<ProbeStream>, f: spec_fn(ProbeStream) -> bool) -> Option<int>
    decreases v.len(),
{
    if v.len() == 0 {
        None
    } else if f(v.last()) {
        Some(v.len() - 1)
    } else {
        last_where(v.drop_last(), f)
    }
}

pub open spec fn main_video(s: ProbeStream) -> bool {
    st_is_video(s) && !st_attached(s)
}

/// The video facts of a stream.
pub open spec fn video_of(vi: VideoInfo, s: ProbeStream) -> bool {
    &&& vi.codec@ == st_name(s)
    &&& vi.profile@ == text_or(s.profile, ""@)
    &&& vi.width == (s.width.unwrap_or(0) as u32)
    &&& vi.height == (s.height.unwrap_or(0) as u32)
    &&& match st_rate(s) {
        Some((a, b)) => vi.fps_num == a && vi.fps_den == b,
        None => vi.fps_num == 0 && vi.fps_den == 0,
    }
    &&& vi.pix_fmt@ == text_or(s.pix_fmt, ""@)
    &&& vi.bitrate == (match opt_u64_text(s.bit_rate) {
        Some(x) => Some(x as u64),
        None => None,
    })
}

/// The audio facts of a stream.
pub open spec fn audio_of(ai: AudioInfo, s: ProbeStream) -> bool {
    &&& ai.codec@ == st_name(s)
    &&& ai.sample_rate == (opt_u64_text(s.sample_rate).unwrap_or(0) as u32)
    &&& ai.channels == (s.channels.unwrap_or(0) as u32)
    &&& ai.bitrate == (match opt_u64_text(s.bit_rate) {
        Some(x) => Some(x as u64),
        None => None,
    })
}

/// The detail line shown for one stream.
pub open spec fn extra_line(s: ProbeStream, lang: Lang) -> Seq<char> {
    let name = st_name(s);
    if st_is_video(s) && st_attached(s) {
        text(lang, Key::ExtraCover)@ + ": "@ + name
    } else if st_is_video(s) {
        text(lang, Key::ExtraVideo)@ + ": "@ + name + " "@ + dec((s.width.unwrap_or(0) as u32) as nat)
            + "x"@ + dec((s.height.unwrap_or(0) as u32) as nat)
    } else if st_is_audio(s) {
        text(lang, Key::ExtraAudio)@ + ": "@ + name + " "@ + dec(
            (opt_u64_text(s.sample_rate).unwrap_or(0) as u32) as nat,
        ) + " Hz / "@ + dec((s.channels.unwrap_or(0) as u32) as nat) + " "@ + text(
            lang,
            Key::UnitChannel,
        )@
    } else {
        st_type(s) + " "@ + text(lang, Key::ExtraStream)@ + ": "@ + name
    }
}

/// The facts of a probed file, as ffprobe's answer gives them.
pub open spec fn media_of(
    m: Media,
    path: Seq<char>,
    size: u64,
    streams: Seq<ProbeStream>,
    fmt: ProbeFormat,
    lang: Lang,
) -> bool {
    let still = exists|i: int| 0 <= i < streams.len() && st_still(#[trigger] streams[i]);
    &&& m.path@ == path
    &&& m.name@ == (match path_file_name(path) {
        Some(n) => n,
        None => path,
    })
    &&& m.size == size
    &&& m.has_cover == exists|i: int|
        0 <= i < streams.len() && st_is_video(#[trigger] streams[i]) && st_attached(streams[i])
    &&& m.kind == (if still {
        Kind::Image
    } else if last_where(streams, |s: ProbeStream| main_video(s)) is Some {
        Kind::Video
    } else {
        Kind::Audio
    })
    &&& match last_where(streams, |s: ProbeStream| main_video(s)) {
        Some(i) => m.video matches Some(vi) && video_of(vi, streams[i]),
        None => m.video is None,
    }
    &&& match last_where(streams, |s: ProbeStream| st_is_audio(s)) {
        Some(i) => m.audio matches Some(ai) && audio_of(ai, streams[i]),
        None => m.audio is None,
    }
    &&& m.extra.deep_view() == Seq::new(streams.len(), |i: int| extra_line(streams[i], lang))
    &&& m.duration_us == (match fmt.duration {
        Some(t) => decimal_text(t@, 6).unwrap_or(0),
        None => 0,
    })
    &&& m.container@ == text_or(fmt.format_name, "?"@)
    &&& m.bit_rate == (match opt_u64_text(fmt.bit_rate) {
        Some(x) => Some(x as u64),
        None => None,
    })
}

pub fn opt_text(o: &Option<String>, d: &str) -> (r: String)
    ensures
        r@ == text_or(*o, d@),
{
    match o {
        Some(s) => s.clone(),
        None => to_owned(d),
    }
}

fn opt_u64(o: &Option<String>) -> (r: Option<u64>)
    ensures
        r == (match opt_u64_text(*o) {
            Some(x) => Some(x as u64),
            None => None,
        }),
{
    match o {
        Some(t) => parse_u64(t.as_str()),
        None => None,
    }
}

/// `num/den` frame rate text (see `rate_text`).
pub fn parse_rate(t: &str) -> (r: Option<(u64, u64)>)
    ensures
        r matches Some((a, b)) ==> rate_text(t@) == Some((a as nat, b as nat)),
        r is None ==> rate_text(t@) is None,
{
    let v = chars_of(t);
    match crate::cpu::find_char(&v, '/') {
        Some(k) => {
            proof {
                crate::cpu::lemma_find_from_bounds(v@, '/', 0);
            }
            assert(v@.subrange(0, k as int) =~= t@.take(k as int));
            assert(v@.subrange(k + 1, v@.len() as int) =~= t@.skip(k + 1));
            let a = parse_u64_range(&v, 0, k);
            let b = parse_u64_range(&v, k + 1, v.len());
            match (a, b) {
                (Some(x), Some(y)) => if y > 0 {
                    Some((x, y))
                } else {
                    None
                },
                _ => None,
            }
        },
        None => None,
    }
}

fn stream_rate(s: &ProbeStream) -> (r: Option<(u64, u64)>)
    ensures
        r matches Some((a, b)) ==> st_rate(*s) == Some((a as nat, b as nat)),
        r is None ==> st_rate(*s) is None,
{
    let first = match &s.avg_frame_rate {
        Some(t) => parse_rate(t.as_str()),
        None => None,
    };
    match first {
        Some(r) => Some(r),
        None => match &s.r_frame_rate {
            Some(t) => parse_rate(t.as_str()),
            None => None,
        },
    }
}

fn is_type(s: &ProbeStream, t: &str) -> (r: bool)
    ensures
        r == (st_type(*s) == t@),
{
    let ty = opt_text(&s.codec_type, "");
    str_eq(ty.as_str(), t)
}

fn is_still(s: &ProbeStream) -> (r: bool)
    ensures
        r == st_still(*s),
{
    let video = is_type(s, "video");
    let attached = match s.attached_pic {
        Some(x) => x == 1,
        None => false,
    };
    if !video || attached || s.has_duration {
        return false;
    }
    let one = match &s.nb_frames {
        Some(t) => str_eq(t.as_str(), "1"),
        None => false,
    };
    let fps_pos = match stream_rate(s) {
        Some((a, _)) => a > 0,
        None => false,
    };
    one || !fps_pos
}

fn video_info(s: &ProbeStream) -> (vi: VideoInfo)
    ensures
        video_of(vi, *s),
{
    let (n, d) = match stream_rate(s) {
        Some((a, b)) => (a, b),
        None => (0, 0),
    };
    let w: u64 = match s.width {
        Some(x) => x,
        None => 0,
    };
    let h: u64 = match s.height {
        Some(x) => x,
        None => 0,
    };
    VideoInfo {
        codec: opt_text(&s.codec_name, "?"),
        profile: opt_text(&s.profile, ""),
        width: #[verifier::truncate] (w as u32),
        height: #[verifier::truncate] (h as u32),
        fps_num: n,
        fps_den: d,
        pix_fmt: opt_text(&s.pix_fmt, ""),
        bitrate: opt_u64(&s.bit_rate),
    }
}

fn audio_info(s: &ProbeStream) -> (ai: AudioInfo)
    ensures
        audio_of(ai, *s),
{
    let sr: u64 = match opt_u64(&s.sample_rate) {
        Some(x) => x,
        None => 0,
    };
    let ch: u64 = match s.channels {
        Some(x) => x,
        None => 0,
    };
    AudioInfo {
        codec: opt_text(&s.codec_name, "?"),
        sample_rate: #[verifier::truncate] (sr as u32),
        channels: #[verifier::truncate] (ch as u32),
        bitrate: opt_u64(&s.bit_rate),
    }
}

fn extra_text(s: &ProbeStream, lang: Lang) -> (r: String)
    ensures
        r@ == extra_line(*s, lang),
{
    let name = opt_text(&s.codec_name, "?");
    let video = is_type(s, "video");
    let attached = match s.attached_pic {
        Some(x) => x == 1,
        None => false,
    };
    if video && attached {
        let mut r = cat(tr(lang, Key::ExtraCover), ": ");
        r.append(name.as_str());
        r
    } else if video {
        let w: u64 = match s.width {
            Some(x) => x,
            None => 0,
        };
        let h: u64 = match s.height {
            Some(x) => x,
            None => 0,
        };
        let mut r = cat(tr(lang, Key::ExtraVideo), ": ");
        r.append(name.as_str());
        r.append(" ");
        push_dec(&mut r, (#[verifier::truncate] (w as u32)) as u64);
        r.append("x");
        push_dec(&mut r, (#[verifier::truncate] (h as u32)) as u64);
        r
    } else if is_type(s, "audio") {
        let sr: u64 = match opt_u64(&s.sample_rate) {
            Some(x) => x,
            None => 0,
        };
        let ch: u64 = match s.channels {
            Some(x) => x,
            None => 0,
        };
        let mut r = cat(tr(lang, Key::ExtraAudio), ": ");
        r.append(name.as_str());
        r.append(" ");
        push_dec(&mut r, (#[verifier::truncate] (sr as u32)) as u64);
        r.append(" Hz / ");
        push_dec(&mut r, (#[verifier::truncate] (ch as u32)) as u64);
        r.append(" ");
        r.append(tr(lang, Key::UnitChannel));
        r
    } else {
        let mut r = opt_text(&s.codec_type, "");
        r.append(" ");
        r.append(tr(lang, Key::ExtraStream));
        r.append(": ");
        r.append(name.as_str());
        r
    }
}

impl Media {
    /// Builds the media facts of `path` from ffprobe's answer: one detail
    /// line per stream; the last main video stream and the last audio stream
    /// give the video and audio facts; a still picture stream makes it an
    /// image, else a video stream makes it a video, else it is audio.
    pub fn from_probe(
        path: &str,
        size: u64,
        streams: &Vec<ProbeStream>,
        fmt: &ProbeFormat,
        lang: Lang,
    ) -> (m: Media)
        ensures
            media_of(m, path@, size, streams@, *fmt, lang),
    {
        let ghost sv = streams@;
        let mut video: Option<VideoInfo> = None;
        let mut audio: Option<AudioInfo> = None;
        let mut extra: Vec<String> = Vec::new();
        let mut is_image = false;
        let mut has_cover = false;
        let mut i: usize = 0;
        while i < streams.len()
            invariant
                sv == streams@,
                i <= sv.len(),
                extra.deep_view() =~= Seq::new(i as nat, |j: int| extra_line(sv[j], lang)),
                is_image == exists|j: int| 0 <= j < i && st_still(#[trigger] sv[j]),
                has_cover == exists|j: int|
                    0 <= j < i && st_is_video(#[trigger] sv[j]) && st_attached(sv[j]),
                match last_where(sv.take(i as int), |s: ProbeStream| main_video(s)) {
                    Some(j) => video matches Some(vi) && video_of(vi, sv[j]),
                    None => video is None,
                },
                match last_where(sv.take(i as int), |s: ProbeStream| st_is_audio(s)) {
                    Some(j) => audio matches Some(ai) && audio_of(ai, sv[j]),
                    None => audio is None,
                },
            decreases sv.len() - i,
        {
            let s = &streams[i];
            let line = extra_text(s, lang);
            let ghost before = extra.deep_view();
            push_string(&mut extra, line);
            let v = is_type(s, "video");
            let attached = match s.attached_pic {
                Some(x) => x == 1,
                None => false,
            };
            if is_still(s) {
                is_image = true;
            }
            if v && attached {
                has_cover = true;
            }
            if v && !attached {
                video = Some(video_info(s));
            }
            if is_type(s, "audio") {
                audio = Some(audio_info(s));
            }
            proof {
                let t = sv.take(i + 1);
                assert(t.drop_last() =~= sv.take(i as int));
                assert(t.last() == sv[i as int]);
                assert(t.len() == i + 1);
                assert(last_where(t, |s: ProbeStream| main_video(s)) == if main_video(sv[i as int]) {
                    Some(i as int)
                } else {
                    last_where(sv.take(i as int), |s: ProbeStream| main_video(s))
                });
                assert(last_where(t, |s: ProbeStream| st_is_audio(s)) == if st_is_audio(
                    sv[i as int],
                ) {
                    Some(i as int)
                } else {
                    last_where(sv.take(i as int), |s: ProbeStream| st_is_audio(s))
                });
            }
            i += 1;
        }
        assert(sv.take(sv.len() as int) =~= sv);
        let name = match file_name(path) {
            Some(n) => n,
            None => to_owned(path),
        };
        let duration_us: u64 = match &fmt.duration {
            Some(t) => {
                let v = chars_of(t.as_str());
                assert(v@.subrange(0, v@.len() as int) =~= t@);
                match parse_decimal_range(&v, 0, v.len(), 6) {
                    Some(x) => x,
                    None => 0,
                }
            },
            None => 0,
        };
        let kind = if is_image {
            Kind::Image
        } else if video.is_some() {
            Kind::Video
        } else {
            Kind::Audio
        };
        Media {
            path: to_owned(path),
            name,
            kind,
            size,
            duration_us,
            container: opt_text(&fmt.format_name, "?"),
            video,
            audio,
            bit_rate: opt_u64(&fmt.bit_rate),
            extra,
            has_cover,
        }
    }
}

// ---------------------------------------------------------------------------
// Jobs
// ---------------------------------------------------------------------------

#[derive(Clone, Debug)]
pub struct JobSpec {
    pub job_index: usize,
    /// Arguments that go before `-i` (the concat demuxer's `-f concat -safe 0`).
    pub input_prefix_args: Vec<String>,
    pub input: String,
    pub input_name: String,
    pub output: String,
    pub args: Vec<String>,
    pub duration_us: u64,
    pub target_desc: String,
    pub skip: bool,
    /// Why the job is skipped (shown in the queue).
    pub skip_reason: Option<String>,
    /// The output is a numbered pattern (`%03d`).
    pub output_is_pattern: bool,
    /// A file to delete when the job ends (a temporary concat list).
    pub cleanup: Option<String>,
}

/// A job, every text taken by its characters.
pub struct JobSpecView {
    pub job_index: usize,
    pub input_prefix_args: Seq<Seq<char>>,
    pub input: Seq<char>,
    pub input_name: Seq<char>,
    pub output: Seq<char>,
    pub args: Seq<Seq<char>>,
    pub duration_us: u64,
    pub target_desc: Seq<char>,
    pub skip: bool,
    pub skip_reason: Option<Seq<char>>,
    pub output_is_pattern: bool,
    pub cleanup: Option<Seq<char>>,
}

impl View for JobSpec {
    type V = JobSpecView;

    open spec fn view(&self) -> JobSpecView {
        JobSpecView {
            job_index: self.job_index,
            input_prefix_args: self.input_prefix_args.deep_view(),
            input: self.input@,
            input_name: self.input_name@,
            output: self.output@,
            args: self.args.deep_view(),
            duration_us: self.duration_us,
            target_desc: self.target_desc@,
            skip: self.skip,
            skip_reason: self.skip_reason.deep_view(),
            output_is_pattern: self.output_is_pattern,
            cleanup: self.cleanup.deep_view(),
        }
    }
}

pub fn clone_opt(o: &Option<String>) -> (r: Option<String>)
    ensures
        r.deep_view() == o.deep_view(),
{
    match o {
        Some(s) => Some(s.clone()),
        None => None,
    }
}

impl JobSpec {
    pub fn duplicate(&self) -> (r: JobSpec)
        ensures
            r@ == self@,
    {
        JobSpec {
            job_index: self.job_index,
            input_prefix_args: clone_strings(&self.input_prefix_args),
            input: self.input.clone(),
            input_name: self.input_name.clone(),
            output: self.output.clone(),
            args: clone_strings(&self.args),
            duration_us: self.duration_us,
            target_desc: self.target_desc.clone(),
            skip: self.skip,
            skip_reason: clone_opt(&self.skip_reason),
            output_is_pattern: self.output_is_pattern,
            cleanup: clone_opt(&self.cleanup),
        }
    }
}

/// What the worker pool reports.
pub enum JobMsg {
    /// Progress of job `idx` in thousandths, with the encoder's speed text.
    Progress { idx: usize, permille: u32, speed: Option<String> },
    /// Job `idx` ended; `msg` holds the error text when it failed.
    Finished { idx: usize, ok: bool, msg: String, out_size: Option<u64>, millis: u64 },
    /// Every job has ended.
    AllDone,
}

/// Threads in the pool: the request kept within 1..=16 and never more than
/// the jobs there are; none without jobs.
pub open spec fn pool_workers_spec(requested: nat, n_jobs: nat) -> nat {
    if n_jobs == 0 {
        0
    } else {
        let c: nat = if requested < 1 {
            1
        } else if requested > 16 {
            16
        } else {
            requested
        };
        if c < n_jobs {
            c
        } else {
            n_jobs
        }
    }
}

pub fn pool_workers(requested: usize, n_jobs: usize) -> (r: usize)
    ensures
        r == pool_workers_spec(requested as nat, n_jobs as nat),
        r <= n_jobs,
        r <= 16,
        n_jobs > 0 ==> r >= 1,
{
    if n_jobs == 0 {
        return 0;
    }
    let c: usize = if requested < 1 {
        1
    } else if requested > 16 {
        16
    } else {
        requested
    };
    if c < n_jobs {
        c
    } else {
        n_jobs
    }
}

/// The whole ffmpeg argument list of a job.
pub open spec fn job_args_spec(job: JobSpecView) -> Seq<Seq<char>> {
    seq!["-nostdin"@, "-hide_banner"@, "-loglevel"@, "error"@, "-y"@] + job.input_prefix_args
        + seq!["-i"@, job.input] + job.args + seq![job.output, "-progress"@, "pipe:1"@]
}

/// ffmpeg arguments: quiet flags and `-y`, the arguments that go before the
/// input, `-i` and the input, the job's arguments, the output, and
/// machine-readable progress on standard output.
pub fn job_args(job: &JobSpec) -> (v: Vec<String>)
    ensures
        v.deep_view() == job_args_spec(job@),
{
    let mut v: Vec<String> = Vec::new();
    push_all(&mut v, &["-nostdin", "-hide_banner", "-loglevel", "error", "-y"]);
    append_strings(&mut v, &job.input_prefix_args);
    push_all(&mut v, &["-i"]);
    push_string(&mut v, job.input.clone());
    append_strings(&mut v, &job.args);
    push_string(&mut v, job.output.clone());
    push_all(&mut v, &["-progress", "pipe:1"]);
    proof {
        assert(views_of(seq!["-nostdin", "-hide_banner", "-loglevel", "error", "-y"]) =~= seq![
            "-nostdin"@,
            "-hide_banner"@,
            "-loglevel"@,
            "error"@,
            "-y"@,
        ]);
        assert(views_of(seq!["-i"]) =~= seq!["-i"@]);
        assert(views_of(seq!["-progress", "pipe:1"]) =~= seq!["-progress"@, "pipe:1"@]);
    }
    assert(v.deep_view() =~= job_args_spec(job@));
    v
}

/// A frame rate rounded to whole frames per second (halves to even); an
/// unknown rate is 0.
pub open spec fn fps_round(num: nat, den: nat) -> nat {
    if den == 0 {
        0
    } else {
        let q = num / den;
        let r = num % den;
        if 2 * r > den || (2 * r == den && q % 2 == 1) {
            q + 1
        } else {
            q
        }
    }
}

/// One line about a file for the lists: size and codec of a picture;
/// size, rate and codecs of a video; codec, sample rate and channels of a
/// sound.
pub open spec fn summary_spec(m: Media) -> Seq<char> {
    match m.kind {
        Kind::Image => match m.video {
            Some(v) => dec(v.width as nat) + "x"@ + dec(v.height as nat) + " - "@ + v.codec@,
            None => "resim"@,
        },
        Kind::Video => {
            let vs = match m.video {
                Some(v) => dec(v.width as nat) + "x"@ + dec(v.height as nat) + " @ "@ + dec(
                    fps_round(v.fps_num as nat, v.fps_den as nat),
                ) + "fps "@ + v.codec@ + " "@,
                None => seq![],
            };
            let s = vs + match m.audio {
                Some(a) => "+ "@ + a.codec@,
                None => seq![],
            };
            if crate::text::trim_seq(s).len() == 0 {
                "?"@
            } else {
                s
            }
        },
        Kind::Audio => match m.audio {
            Some(a) => a.codec@ + " - "@ + dec(a.sample_rate as nat) + " Hz - "@ + dec(
                a.channels as nat,
            ) + " kanal"@,
            None => "ses"@,
        },
    }
}

fn fps_round_exec(num: u64, den: u64) -> (r: u64)
    ensures
        r == fps_round(num as nat, den as nat),
{
    if den == 0 {
        return 0;
    }
    let q = num / den;
    let r = num % den;
    if (r as u128) * 2 > den as u128 || ((r as u128) * 2 == den as u128 && q % 2 == 1) {
        assert(den >= 2);
        assert(q <= num / 2) by (nonlinear_arith)
            requires
                den >= 2,
                q == num / den,
        ;
        q + 1
    } else {
        q
    }
}

fn image_summary(v: &VideoInfo) -> (r: String)
    ensures
        r@ == dec(v.width as nat) + "x"@ + dec(v.height as nat) + " - "@ + v.codec@,
{
    let mut s = dec_string(v.width as u64);
    s.append("x");
    push_dec(&mut s, v.height as u64);
    s.append(" - ");
    s.append(v.codec.as_str());
    s
}

fn video_part(v: &VideoInfo) -> (r: String)
    ensures
        r@ == dec(v.width as nat) + "x"@ + dec(v.height as nat) + " @ "@ + dec(
            fps_round(v.fps_num as nat, v.fps_den as nat),
        ) + "fps "@ + v.codec@ + " "@,
{
    let mut s = dec_string(v.width as u64);
    s.append("x");
    push_dec(&mut s, v.height as u64);
    s.append(" @ ");
    push_dec(&mut s, fps_round_exec(v.fps_num, v.fps_den));
    s.append("fps ");
    s.append(v.codec.as_str());
    s.append(" ");
    s
}

fn audio_summary(a: &AudioInfo) -> (r: String)
    ensures
        r@ == a.codec@ + " - "@ + dec(a.sample_rate as nat) + " Hz - "@ + dec(a.channels as nat)
            + " kanal"@,
{
    let mut s = a.codec.clone();
    s.append(" - ");
    push_dec(&mut s, a.sample_rate as u64);
    s.append(" Hz - ");
    push_dec(&mut s, a.channels as u64);
    s.append(" kanal");
    s
}

impl Media {
    pub fn summary(&self) -> (r: String)
        ensures
            r@ == summary_spec(*self),
    {
        match self.kind {
            Kind::Image => match &self.video {
                Some(v) => image_summary(v),
                None => to_owned("resim"),
            },
            Kind::Video => {
                let mut s = match &self.video {
                    Some(v) => video_part(v),
                    None => String::new(),
                };
                let ghost vs = s@;
                match &self.audio {
                    Some(a) => {
                        s.append("+ ");
                        s.append(a.codec.as_str());
                        assert(s@ =~= vs + ("+ "@ + a.codec@));
                    },
                    None => {
                        assert(s@ =~= vs + Seq::<char>::empty());
                    },
                }
                let t = crate::text::trim(s.as_str());
                if crate::text::is_empty_str(t.as_str()) {
                    to_owned("?")
                } else {
                    s
                }
            },
            Kind::Audio => match &self.audio {
                Some(a) => audio_summary(a),
                None => to_owned("ses"),
            },
        }
    }
}

/// The first line of a text as `str::lines` splits it; empty when there
/// is none.
pub open spec fn first_line_spec(s: Seq<char>) -> Seq<char> {
    let l = crate::cpu::lines_seq(s);
    if l.len() > 0 {
        l[0]
    } else {
        seq![]
    }
}

/// ffmpeg's version line: the first line of what `ffmpeg -version` printed.
pub fn version_line(output: &str) -> (r: String)
    ensures
        r@ == first_line_spec(output@),
{
    let v = crate::text::chars_of(output);
    let ls = crate::cpu::lines_of(&v);
    if ls.len() > 0 {
        crate::text::string_of(ls[0].as_slice())
    } else {
        String::new()
    }
}

proof fn lemma_last_where_video(v: Seq<ProbeStream>)
    ensures
        last_where(v, |s: ProbeStream| main_video(s)) is Some <==> exists|i: int|
            0 <= i < v.len() && st_is_video(#[trigger] v[i]) && !st_attached(v[i]),
    decreases v.len(),
{
    if v.len() > 0 {
        let p = v.drop_last();
        lemma_last_where_video(p);
        if exists|i: int| 0 <= i < p.len() && st_is_video(#[trigger] p[i]) && !st_attached(p[i]) {
            let i = choose|i: int| 0 <= i < p.len() && st_is_video(#[trigger] p[i]) && !st_attached(p[i]);
            assert(v[i] == p[i]);
        }
        if exists|i: int| 0 <= i < v.len() && st_is_video(#[trigger] v[i]) && !st_attached(v[i]) {
            let i = choose|i: int| 0 <= i < v.len() && st_is_video(#[trigger] v[i]) && !st_attached(v[i]);
            if i < p.len() {
                assert(p[i] == v[i]);
            }
        }
    }
}

/// A probed file's kind: a picture when some stream is a still image (a
/// video stream that is no attached cover, has no duration and has a
/// single frame or no positive frame rate), whatever other video it
/// holds; otherwise a video when it has a video stream that is no attached
/// cover; otherwise audio.
pub proof fn lemma_probe_kind(
    m: Media,
    path: Seq<char>,
    size: u64,
    streams: Seq<ProbeStream>,
    fmt: ProbeFormat,
    lang: Lang,
)
    requires
        media_of(m, path, size, streams, fmt, lang),
    ensures
        (exists|i: int|
            0 <= i < streams.len() && st_type(#[trigger] streams[i]) == "video"@ && streams[i].attached_pic
                != Some(1i64) && !streams[i].has_duration && (streams[i].nb_frames matches Some(n)
                && n@ == "1"@ || !st_fps_positive(streams[i]))) ==> m.kind == Kind::Image,
        !(exists|i: int|
            0 <= i < streams.len() && st_type(#[trigger] streams[i]) == "video"@ && streams[i].attached_pic
                != Some(1i64) && !streams[i].has_duration && (streams[i].nb_frames matches Some(n)
                && n@ == "1"@ || !st_fps_positive(streams[i]))) ==> (m.kind == Kind::Video <==> exists|
            i: int|
            0 <= i < streams.len() && st_type(#[trigger] streams[i]) == "video"@ && streams[i].attached_pic
                != Some(1i64)),
        m.kind == Kind::Audio <==> !(exists|i: int|
            0 <= i < streams.len() && st_type(#[trigger] streams[i]) == "video"@ && streams[i].attached_pic
                != Some(1i64)),
{
    lemma_last_where_video(streams);
    assert forall|i: int| 0 <= i < streams.len() implies (st_still(#[trigger] streams[i]) <==> (
    st_type(streams[i]) == "video"@ && streams[i].attached_pic != Some(1i64) && !streams[i].has_duration
        && (streams[i].nb_frames matches Some(n) && n@ == "1"@ || !st_fps_positive(streams[i])))) by {
    }
}

} // verus!
