use ffstudio::cpu::{plan, CpuInfo};
use ffstudio::ffmpeg::Kind::{Audio, Image, Video};
use ffstudio::ffmpeg::{job_args, pool_workers, AudioInfo, JobSpec, Kind, Media, VideoInfo};
use ffstudio::lang::Lang;
use ffstudio::profiles::{build, estimate, parse_time, Preset, Profile};

fn test_job(prefix: Vec<String>) -> JobSpec {
    JobSpec {
        job_index: 0,
        input_prefix_args: prefix,
        input: "/x/in.flac".to_string(),
        input_name: "in.flac".to_string(),
        output: "/x/out.mp3".to_string(),
        args: vec!["-c:a".into(), "libmp3lame".into(), "-q:a".into(), "0".into()],
        duration_us: 3_000_000,
        target_desc: "test".into(),
        skip: false,
        skip_reason: None,
        output_is_pattern: false,
        cleanup: None,
    }
}

fn clip_media(dur_s: u64) -> Media {
    Media {
        path: "/x/clip.mp4".to_string(),
        name: "clip.mp4".into(),
        kind: Kind::Video,
        size: 10_000_000,
        duration_us: dur_s * 1_000_000,
        container: "mov,mp4".into(),
        has_cover: false,
        video: Some(VideoInfo {
            codec: "h264".into(),
            profile: "High".into(),
            width: 1920,
            height: 1080,
            fps_num: 30,
            fps_den: 1,
            pix_fmt: "yuv420p".into(),
            bitrate: Some(4_000_000),
        }),
        audio: Some(AudioInfo {
            codec: "aac".into(),
            sample_rate: 44100,
            channels: 2,
            bitrate: Some(192_000),
        }),
        bit_rate: Some(4_192_000),
        extra: vec![],
    }
}

fn audio_media(name: &str, dur_s: u64, cover: bool) -> Media {
    Media {
        path: format!("/x/{name}"),
        name: name.to_string(),
        kind: Kind::Audio,
        size: 4_000_000,
        duration_us: dur_s * 1_000_000,
        container: "flac".into(),
        video: None,
        audio: Some(AudioInfo {
            codec: "flac".into(),
            sample_rate: 44100,
            channels: 2,
            bitrate: Some(1_000_000),
        }),
        bit_rate: Some(1_000_000),
        extra: Vec::new(),
        has_cover: cover,
    }
}

fn video_media(name: &str, dur_s: u64) -> Media {
    Media {
        path: format!("/x/{name}"),
        name: name.to_string(),
        kind: Kind::Video,
        size: 20_000_000,
        duration_us: dur_s * 1_000_000,
        container: "mkv".into(),
        video: Some(VideoInfo {
            codec: "h264".into(),
            profile: "High".into(),
            width: 1920,
            height: 1080,
            fps_num: 30,
            fps_den: 1,
            pix_fmt: "yuv420p".into(),
            bitrate: Some(6_000_000),
        }),
        audio: Some(AudioInfo {
            codec: "aac".into(),
            sample_rate: 48000,
            channels: 2,
            bitrate: Some(192_000),
        }),
        bit_rate: Some(6_200_000),
        extra: Vec::new(),
        has_cover: false,
    }
}

fn cpu8() -> CpuInfo {
    CpuInfo { model: "Test".into(), physical: Some(4), logical: 8 }
}

#[test]
fn komutta_i_var() {
    let a = job_args(&test_job(vec![]));
    let i_pos = a.iter().position(|x| x == "-i").expect("komutta -i olmali");
    assert_eq!(a[i_pos + 1], "/x/in.flac", "-i'den hemen sonra input olmali");
    assert_eq!(a[i_pos.saturating_sub(1)], "-y", "-i'den hemen once -y olmali");
    assert_eq!(*a.last().unwrap(), "pipe:1");
    assert_eq!(a[a.len() - 2], "-progress");
}

#[test]
fn concat_prefix_i_oncesine() {
    let job = test_job(vec!["-f".into(), "concat".into(), "-safe".into(), "0".into()]);
    let a = job_args(&job);
    let i_pos = a.iter().position(|x| x == "-i").unwrap();
    assert_eq!(a[i_pos - 1], "0");
    assert_eq!(a[i_pos - 2], "-safe");
}

#[test]
fn pool_workers_hesap() {
    assert_eq!(pool_workers(2, 140), 2, "140 is icin 2 worker kalmali");
    assert_eq!(pool_workers(16, 3), 3, "worker is sayisini gecememeli");
    assert_eq!(pool_workers(0, 5), 1, "0 istenirse en az 1");
    assert_eq!(pool_workers(99, 10), 10, "16 ustunde istek clamp + min");
    assert_eq!(pool_workers(16, 16), 16, "siner");
    assert_eq!(pool_workers(2, 0), 0, "is yoksa worker da yok");
}

#[test]
fn parse_time_ok() {
    assert_eq!(parse_time("30"), Some(30_000));
    assert_eq!(parse_time("1:05"), Some(65_000));
    assert_eq!(parse_time("01:02:03"), Some(3_723_000));
    assert_eq!(parse_time(""), None);
    assert_eq!(parse_time("xx"), None);
}

#[test]
fn target_size_hesap() {
    let mut p = Profile::default();
    p.preset = Preset::TargetSize;
    p.target_mb = 10;
    let m = clip_media(100);
    let b = build(&p, &m, Lang::Tr).unwrap();
    let i = b.args.iter().position(|a| a == "-b:v").unwrap();
    let kb: u32 = b.args[i + 1].trim_end_matches('k').parse().unwrap();
    assert!((620..660).contains(&kb), "video bitrate beklenenden sapti: {kb}");
    assert_eq!(b.ext, "mp4");
    assert!(estimate(&p, &m, Lang::Tr).0.is_some());
}

#[test]
fn clip_sureler() {
    let mut p = Profile::default();
    p.preset = Preset::Clip;
    p.trim_start = "30".into();
    p.trim_end = "1:10".into();
    let m = clip_media(200);
    let b = build(&p, &m, Lang::Tr).unwrap();
    assert_eq!(b.prefix_args, vec!["-ss".to_string(), "30.000".to_string()]);
    let i = b.args.iter().position(|a| a == "-t").unwrap();
    assert_eq!(b.args[i + 1], "40.000");
    assert_eq!(b.ext, "mp4");
}

#[test]
fn gif_argumani() {
    let mut p = Profile::default();
    p.preset = Preset::Gif;
    let m = clip_media(200);
    let b = build(&p, &m, Lang::Tr).unwrap();
    assert_eq!(b.ext, "gif");
    assert!(b.args.iter().any(|a| a.contains("palettegen")));
    assert!(b.args.contains(&"-an".to_string()));
}

#[test]
fn split_pattern() {
    let mut p = Profile::default();
    p.preset = Preset::Split;
    let m = clip_media(200);
    let b = build(&p, &m, Lang::Tr).unwrap();
    assert!(b.output_is_pattern);
    assert!(b.args.contains(&"segment".to_string()));
    assert!(b.args.contains(&"-c".to_string()));
    assert_eq!(b.ext, "mp4");
}

#[test]
fn merge_build_reddeder() {
    let mut p = Profile::default();
    p.preset = Preset::Merge;
    let m = clip_media(200);
    assert!(build(&p, &m, Lang::Tr).is_err());
}

#[test]
fn preset_tur_uygulanabilirligi() {
    assert!(Preset::Mp3V0.applies_to(Audio));
    assert!(Preset::Opus.applies_to(Video));
    assert!(!Preset::Mp3V0.applies_to(Image));
    assert!(Preset::H264Mp4.applies_to(Video));
    assert!(Preset::Gif.applies_to(Video));
    assert!(!Preset::Gif.applies_to(Audio));
    assert!(!Preset::TargetSize.applies_to(Audio));
    assert!(Preset::Jpeg.applies_to(Image));
    assert!(!Preset::Jpeg.applies_to(Audio));
    assert!(!Preset::Png.applies_to(Video));
    assert!(Preset::Auto.applies_to(Audio));
    assert!(Preset::Merge.applies_to(Video));
    assert!(Preset::Remux.applies_to(Image));
}

#[test]
fn auto_workers_sinirlari() {
    let c = CpuInfo { model: "i5-4590".into(), physical: Some(4), logical: 8 };
    assert_eq!(c.auto_workers(), 4);
    let c = CpuInfo { model: "i7-14700F".into(), physical: Some(20), logical: 28 };
    assert_eq!(c.auto_workers(), 8);
    let c = CpuInfo { model: "old".into(), physical: None, logical: 2 };
    assert_eq!(c.auto_workers(), 2);
}

#[test]
fn parallel_plan_otomatik_ve_manuel() {
    let c = cpu8();
    assert_eq!(plan(&c, 0, 10), (4, 2));
    assert_eq!(plan(&c, 0, 2), (2, 4));
    assert_eq!(plan(&c, 0, 1), (1, 8));
    assert_eq!(plan(&c, 2, 10), (2, 4));
    assert_eq!(plan(&c, 16, 3), (3, 2));
}

#[test]
fn cover_art_build() {
    let mut p = Profile::default();
    p.preset = Preset::CoverArt;
    let m = audio_media("a.flac", 44, true);
    let b = build(&p, &m, Lang::Tr).unwrap();
    assert!(b.args.contains(&"-map".to_string()));
    assert!(b.args.contains(&"0:v:0".to_string()));
    assert_eq!(b.ext, "jpg");
    p.cover_png = true;
    let b = build(&p, &m, Lang::Tr).unwrap();
    assert_eq!(b.ext, "png");
    assert!(b.args.contains(&"png".to_string()));
    p.cover_png = false;
    let m2 = audio_media("b.mp3", 44, false);
    assert!(build(&p, &m2, Lang::Tr).is_err());
    let m3 = video_media("c.mkv", 10);
    let b = build(&p, &m3, Lang::Tr).unwrap();
    assert_eq!(b.ext, "jpg");
}

#[test]
fn plan_never_oversubscribes_threads() {
    let c = cpu8();
    for w in 0..20u32 {
        for n in 0..20usize {
            let (workers, threads) = plan(&c, w, n);
            assert!(workers >= 1 && workers <= 16);
            assert!(threads >= 1);
            assert!(workers as u32 * threads <= 8 || threads == 1);
        }
    }
}

#[test]
fn media_summaries() {
    assert_eq!(video_media("v.mkv", 3).summary(), "1920x1080 @ 30fps h264 + aac");
    assert_eq!(audio_media("a.flac", 3, false).summary(), "flac - 44100 Hz - 2 kanal");
    let mut v = video_media("v.mkv", 3);
    v.video.as_mut().unwrap().fps_num = 30000;
    v.video.as_mut().unwrap().fps_den = 1001;
    assert_eq!(v.summary(), "1920x1080 @ 30fps h264 + aac");
    v.video = None;
    v.audio = None;
    assert_eq!(v.summary(), "?");
}
