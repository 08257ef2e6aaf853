use ffstudio::config::{OutMode, Settings, SrcAction, Theme};
use ffstudio::ffmpeg::{AudioInfo, Kind, Media};
use ffstudio::app::{desktop_output, desktop_spec_for};
use ffstudio::lang::{swatch_name, Lang};
use ffstudio::merge::{concat_list, merge_job, merge_target};
use ffstudio::profiles::{Preset, Profile};
use ffstudio::progress::{failure_message, progress_event, ProgressEvent};
use ffstudio::util::{
    first_part_name, fmt_dur, fmt_secs, fmt_size, move_target, output_check_path, output_ok,
    truncate,
};

fn audio_at(path: &str) -> Media {
    Media {
        path: path.to_string(),
        name: path.rsplit('/').next().unwrap_or("").to_string(),
        kind: Kind::Audio,
        size: 1000,
        duration_us: 1_000_000,
        container: "mp3".into(),
        video: None,
        audio: Some(AudioInfo {
            codec: "mp3".into(),
            sample_rate: 44100,
            channels: 2,
            bitrate: Some(128_000),
        }),
        bit_rate: Some(128_000),
        extra: Vec::new(),
        has_cover: false,
    }
}

#[test]
fn sizes_in_binary_units_with_one_decimal() {
    assert_eq!(fmt_size(0), "0 B");
    assert_eq!(fmt_size(1), "1.0 B");
    assert_eq!(fmt_size(1536), "1.5 KB");
    assert_eq!(fmt_size(3 * 1024 * 1024), "3.0 MB");
    assert_eq!(fmt_size(5 << 30), "5.0 GB");
}

#[test]
fn seconds_and_durations() {
    assert_eq!(fmt_secs(0), "0.0");
    assert_eq!(fmt_secs(12_345), "12.3");
    assert_eq!(fmt_dur(0), "-");
    assert_eq!(fmt_dur(500_000), "0:00");
    assert_eq!(fmt_dur(65_000_000), "1:05");
    assert_eq!(fmt_dur(3_725_000_000), "1:02:05");
}

#[test]
fn truncation_keeps_room_for_dots() {
    assert_eq!(truncate("abcdef", 10), "abcdef");
    assert_eq!(truncate("abcdef", 6), "abcdef");
    assert_eq!(truncate("abcdefghij", 6), "abc...");
    assert_eq!(truncate("abcdef", 2), "...");
    assert_eq!(truncate("çğıöşü", 5), "çğ...");
}

#[test]
fn numbered_outputs_are_checked_by_first_part() {
    assert_eq!(first_part_name("x_%03d.mp3"), "x_001.mp3");
    assert_eq!(output_check_path("/a/b/x_%03d.jpg", true), "/a/b/x_001.jpg");
    assert_eq!(output_check_path("/a/b/x_%03d.jpg", false), "/a/b/x_%03d.jpg");
    assert_eq!(output_check_path("x_%03d.jpg", true), "x_001.jpg");
    assert!(output_ok(true, true, 0));
    assert!(!output_ok(false, true, 0));
    assert!(output_ok(false, true, 5));
    assert!(!output_ok(false, false, 5));
}

#[test]
fn move_names_count_up_on_collision() {
    assert_eq!(move_target("/s/a b.mp3", "/d", 0), Some("/d/a b.mp3".to_string()));
    assert_eq!(move_target("/s/a b.mp3", "/d", 2), Some("/d/a b_2.mp3".to_string()));
    assert_eq!(move_target("/s/noext", "/d", 1), Some("/d/noext_1".to_string()));
    assert_eq!(move_target("/", "/d", 0), None);
    assert_eq!(move_target("/s/.bashrc", "/d", 1), Some("/d/.bashrc_1".to_string()));
    assert_eq!(move_target("/s/a.tar.gz", "/d", 1), Some("/d/a.tar_1.gz".to_string()));
    assert_eq!(move_target("/s/a.", "/d", 1), Some("/d/a_1.".to_string()));
    assert_eq!(move_target("/s/x/..", "/d", 0), None);
    assert_eq!(move_target("rel/b.mp3/.", "", 0), Some("b.mp3".to_string()));
    assert_eq!(move_target("/s/a.mp3", "/abs", 3), Some("/abs/a_3.mp3".to_string()));
}

#[test]
fn progress_lines_become_events() {
    assert_eq!(progress_event("out_time_us=5000000", 10_000_000), ProgressEvent::Permille(500));
    assert_eq!(progress_event("out_time_ms=2500", 10_000_000), ProgressEvent::Permille(250));
    assert_eq!(progress_event("out_time_us=20000000", 10_000_000), ProgressEvent::Permille(1000));
    assert_eq!(progress_event("out_time_us=-5", 10_000_000), ProgressEvent::Permille(0));
    assert_eq!(progress_event("out_time_us=5000000", 0), ProgressEvent::Nothing);
    assert_eq!(progress_event("out_time_us=abc", 10), ProgressEvent::Nothing);
    assert_eq!(progress_event("speed=1.5x", 10), ProgressEvent::Speed("x1.5x".to_string()));
    assert_eq!(progress_event("speed= N/A", 10), ProgressEvent::Nothing);
    assert_eq!(progress_event("speed=0.0", 10), ProgressEvent::Nothing);
    assert_eq!(progress_event("frame=10", 10), ProgressEvent::Nothing);
}

#[test]
fn failures_report_the_last_ten_lines() {
    assert_eq!(failure_message(""), "ffmpeg hata kodu döndü (detay yok)");
    assert_eq!(failure_message("   "), "ffmpeg hata kodu döndü (detay yok)");
    assert_eq!(failure_message("  \n "), "   |  ");
    assert_eq!(failure_message("a\nb"), "a | b");
    let many: Vec<String> = (1..=12).map(|i| format!("l{i}")).collect();
    assert_eq!(
        failure_message(&many.join("\n")),
        "l3 | l4 | l5 | l6 | l7 | l8 | l9 | l10 | l11 | l12"
    );
}

#[test]
fn concat_list_quotes_paths() {
    let files = vec![audio_at("/x/it's.mp3"), audio_at("C:\\a\\b.mp3")];
    assert_eq!(concat_list(&files), "file '/x/it'\\''s.mp3'\nfile 'C:/a/b.mp3'\n");
    assert_eq!(concat_list(&Vec::new()), "");
}

#[test]
fn merge_target_avoids_sources() {
    let files = vec![audio_at("/x/a.mp3"), audio_at("/x/b.mp3")];
    assert_eq!(
        merge_target(&files, &OutMode::Source, ""),
        ("birlesmis".to_string(), "/x/birlesmis.mp4".to_string())
    );
    assert_eq!(
        merge_target(&files, &OutMode::Dir("/out".into()), "  film "),
        ("film".to_string(), "/out/film.mp4".to_string())
    );
    let clash = vec![audio_at("/x/film.mp4"), audio_at("/x/b.mp3")];
    assert_eq!(
        merge_target(&clash, &OutMode::Source, "film"),
        ("film_birlesik".to_string(), "/x/film_birlesik.mp4".to_string())
    );
}

#[test]
fn language_codes_round_trip() {
    assert_eq!(Lang::parse(" EN "), Lang::En);
    assert_eq!(Lang::parse("de"), Lang::Tr);
    assert_eq!(Lang::En.as_str(), "en");
    let mut s = Settings::default();
    assert_eq!(s.lang(), Lang::Tr);
    s.set_lang(Lang::En);
    assert_eq!(s.lang(), Lang::En);
    s.set_lang(Lang::Tr);
    assert_eq!(s.lang(), Lang::Tr);
}

#[test]
fn themes_and_source_actions_go_round() {
    let mut t = Theme::Default;
    for _ in 0..4 {
        t = t.step(true);
    }
    assert_eq!(t, Theme::Default);
    assert_eq!(Theme::Default.step(false), Theme::Solarized);
    assert_eq!(Theme::Default.step(true).step(false), Theme::Default);
    assert_eq!(Theme::at(2).index(), 2);
    let mut a = SrcAction::Keep;
    let first = a;
    for _ in 0..3 {
        a = a.next();
    }
    assert_eq!(a, first);
}

#[test]
fn merge_job_reads_the_list_with_all_threads() {
    let mut a = audio_at("/x/a.mp3");
    a.duration_us = 30_000_000;
    let mut b = audio_at("/x/b.mp3");
    b.duration_us = 12_500_000;
    let files = vec![a, b];
    let j = merge_job(&files, "/x/m.mp4".into(), "/tmp/l.txt".into(), false, 8, Lang::En, false, false);
    assert_eq!(j.input_prefix_args, vec!["-f", "concat", "-safe", "0"]);
    assert_eq!(j.input, "/tmp/l.txt");
    assert_eq!(j.input_name, "2 file(s)");
    assert_eq!(j.output, "/x/m.mp4");
    assert_eq!(j.args, vec!["-threads", "8", "-c", "copy"]);
    assert_eq!(j.duration_us, 42_500_000);
    assert_eq!(j.target_desc, "Merge (copy)");
    assert!(!j.skip);
    assert_eq!(j.cleanup.as_deref(), Some("/tmp/l.txt"));
    let j = merge_job(&files, "/x/m.mp4".into(), "/tmp/l.txt".into(), true, 0, Lang::En, true, false);
    assert_eq!(&j.args[..2], &["-threads", "1"]);
    assert!(j.args.contains(&"libx264".to_string()));
    assert_eq!(j.target_desc, "Merge (re-encode)");
    assert!(j.skip);
    assert_eq!(j.skip_reason.as_deref(), Some("output already exists"));
    let j = merge_job(&files, "/x/m.mp4".into(), "/tmp/l.txt".into(), false, 4, Lang::En, true, true);
    assert!(!j.skip);
}

#[test]
fn desktop_jobs_never_write_over_their_source() {
    let mut p = Profile::default();
    p.preset = Preset::Mp3V0;
    let flac = {
        let mut m = audio_at("/x/a.flac");
        m.container = "flac".into();
        m
    };
    assert_eq!(desktop_output(&p, &flac, &OutMode::Source, Lang::En), Some("/x/a.mp3".to_string()));
    assert_eq!(
        desktop_output(&p, &flac, &OutMode::Dir("/out".into()), Lang::En),
        Some("/out/a.mp3".to_string())
    );
    let j = desktop_spec_for(&p, &flac, &OutMode::Source, false, Lang::En, false, 3).expect("applies");
    assert_eq!(j.job_index, 3);
    assert!(!j.skip);
    let mp3 = audio_at("/x/a.mp3");
    let j = desktop_spec_for(&p, &mp3, &OutMode::Source, true, Lang::En, true, 0).expect("applies");
    assert_eq!(j.output, "/x/a.mp3");
    assert!(j.skip);
    assert!(j.skip_reason.as_deref().unwrap_or("").starts_with("output would overwrite the source"));
    let j = desktop_spec_for(&p, &flac, &OutMode::Source, false, Lang::En, true, 0).expect("applies");
    assert_eq!(j.skip_reason.as_deref(), Some("output already exists"));
}

#[test]
fn swatch_names_end_in_a_question_mark() {
    assert_eq!(swatch_name(Lang::En, 0), "Blue (default)");
    assert_eq!(swatch_name(Lang::Tr, 7), "Gri");
    assert_eq!(swatch_name(Lang::En, 8), "?");
}

#[test]
fn quick_starts_in_order_without_repeats() {
    let v = ffstudio::browse::quick_starts(
        Some("/h/storage/shared".into()),
        true,
        false,
        Some("/h".into()),
        true,
        false,
        false,
        Some("/sdcard/".into()),
    );
    let want: Vec<(&str, String)> = vec![
        ("Depolama", "/h/storage/shared".into()),
        ("Music", "/h/storage/shared/Music".into()),
        ("~", "/h".into()),
        ("/sdcard", "/sdcard".into()),
        ("/", "/".into()),
    ];
    assert_eq!(v, want);
    let v = ffstudio::browse::quick_starts(None, false, false, Some("/".into()), false, false, false, Some("/d".into()));
    assert_eq!(v, vec![("~", "/".to_string()), ("Downloads", "/d".to_string())]);
}

#[test]
fn browser_start_prefers_shared_music() {
    use_start(Some("/s"), true, Some("/dl"), Some("/h"), "/s/Music");
    use_start(Some("/s"), false, Some("/dl"), Some("/h"), "/s");
    use_start(None, true, Some("/dl"), Some("/h"), "/dl");
    use_start(None, false, None, Some("/h"), "/h");
    use_start(None, false, None, None, "/");
}

fn use_start(shared: Option<&str>, music: bool, dl: Option<&str>, home: Option<&str>, want: &str) {
    let got = ffstudio::storage::default_start(
        shared.map(String::from),
        music,
        dl.map(String::from),
        home.map(String::from),
    );
    assert_eq!(got, want);
}

#[test]
fn raw_errors_become_their_own_sentence() {
    use_map("Is a directory (os error 21)", Lang::Tr, "Bu bir klasör, dosya değil");
    use_map("No space left on device (os error 28)", Lang::Tr, "Cihazda yer kalmadı");
    use_map(
        "read failed: Permission denied (os error 13)",
        Lang::En,
        "read failed: Permission denied (the folder may not be accessible)",
    );
    use_map("Permission denied", Lang::En, "Permission denied (the folder may not be accessible)");
    use_map("x (os error 2)", Lang::En, "x (File or folder not found)");
    use_map("code os error 25 here", Lang::En, "code os error 25 here");
    use_map("Text mentions nothing", Lang::Tr, "Text mentions nothing");
    assert_eq!(
        ffstudio::errors::io_error("Is a directory (os error 21)", ffstudio::errors::IoKind::Other, Lang::En),
        "That is a folder, not a file"
    );
    assert_eq!(
        ffstudio::errors::io_error("weird (os error 25)", ffstudio::errors::IoKind::Other, Lang::En),
        "File operation failed"
    );
}

fn use_map(raw: &str, lang: Lang, want: &str) {
    assert_eq!(ffstudio::errors::map_text(raw, lang), want);
}

#[test]
fn plus_minus_change_the_presets_own_value() {
    let mut p = Profile::default();
    p.preset = Preset::Split;
    ffstudio::profiles::bump(&mut p, 1);
    assert_eq!(p.split_secs, 70);
    assert_eq!(p.crf, 23);
    assert!(!p.crf_touched);
    assert_eq!(p.video_audio_kbps, 192);
    let mut p = Profile::default();
    p.preset = Preset::TargetSize;
    ffstudio::profiles::bump(&mut p, -1);
    assert_eq!(p.target_mb, 9);
    assert_eq!(p.crf, 23);
    let mut p = Profile::default();
    p.preset = Preset::Gif;
    ffstudio::profiles::bump(&mut p, 1);
    assert_eq!((p.gif_fps, p.gif_width), (11, 520));
    let mut p = Profile::default();
    p.preset = Preset::H264Mp4;
    ffstudio::profiles::bump(&mut p, 1);
    assert_eq!(p.crf, 22);
    assert!(p.crf_touched);
}

#[test]
fn version_line_is_the_first_line() {
    assert_eq!(ffstudio::ffmpeg::version_line("ffmpeg version 6.1\r\nbuilt with gcc\n"), "ffmpeg version 6.1");
    assert_eq!(ffstudio::ffmpeg::version_line(""), "");
}

#[test]
fn trim_times_round_to_the_millisecond() {
    assert_eq!(ffstudio::profiles::parse_time("1.2346"), Some(1235));
    assert_eq!(ffstudio::profiles::parse_time("1.2344"), Some(1234));
    assert_eq!(ffstudio::profiles::parse_time("1.23451"), Some(1235));
    assert_eq!(ffstudio::profiles::parse_time("1.2355"), Some(1236));
    assert_eq!(ffstudio::profiles::parse_time("1:05.9996"), Some(66000));
    assert_eq!(ffstudio::profiles::parse_time("1e2"), None);
}

#[test]
fn moves_take_the_first_free_name() {
    assert_eq!(
        ffstudio::util::move_destination("/s/a.mp3", "/d", &vec![true, true, false]),
        Some("/d/a_2.mp3".to_string())
    );
    assert_eq!(ffstudio::util::move_destination("/s/a.mp3", "/d", &vec![false]), Some("/d/a.mp3".to_string()));
    assert_eq!(ffstudio::util::move_destination("/s/a.mp3", "/d", &vec![true]), None);
    assert_eq!(ffstudio::util::move_destination("/", "/d", &vec![false]), None);
}

#[test]
fn the_main_screen_has_five_full_width_rows() {
    for (w, h) in [(20u16, 8u16), (80, 24), (200, 80)] {
        let rows = ffstudio::ui::main_layout(w, h);
        assert_eq!(rows.len(), 5);
        assert!(rows.iter().all(|r| r.0 == 0 && r.2 == w));
    }
}
