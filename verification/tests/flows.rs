use ffstudio::app::{App, JobState, Mode, SourceOp};
use ffstudio::browse::PickMode;
use ffstudio::config::{Settings, SrcAction};
use ffstudio::cpu::CpuInfo;
use ffstudio::ffmpeg::{AudioInfo, Ffmpeg, JobMsg, Kind, Media};
use ffstudio::keys::{KeyCode, KeyPress};
use ffstudio::profiles::Preset;

fn flac(name: &str) -> Media {
    Media {
        path: format!("/x/{name}"),
        name: name.to_string(),
        kind: Kind::Audio,
        size: 4_000_000,
        duration_us: 30_000_000,
        container: "flac".into(),
        video: None,
        audio: Some(AudioInfo {
            codec: "flac".into(),
            sample_rate: 44100,
            channels: 2,
            bitrate: Some(1_000_000),
        }),
        bit_rate: Some(1_000_000),
        extra: Vec::new(),
        has_cover: false,
    }
}

fn ready_app() -> App {
    let mut app = App::new(
        Settings::default(),
        CpuInfo { model: "Test".into(), physical: Some(4), logical: 8 },
        Ok(Ffmpeg {
            ffmpeg: "/usr/bin/ffmpeg".into(),
            ffprobe: "/usr/bin/ffprobe".into(),
            source: "PATH".into(),
        }),
        String::new(),
        false,
        None,
    );
    app.files.push(flac("a.flac"));
    app.files.push(flac("b.flac"));
    app.profile.preset = Preset::Mp3V0;
    app
}

fn key(code: KeyCode, ctrl: bool) -> KeyPress {
    KeyPress { code, ctrl }
}

#[test]
fn log_keeps_the_newest_six_hundred_lines() {
    let mut app = ready_app();
    assert_eq!(app.log.len(), 1);
    for i in 1..=700 {
        app.push_log(format!("l{i}"), false);
    }
    assert_eq!(app.log.len(), 600);
    assert_eq!(app.log[0].0, "l101");
    assert_eq!(app.log[599].0, "l700");
}

#[test]
fn quitting_asks_first_and_ctrl_c_stops_at_once() {
    let mut app = ready_app();
    let e = app.handle_key(key(KeyCode::Char('q'), false));
    assert!(!e.quit);
    assert!(app.quit_confirm);
    let mut app = ready_app();
    let e = app.handle_key(key(KeyCode::Char('c'), true));
    assert!(e.quit && e.interrupt);
    let e = app.handle_key(key(KeyCode::Char('?'), false));
    assert!(!e.quit);
    assert!(matches!(app.mode, Mode::Help));
}

#[test]
fn reports_move_the_queue_along() {
    let mut app = ready_app();
    let order = app.start(&vec![false, false]).expect("jobs run");
    assert_eq!(order.jobs.len(), 2);
    assert_eq!(app.on_msg(JobMsg::Progress { idx: 0, permille: 500, speed: Some("x2".into()) }), None);
    assert_eq!(app.jobs[0].permille, 500);
    assert!(matches!(app.jobs[0].state, JobState::Running));
    assert_eq!(app.jobs[0].speed.as_deref(), Some("x2"));
    let before = app.log.len();
    let due = app.on_msg(JobMsg::Finished {
        idx: 0,
        ok: true,
        msg: String::new(),
        out_size: Some(1536),
        millis: 2500,
    });
    assert_eq!(due, Some(0));
    assert!(matches!(app.jobs[0].state, JobState::Done));
    assert_eq!(app.jobs[0].permille, 1000);
    assert_eq!(app.log.len(), before + 1);
    assert!(app.log[before].0.contains("1.5 KB"));
    assert!(app.log[before].0.contains("2.5"));
    let due = app.on_msg(JobMsg::Finished {
        idx: 1,
        ok: false,
        msg: "bozuk".into(),
        out_size: None,
        millis: 10,
    });
    assert_eq!(due, None);
    assert!(matches!(&app.jobs[1].state, JobState::Failed(m) if m == "bozuk"));
    assert_eq!(app.on_msg(JobMsg::Progress { idx: 9, permille: 1, speed: None }), None);
    assert!(app.running);
    app.on_msg(JobMsg::AllDone);
    assert!(!app.running);
}

#[test]
fn sources_are_touched_only_after_a_checked_output() {
    let mut app = ready_app();
    app.settings.src_action = SrcAction::Delete;
    app.start(&vec![false, false]).expect("jobs run");
    match app.source_op(0, true) {
        SourceOp::Delete { input, name } => {
            assert_eq!(input, "/x/a.flac");
            assert_eq!(name, "a.flac");
        }
        _ => panic!("delete expected"),
    }
    assert!(matches!(app.source_op(0, false), SourceOp::Warn(w) if w.contains("a.flac")));
    assert!(matches!(app.source_op(7, true), SourceOp::Keep));
    app.settings.src_action = SrcAction::Move;
    app.settings.src_move_dir = None;
    assert!(matches!(app.source_op(0, true), SourceOp::Warn(_)));
    app.settings.src_move_dir = Some("/arsiv".into());
    match app.source_op(1, true) {
        SourceOp::Move { input, dir, name } => {
            assert_eq!(input, "/x/b.flac");
            assert_eq!(dir, "/arsiv");
            assert_eq!(name, "b.flac");
        }
        _ => panic!("move expected"),
    }
    app.settings.src_action = SrcAction::Keep;
    assert!(matches!(app.source_op(0, true), SourceOp::Keep));
}

#[test]
fn closing_the_browser_returns_to_the_main_screen() {
    let mut app = ready_app();
    app.open_browse(PickMode::Files, "/x".into());
    assert!(app.browse.is_some());
    assert!(matches!(app.mode, Mode::Browse));
    app.cancel_browse();
    assert!(app.browse.is_none());
    assert!(matches!(app.mode, Mode::Main));
}

#[test]
fn probes_wait_in_order_and_known_paths_are_not_queued_twice() {
    let mut app = ready_app();
    assert!(!app.probing());
    app.enqueue_probe("/x/c.flac".into());
    app.enqueue_probe("/x//c.flac".into());
    app.enqueue_probe("/x/a.flac".into());
    app.enqueue_probe("/x/d.flac".into());
    assert!(app.probing());
    assert_eq!(Vec::from(app.pending_probe.clone()), vec!["/x/c.flac".to_string(), "/x/d.flac".to_string()]);
    assert_eq!(app.take_probe().as_deref(), Some("/x/c.flac"));
    assert_eq!(app.take_probe().as_deref(), Some("/x/d.flac"));
    assert_eq!(app.take_probe(), None);
    assert!(!app.probing());
}

#[test]
fn a_report_marks_the_line_of_its_own_job() {
    let mut app = ready_app();
    let mut pic = flac("p.jpg");
    pic.kind = Kind::Image;
    pic.audio = None;
    app.files = vec![pic, flac("a.flac")];
    app.settings.src_action = SrcAction::Delete;
    let order = app.start(&vec![false, false]).expect("one job runs");
    assert_eq!(order.jobs.len(), 1);
    assert_eq!(order.jobs[0].job_index, 1);
    assert_eq!(app.jobs.len(), 1);
    assert_eq!(app.on_msg(JobMsg::Progress { idx: 1, permille: 300, speed: None }), None);
    assert_eq!(app.jobs[0].permille, 300);
    let due = app.on_msg(JobMsg::Finished { idx: 1, ok: true, msg: String::new(), out_size: None, millis: 5 });
    assert_eq!(due, Some(1));
    assert!(matches!(app.jobs[0].state, JobState::Done));
    assert!(matches!(app.source_op(1, true), SourceOp::Delete { ref name, .. } if name == "a.flac"));
    assert_eq!(app.on_msg(JobMsg::Finished { idx: 0, ok: true, msg: String::new(), out_size: None, millis: 5 }), None);
    app.on_msg(JobMsg::AllDone);
    assert!(!app.running);
    assert_eq!(app.counts().2, 1);
}

#[test]
fn a_new_app_starts_from_the_default_profile() {
    let app = ready_app();
    assert_eq!(app.profile.crf, 23);
    assert_eq!(app.profile.split_secs, 60);
}
