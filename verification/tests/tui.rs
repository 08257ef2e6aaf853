use ffstudio::app::{cmd_string, App, Mode};
use ffstudio::browse::{Browse, PickMode, PickResult};
use ffstudio::config::{Settings, SrcAction, Theme};
use ffstudio::palette::{Colour, Palette};
use ffstudio::cpu::CpuInfo;
use ffstudio::errors::{dir_error, io_error, map_text, IoKind};
use ffstudio::ffmpeg::{AudioInfo, Kind, Media, VideoInfo};
use ffstudio::keys::{KeyCode, KeyPress};
use ffstudio::lang::Lang;
use ffstudio::profiles::{desc_of, Preset};
use ffstudio::storage::health;
use ffstudio::ui::{main_layout, pct, pct_h, window, wrap, MIN_COLS, MIN_ROWS};

fn audio_media(name: &str, dur_s: u64, cover: bool) -> Media {
    Media {
        path: format!("/x/{name}"),
        name: name.to_string(),
        kind: Kind::Audio,
        size: 4_000_000,
        duration_us: dur_s * 1_000_000,
        container: "flac".into(),
        video: None,
        audio: Some(AudioInfo {
            codec: "flac".into(),
            sample_rate: 44100,
            channels: 2,
            bitrate: Some(1_000_000),
        }),
        bit_rate: Some(1_000_000),
        extra: Vec::new(),
        has_cover: cover,
    }
}

fn video_media(name: &str, dur_s: u64) -> Media {
    Media {
        path: format!("/x/{name}"),
        name: name.to_string(),
        kind: Kind::Video,
        size: 20_000_000,
        duration_us: dur_s * 1_000_000,
        container: "mkv".into(),
        video: Some(VideoInfo {
            codec: "h264".into(),
            profile: "High".into(),
            width: 1920,
            height: 1080,
            fps_num: 30,
            fps_den: 1,
            pix_fmt: "yuv420p".into(),
            bitrate: Some(6_000_000),
        }),
        audio: Some(AudioInfo {
            codec: "aac".into(),
            sample_rate: 48000,
            channels: 2,
            bitrate: Some(192_000),
        }),
        bit_rate: Some(6_200_000),
        extra: Vec::new(),
        has_cover: false,
    }
}

fn test_app() -> App {
    App::new(
        Settings::default(),
        CpuInfo { model: "Test".into(), physical: Some(4), logical: 8 },
        Err("test".to_string()),
        String::new(),
        false,
        None,
    )
}

fn app_with_files() -> App {
    let mut app = test_app();
    app.files.push(audio_media("sarki.flac", 44, false));
    app.files.push(video_media("film.mkv", 120));
    app
}

fn tus(code: KeyCode) -> KeyPress {
    KeyPress { code, ctrl: false }
}

#[test]
fn ham_os_metni_cevrilir() {
    let t = map_text("okuma hatası: Permission denied (os error 13)", Lang::Tr);
    assert!(!t.contains("Permission denied"), "ham metin kalmamali: {t}");
    assert!(!t.contains("os error"), "os error kalmamali: {t}");
    assert!(t.contains("Erişim izni yok"), "{t}");

    let t2 = map_text("No such file or directory (os error 2)", Lang::Tr);
    assert!(t2.contains("bulunamadı"), "{t2}");

    let t3 = map_text("Permission denied", Lang::En);
    assert!(t3.starts_with("Permission denied"), "EN'de Ingilizce mesaj: {t3}");
    assert!(!t3.contains("os error"), "{t3}");
}

#[test]
fn bilinmeyen_hata_tur_bazli_genel_mesaj() {
    let m = io_error("weird internal detail 0x99", IoKind::NotFound, Lang::Tr);
    assert!(!m.contains("0x99"), "ic detay gosterilmemeli: {m}");
    assert!(m.contains("bulunamadı"), "{m}");
}

#[test]
fn klasor_hatasi_yol_icerir() {
    let m = dir_error(
        "/sdcard/Yasak",
        "Permission denied (os error 13)",
        IoKind::PermissionDenied,
        Lang::Tr,
    );
    assert!(m.contains("/sdcard/Yasak"), "{m}");
    assert!(!m.to_lowercase().contains("permission denied"), "{m}");
}

#[test]
fn io_error_kinds_and_patterns() {
    assert_eq!(io_error("Permission denied (os error 13)", IoKind::Other, Lang::En),
        "Permission denied (the folder may not be accessible)");
    assert_eq!(io_error("x", IoKind::AlreadyExists, Lang::Tr), "Zaten var");
    assert_eq!(io_error("x", IoKind::InvalidData, Lang::En), "Invalid data");
    assert_eq!(io_error("x", IoKind::InvalidInput, Lang::En), "Invalid data");
    assert_eq!(io_error("x", IoKind::Other, Lang::En), "File operation failed");
    assert_eq!(io_error("TEXT FILE BUSY", IoKind::Other, Lang::En),
        "File is currently in use by another process");
    assert_eq!(io_error("No space left on device", IoKind::Other, Lang::Tr), "Cihazda yer kalmadı");
    assert_eq!(map_text("a: Read-only file system (os error 30)", Lang::En), "a: File system is read-only");
    assert_eq!(map_text("nothing to see", Lang::En), "nothing to see");
}

#[test]
fn pencere_hesabi_sinirlari() {
    assert_eq!(window(3, 0, 10), (0, 3));
    assert_eq!(window(100, 50, 10), (45, 55));
    assert_eq!(window(100, 99, 10), (90, 100));
    assert_eq!(window(100, 0, 10), (0, 10));
}

#[test]
fn komut_satiri_sarmasi() {
    let w = wrap("ffmpeg -i a.flac -c:a libmp3lame out.mp3", 12);
    assert!(w.len() > 1, "uzun komut sarilmali");
    assert!(w.iter().all(|s| s.len() <= 13));
}

#[test]
fn wrap_exact_lines() {
    assert_eq!(wrap("aa bb cc", 5), vec!["aa bb", "cc"]);
    assert_eq!(wrap("averylongword x", 4), vec!["averylongword", "x"]);
    assert_eq!(wrap("keep whole", 0), vec!["keep whole"]);
    assert_eq!(wrap("", 3), Vec::<String>::new());
}

#[test]
fn popup_olculeri_tasmaz() {
    for (w, h) in [(20u16, 8u16), (40, 12), (80, 24), (120, 40)] {
        for yuzde in [30u16, 60, 72, 76] {
            let pw = pct(w, yuzde, 26, 74);
            assert!(pw <= w, "{w}x{h}: popup genisligi tasti");
        }
        for yuzde in [30u16, 70, 80, 86] {
            let ph = pct_h(h, yuzde, 4, 22);
            assert!(ph <= h, "{w}x{h}: popup yuksekligi tasti");
        }
    }
    assert_eq!(pct(80, 60, 26, 74), 48);
    assert_eq!(pct(200, 60, 26, 74), 74);
    assert_eq!(pct(20, 60, 26, 74), 20);
}

#[test]
fn masaustunde_kontrol_yok() {
    assert!(health(false, false, Lang::Tr).is_none(), "masaustunde depolama hatasi cikmamali");
    assert!(health(false, true, Lang::En).is_none());
}

#[test]
fn termux_without_storage_says_what_to_do() {
    let m = health(true, false, Lang::Tr).expect("mesaj beklenirdi");
    assert!(m.contains("termux-setup-storage"));
    assert!(!m.to_lowercase().contains("permission denied") && !m.contains("os error"));
    assert!(health(true, true, Lang::Tr).is_none());
}

#[test]
fn onizleme_calistirilanla_ayni() {
    let mut app = app_with_files();
    app.profile.preset = Preset::Mp3V0;
    let m = app.files[0].clone();
    let exists = vec![false, false];

    let preview = app.preview_cmd_for(&m, &exists);
    let plan = app.job_plan(&exists);
    assert_eq!(plan.runnable.len(), 2, "iki dosya da sirada olmali (cikti yok)");
    let run = cmd_string(&app.ff_bin(), &plan.runnable[0]);

    assert_eq!(preview, run, "onizleme ile calisan komut birebir ayni olmali");
    assert!(run.contains("-i"), "-i eksik: {run}");
    assert!(run.contains("sarki.flac"));
    assert!(run.contains(".mp3"), "cikti mp3 olmali: {run}");
    assert!(run.contains("-threads"), "otomatik threads eklenmeli: {run}");
    assert_eq!(preview, app.preview_cmd_for(&m, &exists));
}

#[test]
fn kullanici_threads_kazanir() {
    let mut app = app_with_files();
    app.profile.custom_args = "-threads 1".into();
    let plan = app.job_plan(&vec![false, false]);
    let spec = &plan.runnable[0];
    let cmd = cmd_string(&app.ff_bin(), spec);

    let first = cmd.find("-threads").expect("otomatik -threads yok");
    let last = cmd.rfind("-threads").expect("-threads yok");
    assert_ne!(first, last, "iki -threads olmali (otomatik + kullanici): {cmd}");
    assert!(cmd[last..].starts_with("-threads 1"), "kullanicinin -threads'i sonda olmali: {cmd}");
    assert!(first < last);
}

#[test]
fn mevcut_cikti_atlanir() {
    let mut app = test_app();
    app.profile.preset = Preset::Mp3V0;
    app.files.push(audio_media("parca.flac", 10, false));
    let outs = app.outputs();
    assert_eq!(outs[0].as_deref(), Some("/x/parca.mp3"));
    let plan = app.job_plan(&vec![true]);
    assert!(plan.specs[0].skip, "cikti varken skip olmali");
    assert!(plan.specs[0].skip_reason.is_some());
    assert!(plan.runnable.is_empty());
    app.settings.overwrite = true;
    let plan2 = app.job_plan(&vec![true]);
    assert!(!plan2.specs[0].skip, "overwrite acikken atlanmamali");
}

#[test]
fn girdi_cikti_cakismasi_engellenir() {
    let mut app = test_app();
    app.profile.preset = Preset::H264Mp4;
    app.files.push(video_media("film.mp4", 30));
    let plan = app.job_plan(&vec![false]);
    let spec = &plan.specs[0];
    assert_ne!(spec.output, app.files[0].path, "cikti girdiyi ezmemeli");
    assert!(spec.output.contains("_donusen"), "cakismada _donusen son eki: {}", spec.output);
    app.profile.preset = Preset::H265Mkv;
    let plan2 = app.job_plan(&vec![false]);
    assert_eq!(std::path::Path::new(&plan2.specs[0].output).file_name().unwrap(), "film.mkv");
}

#[test]
fn paralel_plan_ayardan_sabitlenir() {
    let mut app = test_app();
    app.settings.workers = 0;
    assert_eq!(app.plan(4), (4, 2), "8T -> 4 is x 2 thread");
    app.settings.workers = 2;
    assert_eq!(app.plan(4), (2, 4), "manuel 2 is -> 4 thread");
    app.settings.workers = 0;
    assert_eq!(app.plan(1), (1, 8), "tek is -> tum thread'ler");
}

#[test]
fn start_hands_over_previewed_jobs() {
    let mut app = app_with_files();
    app.ff = Ok(ffstudio::ffmpeg::Ffmpeg {
        ffmpeg: "/usr/bin/ffmpeg".into(),
        ffprobe: "/usr/bin/ffprobe".into(),
        source: "PATH".into(),
    });
    app.profile.preset = Preset::Mp3V0;
    let exists = vec![false, true];
    let m = app.files[0].clone();
    let preview = app.preview_cmd_for(&m, &exists);
    let order = app.start(&exists).expect("a job runs");
    assert!(app.running);
    assert_eq!(order.jobs.len(), 1);
    assert_eq!(cmd_string(&order.ffmpeg, &order.jobs[0]), preview);
    assert_eq!(app.jobs.len(), 2);
    assert!(app.start(&exists).is_none(), "no second run while one is going");
}

#[test]
fn mp3_cbr_bitrate_ayari_adimlarla_degisir() {
    let mut app = test_app();
    let e = app.handle_key(tus(KeyCode::Char('p')));
    assert!(!e.quit, "p tusu cikis degil");
    assert!(matches!(app.mode, Mode::Preset), "'p' preset menusunu acmali");
    for _ in 0..3 {
        app.handle_key(tus(KeyCode::Down));
    }
    assert_eq!(ffstudio::profiles::preset_at(app.preset_sel), Preset::Mp3Cbr);
    app.handle_key(tus(KeyCode::Enter));
    assert!(matches!(app.mode, Mode::Main), "secim sonrasi ana ekran");
    assert_eq!(app.profile.preset, Preset::Mp3Cbr);
    assert_eq!(app.profile.mp3_cbr, 320, "MP3 CBR varsayilani 320");
    app.handle_key(tus(KeyCode::Char('+')));
    assert_eq!(app.profile.mp3_cbr, 320, "320'nin uzerine cikmamali");
    for _ in 0..4 {
        app.handle_key(tus(KeyCode::Char('-')));
    }
    assert_eq!(app.profile.mp3_cbr, 256);
    for _ in 0..20 {
        app.handle_key(tus(KeyCode::Char('-')));
    }
    assert_eq!(app.profile.mp3_cbr, 128, "alt sinir 128");
    for _ in 0..20 {
        app.handle_key(tus(KeyCode::Char('+')));
    }
    assert_eq!(app.profile.mp3_cbr, 320, "ust sinir 320");
    let mut gorulen = vec![320u32];
    for _ in 0..12 {
        app.handle_key(tus(KeyCode::Char('-')));
        gorulen.push(app.profile.mp3_cbr);
    }
    for hedef in [320u32, 256, 192, 160, 128] {
        assert!(gorulen.contains(&hedef), "{hedef} kbps erisilebilir olmali");
    }
    let etiket = app.profile.preset.label(Lang::Tr);
    assert!(etiket.contains("320/256/192/160/128"), "preset basligi: {etiket}");
    let ozet = desc_of(app.profile.preset, &app.profile, Lang::Tr);
    assert!(ozet.contains("CBR"), "profil ozeti: {ozet}");
}

#[test]
fn sigdirma_uyarisi_u_ile_yoksayilir() {
    let mut app = test_app();
    assert!(!app.fit_ack, "baslangicta uyari aktif");
    app.handle_key(tus(KeyCode::Char('u')));
    assert!(app.fit_ack, "'u' uyariyi yoksaymali");
}

#[test]
fn tasi_secimi_hedef_klasor_ister() {
    let mut app = test_app();
    assert!(matches!(app.settings.src_action, SrcAction::Keep));
    let e = app.handle_key(tus(KeyCode::Char('r')));
    assert!(e.save);
    assert!(matches!(app.settings.src_action, SrcAction::Delete));
    app.handle_key(tus(KeyCode::Char('r')));
    assert!(matches!(app.settings.src_action, SrcAction::Move), "'r' x2 -> Tasi");
    assert!(app.settings.src_move_dir.is_none(), "henuz klasor secilmedi");

    let e = app.handle_key(tus(KeyCode::Char('M')));
    assert_eq!(e.open_browse, Some(PickMode::MoveDir), "'M' geziciyi acmali");
    assert!(app.browse_start(PickMode::MoveDir).is_none());
    app.open_browse(PickMode::MoveDir, "/tmp".to_string());
    assert!(matches!(app.mode, Mode::Browse));
    assert!(matches!(app.browse.as_ref().unwrap().mode, PickMode::MoveDir));

    let beklenen = app.browse.as_ref().unwrap().cur.clone();
    let e = app.handle_key(tus(KeyCode::Char('d')));
    assert!(e.save);
    assert_eq!(app.settings.src_move_dir.as_deref(), Some(beklenen.as_str()));
    assert!(matches!(app.mode, Mode::Main), "onay sonrasi ana ekran");

    app.handle_key(tus(KeyCode::Char('M')));
    assert_eq!(app.browse_start(PickMode::MoveDir), Some(beklenen));
}

#[test]
fn klasorler_once_dosyalar_sonra() {
    let mut b = Browse::new(PickMode::Files, "/d".to_string());
    b.set_listing(
        &vec!["/d/b_klasor".to_string(), "/d/a_klasor".to_string()],
        &vec!["/d/z.mp3".to_string(), "/d/a.mp3".to_string()],
    );
    let names: Vec<&str> = b.entries.iter().map(|e| e.path.as_str()).collect();
    assert_eq!(names, vec!["/d/a_klasor", "/d/b_klasor", "/d/a.mp3", "/d/z.mp3"]);
    assert!(b.entries[0].is_dir && b.entries[1].is_dir && !b.entries[2].is_dir);
}

#[test]
fn space_ile_coklu_secim_ve_onay() {
    let mut b = Browse::new(PickMode::Files, "/d".to_string());
    b.set_listing(&vec![], &vec!["/d/a.flac".into(), "/d/b.flac".into(), "/d/not.txt".into()]);
    b.toggle_mark();
    b.toggle_mark();
    match b.confirm() {
        PickResult::Paths(v) => {
            assert_eq!(v, vec!["/d/a.flac".to_string(), "/d/b.flac".to_string()]);
        }
        _ => panic!("Paths bekleniyordu"),
    }
}

#[test]
fn medya_olmayan_isaretlenmez_enter_ile() {
    let mut b = Browse::new(PickMode::Files, "/d".to_string());
    b.set_listing(&vec![], &vec!["/d/not.txt".into()]);
    assert!(!b.enter());
    assert!(b.marked.is_empty(), "txt dosyasi isaretlenmemeli");
    b.set_listing(&vec![], &vec!["/d/song.MP3".into()]);
    assert!(!b.enter());
    assert_eq!(b.marked, vec!["/d/song.MP3".to_string()]);
}

#[test]
fn klasore_gir_ve_cik() {
    let mut b = Browse::new(PickMode::Files, "/d".to_string());
    b.set_listing(&vec!["/d/alt".into()], &vec![]);
    assert!(b.enter(), "klasore girince okunmali");
    assert_eq!(b.cur, "/d/alt");
    assert!(b.go_up());
    assert_eq!(b.cur, "/d");
    let mut top = Browse::new(PickMode::Files, "/".to_string());
    assert!(!top.go_up(), "kokun ustu yok");
}

#[test]
fn mark_all_twice_restores() {
    let mut b = Browse::new(PickMode::Files, "/d".to_string());
    b.set_listing(&vec!["/d/sub".into()], &vec!["/d/a.mp3".into(), "/d/b.mp3".into()]);
    b.mark_all_files();
    assert_eq!(b.marked.len(), 2);
    b.mark_all_files();
    assert!(b.marked.is_empty());
    b.clear_marks();
    assert!(b.marked.is_empty());
}

#[test]
fn marked_paths_in_path_order() {
    let mut b = Browse::new(PickMode::Files, "/m".to_string());
    b.set_listing(&vec![], &vec!["/m/a b/x.mp3".into()]);
    b.toggle_mark();
    b.set_listing(&vec![], &vec!["/m/a/x.mp3".into()]);
    b.sel = 0;
    b.toggle_mark();
    match b.confirm() {
        PickResult::Paths(v) => assert_eq!(v, vec!["/m/a/x.mp3".to_string(), "/m/a b/x.mp3".to_string()]),
        _ => panic!("Paths bekleniyordu"),
    }
}

#[test]
fn layout_hicbir_boyutta_tasmaz() {
    for (w, h) in [
        (20u16, 8u16), (24, 10), (30, 12), (40, 16), (60, 20),
        (80, 24), (100, 30), (120, 40), (160, 60), (200, 80),
        (21, 9), (20, 40), (200, 8), (119, 23),
    ] {
        let chunks = main_layout(w, h);
        let toplam: u16 = chunks.iter().map(|c| c.3).sum();
        assert_eq!(toplam, h, "{w}x{h}: panellerin toplami alan yuksekligine esit olmali");
        let mut beklenen_y = 0;
        for (i, c) in chunks.iter().enumerate() {
            let (x, y, cw, ch) = *c;
            assert!(x + cw <= w, "{w}x{h}: panel {i} saga tasti");
            assert!(y + ch <= h, "{w}x{h}: panel {i} asagi tasti");
            assert_eq!(y, beklenen_y, "{w}x{h}: panel {i} bosluk/ust uste binme");
            beklenen_y += ch;
        }
        assert!(chunks[1].3 >= 3, "{w}x{h}: govde icin yer kalmadi");
    }
}

#[test]
fn kucuk_terminal_esigi() {
    assert!(MIN_COLS >= 20 && MIN_ROWS >= 8);
    for (w, h) in [(MIN_COLS, MIN_ROWS), (MIN_COLS, MIN_ROWS + 1), (MIN_COLS + 1, MIN_ROWS)] {
        let c = main_layout(w, h);
        assert!(c[1].3 >= 3, "{w}x{h}");
    }
}

#[test]
fn no_color_renksiz_palet() {
    let p = Palette::plain();
    assert!(p.plain);
    assert_eq!(p.accent, Colour::Reset);
}

#[test]
fn palettes_follow_no_color_and_theme() {
    let mut app = test_app();
    app.no_color = true;
    let p = Palette::for_app(&app);
    assert_eq!(p, Palette::plain());
    assert!(p.selected().reversed && p.chip().reversed);
    assert_eq!(p.chip().bg, None);
    app.no_color = false;
    app.theme = Theme::Gruvbox;
    let p = Palette::for_app(&app);
    assert!(!p.plain);
    assert_eq!(p.accent, Colour::Rgb(250, 189, 47));
    assert_eq!(p.chip().bg, Some(Colour::Rgb(250, 189, 47)));
    assert_eq!(p.chip().fg, Some(Colour::Rgb(40, 40, 40)));
    assert_eq!(p.selected().bg, Some(Colour::Rgb(80, 73, 69)));
    assert!(!p.selected().reversed);
    assert_eq!(Palette::of(Theme::Mono).dim, Colour::DarkGray);
}
