//! What each key does in the terminal client. A key changes the state and
//! may leave work for the application (quit, save the settings, read a
//! folder, start the queue, ...), which comes back as `Effects`.

use vstd::prelude::*;

use crate::app::{
    focus_next, focus_prev, App, Focus, InputState, InputTarget, Mode, PickOutcome,
};
use crate::browse::{confirm_post, down_spec, file_paths, mark_all_spec, toggled, Browse, PickMode, PickResultView};
use crate::paths::{path_extension, path_parent};
use crate::util::is_media_ext_spec;
use crate::app::apply_pick_post;
use crate::config::{src_next_spec, theme_step_spec, Settings, SrcAction, Theme};
use crate::ffmpeg::{Kind, Media};
use crate::lang::Lang;
use crate::profiles::{bump, bump_spec, preset_at, preset_at_spec, Preset, Profile, PRESET_COUNT};
use crate::text::{chars_of, string_of, to_owned};

verus! {

/// A key, as far as the client tells keys apart.
#[derive(Clone, Copy, PartialEq, Eq, Structural, Debug)]
pub enum KeyCode {
    Char(char),
    Enter,
    Esc,
    Backspace,
    Up,
    Down,
    Left,
    Right,
    Tab,
    BackTab,
    F(u8),
    Other,
}

/// A key press; `ctrl` is the Control modifier.
#[derive(Clone, Copy, PartialEq, Eq, Structural, Debug)]
pub struct KeyPress {
    pub code: KeyCode,
    pub ctrl: bool,
}

/// Work a key leaves for the application, done in this order: paths to
/// add, then saving the settings, then the rest.
#[derive(Debug)]
pub struct Effects {
    /// Leave the program.
    pub quit: bool,
    /// Stop the running ffmpeg processes first (Ctrl+C).
    pub interrupt: bool,
    /// Write the settings file.
    pub save: bool,
    /// Check storage access again and report it (`App::recheck_storage`).
    pub recheck_storage: bool,
    /// Check storage access again silently (the message's language changed).
    pub refresh_storage: bool,
    /// Open the browser for this purpose (`App::browse_start`, then
    /// `App::open_browse` and reading the folder).
    pub open_browse: Option<PickMode>,
    /// Start the queue (`App::start`).
    pub start: bool,
    /// Read the browser's folder again.
    pub reload_browse: bool,
    /// Take the browser to quick-start folder number `i`.
    pub quick_start: Option<usize>,
    /// Paths to add, in order (folders are scanned).
    pub add: Vec<String>,
}

/// `Effects` with the paths taken by their characters.
pub struct EffectsView {
    pub quit: bool,
    pub interrupt: bool,
    pub save: bool,
    pub recheck_storage: bool,
    pub refresh_storage: bool,
    pub open_browse: Option<PickMode>,
    pub start: bool,
    pub reload_browse: bool,
    pub quick_start: Option<usize>,
    pub add: Seq<Seq<char>>,
}

impl View for Effects {
    type V = EffectsView;

    open spec fn view(&self) -> EffectsView {
        EffectsView {
            quit: self.quit,
            interrupt: self.interrupt,
            save: self.save,
            recheck_storage: self.recheck_storage,
            refresh_storage: self.refresh_storage,
            open_browse: self.open_browse,
            start: self.start,
            reload_browse: self.reload_browse,
            quick_start: self.quick_start,
            add: self.add.deep_view(),
        }
    }
}

/// No work.
pub open spec fn no_fx() -> EffectsView {
    EffectsView {
        quit: false,
        interrupt: false,
        save: false,
        recheck_storage: false,
        refresh_storage: false,
        open_browse: None,
        start: false,
        reload_browse: false,
        quick_start: None,
        add: seq![],
    }
}

impl Effects {
    pub fn none() -> (e: Effects)
        ensures
            e@ == no_fx(),
    {
        let e = Effects {
            quit: false,
            interrupt: false,
            save: false,
            recheck_storage: false,
            refresh_storage: false,
            open_browse: None,
            start: false,
            reload_browse: false,
            quick_start: None,
            add: Vec::new(),
        };
        assert(e.add.deep_view() =~= Seq::<Seq<char>>::empty());
        e
    }
}

pub open spec fn other_lang(l: Lang) -> Lang {
    if l == Lang::Tr {
        Lang::En
    } else {
        Lang::Tr
    }
}

/// The state a key never touches: the processor, ffmpeg, the probe queue,
/// the jobs and the run, the colours, the storage message.
pub open spec fn frame(a: App, b: App) -> bool {
    &&& b.cpu == a.cpu
    &&& b.ff == a.ff
    &&& b.ff_version == a.ff_version
    &&& b.pending_probe@ == a.pending_probe@
    &&& b.probed_total == a.probed_total
    &&& b.jobs@ == a.jobs@
    &&& b.running == a.running
    &&& b.no_color == a.no_color
    &&& b.storage_error == a.storage_error
    &&& b.started@ == a.started@
}

/// The settings are as before but for the language code.
pub open spec fn settings_but_lang(a: Settings, b: Settings) -> bool {
    &&& b.theme == a.theme
    &&& b.workers == a.workers
    &&& b.overwrite == a.overwrite
    &&& b.out_mode@ == a.out_mode@
    &&& b.src_action == a.src_action
    &&& b.src_move_dir.deep_view() == a.src_move_dir.deep_view()
}

/// The language was switched (and stored in the settings).
pub open spec fn switched_lang(a: App, b: App) -> bool {
    &&& b.lang == other_lang(a.lang)
    &&& b.settings.lang@ == b.lang.code()
    &&& settings_but_lang(a.settings, b.settings)
}

/// The theme moved one step forward and was stored in the settings.
pub open spec fn next_theme(a: App, b: App) -> bool {
    &&& b.theme == theme_step_spec(a.theme, 1)
    &&& b.settings.theme == b.theme
    &&& b.settings.lang == a.settings.lang
    &&& b.settings.workers == a.settings.workers
    &&& b.settings.overwrite == a.settings.overwrite
    &&& b.settings.out_mode == a.settings.out_mode
    &&& b.settings.src_action == a.settings.src_action
    &&& b.settings.src_move_dir == a.settings.src_move_dir
}

/// The interface state the screens share is unchanged.
pub open spec fn same_ui(a: App, b: App) -> bool {
    &&& b.files@ == a.files@
    &&& b.sel == a.sel
    &&& b.profile == a.profile
    &&& b.log@ == a.log@
    &&& b.mode == a.mode
    &&& b.focus == a.focus
    &&& b.browse == a.browse
    &&& b.preset_sel == a.preset_sel
    &&& b.settings_sel == a.settings_sel
    &&& b.input == a.input
    &&& b.quit_confirm == a.quit_confirm
    &&& b.fit_ack == a.fit_ack
}

/// Keys on the storage-error screen: quit, check again, switch language
/// (the message follows), switch theme, dismiss the size warning.
pub open spec fn storage_key_post(a: App, b: App, k: KeyPress, e: EffectsView) -> bool {
    frame(a, b) && match k.code {
        KeyCode::Char('q') | KeyCode::Esc => b == a && e == EffectsView { quit: true, ..no_fx() },
        KeyCode::Char('r') => b == a && e == EffectsView { recheck_storage: true, ..no_fx() },
        KeyCode::Char('l') => {
            &&& switched_lang(a, b)
            &&& b.theme == a.theme
            &&& same_ui(a, b)
            &&& e == EffectsView { save: true, refresh_storage: true, ..no_fx() }
        },
        KeyCode::Char('t') => {
            &&& next_theme(a, b)
            &&& b.lang == a.lang
            &&& same_ui(a, b)
            &&& e == EffectsView { save: true, ..no_fx() }
        },
        KeyCode::Char('u') => {
            &&& b.fit_ack
            &&& b.lang == a.lang
            &&& b.theme == a.theme
            &&& b.settings == a.settings
            &&& b.files@ == a.files@
            &&& b.profile == a.profile
            &&& b.mode == a.mode
            &&& b.browse == a.browse
            &&& b.input == a.input
            &&& e == no_fx()
        },
        _ => b == a && e == no_fx(),
    }
}

impl App {
    /// The switch of language a key asks for.
    fn toggle_lang(&mut self)
        ensures
            switched_lang(*old(self), *final(self)),
            final(self).theme == old(self).theme,
            frame(*old(self), *final(self)),
            same_ui(*old(self), *final(self)),
    {
        let l = if self.lang == Lang::Tr {
            Lang::En
        } else {
            Lang::Tr
        };
        self.set_lang(l);
    }

    fn step_theme(&mut self)
        ensures
            next_theme(*old(self), *final(self)),
            final(self).lang == old(self).lang,
            frame(*old(self), *final(self)),
            same_ui(*old(self), *final(self)),
    {
        self.theme = self.theme.step(true);
        self.settings.theme = self.theme;
    }

    fn storage_key(&mut self, k: KeyPress) -> (e: Effects)
        ensures
            storage_key_post(*old(self), *final(self), k, e@),
            final(self).browse == old(self).browse,
            final(self).preset_sel == old(self).preset_sel,
    {
        let mut e = Effects::none();
        match k.code {
            KeyCode::Char('q') | KeyCode::Esc => {
                e.quit = true;
            },
            KeyCode::Char('r') => {
                e.recheck_storage = true;
            },
            KeyCode::Char('l') => {
                self.toggle_lang();
                e.save = true;
                e.refresh_storage = true;
            },
            KeyCode::Char('t') => {
                self.step_theme();
                e.save = true;
            },
            KeyCode::Char('u') => {
                self.fit_ack = true;
            },
            _ => {},
        }
        e
    }
}

// ---------------------------------------------------------------------------
// Typing into a text field
// ---------------------------------------------------------------------------

/// The profile's text that a field edits.
pub open spec fn profile_text(p: Profile, t: InputTarget) -> Seq<char> {
    match t {
        InputTarget::CustomArgs => p.custom_args@,
        InputTarget::TrimStart => p.trim_start@,
        InputTarget::TrimEnd => p.trim_end@,
        InputTarget::MergeName => p.merge_name@,
    }
}

/// Every choice of the profile that is not a text is as before.
pub open spec fn same_numbers(a: Profile, b: Profile) -> bool {
    &&& b.preset == a.preset
    &&& b.mp3_cbr == a.mp3_cbr
    &&& b.aac_kbps == a.aac_kbps
    &&& b.opus_kbps == a.opus_kbps
    &&& b.crf == a.crf
    &&& b.crf_touched == a.crf_touched
    &&& b.x264_preset == a.x264_preset
    &&& b.video_audio_kbps == a.video_audio_kbps
    &&& b.max_width == a.max_width
    &&& b.img_quality == a.img_quality
    &&& b.remux_container == a.remux_container
    &&& b.target_mb == a.target_mb
    &&& b.gif_width == a.gif_width
    &&& b.gif_fps == a.gif_fps
    &&& b.split_secs == a.split_secs
    &&& b.merge_reencode == a.merge_reencode
    &&& b.cover_png == a.cover_png
}

/// Everything but the text field and the profile is as before.
pub open spec fn same_but_input(a: App, b: App) -> bool {
    &&& frame(a, b)
    &&& b.lang == a.lang
    &&& b.settings == a.settings
    &&& b.theme == a.theme
    &&& b.files@ == a.files@
    &&& b.sel == a.sel
    &&& b.log@ == a.log@
    &&& b.mode == a.mode
    &&& b.focus == a.focus
    &&& b.browse == a.browse
    &&& b.preset_sel == a.preset_sel
    &&& b.settings_sel == a.settings_sel
    &&& b.quit_confirm == a.quit_confirm
    &&& b.fit_ack == a.fit_ack
}

/// Keys while a text field is open: Esc drops it, Enter stores its text in
/// the profile, Backspace deletes the last character, a character is
/// typed; other keys do nothing.
pub open spec fn input_key_post(a: App, b: App, k: KeyPress, e: EffectsView) -> bool {
    let i = a.input->0;
    &&& e == no_fx()
    &&& same_but_input(a, b)
    &&& match k.code {
        KeyCode::Esc => b.input is None && b.profile == a.profile,
        KeyCode::Enter => {
            &&& b.input is None
            &&& same_numbers(a.profile, b.profile)
            &&& profile_text(b.profile, i.target) == i.buf@
            &&& forall|t: InputTarget| t != i.target ==> profile_text(b.profile, t) == profile_text(
                a.profile,
                t,
            )
        },
        KeyCode::Backspace => {
            &&& b.profile == a.profile
            &&& b.input matches Some(j) && j.target == i.target && j.buf@ == (if i.buf@.len() > 0 {
                i.buf@.drop_last()
            } else {
                i.buf@
            })
        },
        KeyCode::Char(c) => {
            &&& b.profile == a.profile
            &&& b.input matches Some(j) && j.target == i.target && j.buf@ == i.buf@.push(c)
        },
        _ => b == a,
    }
}

fn drop_last_char(s: &String) -> (r: String)
    ensures
        r@ == (if s@.len() > 0 {
            s@.drop_last()
        } else {
            s@
        }),
{
    let v = chars_of(s.as_str());
    if v.len() == 0 {
        return s.clone();
    }
    let mut w: Vec<char> = Vec::new();
    let mut i: usize = 0;
    let last = v.len() - 1;
    while i < last
        invariant
            v@ == s@,
            v@.len() > 0,
            last == v@.len() - 1,
            i <= last,
            w@ == v@.take(i as int),
        decreases v@.len() - i,
    {
        w.push(v[i]);
        i += 1;
        assert(w@ =~= v@.take(i as int));
    }
    assert(w@ =~= s@.drop_last());
    string_of(w.as_slice())
}

impl App {
    fn input_key(&mut self, k: KeyPress) -> (e: Effects)
        requires
            old(self).input is Some,
        ensures
            input_key_post(*old(self), *final(self), k, e@),
            final(self).browse == old(self).browse,
            final(self).preset_sel == old(self).preset_sel,
    {
        let e = Effects::none();
        match k.code {
            KeyCode::Esc => {
                self.input = None;
            },
            KeyCode::Enter => {
                let inp = self.input.take();
                match inp {
                    Some(i) => match i.target {
                        InputTarget::CustomArgs => {
                            self.profile.custom_args = i.buf;
                        },
                        InputTarget::TrimStart => {
                            self.profile.trim_start = i.buf;
                        },
                        InputTarget::TrimEnd => {
                            self.profile.trim_end = i.buf;
                        },
                        InputTarget::MergeName => {
                            self.profile.merge_name = i.buf;
                        },
                    },
                    None => {},
                }
            },
            KeyCode::Backspace => {
                let (target, buf) = match &self.input {
                    Some(i) => (i.target, drop_last_char(&i.buf)),
                    None => {
                        return e;
                    },
                };
                self.input = Some(InputState { target, buf });
            },
            KeyCode::Char(c) => {
                let (target, mut buf) = match &self.input {
                    Some(i) => (i.target, i.buf.clone()),
                    None => {
                        return e;
                    },
                };
                crate::text::push_char(&mut buf, c);
                self.input = Some(InputState { target, buf });
            },
            _ => {},
        }
        e
    }
}

// ---------------------------------------------------------------------------
// Quit question, help, preset menu, settings menu
// ---------------------------------------------------------------------------

/// The quit question: `e`, `E`, `y` or Enter save and quit; any other key
/// takes the question back.
pub open spec fn quit_key_post(a: App, b: App, k: KeyPress, e: EffectsView) -> bool {
    if k.code == KeyCode::Char('e') || k.code == KeyCode::Char('E') || k.code == KeyCode::Char('y')
        || k.code == KeyCode::Enter {
        b == a && e == EffectsView { quit: true, save: true, ..no_fx() }
    } else {
        b == App { quit_confirm: false, ..a } && e == no_fx()
    }
}

/// Help closes on Esc, `?`, `q` or Enter.
pub open spec fn help_key_post(a: App, b: App, k: KeyPress, e: EffectsView) -> bool {
    &&& e == no_fx()
    &&& if k.code == KeyCode::Esc || k.code == KeyCode::Char('?') || k.code == KeyCode::Char('q')
        || k.code == KeyCode::Enter {
        b == App { mode: Mode::Main, ..a }
    } else {
        b == a
    }
}

/// The preset may be chosen: no files yet, or some file of a kind it
/// applies to.
pub open spec fn preset_fits(p: Preset, files: Seq<Media>) -> bool {
    files.len() == 0 || exists|i: int| 0 <= i < files.len() && p.applies_to_spec(#[trigger] files[i].kind)
}

/// The profile after choosing preset `p`: the preset, and its default CRF
/// unless the user has moved the CRF.
pub open spec fn chosen_profile(pr: Profile, p: Preset) -> Profile {
    let q = Profile { preset: p, ..pr };
    match p.default_crf_spec() {
        Some(c) => if !pr.crf_touched {
            Profile { crf: c, ..q }
        } else {
            q
        },
        None => q,
    }
}

/// The preset menu: Esc or `q` closes it; Up/`k` and Down/`j` move within
/// the list; Enter takes the preset under the cursor when it fits the
/// files (else nothing changes) and closes the menu.
pub open spec fn preset_key_post(a: App, b: App, k: KeyPress, e: EffectsView) -> bool {
    &&& e == no_fx()
    &&& match k.code {
        KeyCode::Esc | KeyCode::Char('q') => b == App { mode: Mode::Main, ..a },
        KeyCode::Up | KeyCode::Char('k') => b == App {
            preset_sel: if a.preset_sel > 0 {
                (a.preset_sel - 1) as usize
            } else {
                0
            },
            ..a
        },
        KeyCode::Down | KeyCode::Char('j') => b == App {
            preset_sel: if a.preset_sel + 1 < PRESET_COUNT {
                (a.preset_sel + 1) as usize
            } else {
                (PRESET_COUNT - 1) as usize
            },
            ..a
        },
        KeyCode::Enter => {
            let p = preset_at_spec(a.preset_sel as int);
            b == App {
                mode: Mode::Main,
                profile: if preset_fits(p, a.files@) {
                    chosen_profile(a.profile, p)
                } else {
                    a.profile
                },
                ..a
            }
        },
        _ => b == a,
    }
}

/// A 32-bit count read as a signed 32-bit number.
pub open spec fn as_i32(w: u32) -> int {
    if w <= 0x7fff_ffff {
        w as int
    } else {
        w - 0x1_0000_0000
    }
}

/// A subtraction in signed 32-bit arithmetic that wraps on overflow.
pub open spec fn wrap_i32(x: int) -> int {
    if x < -0x8000_0000 {
        x + 0x1_0000_0000
    } else if x > 0x7fff_ffff {
        x - 0x1_0000_0000
    } else {
        x
    }
}

/// Step of a settings row: Left/`h` one back, Right/`l` one forward,
/// Enter or Space none.
pub open spec fn step_of(code: KeyCode) -> int {
    if code == KeyCode::Left || code == KeyCode::Char('h') {
        -1
    } else if code == KeyCode::Right || code == KeyCode::Char('l') {
        1
    } else {
        0
    }
}

pub open spec fn is_change_key(code: KeyCode) -> bool {
    code == KeyCode::Left || code == KeyCode::Char('h') || code == KeyCode::Right || code
        == KeyCode::Char('l') || code == KeyCode::Enter || code == KeyCode::Char(' ')
}

/// The settings menu (four rows: parallel jobs, language, theme,
/// overwrite): Esc or `q` closes it; Up/Down move; Left/Right, Enter and
/// Space change the row's value (jobs within 0..=16, the theme going
/// round, the language and overwrite switched) and save.
pub open spec fn settings_key_post(a: App, b: App, k: KeyPress, e: EffectsView) -> bool {
    match k.code {
        KeyCode::Esc | KeyCode::Char('q') => b == App { mode: Mode::Main, ..a } && e == no_fx(),
        KeyCode::Up | KeyCode::Char('k') => e == no_fx() && b == App {
            settings_sel: if a.settings_sel > 0 {
                (a.settings_sel - 1) as usize
            } else {
                0
            },
            ..a
        },
        KeyCode::Down | KeyCode::Char('j') => e == no_fx() && b == App {
            settings_sel: if a.settings_sel + 1 < 4 {
                (a.settings_sel + 1) as usize
            } else {
                3
            },
            ..a
        },
        _ => if is_change_key(k.code) {
            e == EffectsView { save: true, ..no_fx() } && settings_change_post(a, b, k.code)
        } else {
            b == a && e == no_fx()
        },
    }
}

/// The value of the selected settings row after a change key.
pub open spec fn settings_change_post(a: App, b: App, code: KeyCode) -> bool {
    if a.settings_sel == 0 {
        b == App {
            settings: Settings {
                workers: crate::profiles::clamp_int(wrap_i32(as_i32(a.settings.workers) + step_of(code)), 0, 16) as u32,
                ..a.settings
            },
            ..a
        }
    } else if a.settings_sel == 1 {
        switched_lang(a, b) && same_but_lang_app(a, b)
    } else if a.settings_sel == 2 {
        b == App {
            theme: theme_step_spec(a.theme, step_of(code)),
            settings: Settings { theme: theme_step_spec(a.theme, step_of(code)), ..a.settings },
            ..a
        }
    } else {
        b == App { settings: Settings { overwrite: !a.settings.overwrite, ..a.settings }, ..a }
    }
}

/// Everything but the language is as before.
pub open spec fn same_but_lang_app(a: App, b: App) -> bool {
    crate::app::same_but_lang(a, b)
}

impl App {
    fn quit_key(&mut self, k: KeyPress) -> (e: Effects)
        ensures
            quit_key_post(*old(self), *final(self), k, e@),
    {
        let mut e = Effects::none();
        match k.code {
            KeyCode::Char('e') | KeyCode::Char('E') | KeyCode::Char('y') | KeyCode::Enter => {
                e.save = true;
                e.quit = true;
            },
            _ => {
                self.quit_confirm = false;
            },
        }
        e
    }

    fn help_key(&mut self, k: KeyPress) -> (e: Effects)
        ensures
            help_key_post(*old(self), *final(self), k, e@),
    {
        match k.code {
            KeyCode::Esc | KeyCode::Char('?') | KeyCode::Char('q') | KeyCode::Enter => {
                self.mode = Mode::Main;
            },
            _ => {},
        }
        Effects::none()
    }

    fn preset_fits_exec(&self, p: Preset) -> (r: bool)
        ensures
            r == preset_fits(p, self.files@),
    {
        if self.files.len() == 0 {
            return true;
        }
        let mut i: usize = 0;
        while i < self.files.len()
            invariant
                i <= self.files@.len(),
                forall|j: int| 0 <= j < i ==> !p.applies_to_spec(#[trigger] self.files@[j].kind),
            decreases self.files@.len() - i,
        {
            if p.applies_to(self.files[i].kind) {
                return true;
            }
            i += 1;
        }
        false
    }

    fn preset_key(&mut self, k: KeyPress) -> (e: Effects)
        requires
            old(self).preset_sel < PRESET_COUNT,
        ensures
            preset_key_post(*old(self), *final(self), k, e@),
            final(self).preset_sel < PRESET_COUNT,
    {
        match k.code {
            KeyCode::Esc | KeyCode::Char('q') => {
                self.mode = Mode::Main;
            },
            KeyCode::Up | KeyCode::Char('k') => {
                if self.preset_sel > 0 {
                    self.preset_sel = self.preset_sel - 1;
                }
            },
            KeyCode::Down | KeyCode::Char('j') => {
                if self.preset_sel + 1 < PRESET_COUNT {
                    self.preset_sel = self.preset_sel + 1;
                } else {
                    self.preset_sel = PRESET_COUNT - 1;
                }
            },
            KeyCode::Enter => {
                let p = preset_at(self.preset_sel);
                if self.preset_fits_exec(p) {
                    self.profile.preset = p;
                    match p.default_crf() {
                        Some(c) => {
                            if !self.profile.crf_touched {
                                self.profile.crf = c;
                            }
                        },
                        None => {},
                    }
                }
                self.mode = Mode::Main;
            },
            _ => {},
        }
        Effects::none()
    }

    fn settings_change(&mut self, code: KeyCode)
        requires
            is_change_key(code),
        ensures
            settings_change_post(*old(self), *final(self), code),
    {
        let step: i64 = match code {
            KeyCode::Left | KeyCode::Char('h') => -1,
            KeyCode::Right | KeyCode::Char('l') => 1,
            _ => 0,
        };
        if self.settings_sel == 0 {
            let w = self.settings.workers;
            let wi: i64 = if w <= 0x7fff_ffff {
                w as i64
            } else {
                w as i64 - 0x1_0000_0000
            };
            let mut v: i64 = wi + step;
            if v < -0x8000_0000 {
                v = v + 0x1_0000_0000;
            } else if v > 0x7fff_ffff {
                v = v - 0x1_0000_0000;
            }
            let c: u32 = if v < 0 {
                0
            } else if v > 16 {
                16
            } else {
                v as u32
            };
            self.settings.workers = c;
        } else if self.settings_sel == 1 {
            self.toggle_lang();
        } else if self.settings_sel == 2 {
            let t = if step < 0 {
                self.theme.step(false)
            } else if step > 0 {
                self.theme.step(true)
            } else {
                self.theme
            };
            assert(t == theme_step_spec(old(self).theme, step_of(code))) by {
                crate::config::lemma_theme_cycle(old(self).theme);
            }
            self.theme = t;
            self.settings.theme = t;
        } else {
            self.settings.overwrite = !self.settings.overwrite;
        }
    }

    fn settings_key(&mut self, k: KeyPress) -> (e: Effects)
        ensures
            settings_key_post(*old(self), *final(self), k, e@),
    {
        let mut e = Effects::none();
        match k.code {
            KeyCode::Esc | KeyCode::Char('q') => {
                self.mode = Mode::Main;
                return e;
            },
            KeyCode::Up | KeyCode::Char('k') => {
                if self.settings_sel > 0 {
                    self.settings_sel = self.settings_sel - 1;
                }
                return e;
            },
            KeyCode::Down | KeyCode::Char('j') => {
                if self.settings_sel < 3 {
                    self.settings_sel = self.settings_sel + 1;
                } else {
                    self.settings_sel = 3;
                }
                return e;
            },
            _ => {},
        }
        let change = match k.code {
            KeyCode::Left | KeyCode::Char('h') | KeyCode::Right | KeyCode::Char('l') | KeyCode::Enter
            | KeyCode::Char(' ') => true,
            _ => false,
        };
        if !change {
            return e;
        }
        self.settings_change(k.code);
        e.save = true;
        e
    }
}

// ---------------------------------------------------------------------------
// The browser
// ---------------------------------------------------------------------------

/// Every field but the browser is as before.
pub open spec fn same_but_browse(a: App, b: App) -> bool {
    &&& frame(a, b)
    &&& b.lang == a.lang
    &&& b.settings == a.settings
    &&& b.theme == a.theme
    &&& b.files@ == a.files@
    &&& b.sel == a.sel
    &&& b.profile == a.profile
    &&& b.log@ == a.log@
    &&& b.mode == a.mode
    &&& b.focus == a.focus
    &&& b.preset_sel == a.preset_sel
    &&& b.settings_sel == a.settings_sel
    &&& b.input == a.input
    &&& b.quit_confirm == a.quit_confirm
    &&& b.fit_ack == a.fit_ack
}

/// The browser shows the same folder and listing.
pub open spec fn same_listing(ob: Browse, nb: Browse) -> bool {
    &&& nb.mode == ob.mode
    &&& nb.lang == ob.lang
    &&& nb.cur == ob.cur
    &&& nb.entries@ == ob.entries@
    &&& nb.error == ob.error
}

/// The extension a media check looks at (empty when there is none).
pub open spec fn ext_of(p: Seq<char>) -> Seq<char> {
    match path_extension(p) {
        Some(e) => e,
        None => Seq::<char>::empty(),
    }
}

/// Keys in the browser: Esc closes it; Up/`k`, Down/`j` move; Space marks;
/// Enter opens a folder or marks a media file; Backspace, Left or `h` go
/// to the parent; `a` marks all files; `n` clears the marks; `d` confirms;
/// `1`..`9` jump to a quick-start folder.
pub open spec fn browse_key_post(a: App, b: App, k: KeyPress, e: EffectsView) -> bool {
    match a.browse {
        None => b == App { mode: Mode::Main, ..a } && e == no_fx(),
        Some(ob) => match k.code {
            KeyCode::Esc => b == App { browse: None, mode: Mode::Main, ..a } && e == no_fx(),
            KeyCode::Up | KeyCode::Char('k') => {
                &&& e == no_fx()
                &&& same_but_browse(a, b)
                &&& b.browse matches Some(nb) && same_listing(ob, nb) && nb.marked@ == ob.marked@
                    && nb.sel == (if ob.sel > 0 {
                    (ob.sel - 1) as usize
                } else {
                    0
                })
            },
            KeyCode::Down | KeyCode::Char('j') => {
                &&& e == no_fx()
                &&& same_but_browse(a, b)
                &&& b.browse matches Some(nb) && same_listing(ob, nb) && nb.marked@ == ob.marked@
                    && nb.sel == down_spec(ob.sel as nat, ob.entries@.len())
            },
            KeyCode::Char(' ') => {
                &&& e == no_fx()
                &&& same_but_browse(a, b)
                &&& b.browse matches Some(nb) && same_listing(ob, nb) && nb.wf() && (if ob.sel
                    < ob.entries@.len() {
                    nb.marked_set() == toggled(ob.marked_set(), ob.entries@[ob.sel as int].path@)
                        && nb.sel == down_spec(ob.sel as nat, ob.entries@.len())
                } else {
                    nb.marked_set() == ob.marked_set() && nb.sel == ob.sel
                })
            },
            KeyCode::Enter => {
                let dir = ob.sel < ob.entries@.len() && ob.entries@[ob.sel as int].is_dir;
                let media = ob.sel < ob.entries@.len() && is_media_ext_spec(
                    ext_of(ob.entries@[ob.sel as int].path@),
                );
                &&& e == EffectsView { reload_browse: dir, ..no_fx() }
                &&& same_but_browse(a, b)
                &&& b.browse matches Some(nb) && nb.wf() && nb.mode == ob.mode && nb.lang == ob.lang
                    && nb.entries@ == ob.entries@ && nb.error == ob.error && (if dir {
                    nb.cur@ == ob.entries@[ob.sel as int].path@ && nb.sel == 0 && nb.marked_set()
                        == ob.marked_set()
                } else if media {
                    nb.cur == ob.cur && nb.marked_set() == toggled(
                        ob.marked_set(),
                        ob.entries@[ob.sel as int].path@,
                    ) && nb.sel == down_spec(ob.sel as nat, ob.entries@.len())
                } else {
                    nb.cur == ob.cur && nb.marked_set() == ob.marked_set() && nb.sel == ob.sel
                })
            },
            KeyCode::Backspace | KeyCode::Left | KeyCode::Char('h') => {
                let up = path_parent(ob.cur@) is Some;
                &&& e == EffectsView { reload_browse: up, ..no_fx() }
                &&& same_but_browse(a, b)
                &&& b.browse matches Some(nb) && nb.mode == ob.mode && nb.lang == ob.lang
                    && nb.entries@ == ob.entries@ && nb.error == ob.error && nb.marked@ == ob.marked@
                    && (if up {
                    nb.cur@ == path_parent(ob.cur@)->0 && nb.sel == 0
                } else {
                    nb.cur == ob.cur && nb.sel == ob.sel
                })
            },
            KeyCode::Char('a') => {
                &&& e == no_fx()
                &&& same_but_browse(a, b)
                &&& b.browse matches Some(nb) && same_listing(ob, nb) && nb.wf() && nb.sel == ob.sel
                    && nb.marked_set() == mark_all_spec(ob.marked_set(), file_paths(ob.entries_spec()))
            },
            KeyCode::Char('n') => {
                &&& e == no_fx()
                &&& same_but_browse(a, b)
                &&& b.browse matches Some(nb) && same_listing(ob, nb) && nb.wf() && nb.sel == ob.sel
                    && nb.marked_set() == Set::<Seq<char>>::empty()
            },
            KeyCode::Char('d') => {
                &&& exists|r: PickResultView| confirm_post(ob, r) && apply_pick_post(a, b, r, e.add, e.save)
                &&& e == EffectsView { add: e.add, save: e.save, ..no_fx() }
            },
            KeyCode::Char(c) => if '1' <= c && c <= '9' {
                b == a && e == EffectsView { quick_start: Some(((c as int) - ('1' as int)) as usize), ..no_fx() }
            } else {
                b == a && e == no_fx()
            },
            _ => b == a && e == no_fx(),
        },
    }
}

impl App {
    #[verifier::spinoff_prover]
    #[verifier::rlimit(60)]
    fn browse_key(&mut self, k: KeyPress) -> (e: Effects)
        requires
            old(self).browse matches Some(b) ==> b.wf(),
        ensures
            browse_key_post(*old(self), *final(self), k, e@),
            final(self).browse matches Some(b) ==> b.wf(),
    {
        let mut e = Effects::none();
        let mut br = match self.browse.take() {
            Some(b) => b,
            None => {
                self.mode = Mode::Main;
                return e;
            },
        };
        match k.code {
            KeyCode::Esc => {
                self.mode = Mode::Main;
                return e;
            },
            KeyCode::Up | KeyCode::Char('k') => {
                br.up();
            },
            KeyCode::Down | KeyCode::Char('j') => {
                br.down();
            },
            KeyCode::Char(' ') => {
                br.toggle_mark();
            },
            KeyCode::Enter => {
                e.reload_browse = br.enter();
            },
            KeyCode::Backspace | KeyCode::Left | KeyCode::Char('h') => {
                e.reload_browse = br.go_up();
            },
            KeyCode::Char('a') => {
                br.mark_all_files();
            },
            KeyCode::Char('n') => {
                br.clear_marks();
            },
            KeyCode::Char('d') => {
                let r = br.confirm();
                let ghost rv = r@;
                self.browse = Some(br);
                let out = self.apply_pick(r);
                e.add = out.add;
                e.save = out.save;
                assert(confirm_post(old(self).browse->0, rv));
                return e;
            },
            KeyCode::Char(c) => {
                if '1' <= c && c <= '9' {
                    e.quick_start = Some((c as u32 - '1' as u32) as usize);
                }
            },
            _ => {},
        }
        self.browse = Some(br);
        e
    }
}

// ---------------------------------------------------------------------------
// The main screen
// ---------------------------------------------------------------------------

/// The files after `x` removes the selected one, and the selection.
pub open spec fn removed(files: Seq<Media>, sel: int) -> (Seq<Media>, int) {
    if sel < files.len() {
        let f = files.remove(sel);
        (f, if sel >= f.len() && sel > 0 {
            sel - 1
        } else {
            sel
        })
    } else {
        (files, sel)
    }
}

/// A text field opened on the profile's current text.
pub open spec fn opens_input(a: App, b: App, t: InputTarget) -> bool {
    &&& b.input matches Some(j) && j.target == t && j.buf@ == profile_text(a.profile, t)
    &&& same_but_input(a, b)
    &&& b.profile == a.profile
}

/// Keys of the main screen.
pub open spec fn main_key_post(a: App, b: App, k: KeyPress, e: EffectsView) -> bool {
    match k.code {
        KeyCode::Char('q') | KeyCode::Esc => b == App { quit_confirm: true, ..a } && e == no_fx(),
        KeyCode::Tab => b == App { focus: focus_next(a.focus), ..a } && e == no_fx(),
        KeyCode::BackTab => b == App { focus: focus_prev(a.focus), ..a } && e == no_fx(),
        KeyCode::Up | KeyCode::Char('k') => e == no_fx() && b == App {
            sel: if a.focus == Focus::Files && a.sel > 0 {
                (a.sel - 1) as usize
            } else {
                a.sel
            },
            ..a
        },
        KeyCode::Down | KeyCode::Char('j') => e == no_fx() && b == App {
            sel: if a.focus == Focus::Files && a.sel + 1 < a.files@.len() {
                (a.sel + 1) as usize
            } else {
                a.sel
            },
            ..a
        },
        KeyCode::Char('a') => b == a && e == EffectsView { open_browse: Some(PickMode::Files), ..no_fx() },
        KeyCode::Char('d') => b == a && e == EffectsView { open_browse: Some(PickMode::Folder), ..no_fx() },
        KeyCode::Char('o') => b == a && e == EffectsView { open_browse: Some(PickMode::OutDir), ..no_fx() },
        KeyCode::Char('M') => b == a && e == EffectsView { open_browse: Some(PickMode::MoveDir), ..no_fx() },
        KeyCode::Char('p') => e == no_fx() && b == App {
            mode: Mode::Preset,
            preset_sel: a.profile.preset.position() as usize,
            ..a
        },
        KeyCode::Char('s') => e == no_fx() && b == App { mode: Mode::Settings, settings_sel: 0, ..a },
        KeyCode::Char('?') | KeyCode::F(1) => e == no_fx() && b == App { mode: Mode::Help, ..a },
        KeyCode::Char('c') => if k.ctrl {
            b == a && e == EffectsView { interrupt: true, quit: true, ..no_fx() }
        } else {
            b == a && e == EffectsView { start: true, ..no_fx() }
        },
        KeyCode::Enter => b == a && e == EffectsView { start: true, ..no_fx() },
        KeyCode::Char('r') => e == EffectsView { save: true, ..no_fx() } && b == App {
            settings: Settings { src_action: src_next_spec(a.settings.src_action), ..a.settings },
            ..a
        },
        KeyCode::Char('w') => e == EffectsView { save: true, ..no_fx() } && b == App {
            settings: Settings { overwrite: !a.settings.overwrite, ..a.settings },
            ..a
        },
        KeyCode::Char('t') => {
            &&& e == EffectsView { save: true, ..no_fx() }
            &&& next_theme(a, b)
            &&& b.lang == a.lang
            &&& same_ui(a, b)
            &&& frame(a, b)
        },
        KeyCode::Char('l') => {
            &&& e == EffectsView { save: true, ..no_fx() }
            &&& switched_lang(a, b)
            &&& same_but_lang_app(a, b)
        },
        KeyCode::Char('x') => {
            &&& e == no_fx()
            &&& b.files@ == removed(a.files@, a.sel as int).0
            &&& b.sel == removed(a.files@, a.sel as int).1
            &&& frame(a, b)
            &&& b.lang == a.lang
            &&& b.settings == a.settings
            &&& b.theme == a.theme
            &&& b.profile == a.profile
            &&& b.log@ == a.log@
            &&& b.mode == a.mode
            &&& b.focus == a.focus
            &&& b.browse == a.browse
            &&& b.preset_sel == a.preset_sel
            &&& b.settings_sel == a.settings_sel
            &&& b.input == a.input
            &&& b.quit_confirm == a.quit_confirm
            &&& b.fit_ack == a.fit_ack
        },
        KeyCode::Char('C') => e == no_fx() && opens_input(a, b, InputTarget::CustomArgs),
        KeyCode::Char('g') => e == no_fx() && opens_input(a, b, InputTarget::TrimStart),
        KeyCode::Char('G') => e == no_fx() && opens_input(a, b, InputTarget::TrimEnd),
        KeyCode::Char('m') => e == no_fx() && opens_input(a, b, InputTarget::MergeName),
        KeyCode::Char('+') | KeyCode::Char('=') => e == no_fx() && b == App {
            profile: bump_spec(a.profile, 1),
            ..a
        },
        KeyCode::Char('-') => e == no_fx() && b == App { profile: bump_spec(a.profile, -1), ..a },
        _ => b == a && e == no_fx(),
    }
}

impl App {
    fn open_input(&mut self, t: InputTarget)
        ensures
            opens_input(*old(self), *final(self), t),
    {
        let buf = match t {
            InputTarget::CustomArgs => self.profile.custom_args.clone(),
            InputTarget::TrimStart => self.profile.trim_start.clone(),
            InputTarget::TrimEnd => self.profile.trim_end.clone(),
            InputTarget::MergeName => self.profile.merge_name.clone(),
        };
        self.input = Some(InputState { target: t, buf });
    }

    #[verifier::spinoff_prover]
    #[verifier::rlimit(60)]
    fn main_key(&mut self, k: KeyPress) -> (e: Effects)
        ensures
            main_key_post(*old(self), *final(self), k, e@),
    {
        let mut e = Effects::none();
        match k.code {
            KeyCode::Char('q') | KeyCode::Esc => {
                self.quit_confirm = true;
            },
            KeyCode::Tab => {
                self.focus = self.focus.next();
            },
            KeyCode::BackTab => {
                self.focus = self.focus.prev();
            },
            KeyCode::Up | KeyCode::Char('k') => {
                if self.focus == Focus::Files && self.sel > 0 {
                    self.sel = self.sel - 1;
                }
            },
            KeyCode::Down | KeyCode::Char('j') => {
                if self.focus == Focus::Files && self.sel < self.files.len() && self.sel + 1
                    < self.files.len() {
                    self.sel = self.sel + 1;
                }
            },
            KeyCode::Char('a') => {
                e.open_browse = Some(PickMode::Files);
            },
            KeyCode::Char('d') => {
                e.open_browse = Some(PickMode::Folder);
            },
            KeyCode::Char('o') => {
                e.open_browse = Some(PickMode::OutDir);
            },
            KeyCode::Char('M') => {
                e.open_browse = Some(PickMode::MoveDir);
            },
            KeyCode::Char('p') => {
                self.mode = Mode::Preset;
                self.preset_sel = self.profile.preset.index();
            },
            KeyCode::Char('s') => {
                self.mode = Mode::Settings;
                self.settings_sel = 0;
            },
            KeyCode::Char('?') | KeyCode::F(1) => {
                self.mode = Mode::Help;
            },
            KeyCode::Char('c') => {
                if k.ctrl {
                    e.interrupt = true;
                    e.quit = true;
                } else {
                    e.start = true;
                }
            },
            KeyCode::Enter => {
                e.start = true;
            },
            KeyCode::Char('r') => {
                self.settings.src_action = self.settings.src_action.next();
                e.save = true;
            },
            KeyCode::Char('w') => {
                self.settings.overwrite = !self.settings.overwrite;
                e.save = true;
            },
            KeyCode::Char('t') => {
                self.step_theme();
                e.save = true;
            },
            KeyCode::Char('l') => {
                self.toggle_lang();
                e.save = true;
            },
            KeyCode::Char('x') => {
                if self.sel < self.files.len() {
                    self.files.remove(self.sel);
                    if self.sel >= self.files.len() && self.sel > 0 {
                        self.sel = self.sel - 1;
                    }
                }
            },
            KeyCode::Char('C') => {
                self.open_input(InputTarget::CustomArgs);
            },
            KeyCode::Char('g') => {
                self.open_input(InputTarget::TrimStart);
            },
            KeyCode::Char('G') => {
                self.open_input(InputTarget::TrimEnd);
            },
            KeyCode::Char('m') => {
                self.open_input(InputTarget::MergeName);
            },
            KeyCode::Char('+') | KeyCode::Char('=') => {
                bump(&mut self.profile, 1);
            },
            KeyCode::Char('-') => {
                bump(&mut self.profile, -1);
            },
            _ => {},
        }
        e
    }
}

// ---------------------------------------------------------------------------
// Any key
// ---------------------------------------------------------------------------

/// What a key does, by what is on screen: the storage message takes every
/// key; an open text field takes every key; `u` dismisses the size
/// warning; then the browser, the quit question, the popups, the main
/// screen.
pub open spec fn key_post(a: App, b: App, k: KeyPress, e: EffectsView) -> bool {
    if a.storage_error is Some {
        storage_key_post(a, b, k, e)
    } else if a.input is Some {
        input_key_post(a, b, k, e)
    } else if k.code == KeyCode::Char('u') {
        b == App { fit_ack: true, ..a } && e == no_fx()
    } else if a.mode == Mode::Browse {
        browse_key_post(a, b, k, e)
    } else if a.quit_confirm {
        quit_key_post(a, b, k, e)
    } else if a.mode == Mode::Preset {
        preset_key_post(a, b, k, e)
    } else if a.mode == Mode::Settings {
        settings_key_post(a, b, k, e)
    } else if a.mode == Mode::Help {
        help_key_post(a, b, k, e)
    } else {
        main_key_post(a, b, k, e)
    }
}

impl App {
    /// Handles a key press; the result is the work left for the
    /// application.
    pub fn handle_key(&mut self, k: KeyPress) -> (e: Effects)
        requires
            old(self).wf(),
        ensures
            key_post(*old(self), *final(self), k, e@),
            final(self).wf(),
    {
        if self.storage_error.is_some() {
            return self.storage_key(k);
        }
        if self.input.is_some() {
            return self.input_key(k);
        }
        if k.code == KeyCode::Char('u') {
            self.fit_ack = true;
            return Effects::none();
        }
        match self.mode {
            Mode::Browse => {
                return self.browse_key(k);
            },
            _ => {},
        }
        if self.quit_confirm {
            return self.quit_key(k);
        }
        match self.mode {
            Mode::Preset => self.preset_key(k),
            Mode::Settings => self.settings_key(k),
            Mode::Help => self.help_key(k),
            _ => self.main_key(k),
        }
    }
}

} // verus!
