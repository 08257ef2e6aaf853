//! Persistent settings of the terminal client: language, theme,
//! parallelism, overwrite, where outputs go and what becomes of a source
//! file after a successful conversion. Reading and writing the settings
//! file is the application's business; this module holds the values.

use vstd::prelude::*;

use crate::lang::{parse_spec, text, tr, Key, Lang};
use crate::text::to_owned;

verus! {

/// Terminal colour scheme.
#[derive(Clone, Copy, PartialEq, Eq, Structural, Debug)]
pub enum Theme {
    Default,
    Gruvbox,
    Mono,
    Solarized,
}

/// Number of themes.
pub const THEME_COUNT: usize = 4;

/// The themes in menu order.
pub open spec fn theme_at_spec(i: int) -> Theme {
    if i == 0 {
        Theme::Default
    } else if i == 1 {
        Theme::Gruvbox
    } else if i == 2 {
        Theme::Mono
    } else {
        Theme::Solarized
    }
}

/// Position of a theme in menu order.
pub open spec fn theme_index(t: Theme) -> int {
    match t {
        Theme::Default => 0,
        Theme::Gruvbox => 1,
        Theme::Mono => 2,
        Theme::Solarized => 3,
    }
}

/// The theme `steps` places after `t` in menu order, going round.
pub open spec fn theme_step_spec(t: Theme, steps: int) -> Theme {
    theme_at_spec((theme_index(t) + steps) % 4)
}

pub open spec fn theme_name_spec(t: Theme, lang: Lang) -> &'static str {
    match (t, lang) {
        (Theme::Default, Lang::Tr) => "Varsayilan (mavi)",
        (Theme::Default, Lang::En) => "Default (blue)",
        (Theme::Gruvbox, _) => "Gruvbox",
        (Theme::Mono, Lang::Tr) => "Tek renk",
        (Theme::Mono, Lang::En) => "Monochrome",
        (Theme::Solarized, _) => "Solarized",
    }
}

impl Theme {
    /// The theme at menu position `i` (`i < THEME_COUNT`).
    pub fn at(i: usize) -> (t: Theme)
        requires
            i < THEME_COUNT,
        ensures
            t == theme_at_spec(i as int),
            theme_index(t) == i,
    {
        if i == 0 {
            Theme::Default
        } else if i == 1 {
            Theme::Gruvbox
        } else if i == 2 {
            Theme::Mono
        } else {
            Theme::Solarized
        }
    }

    pub fn index(self) -> (r: usize)
        ensures
            r == theme_index(self),
            r < THEME_COUNT,
    {
        match self {
            Theme::Default => 0,
            Theme::Gruvbox => 1,
            Theme::Mono => 2,
            Theme::Solarized => 3,
        }
    }

    /// One step forward (`forward`) or back in menu order, going round.
    pub fn step(self, forward: bool) -> (t: Theme)
        ensures
            t == theme_step_spec(self, if forward { 1 } else { -1 }),
    {
        let i = self.index();
        let j: usize = if forward {
            (i + 1) % THEME_COUNT
        } else {
            (i + THEME_COUNT - 1) % THEME_COUNT
        };
        Theme::at(j)
    }

    pub fn name(self, lang: Lang) -> (r: &'static str)
        ensures
            r == theme_name_spec(self, lang),
    {
        match (self, lang) {
            (Theme::Default, Lang::Tr) => "Varsayilan (mavi)",
            (Theme::Default, Lang::En) => "Default (blue)",
            (Theme::Gruvbox, _) => "Gruvbox",
            (Theme::Mono, Lang::Tr) => "Tek renk",
            (Theme::Mono, Lang::En) => "Monochrome",
            (Theme::Solarized, _) => "Solarized",
        }
    }
}

/// Stepping through the themes forward returns to the start after all of
/// them, and a step back undoes a step forward.
pub proof fn lemma_theme_cycle(t: Theme)
    ensures
        theme_step_spec(theme_step_spec(theme_step_spec(theme_step_spec(t, 1), 1), 1), 1) == t,
        theme_step_spec(theme_step_spec(t, 1), -1) == t,
        theme_step_spec(theme_step_spec(t, -1), 1) == t,
{
}

/// What becomes of a source file after a successful conversion.
#[derive(Clone, Copy, PartialEq, Eq, Structural, Debug)]
pub enum SrcAction {
    Keep,
    Delete,
    Move,
}

pub open spec fn src_next_spec(a: SrcAction) -> SrcAction {
    match a {
        SrcAction::Keep => SrcAction::Delete,
        SrcAction::Delete => SrcAction::Move,
        SrcAction::Move => SrcAction::Keep,
    }
}

pub open spec fn src_label_key(a: SrcAction) -> Key {
    match a {
        SrcAction::Keep => Key::SrcKeep,
        SrcAction::Delete => Key::SrcDelete,
        SrcAction::Move => Key::SrcMove,
    }
}

impl SrcAction {
    pub fn next(self) -> (r: SrcAction)
        ensures
            r == src_next_spec(self),
    {
        match self {
            SrcAction::Keep => SrcAction::Delete,
            SrcAction::Delete => SrcAction::Move,
            SrcAction::Move => SrcAction::Keep,
        }
    }

    pub fn label(self, lang: Lang) -> (r: &'static str)
        ensures
            r == text(lang, src_label_key(self)),
    {
        match self {
            SrcAction::Keep => tr(lang, Key::SrcKeep),
            SrcAction::Delete => tr(lang, Key::SrcDelete),
            SrcAction::Move => tr(lang, Key::SrcMove),
        }
    }
}

/// Pressing the source-action key three times comes back to where it
/// started, passing through the other two choices.
pub proof fn lemma_src_action_cycle(a: SrcAction)
    ensures
        src_next_spec(src_next_spec(src_next_spec(a))) == a,
        src_next_spec(a) != a,
        src_next_spec(src_next_spec(a)) != a,
{
}

/// Where outputs are written: beside their source, or into one folder.
#[derive(Debug)]
pub enum OutMode {
    Source,
    Dir(String),
}

/// `OutMode` with the folder taken by its characters.
pub enum OutModeView {
    Source,
    Dir(Seq<char>),
}

impl View for OutMode {
    type V = OutModeView;

    open spec fn view(&self) -> OutModeView {
        match self {
            OutMode::Source => OutModeView::Source,
            OutMode::Dir(d) => OutModeView::Dir(d@),
        }
    }
}

impl OutMode {
    pub fn duplicate(&self) -> (r: OutMode)
        ensures
            r@ == self@,
    {
        match self {
            OutMode::Source => OutMode::Source,
            OutMode::Dir(d) => OutMode::Dir(d.clone()),
        }
    }
}

/// The settings file's contents.
#[derive(Debug)]
pub struct Settings {
    /// Language code, `tr` or `en`.
    pub lang: String,
    pub theme: Theme,
    /// 0 chooses the number of parallel jobs from the processor; 1..=16
    /// fixes it.
    pub workers: u32,
    /// Convert even where the output already exists (else skip).
    pub overwrite: bool,
    pub out_mode: OutMode,
    pub src_action: SrcAction,
    pub src_move_dir: Option<String>,
}

pub fn def_lang() -> (r: String)
    ensures
        r@ == Lang::Tr.code(),
{
    proof {
        reveal_strlit("tr");
    }
    to_owned("tr")
}

pub fn def_theme() -> (r: Theme)
    ensures
        r == Theme::Default,
{
    Theme::Default
}

pub fn def_out_mode() -> (r: OutMode)
    ensures
        r@ == OutModeView::Source,
{
    OutMode::Source
}

pub fn def_src_action() -> (r: SrcAction)
    ensures
        r == SrcAction::Keep,
{
    SrcAction::Keep
}

impl Default for Settings {
    fn default() -> (s: Settings)
        ensures
            s.lang@ == Lang::Tr.code(),
            s.theme == Theme::Default,
            s.workers == 0,
            !s.overwrite,
            s.out_mode@ == OutModeView::Source,
            s.src_action == SrcAction::Keep,
            s.src_move_dir.is_none(),
    {
        Settings {
            lang: def_lang(),
            theme: def_theme(),
            workers: 0,
            overwrite: false,
            out_mode: def_out_mode(),
            src_action: def_src_action(),
            src_move_dir: None,
        }
    }
}

impl Settings {
    /// The language the stored code names.
    pub fn lang(&self) -> (l: Lang)
        ensures
            l == parse_spec(self.lang@),
    {
        Lang::parse(self.lang.as_str())
    }

    /// Stores the code of `l`; reading the language back gives `l`.
    pub fn set_lang(&mut self, l: Lang)
        ensures
            final(self).lang@ == l.code(),
            parse_spec(final(self).lang@) == l,
            final(self).theme == old(self).theme,
            final(self).workers == old(self).workers,
            final(self).overwrite == old(self).overwrite,
            final(self).out_mode@ == old(self).out_mode@,
            final(self).src_action == old(self).src_action,
            final(self).src_move_dir.deep_view() == old(self).src_move_dir.deep_view(),
    {
        self.lang = to_owned(l.as_str());
        proof {
            crate::lang::lemma_parse_code(l);
        }
    }

    pub fn duplicate(&self) -> (r: Settings)
        ensures
            r.lang@ == self.lang@,
            r.theme == self.theme,
            r.workers == self.workers,
            r.overwrite == self.overwrite,
            r.out_mode@ == self.out_mode@,
            r.src_action == self.src_action,
            r.src_move_dir.deep_view() == self.src_move_dir.deep_view(),
    {
        Settings {
            lang: self.lang.clone(),
            theme: self.theme,
            workers: self.workers,
            overwrite: self.overwrite,
            out_mode: self.out_mode.duplicate(),
            src_action: self.src_action,
            src_move_dir: crate::ffmpeg::clone_opt(&self.src_move_dir),
        }
    }
}

} // verus!
