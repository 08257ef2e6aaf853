//! Colour schemes of the terminal interface, held as plain values: one per
//! theme, and a colourless one for `NO_COLOR` where emphasis is given by
//! reverse video.

use vstd::prelude::*;

use crate::app::App;
use crate::config::Theme;

verus! {

/// A terminal colour: the terminal's own (`Reset`), a named one, or RGB.
#[derive(Clone, Copy, PartialEq, Eq, Structural, Debug)]
pub enum Colour {
    Reset,
    Black,
    White,
    Gray,
    DarkGray,
    Rgb(u8, u8, u8),
}

/// The colours of the interface; `plain` when no colour is used.
#[derive(Clone, Copy, PartialEq, Eq, Structural, Debug)]
pub struct Palette {
    pub bg: Colour,
    pub fg: Colour,
    pub accent: Colour,
    pub dim: Colour,
    pub ok: Colour,
    pub err: Colour,
    pub warn: Colour,
    pub sel: Colour,
    /// `NO_COLOR`: no colours, emphasis by reverse video.
    pub plain: bool,
}

/// A text style: the colours it sets, and whether it is bold and in
/// reverse video.
#[derive(Clone, Copy, PartialEq, Eq, Structural, Debug)]
pub struct TextStyle {
    pub fg: Option<Colour>,
    pub bg: Option<Colour>,
    pub bold: bool,
    pub reversed: bool,
}

/// The colourless palette.
pub open spec fn plain_spec() -> Palette {
    Palette {
        bg: Colour::Reset,
        fg: Colour::Reset,
        accent: Colour::Reset,
        dim: Colour::Reset,
        ok: Colour::Reset,
        err: Colour::Reset,
        warn: Colour::Reset,
        sel: Colour::Reset,
        plain: true,
    }
}

/// The palette of each theme.
pub open spec fn theme_spec(t: Theme) -> Palette {
    match t {
        Theme::Default => Palette {
            bg: Colour::Rgb(14, 18, 28),
            fg: Colour::Rgb(224, 228, 236),
            accent: Colour::Rgb(91, 157, 255),
            dim: Colour::Rgb(120, 130, 150),
            ok: Colour::Rgb(110, 205, 130),
            err: Colour::Rgb(240, 110, 110),
            warn: Colour::Rgb(230, 180, 90),
            sel: Colour::Rgb(40, 60, 95),
            plain: false,
        },
        Theme::Gruvbox => Palette {
            bg: Colour::Rgb(40, 40, 40),
            fg: Colour::Rgb(235, 219, 178),
            accent: Colour::Rgb(250, 189, 47),
            dim: Colour::Rgb(146, 131, 116),
            ok: Colour::Rgb(184, 187, 38),
            err: Colour::Rgb(251, 73, 52),
            warn: Colour::Rgb(254, 128, 25),
            sel: Colour::Rgb(80, 73, 69),
            plain: false,
        },
        Theme::Mono => Palette {
            bg: Colour::Black,
            fg: Colour::White,
            accent: Colour::Gray,
            dim: Colour::DarkGray,
            ok: Colour::White,
            err: Colour::White,
            warn: Colour::Gray,
            sel: Colour::DarkGray,
            plain: false,
        },
        Theme::Solarized => Palette {
            bg: Colour::Rgb(0, 43, 54),
            fg: Colour::Rgb(147, 161, 161),
            accent: Colour::Rgb(38, 139, 210),
            dim: Colour::Rgb(88, 110, 117),
            ok: Colour::Rgb(133, 153, 0),
            err: Colour::Rgb(220, 50, 47),
            warn: Colour::Rgb(181, 137, 0),
            sel: Colour::Rgb(7, 54, 66),
            plain: false,
        },
    }
}

/// Bold reverse video, with no colour.
pub open spec fn reversed_bold() -> TextStyle {
    TextStyle { fg: None, bg: None, bold: true, reversed: true }
}

/// The selected row: reverse video without colours, else bold on the
/// selection colour.
pub open spec fn selected_spec(p: Palette) -> TextStyle {
    if p.plain {
        reversed_bold()
    } else {
        TextStyle { fg: None, bg: Some(p.sel), bold: true, reversed: false }
    }
}

/// An emphasis chip (title, active tab): reverse video without colours,
/// else bold background colour on the accent.
pub open spec fn chip_spec(p: Palette) -> TextStyle {
    if p.plain {
        reversed_bold()
    } else {
        TextStyle { fg: Some(p.bg), bg: Some(p.accent), bold: true, reversed: false }
    }
}

impl Palette {
    pub fn plain() -> (r: Palette)
        ensures
            r == plain_spec(),
    {
        Palette {
            bg: Colour::Reset,
            fg: Colour::Reset,
            accent: Colour::Reset,
            dim: Colour::Reset,
            ok: Colour::Reset,
            err: Colour::Reset,
            warn: Colour::Reset,
            sel: Colour::Reset,
            plain: true,
        }
    }

    /// The application's palette: colourless under `NO_COLOR`, else its
    /// theme's.
    pub fn for_app(app: &App) -> (r: Palette)
        ensures
            r == (if app.no_color {
                plain_spec()
            } else {
                theme_spec(app.theme)
            }),
    {
        if app.no_color {
            Palette::plain()
        } else {
            Palette::of(app.theme)
        }
    }

    pub fn selected(&self) -> (r: TextStyle)
        ensures
            r == selected_spec(*self),
    {
        if self.plain {
            TextStyle { fg: None, bg: None, bold: true, reversed: true }
        } else {
            TextStyle { fg: None, bg: Some(self.sel), bold: true, reversed: false }
        }
    }

    pub fn chip(&self) -> (r: TextStyle)
        ensures
            r == chip_spec(*self),
    {
        if self.plain {
            TextStyle { fg: None, bg: None, bold: true, reversed: true }
        } else {
            TextStyle { fg: Some(self.bg), bg: Some(self.accent), bold: true, reversed: false }
        }
    }

    pub fn of(theme: Theme) -> (r: Palette)
        ensures
            r == theme_spec(theme),
    {
        match theme {
            Theme::Default => Palette {
                bg: Colour::Rgb(14, 18, 28),
                fg: Colour::Rgb(224, 228, 236),
                accent: Colour::Rgb(91, 157, 255),
                dim: Colour::Rgb(120, 130, 150),
                ok: Colour::Rgb(110, 205, 130),
                err: Colour::Rgb(240, 110, 110),
                warn: Colour::Rgb(230, 180, 90),
                sel: Colour::Rgb(40, 60, 95),
                plain: false,
            },
            Theme::Gruvbox => Palette {
                bg: Colour::Rgb(40, 40, 40),
                fg: Colour::Rgb(235, 219, 178),
                accent: Colour::Rgb(250, 189, 47),
                dim: Colour::Rgb(146, 131, 116),
                ok: Colour::Rgb(184, 187, 38),
                err: Colour::Rgb(251, 73, 52),
                warn: Colour::Rgb(254, 128, 25),
                sel: Colour::Rgb(80, 73, 69),
                plain: false,
            },
            Theme::Mono => Palette {
                bg: Colour::Black,
                fg: Colour::White,
                accent: Colour::Gray,
                dim: Colour::DarkGray,
                ok: Colour::White,
                err: Colour::White,
                warn: Colour::Gray,
                sel: Colour::DarkGray,
                plain: false,
            },
            Theme::Solarized => Palette {
                bg: Colour::Rgb(0, 43, 54),
                fg: Colour::Rgb(147, 161, 161),
                accent: Colour::Rgb(38, 139, 210),
                dim: Colour::Rgb(88, 110, 117),
                ok: Colour::Rgb(133, 153, 0),
                err: Colour::Rgb(220, 50, 47),
                warn: Colour::Rgb(181, 137, 0),
                sel: Colour::Rgb(7, 54, 66),
                plain: false,
            },
        }
    }
}

/// Under `NO_COLOR` no colour is used anywhere and emphasis is reverse
/// video; with the colours of any theme nothing is in reverse video.
pub proof fn lemma_no_color(t: Theme)
    ensures
        plain_spec().plain,
        plain_spec().bg == Colour::Reset && plain_spec().fg == Colour::Reset,
        plain_spec().accent == Colour::Reset && plain_spec().dim == Colour::Reset,
        plain_spec().ok == Colour::Reset && plain_spec().err == Colour::Reset,
        plain_spec().warn == Colour::Reset && plain_spec().sel == Colour::Reset,
        selected_spec(plain_spec()) == reversed_bold(),
        chip_spec(plain_spec()) == reversed_bold(),
        !theme_spec(t).plain,
        !selected_spec(theme_spec(t)).reversed,
        !chip_spec(theme_spec(t)).reversed,
{
}

} // verus!
