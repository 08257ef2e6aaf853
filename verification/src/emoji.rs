//! The colour emoji the desktop interface draws, and the names their
//! pictures are registered under.

use vstd::prelude::*;

verus! {

#[derive(Clone, Copy, PartialEq, Eq, Structural, Debug, Hash)]
pub enum Emoji {
    Clapperboard,
    Folder,
    OpenFolder,
    Controls,
    BarChart,
    Thread,
    Scroll,
    Palette,
    Info,
    Rocket,
    Globe,
    Gear,
    FlagTr,
    FlagUs,
}

pub open spec fn label_spec(e: Emoji) -> &'static str {
    match e {
        Emoji::Clapperboard => "emoji_clapperboard",
        Emoji::Folder => "emoji_folder",
        Emoji::OpenFolder => "emoji_openfolder",
        Emoji::Controls => "emoji_controls",
        Emoji::BarChart => "emoji_barchart",
        Emoji::Thread => "emoji_thread",
        Emoji::Scroll => "emoji_scroll",
        Emoji::Palette => "emoji_palette",
        Emoji::Info => "emoji_info",
        Emoji::Rocket => "emoji_rocket",
        Emoji::Globe => "emoji_globe",
        Emoji::Gear => "emoji_gear",
        Emoji::FlagTr => "emoji_flagtr",
        Emoji::FlagUs => "emoji_flagus",
    }
}

impl Emoji {
    /// The name the emoji's picture is registered under.
    pub fn label(self) -> (r: &'static str)
        ensures
            r == label_spec(self),
    {
        match self {
            Emoji::Clapperboard => "emoji_clapperboard",
            Emoji::Folder => "emoji_folder",
            Emoji::OpenFolder => "emoji_openfolder",
            Emoji::Controls => "emoji_controls",
            Emoji::BarChart => "emoji_barchart",
            Emoji::Thread => "emoji_thread",
            Emoji::Scroll => "emoji_scroll",
            Emoji::Palette => "emoji_palette",
            Emoji::Info => "emoji_info",
            Emoji::Rocket => "emoji_rocket",
            Emoji::Globe => "emoji_globe",
            Emoji::Gear => "emoji_gear",
            Emoji::FlagTr => "emoji_flagtr",
            Emoji::FlagUs => "emoji_flagus",
        }
    }
}

} // verus!
