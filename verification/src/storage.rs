//! Shared-storage health on Termux: until `termux-setup-storage` has been
//! run and allowed, `~/storage/shared` does not exist and no file on the
//! phone can be read. Finding out whether we run on Termux and whether the
//! folder exists is the application's part; this module decides what the
//! user is told.

use vstd::prelude::*;

use crate::lang::Lang;
use crate::paths::{join, path_join};
use crate::text::to_owned;

verus! {

/// The message shown instead of the interface when storage access is
/// missing: it says what to do, step by step, and holds no raw system text.
pub open spec fn storage_message(lang: Lang) -> &'static str {
    match lang {
        Lang::Tr => "Depolama izni verilmemiş.\n\nTerminale çık, şunu çalıştır:\n\n    termux-setup-storage\n\nAçılan Android izin penceresinde 'İzin ver'e bas,\nsonra tekrar 'ffstudio' yaz.",
        Lang::En => "Storage permission is not granted.\n\nLeave the app, run:\n\n    termux-setup-storage\n\nTap 'Allow' in the Android dialog,\nthen run 'ffstudio' again.",
    }
}

/// `None` when there is nothing to report: not on Termux (a desktop has no
/// shared storage to check), or the shared folder is there.
pub fn health(on_termux: bool, shared_exists: bool, lang: Lang) -> (r: Option<String>)
    ensures
        r is None <==> (!on_termux || shared_exists),
        r matches Some(m) ==> m@ == storage_message(lang)@,
{
    if !on_termux || shared_exists {
        return None;
    }
    let m = match lang {
        Lang::Tr => "Depolama izni verilmemiş.\n\nTerminale çık, şunu çalıştır:\n\n    termux-setup-storage\n\nAçılan Android izin penceresinde 'İzin ver'e bas,\nsonra tekrar 'ffstudio' yaz.",
        Lang::En => "Storage permission is not granted.\n\nLeave the app, run:\n\n    termux-setup-storage\n\nTap 'Allow' in the Android dialog,\nthen run 'ffstudio' again.",
    };
    Some(to_owned(m))
}

/// Where the browser starts: on Termux the shared `Music` folder, else the
/// shared folder; elsewhere the downloads folder, the home folder, `/`.
/// `shared` is the shared folder when it exists, `music` whether its
/// `Music` folder does; `downloads` and `home` are given when they are
/// folders.
pub open spec fn default_start_spec(
    shared: Option<Seq<char>>,
    music: bool,
    downloads: Option<Seq<char>>,
    home: Option<Seq<char>>,
) -> Seq<char> {
    match shared {
        Some(s) => if music {
            path_join(s, "Music"@)
        } else {
            s
        },
        None => match downloads {
            Some(d) => d,
            None => match home {
                Some(h) => h,
                None => "/"@,
            },
        },
    }
}

pub fn default_start(
    shared: Option<String>,
    music: bool,
    downloads: Option<String>,
    home: Option<String>,
) -> (r: String)
    ensures
        r@ == default_start_spec(shared.deep_view(), music, downloads.deep_view(), home.deep_view()),
{
    match shared {
        Some(s) => if music {
            join(s.as_str(), "Music")
        } else {
            s
        },
        None => match downloads {
            Some(d) => d,
            None => match home {
                Some(h) => h,
                None => to_owned("/"),
            },
        },
    }
}

} // verus!
