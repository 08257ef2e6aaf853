//! Conversion presets: what each one applies to, the ffmpeg arguments it
//! produces for a file, its short description and the size estimate.

use vstd::prelude::*;

use crate::ffmpeg::{Kind, Media};
use crate::lang::{text, tr, Key, Lang};
use crate::num::{decimal_round, fixed3, parse_decimal_rounded, push_fixed3};
use crate::paths::no_sep;
use crate::text::{
    append_strings, cat, chars_of, dec, dec_string, push_all, push_dec, push_string,
    replace_seq, replace_str, split_chars, split_seq, split_words, string_of, to_owned, trim,
    trim_chars, trim_seq, views_of, words,
};

verus! {

#[derive(Clone, Copy, PartialEq, Eq, Structural, Debug)]
pub enum Preset {
    Auto,
    // audio
    Mp3V0,
    Mp3V2,
    Mp3Cbr,
    Aac,
    Opus,
    Vorbis,
    Flac,
    Wav,
    // video
    H264Mp4,
    H265Mp4,
    H265Mkv,
    Av1Mp4,
    Vp9Webm,
    // image
    Jpeg,
    Webp,
    Avif,
    Png,
    Bmp,
    CoverArt,
    // other
    Remux,
    Merge,
    TargetSize,
    Clip,
    Gif,
    Split,
}

/// Number of presets in menu order.
pub const PRESET_COUNT: usize = 26;

/// The preset at position `i` of the menu (audio, video, image, other).
pub open spec fn preset_at_spec(i: int) -> Preset {
        if i == 0 {
            Preset::Auto
        } else if i == 1 {
            Preset::Mp3V0
        } else if i == 2 {
            Preset::Mp3V2
        } else if i == 3 {
            Preset::Mp3Cbr
        } else if i == 4 {
            Preset::Aac
        } else if i == 5 {
            Preset::Opus
        } else if i == 6 {
            Preset::Vorbis
        } else if i == 7 {
            Preset::Flac
        } else if i == 8 {
            Preset::Wav
        } else if i == 9 {
            Preset::H264Mp4
        } else if i == 10 {
            Preset::H265Mp4
        } else if i == 11 {
            Preset::H265Mkv
        } else if i == 12 {
            Preset::Av1Mp4
        } else if i == 13 {
            Preset::Vp9Webm
        } else if i == 14 {
            Preset::Jpeg
        } else if i == 15 {
            Preset::Webp
        } else if i == 16 {
            Preset::Avif
        } else if i == 17 {
            Preset::Png
        } else if i == 18 {
            Preset::Bmp
        } else if i == 19 {
            Preset::CoverArt
        } else if i == 20 {
            Preset::Remux
        } else if i == 21 {
            Preset::Merge
        } else if i == 22 {
            Preset::TargetSize
        } else if i == 23 {
            Preset::Clip
        } else if i == 24 {
            Preset::Gif
        } else {
            Preset::Split
        }
}

pub fn preset_at(i: usize) -> (p: Preset)
    requires
        i < PRESET_COUNT,
    ensures
        p == preset_at_spec(i as int),
        p.position() == i,
{
    if i == 0 {
        Preset::Auto
    } else if i == 1 {
        Preset::Mp3V0
    } else if i == 2 {
        Preset::Mp3V2
    } else if i == 3 {
        Preset::Mp3Cbr
    } else if i == 4 {
        Preset::Aac
    } else if i == 5 {
        Preset::Opus
    } else if i == 6 {
        Preset::Vorbis
    } else if i == 7 {
        Preset::Flac
    } else if i == 8 {
        Preset::Wav
    } else if i == 9 {
        Preset::H264Mp4
    } else if i == 10 {
        Preset::H265Mp4
    } else if i == 11 {
        Preset::H265Mkv
    } else if i == 12 {
        Preset::Av1Mp4
    } else if i == 13 {
        Preset::Vp9Webm
    } else if i == 14 {
        Preset::Jpeg
    } else if i == 15 {
        Preset::Webp
    } else if i == 16 {
        Preset::Avif
    } else if i == 17 {
        Preset::Png
    } else if i == 18 {
        Preset::Bmp
    } else if i == 19 {
        Preset::CoverArt
    } else if i == 20 {
        Preset::Remux
    } else if i == 21 {
        Preset::Merge
    } else if i == 22 {
        Preset::TargetSize
    } else if i == 23 {
        Preset::Clip
    } else if i == 24 {
        Preset::Gif
    } else {
        Preset::Split
    }
}

impl Default for Preset {
    fn default() -> (p: Preset)
        ensures
            p == Preset::Auto,
    {
        Preset::Auto
    }
}

impl Preset {
    /// Position in the menu.
    pub open spec fn position(self) -> nat {
        match self {
            Preset::Auto => 0,
            Preset::Mp3V0 => 1,
            Preset::Mp3V2 => 2,
            Preset::Mp3Cbr => 3,
            Preset::Aac => 4,
            Preset::Opus => 5,
            Preset::Vorbis => 6,
            Preset::Flac => 7,
            Preset::Wav => 8,
            Preset::H264Mp4 => 9,
            Preset::H265Mp4 => 10,
            Preset::H265Mkv => 11,
            Preset::Av1Mp4 => 12,
            Preset::Vp9Webm => 13,
            Preset::Jpeg => 14,
            Preset::Webp => 15,
            Preset::Avif => 16,
            Preset::Png => 17,
            Preset::Bmp => 18,
            Preset::CoverArt => 19,
            Preset::Remux => 20,
            Preset::Merge => 21,
            Preset::TargetSize => 22,
            Preset::Clip => 23,
            Preset::Gif => 24,
            Preset::Split => 25,
        }
    }

    pub fn index(self) -> (r: usize)
        ensures
            r == self.position(),
            r < PRESET_COUNT,
            preset_at_spec(r as int) == self,
    {
        match self {
            Preset::Auto => 0,
            Preset::Mp3V0 => 1,
            Preset::Mp3V2 => 2,
            Preset::Mp3Cbr => 3,
            Preset::Aac => 4,
            Preset::Opus => 5,
            Preset::Vorbis => 6,
            Preset::Flac => 7,
            Preset::Wav => 8,
            Preset::H264Mp4 => 9,
            Preset::H265Mp4 => 10,
            Preset::H265Mkv => 11,
            Preset::Av1Mp4 => 12,
            Preset::Vp9Webm => 13,
            Preset::Jpeg => 14,
            Preset::Webp => 15,
            Preset::Avif => 16,
            Preset::Png => 17,
            Preset::Bmp => 18,
            Preset::CoverArt => 19,
            Preset::Remux => 20,
            Preset::Merge => 21,
            Preset::TargetSize => 22,
            Preset::Clip => 23,
            Preset::Gif => 24,
            Preset::Split => 25,
        }
    }

    /// Menu title of the preset.
    pub open spec fn label_text(self, lang: Lang) -> &'static str {
        match self {
            Preset::Auto => match lang {
                Lang::Tr => "Otomatik - türüne göre (ses: MP3 V0, video: H.264, resim: JPEG)",
                Lang::En => "Auto - by type (audio: MP3 V0, video: H.264, image: JPEG)",
            },
            Preset::Mp3V0 => match lang {
                Lang::Tr => "Ses - MP3 (V0, en yüksek kalite)",
                Lang::En => "Audio - MP3 (V0, highest quality)",
            },
            Preset::Mp3V2 => match lang {
                Lang::Tr => "Ses - MP3 (V2, çok iyi)",
                Lang::En => "Audio - MP3 (V2, very good)",
            },
            Preset::Mp3Cbr => match lang {
                Lang::Tr => "Ses - MP3 (sabit bitrate: 320/256/192/160/128)",
                Lang::En => "Audio - MP3 (fixed bitrate: 320/256/192/160/128)",
            },
            Preset::Aac => match lang {
                Lang::Tr => "Ses - AAC / M4A",
                Lang::En => "Audio - AAC / M4A",
            },
            Preset::Opus => match lang {
                Lang::Tr => "Ses - Opus (modern, çok verimli)",
                Lang::En => "Audio - Opus (modern, very efficient)",
            },
            Preset::Vorbis => match lang {
                Lang::Tr => "Ses - Vorbis / OGG",
                Lang::En => "Audio - Vorbis / OGG",
            },
            Preset::Flac => match lang {
                Lang::Tr => "Ses - FLAC (lossless)",
                Lang::En => "Audio - FLAC (lossless)",
            },
            Preset::Wav => match lang {
                Lang::Tr => "Ses - WAV 16-bit (lossless)",
                Lang::En => "Audio - WAV 16-bit (lossless)",
            },
            Preset::H264Mp4 => match lang {
                Lang::Tr => "Video - H.264 / MP4 (en uyumlu)",
                Lang::En => "Video - H.264 / MP4 (most compatible)",
            },
            Preset::H265Mp4 => match lang {
                Lang::Tr => "Video - H.265 HEVC / MP4 (daha verimli)",
                Lang::En => "Video - H.265 HEVC / MP4 (more efficient)",
            },
            Preset::H265Mkv => match lang {
                Lang::Tr => "Video - H.265 HEVC / MKV",
                Lang::En => "Video - H.265 HEVC / MKV",
            },
            Preset::Av1Mp4 => match lang {
                Lang::Tr => "Video - AV1 / MP4 (en verimli, daha yavaş)",
                Lang::En => "Video - AV1 / MP4 (most efficient, slower)",
            },
            Preset::Vp9Webm => match lang {
                Lang::Tr => "Video - VP9 + Opus / WebM",
                Lang::En => "Video - VP9 + Opus / WebM",
            },
            Preset::Jpeg => match lang {
                Lang::Tr => "Resim - JPEG",
                Lang::En => "Image - JPEG",
            },
            Preset::Webp => match lang {
                Lang::Tr => "Resim - WebP",
                Lang::En => "Image - WebP",
            },
            Preset::Avif => match lang {
                Lang::Tr => "Resim - AVIF (daha verimli)",
                Lang::En => "Image - AVIF (more efficient)",
            },
            Preset::Png => match lang {
                Lang::Tr => "Resim - PNG (lossless)",
                Lang::En => "Image - PNG (lossless)",
            },
            Preset::Bmp => match lang {
                Lang::Tr => "Resim - BMP",
                Lang::En => "Image - BMP",
            },
            Preset::CoverArt => match lang {
                Lang::Tr => "Resim - Kapak görseli çıkar (ses/video içinden)",
                Lang::En => "Image - Extract cover art (from audio/video)",
            },
            Preset::Remux => match lang {
                Lang::Tr => "Sadece kapsül değiştir (stream copy, anında biter)",
                Lang::En => "Change container only (stream copy, instant)",
            },
            Preset::Merge => match lang {
                Lang::Tr => "Tüm listeyi TEK dosyada birleştir (concat)",
                Lang::En => "Merge whole list into ONE file (concat)",
            },
            Preset::TargetSize => match lang {
                Lang::Tr => "Video - hedef boyut (MB) sıkıştır",
                Lang::En => "Video - compress to target size (MB)",
            },
            Preset::Clip => match lang {
                Lang::Tr => "Video - kısa klip (baştan/sona kes)",
                Lang::En => "Video - short clip (trim from start/end)",
            },
            Preset::Gif => match lang {
                Lang::Tr => "Video - GIF (ara kes, döngü)",
                Lang::En => "Video - GIF (trim middle, loop)",
            },
            Preset::Split => match lang {
                Lang::Tr => "Video - parçalara böl (her parça N saniye)",
                Lang::En => "Video - split into parts (each N seconds)",
            },
        }
    }

    pub fn label(self, lang: Lang) -> (r: &'static str)
        ensures
            r == self.label_text(lang),
    {
        match self {
            Preset::Auto => match lang {
                Lang::Tr => "Otomatik - türüne göre (ses: MP3 V0, video: H.264, resim: JPEG)",
                Lang::En => "Auto - by type (audio: MP3 V0, video: H.264, image: JPEG)",
            },
            Preset::Mp3V0 => match lang {
                Lang::Tr => "Ses - MP3 (V0, en yüksek kalite)",
                Lang::En => "Audio - MP3 (V0, highest quality)",
            },
            Preset::Mp3V2 => match lang {
                Lang::Tr => "Ses - MP3 (V2, çok iyi)",
                Lang::En => "Audio - MP3 (V2, very good)",
            },
            Preset::Mp3Cbr => match lang {
                Lang::Tr => "Ses - MP3 (sabit bitrate: 320/256/192/160/128)",
                Lang::En => "Audio - MP3 (fixed bitrate: 320/256/192/160/128)",
            },
            Preset::Aac => match lang {
                Lang::Tr => "Ses - AAC / M4A",
                Lang::En => "Audio - AAC / M4A",
            },
            Preset::Opus => match lang {
                Lang::Tr => "Ses - Opus (modern, çok verimli)",
                Lang::En => "Audio - Opus (modern, very efficient)",
            },
            Preset::Vorbis => match lang {
                Lang::Tr => "Ses - Vorbis / OGG",
                Lang::En => "Audio - Vorbis / OGG",
            },
            Preset::Flac => match lang {
                Lang::Tr => "Ses - FLAC (lossless)",
                Lang::En => "Audio - FLAC (lossless)",
            },
            Preset::Wav => match lang {
                Lang::Tr => "Ses - WAV 16-bit (lossless)",
                Lang::En => "Audio - WAV 16-bit (lossless)",
            },
            Preset::H264Mp4 => match lang {
                Lang::Tr => "Video - H.264 / MP4 (en uyumlu)",
                Lang::En => "Video - H.264 / MP4 (most compatible)",
            },
            Preset::H265Mp4 => match lang {
                Lang::Tr => "Video - H.265 HEVC / MP4 (daha verimli)",
                Lang::En => "Video - H.265 HEVC / MP4 (more efficient)",
            },
            Preset::H265Mkv => match lang {
                Lang::Tr => "Video - H.265 HEVC / MKV",
                Lang::En => "Video - H.265 HEVC / MKV",
            },
            Preset::Av1Mp4 => match lang {
                Lang::Tr => "Video - AV1 / MP4 (en verimli, daha yavaş)",
                Lang::En => "Video - AV1 / MP4 (most efficient, slower)",
            },
            Preset::Vp9Webm => match lang {
                Lang::Tr => "Video - VP9 + Opus / WebM",
                Lang::En => "Video - VP9 + Opus / WebM",
            },
            Preset::Jpeg => match lang {
                Lang::Tr => "Resim - JPEG",
                Lang::En => "Image - JPEG",
            },
            Preset::Webp => match lang {
                Lang::Tr => "Resim - WebP",
                Lang::En => "Image - WebP",
            },
            Preset::Avif => match lang {
                Lang::Tr => "Resim - AVIF (daha verimli)",
                Lang::En => "Image - AVIF (more efficient)",
            },
            Preset::Png => match lang {
                Lang::Tr => "Resim - PNG (lossless)",
                Lang::En => "Image - PNG (lossless)",
            },
            Preset::Bmp => match lang {
                Lang::Tr => "Resim - BMP",
                Lang::En => "Image - BMP",
            },
            Preset::CoverArt => match lang {
                Lang::Tr => "Resim - Kapak görseli çıkar (ses/video içinden)",
                Lang::En => "Image - Extract cover art (from audio/video)",
            },
            Preset::Remux => match lang {
                Lang::Tr => "Sadece kapsül değiştir (stream copy, anında biter)",
                Lang::En => "Change container only (stream copy, instant)",
            },
            Preset::Merge => match lang {
                Lang::Tr => "Tüm listeyi TEK dosyada birleştir (concat)",
                Lang::En => "Merge whole list into ONE file (concat)",
            },
            Preset::TargetSize => match lang {
                Lang::Tr => "Video - hedef boyut (MB) sıkıştır",
                Lang::En => "Video - compress to target size (MB)",
            },
            Preset::Clip => match lang {
                Lang::Tr => "Video - kısa klip (baştan/sona kes)",
                Lang::En => "Video - short clip (trim from start/end)",
            },
            Preset::Gif => match lang {
                Lang::Tr => "Video - GIF (ara kes, döngü)",
                Lang::En => "Video - GIF (trim middle, loop)",
            },
            Preset::Split => match lang {
                Lang::Tr => "Video - parçalara böl (her parça N saniye)",
                Lang::En => "Video - split into parts (each N seconds)",
            },
        }
    }

    /// `Auto` picks by file type: MP3 V0 for audio, H.264 for video, JPEG
    /// for images; every other preset stays.
    pub open spec fn resolve_kind(self, kind: Kind) -> Preset {
        if self == Preset::Auto {
            match kind {
                Kind::Audio => Preset::Mp3V0,
                Kind::Video => Preset::H264Mp4,
                Kind::Image => Preset::Jpeg,
            }
        } else {
            self
        }
    }

    pub fn resolve(self, m: &Media) -> (r: Preset)
        ensures
            r == self.resolve_kind(m.kind),
            r != Preset::Auto,
    {
        if self == Preset::Auto {
            match m.kind {
                Kind::Audio => Preset::Mp3V0,
                Kind::Video => Preset::H264Mp4,
                Kind::Image => Preset::Jpeg,
            }
        } else {
            self
        }
    }

    pub open spec fn default_crf_spec(self) -> Option<u32> {
        match self {
            Preset::H264Mp4 => Some(23),
            Preset::Clip => Some(23),
            Preset::H265Mp4 | Preset::H265Mkv => Some(28),
            Preset::Av1Mp4 => Some(30),
            Preset::Vp9Webm => Some(32),
            _ => None,
        }
    }

    pub fn default_crf(self) -> (r: Option<u32>)
        ensures
            r == self.default_crf_spec(),
    {
        match self {
            Preset::H264Mp4 => Some(23),
            Preset::Clip => Some(23),
            Preset::H265Mp4 | Preset::H265Mkv => Some(28),
            Preset::Av1Mp4 => Some(30),
            Preset::Vp9Webm => Some(32),
            _ => None,
        }
    }

    pub open spec fn is_audio_spec(self) -> bool {
        matches!(
            self,
            Preset::Mp3V0 | Preset::Mp3V2 | Preset::Mp3Cbr | Preset::Aac | Preset::Opus
                | Preset::Vorbis | Preset::Flac | Preset::Wav
        )
    }

    pub open spec fn is_video_spec(self) -> bool {
        matches!(
            self,
            Preset::H264Mp4 | Preset::H265Mp4 | Preset::H265Mkv | Preset::Av1Mp4
                | Preset::Vp9Webm | Preset::TargetSize | Preset::Clip | Preset::Gif
                | Preset::Split
        )
    }

    pub open spec fn is_image_spec(self) -> bool {
        matches!(self, Preset::Jpeg | Preset::Webp | Preset::Avif | Preset::Png | Preset::Bmp)
    }

    pub open spec fn needs_scale_spec(self) -> bool {
        matches!(
            self,
            Preset::H264Mp4 | Preset::H265Mp4 | Preset::H265Mkv | Preset::Av1Mp4
                | Preset::Vp9Webm | Preset::Clip | Preset::TargetSize | Preset::Jpeg
                | Preset::Webp | Preset::Avif | Preset::Png | Preset::Bmp
        )
    }

    /// Which file types the preset makes sense for: everything for Auto,
    /// Remux and Merge; audio presets and cover extraction for audio and
    /// video; video presets for video; image presets for images.
    pub open spec fn applies_to_spec(self, kind: Kind) -> bool {
        if matches!(self, Preset::Auto | Preset::Remux | Preset::Merge) {
            true
        } else if self.is_audio_spec() || self == Preset::CoverArt {
            kind != Kind::Image
        } else if self.is_video_spec() {
            kind == Kind::Video
        } else {
            kind == Kind::Image
        }
    }

    pub fn applies_to(self, kind: Kind) -> (r: bool)
        ensures
            r == self.applies_to_spec(kind),
    {
        match self {
            Preset::Auto | Preset::Remux | Preset::Merge => true,
            Preset::Mp3V0
            | Preset::Mp3V2
            | Preset::Mp3Cbr
            | Preset::Aac
            | Preset::Opus
            | Preset::Vorbis
            | Preset::Flac
            | Preset::Wav => kind != Kind::Image,
            Preset::H264Mp4
            | Preset::H265Mp4
            | Preset::H265Mkv
            | Preset::Av1Mp4
            | Preset::Vp9Webm
            | Preset::TargetSize
            | Preset::Clip
            | Preset::Gif
            | Preset::Split => kind == Kind::Video,
            Preset::Jpeg | Preset::Webp | Preset::Avif | Preset::Png | Preset::Bmp => kind
                == Kind::Image,
            Preset::CoverArt => kind != Kind::Image,
        }
    }

    pub fn is_video(self) -> (r: bool)
        ensures
            r == self.is_video_spec(),
    {
        matches!(
            self,
            Preset::H264Mp4 | Preset::H265Mp4 | Preset::H265Mkv | Preset::Av1Mp4
                | Preset::Vp9Webm | Preset::TargetSize | Preset::Clip | Preset::Gif
                | Preset::Split
        )
    }

    /// Presets that offer a maximum width.
    pub fn needs_scale(self) -> (r: bool)
        ensures
            r == self.needs_scale_spec(),
    {
        matches!(
            self,
            Preset::H264Mp4 | Preset::H265Mp4 | Preset::H265Mkv | Preset::Av1Mp4
                | Preset::Vp9Webm | Preset::Clip | Preset::TargetSize | Preset::Jpeg
                | Preset::Webp | Preset::Avif | Preset::Png | Preset::Bmp
        )
    }

    pub fn is_image(self) -> (r: bool)
        ensures
            r == self.is_image_spec(),
    {
        matches!(self, Preset::Jpeg | Preset::Webp | Preset::Avif | Preset::Png | Preset::Bmp)
    }

    pub fn is_audio(self) -> (r: bool)
        ensures
            r == self.is_audio_spec(),
    {
        matches!(
            self,
            Preset::Mp3V0 | Preset::Mp3V2 | Preset::Mp3Cbr | Preset::Aac | Preset::Opus
                | Preset::Vorbis | Preset::Flac | Preset::Wav
        )
    }
}

/// The audio, video and image groups of the menu, and `applies_to`, say the
/// same: a grouped preset applies exactly to its own kind of file (and
/// audio presets to video files too, whose sound they extract).
pub proof fn lemma_groups_apply(p: Preset, kind: Kind)
    ensures
        p.is_audio_spec() ==> (p.applies_to_spec(kind) <==> kind != Kind::Image),
        p.is_video_spec() ==> (p.applies_to_spec(kind) <==> kind == Kind::Video),
        p.is_image_spec() ==> (p.applies_to_spec(kind) <==> kind == Kind::Image),
        !(p.is_audio_spec() && p.is_video_spec()),
        !(p.is_video_spec() && p.is_image_spec()),
        !(p.is_audio_spec() && p.is_image_spec()),
        p.applies_to_spec(kind) ==> p.resolve_kind(kind).applies_to_spec(kind),
{
}

} // verus!

verus! {

// ---------------------------------------------------------------------------
// The user's choices
// ---------------------------------------------------------------------------

#[derive(Debug)]
pub struct Profile {
    pub preset: Preset,
    /// MP3 constant bit rate, 128..=320.
    pub mp3_cbr: u32,
    /// AAC bit rate; 0 means high-quality VBR.
    pub aac_kbps: u32,
    pub opus_kbps: u32,
    pub crf: u32,
    /// The user moved the CRF (a preset's default then no longer applies).
    pub crf_touched: bool,
    /// Index into the x264 speed names.
    pub x264_preset: u32,
    pub video_audio_kbps: u32,
    /// 0 means no down-scaling.
    pub max_width: u32,
    pub img_quality: u32,
    /// Index into the remux containers.
    pub remux_container: u32,
    pub custom_args: String,
    pub target_mb: u32,
    /// `ss`, `mm:ss` or `hh:mm:ss`; empty means from the start.
    pub trim_start: String,
    /// Empty means to the end.
    pub trim_end: String,
    pub gif_width: u32,
    pub gif_fps: u32,
    pub split_secs: u32,
    pub merge_name: String,
    pub merge_reencode: bool,
    pub cover_png: bool,
}

/// The settings a profile starts from.
pub open spec fn default_profile(p: Profile) -> bool {
    &&& p.preset == Preset::Auto
    &&& p.mp3_cbr == 320
    &&& p.aac_kbps == 256
    &&& p.opus_kbps == 256
    &&& p.crf == 23
    &&& !p.crf_touched
    &&& p.x264_preset == 5
    &&& p.video_audio_kbps == 192
    &&& p.max_width == 0
    &&& p.img_quality == 85
    &&& p.remux_container == 0
    &&& p.custom_args@ == Seq::<char>::empty()
    &&& p.target_mb == 10
    &&& p.trim_start@ == Seq::<char>::empty()
    &&& p.trim_end@ == Seq::<char>::empty()
    &&& p.gif_width == 480
    &&& p.gif_fps == 10
    &&& p.split_secs == 60
    &&& p.merge_name@ == "birlesmis"@
    &&& !p.merge_reencode
    &&& !p.cover_png
}

impl Default for Profile {
    fn default() -> (p: Profile)
        ensures
            default_profile(p),
    {
        Profile {
            preset: Preset::Auto,
            mp3_cbr: 320,
            aac_kbps: 256,
            opus_kbps: 256,
            crf: 23,
            crf_touched: false,
            x264_preset: 5,
            video_audio_kbps: 192,
            max_width: 0,
            img_quality: 85,
            remux_container: 0,
            custom_args: String::new(),
            target_mb: 10,
            trim_start: String::new(),
            trim_end: String::new(),
            gif_width: 480,
            gif_fps: 10,
            split_secs: 60,
            merge_name: to_owned("birlesmis"),
            merge_reencode: false,
            cover_png: false,
        }
    }
}

/// x264/x265 speed names; the index wraps around.
pub open spec fn x264_name(i: u32) -> &'static str {
    let k = i % 8;
    if k == 0 {
        "ultrafast"
    } else if k == 1 {
        "superfast"
    } else if k == 2 {
        "veryfast"
    } else if k == 3 {
        "faster"
    } else if k == 4 {
        "fast"
    } else if k == 5 {
        "medium"
    } else if k == 6 {
        "slow"
    } else {
        "slower"
    }
}

pub fn x264_preset_name(i: u32) -> (r: &'static str)
    ensures
        r == x264_name(i),
{
    let k = i % 8;
    if k == 0 {
        "ultrafast"
    } else if k == 1 {
        "superfast"
    } else if k == 2 {
        "veryfast"
    } else if k == 3 {
        "faster"
    } else if k == 4 {
        "fast"
    } else if k == 5 {
        "medium"
    } else if k == 6 {
        "slow"
    } else {
        "slower"
    }
}

/// Remux containers: (menu name, extension); the index wraps around.
pub open spec fn remux_pair(i: u32) -> (&'static str, &'static str) {
    let k = i % 4;
    if k == 0 {
        ("MP4 (mp4)", "mp4")
    } else if k == 1 {
        ("MKV (mkv)", "mkv")
    } else if k == 2 {
        ("WebM (webm)", "webm")
    } else {
        ("MOV (mov)", "mov")
    }
}

pub fn remux_container(i: u32) -> (r: (&'static str, &'static str))
    ensures
        r == remux_pair(i),
{
    let k = i % 4;
    if k == 0 {
        ("MP4 (mp4)", "mp4")
    } else if k == 1 {
        ("MKV (mkv)", "mkv")
    } else if k == 2 {
        ("WebM (webm)", "webm")
    } else {
        ("MOV (mov)", "mov")
    }
}

// ---------------------------------------------------------------------------
// Times
// ---------------------------------------------------------------------------

/// One `:`-separated part of a time, in milliseconds (rounded to the
/// nearest, ties to even).
pub open spec fn part_ms(t: Seq<char>) -> Option<nat> {
    decimal_round(trim_seq(t), 3)
}

/// `ss`, `mm:ss` or `hh:mm:ss` (each part a non-negative decimal, spaces
/// allowed around parts) in milliseconds; `None` for an empty or malformed
/// text, more than three parts, or a value past 64 bits.
pub open spec fn parse_time_spec(s: Seq<char>) -> Option<nat> {
    let t = trim_seq(s);
    let parts = split_seq(t, ':');
    if t.len() == 0 || parts.len() > 3 || !(forall|i: int|
        0 <= i < parts.len() ==> (#[trigger] part_ms(parts[i])) is Some) {
        None
    } else {
        let v: nat = if parts.len() == 1 {
            part_ms(parts[0]).unwrap()
        } else if parts.len() == 2 {
            part_ms(parts[0]).unwrap() * 60 + part_ms(parts[1]).unwrap()
        } else {
            part_ms(parts[0]).unwrap() * 3600 + part_ms(parts[1]).unwrap() * 60 + part_ms(
                parts[2],
            ).unwrap()
        };
        if v <= u64::MAX {
            Some(v)
        } else {
            None
        }
    }
}

fn part_value(p: &Vec<char>) -> (r: Option<u64>)
    ensures
        r matches Some(x) ==> part_ms(p@) == Some(x as nat),
        r is None ==> part_ms(p@) is None,
{
    let t = trim_chars(p);
    let r = parse_decimal_rounded(&t, 0, t.len(), 3);
    assert(t@.subrange(0, t@.len() as int) =~= t@);
    r
}

/// Reads a time in milliseconds (see `parse_time_spec`).
pub fn parse_time(s: &str) -> (r: Option<u64>)
    ensures
        r matches Some(x) ==> parse_time_spec(s@) == Some(x as nat),
        r is None ==> parse_time_spec(s@) is None,
{
    let v = chars_of(s);
    let t = trim_chars(&v);
    if t.len() == 0 {
        return None;
    }
    let parts = split_chars(&t, ':');
    let ghost ps = parts.deep_view();
    if parts.len() > 3 {
        return None;
    }
    proof {
        crate::cpu::lemma_split_from_nonempty(t@, ':', 0, 0);
    }
    let mut vals: Vec<u64> = Vec::new();
    let mut i: usize = 0;
    while i < parts.len()
        invariant
            ps == parts.deep_view(),
            ps == split_seq(trim_seq(s@), ':'),
            i <= ps.len(),
            vals@.len() == i,
            forall|j: int| 0 <= j < i ==> part_ms(#[trigger] ps[j]) == Some(vals@[j] as nat),
        decreases ps.len() - i,
    {
        assert(parts[i as int].deep_view() =~= parts[i as int]@);
        match part_value(&parts[i]) {
            Some(x) => vals.push(x),
            None => {
                return None;
            },
        }
        i += 1;
    }
    let n = vals.len();
    let total: u128 = if n == 1 {
        vals[0] as u128
    } else if n == 2 {
        (vals[0] as u128) * 60 + (vals[1] as u128)
    } else {
        (vals[0] as u128) * 3600 + (vals[1] as u128) * 60 + (vals[2] as u128)
    };
    if total > 0xffff_ffff_ffff_ffff {
        return None;
    }
    Some(total as u64)
}

/// What the trim fields give: the `-ss` value before the input and the
/// `-t` value after it, or an error when the end is not after the start.
pub open spec fn trim_spec(start: Seq<char>, end: Seq<char>) -> Result<
    (Option<Seq<char>>, Option<Seq<char>>),
    (),
> {
    match (parse_time_spec(start), parse_time_spec(end)) {
        (Some(s), Some(e)) => if e > s {
            Ok((Some(fixed3(s)), Some(fixed3((e - s) as nat))))
        } else {
            Err(())
        },
        (Some(s), None) => Ok((Some(fixed3(s)), None)),
        (None, Some(e)) => Ok((None, Some(fixed3(e)))),
        (None, None) => Ok((None, None)),
    }
}

/// The trim fields cut the clip: the start, when given, becomes `-ss` and
/// the end, when given, becomes `-t` with the clip's length (the end less
/// the start, or the end itself from the beginning); neither is ever
/// dropped. The fields are refused only when both are given and the end is
/// not after the start.
pub proof fn lemma_trim_cut(start: Seq<char>, end: Seq<char>)
    ensures
        match trim_spec(start, end) {
            Ok((ss, t)) => {
                &&& (ss is Some <==> parse_time_spec(start) is Some)
                &&& (t is Some <==> parse_time_spec(end) is Some)
                &&& (ss matches Some(x) ==> x == fixed3(parse_time_spec(start)->0))
                &&& (t matches Some(x) ==> x == fixed3(
                    (parse_time_spec(end)->0 - parse_time_spec(start).unwrap_or(0)) as nat,
                ))
                &&& (parse_time_spec(start) is Some && parse_time_spec(end) is Some ==> parse_time_spec(
                    end,
                )->0 > parse_time_spec(start)->0)
            },
            Err(_) => parse_time_spec(start) is Some && parse_time_spec(end) is Some
                && parse_time_spec(end)->0 <= parse_time_spec(start)->0,
        },
{
    match (parse_time_spec(start), parse_time_spec(end)) {
        (Some(a), Some(b)) => {
            if b > a {
                assert(trim_spec(start, end) == Ok::<(Option<Seq<char>>, Option<Seq<char>>), ()>(
                    (Some(fixed3(a)), Some(fixed3((b - a) as nat))),
                ));
            }
        },
        (Some(a), None) => {},
        (None, Some(b)) => {
            assert((b - 0) as nat == b);
        },
        (None, None) => {},
    }
}

fn fixed3_string(ms: u64) -> (r: String)
    ensures
        r@ == fixed3(ms as nat),
{
    let mut r = String::new();
    push_fixed3(&mut r, ms);
    assert(r@ =~= fixed3(ms as nat));
    r
}

/// (`-ss` value, `-t` value) from the trim fields; `TrimBadOrder` when the
/// end is not after the start.
pub fn trim_args(start: &str, end: &str, lang: Lang) -> (r: Result<
    (Option<String>, Option<String>),
    String,
>)
    ensures
        match r {
            Ok((a, b)) => trim_spec(start@, end@) == Ok::<
                (Option<Seq<char>>, Option<Seq<char>>),
                (),
            >((a.deep_view(), b.deep_view())),
            Err(e) => trim_spec(start@, end@) is Err && e@ == text(lang, Key::TrimBadOrder)@,
        },
{
    let s = parse_time(start);
    let e = parse_time(end);
    match (s, e) {
        (Some(s), Some(e)) => if e > s {
            Ok((Some(fixed3_string(s)), Some(fixed3_string(e - s))))
        } else {
            Err(to_owned(tr(lang, Key::TrimBadOrder)))
        },
        (Some(s), None) => Ok((Some(fixed3_string(s)), None)),
        (None, Some(e)) => Ok((None, Some(fixed3_string(e)))),
        (None, None) => Ok((None, None)),
    }
}

} // verus!

verus! {

// ---------------------------------------------------------------------------
// Descriptions
// ---------------------------------------------------------------------------

/// A trim field for display: its trimmed text, or `word` when empty.
pub open spec fn shown_time(t: Seq<char>, word: Seq<char>) -> Seq<char> {
    if trim_seq(t).len() == 0 {
        word
    } else {
        trim_seq(t)
    }
}

/// Short description of what a preset produces.
pub open spec fn desc_spec(preset: Preset, p: Profile, lang: Lang) -> Seq<char> {
    match preset {
        Preset::Auto => text(lang, Key::AutoWord)@,
        Preset::Mp3V0 => "MP3 V0 (~220 kbps)"@,
        Preset::Mp3V2 => "MP3 V2 (~195 kbps)"@,
        Preset::Mp3Cbr => "MP3 "@ + dec(p.mp3_cbr as nat) + " CBR"@,
        Preset::Aac => if p.aac_kbps == 0 {
            "AAC "@ + text(lang, Key::VbrHigh)@ + " (~220 kbps) - M4A"@
        } else {
            "AAC "@ + dec(p.aac_kbps as nat) + " kbps - M4A"@
        },
        Preset::Opus => "Opus "@ + dec(p.opus_kbps as nat) + " kbps"@,
        Preset::Vorbis => "Vorbis q6 (~160 kbps)"@,
        Preset::Flac => "FLAC (lossless)"@,
        Preset::Wav => "WAV 16-bit (lossless)"@,
        Preset::H264Mp4 => "H.264 CRF"@ + dec(p.crf as nat) + " + AAC "@ + dec(
            p.video_audio_kbps as nat,
        ) + "k - MP4"@,
        Preset::H265Mp4 => "H.265 CRF"@ + dec(p.crf as nat) + " + AAC "@ + dec(
            p.video_audio_kbps as nat,
        ) + "k - MP4"@,
        Preset::H265Mkv => "H.265 CRF"@ + dec(p.crf as nat) + " + AAC "@ + dec(
            p.video_audio_kbps as nat,
        ) + "k - MKV"@,
        Preset::Av1Mp4 => "AV1 CRF"@ + dec(p.crf as nat) + " + AAC "@ + dec(
            p.video_audio_kbps as nat,
        ) + "k - MP4"@,
        Preset::Vp9Webm => "VP9 CRF"@ + dec(p.crf as nat) + " + Opus 160k - WebM"@,
        Preset::Jpeg => "JPEG "@ + text(lang, Key::QualityWord)@ + " "@ + dec(
            p.img_quality as nat,
        ),
        Preset::Webp => "WebP "@ + text(lang, Key::QualityWord)@ + " "@ + dec(
            p.img_quality as nat,
        ),
        Preset::Avif => "AVIF "@ + text(lang, Key::QualityWord)@ + " "@ + dec(
            p.img_quality as nat,
        ),
        Preset::Png => "PNG (lossless)"@,
        Preset::Bmp => "BMP"@,
        Preset::CoverArt => if p.cover_png {
            "Kapak (PNG)"@
        } else {
            "Kapak (JPEG q2)"@
        },
        Preset::Remux => "Remux "@ + remux_pair(p.remux_container).0@ + " (stream copy)"@,
        Preset::Merge => text(lang, Key::MergeDescConcat)@,
        Preset::TargetSize => replace_seq(
            text(lang, Key::TargetDesc)@,
            "{}"@,
            dec(p.target_mb as nat),
        ),
        Preset::Clip => "Klip "@ + shown_time(p.trim_start@, text(lang, Key::ClipStartWord)@)
            + "-"@ + shown_time(p.trim_end@, text(lang, Key::ClipEndWord)@) + " (H.264 CRF"@
            + dec(p.crf as nat) + ")"@,
        Preset::Gif => "GIF "@ + dec(p.gif_width as nat) + "px @ "@ + dec(p.gif_fps as nat)
            + "fps"@ + (if trim_seq(p.trim_start@).len() == 0 {
            seq![]
        } else {
            " "@ + trim_seq(p.trim_start@)
        }) + (if trim_seq(p.trim_end@).len() == 0 {
            seq![]
        } else {
            "-"@ + trim_seq(p.trim_end@)
        }),
        Preset::Split => replace_seq(
            text(lang, Key::SplitDesc)@,
            "{}"@,
            dec(p.split_secs as nat),
        ),
    }
}

/// Three pieces joined.
fn cat3(a: &str, b: &str, c: &str) -> (r: String)
    ensures
        r@ == a@ + b@ + c@,
{
    let mut r = cat(a, b);
    r.append(c);
    r
}

/// `a`, the number `n`, then `b`.
fn num_between(a: &str, n: u64, b: &str) -> (r: String)
    ensures
        r@ == a@ + dec(n as nat) + b@,
{
    let mut r = to_owned(a);
    push_dec(&mut r, n);
    r.append(b);
    r
}

fn video_desc(head: &str, crf: u32, va: u32, tail: &str) -> (r: String)
    ensures
        r@ == head@ + dec(crf as nat) + " + AAC "@ + dec(va as nat) + tail@,
{
    let mut r = num_between(head, crf as u64, " + AAC ");
    push_dec(&mut r, va as u64);
    r.append(tail);
    r
}

fn shown(t: &String, word: &str) -> (r: String)
    ensures
        r@ == shown_time(t@, word@),
{
    let s = trim(t.as_str());
    if crate::text::is_empty_str(s.as_str()) {
        to_owned(word)
    } else {
        proof {
            if s@.len() == 0 {
                assert(s@ =~= Seq::<char>::empty());
            }
        }
        s
    }
}

pub fn desc_of(preset: Preset, p: &Profile, lang: Lang) -> (r: String)
    ensures
        r@ == desc_spec(preset, *p, lang),
{
    match preset {
        Preset::Auto => to_owned(tr(lang, Key::AutoWord)),
        Preset::Mp3V0 => to_owned("MP3 V0 (~220 kbps)"),
        Preset::Mp3V2 => to_owned("MP3 V2 (~195 kbps)"),
        Preset::Mp3Cbr => num_between("MP3 ", p.mp3_cbr as u64, " CBR"),
        Preset::Aac => if p.aac_kbps == 0 {
            cat3("AAC ", tr(lang, Key::VbrHigh), " (~220 kbps) - M4A")
        } else {
            num_between("AAC ", p.aac_kbps as u64, " kbps - M4A")
        },
        Preset::Opus => num_between("Opus ", p.opus_kbps as u64, " kbps"),
        Preset::Vorbis => to_owned("Vorbis q6 (~160 kbps)"),
        Preset::Flac => to_owned("FLAC (lossless)"),
        Preset::Wav => to_owned("WAV 16-bit (lossless)"),
        Preset::H264Mp4 => video_desc("H.264 CRF", p.crf, p.video_audio_kbps, "k - MP4"),
        Preset::H265Mp4 => video_desc("H.265 CRF", p.crf, p.video_audio_kbps, "k - MP4"),
        Preset::H265Mkv => video_desc("H.265 CRF", p.crf, p.video_audio_kbps, "k - MKV"),
        Preset::Av1Mp4 => video_desc("AV1 CRF", p.crf, p.video_audio_kbps, "k - MP4"),
        Preset::Vp9Webm => num_between("VP9 CRF", p.crf as u64, " + Opus 160k - WebM"),
        Preset::Jpeg => {
            let mut r = cat3("JPEG ", tr(lang, Key::QualityWord), " ");
            push_dec(&mut r, p.img_quality as u64);
            r
        },
        Preset::Webp => {
            let mut r = cat3("WebP ", tr(lang, Key::QualityWord), " ");
            push_dec(&mut r, p.img_quality as u64);
            r
        },
        Preset::Avif => {
            let mut r = cat3("AVIF ", tr(lang, Key::QualityWord), " ");
            push_dec(&mut r, p.img_quality as u64);
            r
        },
        Preset::Png => to_owned("PNG (lossless)"),
        Preset::Bmp => to_owned("BMP"),
        Preset::CoverArt => if p.cover_png {
            to_owned("Kapak (PNG)")
        } else {
            to_owned("Kapak (JPEG q2)")
        },
        Preset::Remux => {
            let (name, _) = remux_container(p.remux_container);
            cat3("Remux ", name, " (stream copy)")
        },
        Preset::Merge => to_owned(tr(lang, Key::MergeDescConcat)),
        Preset::TargetSize => {
            let n = dec_string(p.target_mb as u64);
            proof {
                reveal_strlit("{}");
            }
            replace_str(tr(lang, Key::TargetDesc), "{}", n.as_str())
        },
        Preset::Clip => {
            let s = shown(&p.trim_start, tr(lang, Key::ClipStartWord));
            let e = shown(&p.trim_end, tr(lang, Key::ClipEndWord));
            let mut r = cat3("Klip ", s.as_str(), "-");
            r.append(e.as_str());
            r.append(" (H.264 CRF");
            push_dec(&mut r, p.crf as u64);
            r.append(")");
            r
        },
        Preset::Gif => {
            let mut r = num_between("GIF ", p.gif_width as u64, "px @ ");
            push_dec(&mut r, p.gif_fps as u64);
            r.append("fps");
            let ghost r0 = r@;
            let s = trim(p.trim_start.as_str());
            if !crate::text::is_empty_str(s.as_str()) {
                r.append(" ");
                r.append(s.as_str());
            } else {
                assert(s@.len() == 0);
            }
            let ghost r1 = r@;
            let e = trim(p.trim_end.as_str());
            if !crate::text::is_empty_str(e.as_str()) {
                r.append("-");
                r.append(e.as_str());
            } else {
                assert(e@.len() == 0);
            }
            proof {
                if s@.len() == 0 {
                    assert(r1 =~= r0 + Seq::<char>::empty());
                } else {
                    assert(r1 =~= r0 + (" "@ + s@));
                }
                if e@.len() == 0 {
                    assert(r@ =~= r1 + Seq::<char>::empty());
                } else {
                    assert(r@ =~= r1 + ("-"@ + e@));
                }
            }
            r
        },
        Preset::Split => {
            let n = dec_string(p.split_secs as u64);
            proof {
                reveal_strlit("{}");
            }
            replace_str(tr(lang, Key::SplitDesc), "{}", n.as_str())
        },
    }
}

} // verus!

verus! {

// ---------------------------------------------------------------------------
// Arguments
// ---------------------------------------------------------------------------

#[derive(Debug)]
pub struct Built {
    /// Arguments that go before `-i` (such as `-ss`); empty for most presets.
    pub prefix_args: Vec<String>,
    pub args: Vec<String>,
    pub output_is_pattern: bool,
    pub ext: String,
    pub desc: String,
}

/// `"{n}k"`.
pub open spec fn kbps_text(n: nat) -> Seq<char> {
    dec(n) + "k"@
}

fn kbps_string(n: u64) -> (r: String)
    ensures
        r@ == kbps_text(n as nat),
{
    let mut r = dec_string(n);
    r.append("k");
    r
}

/// Audio arguments of a video preset: Opus 160k for WebM, else AAC at the
/// chosen bit rate.
pub open spec fn va_args(r: Preset, p: Profile) -> Seq<Seq<char>> {
    if r == Preset::Vp9Webm {
        views_of(seq!["-c:a", "libopus", "-b:a", "160k"])
    } else {
        views_of(seq!["-c:a", "aac", "-b:a"]) + seq![kbps_text(p.video_audio_kbps as nat)]
    }
}

/// JPEG quality scale: `round(31 - 0.29 q)` kept within 2..=31.
pub open spec fn jpeg_qv(q: u32) -> nat {
    let v = 3100 - 29 * q;
    let r: int = if v < 0 {
        0
    } else {
        (v + 50) / 100
    };
    if r < 2 {
        2
    } else if r > 31 {
        31
    } else {
        r as nat
    }
}

/// AVIF CRF: `round(45 - 0.25 q)` kept within 5..=60.
pub open spec fn avif_crf(q: u32) -> nat {
    let v = 4500 - 25 * q;
    let r: int = if v < 0 {
        0
    } else {
        (v + 50) / 100
    };
    if r < 5 {
        5
    } else if r > 60 {
        60
    } else {
        r as nat
    }
}

fn scaled_quality(base: u64, step: u64, q: u32, lo: u64, hi: u64) -> (r: u64)
    requires
        base <= 10000,
        step <= 100,
    ensures
        ({
            let v = base - step * q;
            let x: int = if v < 0 {
                0
            } else {
                (v + 50) / 100
            };
            r == if x < lo {
                lo as int
            } else if x > hi {
                hi as int
            } else {
                x
            }
        }),
{
    assert(step * (q as u64) <= 100 * 0xffff_ffff) by (nonlinear_arith)
        requires
            step <= 100,
            q <= 0xffff_ffff,
    ;
    let sq: u64 = step * (q as u64);
    let x: u64 = if sq > base {
        0
    } else {
        (base - sq + 50) / 100
    };
    if x < lo {
        lo
    } else if x > hi {
        hi
    } else {
        x
    }
}

/// Video bit rate for a target size: the whole bit budget over the
/// duration, less the audio bit rate (192 kbps when unknown), kept within
/// 100..=12000 kbps.
pub open spec fn target_kbps(p: Profile, m: Media) -> nat {
    let total: nat = (p.target_mb as nat * 8388608 * 1_000_000 / m.duration_us as nat) / 1000;
    let a: nat = match m.audio {
        Some(ai) => (ai.bitrate.unwrap_or(192000) / 1000) as nat,
        None => 192,
    };
    let d: nat = if total > a {
        (total - a) as nat
    } else {
        0
    };
    if d < 100 {
        100
    } else if d > 12000 {
        12000
    } else {
        d
    }
}

fn target_kbps_exec(p: &Profile, m: &Media) -> (r: u64)
    requires
        m.duration_us > 0,
    ensures
        r == target_kbps(*p, *m),
        r <= 12000,
{
    let bits: u128 = (p.target_mb as u128) * 8388608 * 1_000_000;
    let total: u128 = bits / (m.duration_us as u128) / 1000;
    let a: u64 = match &m.audio {
        Some(ai) => match ai.bitrate {
            Some(b) => b / 1000,
            None => 192,
        },
        None => 192,
    };
    let d: u128 = if total > (a as u128) {
        total - (a as u128)
    } else {
        0
    };
    if d < 100 {
        100
    } else if d > 12000 {
        12000
    } else {
        d as u64
    }
}

/// Codec arguments of a (resolved) preset; `tdur` is the clip length.
pub open spec fn preset_args(r: Preset, p: Profile, m: Media, tdur: Option<Seq<char>>) -> Seq<
    Seq<char>,
> {
    let t: Seq<Seq<char>> = match tdur {
        Some(d) => seq!["-t"@, d],
        None => seq![],
    };
    let speed = x264_name(p.x264_preset)@;
    let crf = dec(p.crf as nat);
    let faststart = views_of(seq!["-movflags", "+faststart"]);
    match r {
        Preset::Mp3V0 => views_of(seq!["-c:a", "libmp3lame", "-q:a", "0"]),
        Preset::Mp3V2 => views_of(seq!["-c:a", "libmp3lame", "-q:a", "2"]),
        Preset::Mp3Cbr => views_of(seq!["-c:a", "libmp3lame", "-b:a"]) + seq![
            kbps_text(p.mp3_cbr as nat),
        ],
        Preset::Aac => views_of(seq!["-c:a", "aac"]) + if p.aac_kbps == 0 {
            views_of(seq!["-q:a", "0"])
        } else {
            views_of(seq!["-b:a"]) + seq![kbps_text(p.aac_kbps as nat)]
        },
        Preset::Opus => views_of(seq!["-c:a", "libopus", "-b:a"]) + seq![
            kbps_text(p.opus_kbps as nat),
        ],
        Preset::Vorbis => views_of(seq!["-c:a", "libvorbis", "-q:a", "6"]),
        Preset::Flac => views_of(seq!["-c:a", "flac"]),
        Preset::Wav => views_of(seq!["-c:a", "pcm_s16le"]),
        Preset::H264Mp4 => views_of(seq!["-c:v", "libx264", "-preset"]) + seq![speed, "-crf"@, crf]
            + views_of(seq!["-pix_fmt", "yuv420p"]) + va_args(r, p) + faststart,
        Preset::H265Mp4 => views_of(seq!["-c:v", "libx265", "-preset"]) + seq![speed, "-crf"@, crf]
            + views_of(seq!["-tag:v", "hvc1", "-pix_fmt", "yuv420p"]) + va_args(r, p) + faststart,
        Preset::H265Mkv => views_of(seq!["-c:v", "libx265", "-preset"]) + seq![speed, "-crf"@, crf]
            + views_of(seq!["-pix_fmt", "yuv420p"]) + va_args(r, p),
        Preset::Av1Mp4 => views_of(seq!["-c:v", "libsvtav1", "-preset", "6", "-crf"]) + seq![crf]
            + views_of(seq!["-pix_fmt", "yuv420p"]) + va_args(r, p) + faststart,
        Preset::Vp9Webm => views_of(seq!["-c:v", "libvpx-vp9", "-b:v", "0", "-crf"]) + seq![crf]
            + views_of(seq!["-row-mt", "1"]) + va_args(r, p),
        Preset::Jpeg => views_of(seq!["-c:v", "mjpeg", "-q:v"]) + seq![dec(jpeg_qv(p.img_quality))],
        Preset::Webp => views_of(seq!["-c:v", "libwebp", "-quality"]) + seq![
            dec(p.img_quality as nat),
        ],
        Preset::Avif => views_of(seq!["-c:v", "libsvtav1", "-crf"]) + seq![
            dec(avif_crf(p.img_quality)),
        ] + views_of(seq!["-preset", "6", "-pix_fmt", "yuv420p"]),
        Preset::Png => views_of(seq!["-c:v", "png"]),
        Preset::Bmp => views_of(seq!["-c:v", "bmp"]),
        Preset::CoverArt => views_of(seq!["-map", "0:v:0", "-frames:v", "1"]) + if p.cover_png {
            views_of(seq!["-c:v", "png"])
        } else {
            views_of(seq!["-q:v", "2"])
        },
        Preset::Remux => views_of(seq!["-c", "copy"]) + if remux_pair(p.remux_container).1@
            == "mp4"@ || remux_pair(p.remux_container).1@ == "mov"@ {
            faststart
        } else {
            seq![]
        },
        Preset::TargetSize => {
            let v = target_kbps(p, m);
            views_of(seq!["-c:v", "libx264", "-preset"]) + seq![
                speed,
                "-b:v"@,
                kbps_text(v),
                "-maxrate"@,
                kbps_text(v * 3 / 2),
                "-bufsize"@,
                kbps_text(v * 3),
            ] + views_of(seq!["-pix_fmt", "yuv420p"]) + va_args(r, p) + faststart
        },
        Preset::Clip => t + views_of(seq!["-c:v", "libx264", "-preset"]) + seq![
            speed,
            "-crf"@,
            crf,
        ] + views_of(seq!["-pix_fmt", "yuv420p"]) + va_args(r, p) + faststart,
        Preset::Gif => t + seq![
            "-an"@,
            "-vf"@,
            "fps="@ + dec(p.gif_fps as nat) + ",scale="@ + dec(p.gif_width as nat)
                + ":-1:flags=lanczos,split[s0][s1];[s0]palettegen[p];[s1][p]paletteuse"@,
            "-loop"@,
            "0"@,
        ],
        Preset::Split => views_of(seq!["-c", "copy", "-f", "segment", "-segment_time"]) + seq![
            dec(p.split_secs as nat),
        ] + views_of(seq!["-reset_timestamps", "1"]),
        _ => seq![],
    }
}

/// Output extension of a (resolved) preset.
pub open spec fn ext_spec(r: Preset, p: Profile) -> Seq<char> {
    match r {
        Preset::Mp3V0 | Preset::Mp3V2 | Preset::Mp3Cbr => "mp3"@,
        Preset::Aac => "m4a"@,
        Preset::Opus => "opus"@,
        Preset::Vorbis => "ogg"@,
        Preset::Flac => "flac"@,
        Preset::Wav => "wav"@,
        Preset::H264Mp4 | Preset::H265Mp4 | Preset::Av1Mp4 | Preset::TargetSize | Preset::Clip
        | Preset::Split => "mp4"@,
        Preset::H265Mkv => "mkv"@,
        Preset::Vp9Webm => "webm"@,
        Preset::Jpeg => "jpg"@,
        Preset::Webp => "webp"@,
        Preset::Avif => "avif"@,
        Preset::Png => "png"@,
        Preset::Bmp => "bmp"@,
        Preset::CoverArt => if p.cover_png {
            "png"@
        } else {
            "jpg"@
        },
        Preset::Remux => remux_pair(p.remux_container).1@,
        Preset::Gif => "gif"@,
        _ => seq![],
    }
}

/// Every output extension of a per-file preset is a plain name of at least
/// three characters.
pub(crate) proof fn lemma_ext_plain(r: Preset, p: Profile)
    requires
        r != Preset::Auto,
        r != Preset::Merge,
    ensures
        no_sep(ext_spec(r, p)),
        ext_spec(r, p).len() >= 3,
{
    reveal_strlit("mp3");
    reveal_strlit("m4a");
    reveal_strlit("opus");
    reveal_strlit("ogg");
    reveal_strlit("flac");
    reveal_strlit("wav");
    reveal_strlit("mp4");
    reveal_strlit("mkv");
    reveal_strlit("webm");
    reveal_strlit("jpg");
    reveal_strlit("webp");
    reveal_strlit("avif");
    reveal_strlit("png");
    reveal_strlit("bmp");
    reveal_strlit("mov");
    reveal_strlit("gif");
}

/// Down-scaling: `-vf scale=W:-2` for presets that offer a maximum width,
/// when one is set and the source is wider or of unknown width.
pub open spec fn scale_args(r: Preset, p: Profile, m: Media) -> Seq<Seq<char>> {
    let w: u32 = match m.video {
        Some(v) => v.width,
        None => 0,
    };
    if r.needs_scale_spec() && p.max_width > 0 && (w == 0 || w > p.max_width) {
        seq!["-vf"@, "scale="@ + dec(p.max_width as nat) + ":-2"@]
    } else {
        seq![]
    }
}

/// Down-scaling keeps the aspect and never enlarges: for a preset that
/// offers a maximum width `W > 0`, a source wider than `W`, or of unknown
/// width, gets `-vf scale=W:-2` right after the preset's own arguments and
/// before the user's; a source no wider than `W` is converted exactly as
/// with no maximum width set.
pub proof fn lemma_scale_down_only(p: Profile, m: Media)
    requires
        p.preset.resolve_kind(m.kind).needs_scale_spec(),
        p.max_width > 0,
    ensures
        ({
            let r = p.preset.resolve_kind(m.kind);
            let w: u32 = match m.video {
                Some(v) => v.width,
                None => 0,
            };
            let n = preset_args(r, p, m, trim_of(r, p).1).len() as int;
            &&& (w == 0 || w > p.max_width) ==> build_args(p, m)[n] == "-vf"@ && build_args(p, m)[n
                + 1] == "scale="@ + dec(p.max_width as nat) + ":-2"@ && build_args(p, m).len() == n + 2
                + words(p.custom_args@).len()
            &&& (w > 0 && w <= p.max_width) ==> build_args(p, m) == build_args(
                Profile { max_width: 0, ..p },
                m,
            )
        }),
{
    let r = p.preset.resolve_kind(m.kind);
    let q = Profile { max_width: 0, ..p };
    assert(trim_of(r, q) == trim_of(r, p));
    assert(preset_args(r, q, m, trim_of(r, p).1) == preset_args(r, p, m, trim_of(r, p).1));
}

/// `'name' reason`.
pub open spec fn quoted(name: Seq<char>, lang: Lang, k: Key) -> Seq<char> {
    "'"@ + name + "' "@ + text(lang, k)@
}

/// Why a preset cannot be built for a file, if it cannot.
pub open spec fn build_error(p: Profile, m: Media, lang: Lang) -> Option<Seq<char>> {
    let r = p.preset.resolve_kind(m.kind);
    if r == Preset::Merge {
        Some(text(lang, Key::MergeBuildNote)@)
    } else if r.is_audio_spec() && m.audio is None {
        Some(quoted(m.name@, lang, Key::NeedAudio))
    } else if r.is_video_spec() && m.video is None {
        Some(quoted(m.name@, lang, Key::NeedVideo))
    } else if r.is_image_spec() && m.kind != Kind::Image {
        Some(quoted(m.name@, lang, Key::NeedImage))
    } else if r == Preset::CoverArt && !m.has_cover && m.kind == Kind::Audio {
        Some(quoted(m.name@, lang, Key::NoCover))
    } else if r == Preset::TargetSize && m.duration_us == 0 {
        Some(quoted(m.name@, lang, Key::TargetSizeNoDur))
    } else if (r == Preset::Clip || r == Preset::Gif) && trim_spec(
        p.trim_start@,
        p.trim_end@,
    ) is Err {
        Some(text(lang, Key::TrimBadOrder)@)
    } else if r == Preset::Split && p.split_secs == 0 {
        Some(text(lang, Key::SplitZero)@)
    } else {
        None
    }
}

/// Trim values that apply to a preset.
pub open spec fn trim_of(r: Preset, p: Profile) -> (Option<Seq<char>>, Option<Seq<char>>) {
    if r == Preset::Clip || r == Preset::Gif {
        match trim_spec(p.trim_start@, p.trim_end@) {
            Ok(x) => x,
            Err(_) => (None, None),
        }
    } else {
        (None, None)
    }
}

/// Arguments before `-i`.
pub open spec fn build_prefix(p: Profile, m: Media) -> Seq<Seq<char>> {
    let r = p.preset.resolve_kind(m.kind);
    match trim_of(r, p).0 {
        Some(ss) => seq!["-ss"@, ss],
        None => seq![],
    }
}

/// Arguments after the input: the preset's codec arguments, down-scaling,
/// then the user's own arguments split at whitespace.
pub open spec fn build_args(p: Profile, m: Media) -> Seq<Seq<char>> {
    let r = p.preset.resolve_kind(m.kind);
    preset_args(r, p, m, trim_of(r, p).1) + scale_args(r, p, m) + words(p.custom_args@)
}

} // verus!

verus! {

fn va_args_exec(a: &mut Vec<String>, r: Preset, p: &Profile)
    ensures
        final(a).deep_view() == old(a).deep_view() + va_args(r, *p),
{
    if r == Preset::Vp9Webm {
        push_all(a, &["-c:a", "libopus", "-b:a", "160k"]);
    } else {
        let ghost a0 = a.deep_view();
        push_all(a, &["-c:a", "aac", "-b:a"]);
        push_string(a, kbps_string(p.video_audio_kbps as u64));
        assert(a.deep_view() =~= a0 + va_args(r, *p));
    }
}

fn speed_crf(a: &mut Vec<String>, head: &[&str], p: &Profile)
    ensures
        final(a).deep_view() == old(a).deep_view() + views_of(head@) + seq![
            x264_name(p.x264_preset)@,
            "-crf"@,
            dec(p.crf as nat),
        ],
{
    let ghost a0 = a.deep_view();
    push_all(a, head);
    push_string(a, to_owned(x264_preset_name(p.x264_preset)));
    push_all(a, &["-crf"]);
    push_string(a, dec_string(p.crf as u64));
    assert(views_of(seq!["-crf"]) =~= seq!["-crf"@]);
    assert(a.deep_view() =~= a0 + views_of(head@) + seq![
        x264_name(p.x264_preset)@,
        "-crf"@,
        dec(p.crf as nat),
    ]);
}

fn t_args(a: &mut Vec<String>, tdur: &Option<String>)
    ensures
        final(a).deep_view() == old(a).deep_view() + match tdur.deep_view() {
            Some(d) => seq!["-t"@, d],
            None => Seq::<Seq<char>>::empty(),
        },
{
    let ghost a0 = a.deep_view();
    match tdur {
        Some(d) => {
            push_all(a, &["-t"]);
            push_string(a, d.clone());
            assert(views_of(seq!["-t"]) =~= seq!["-t"@]);
            assert(a.deep_view() =~= a0 + seq!["-t"@, d@]);
        },
        None => {
            assert(a.deep_view() =~= a0 + Seq::<Seq<char>>::empty());
        },
    }
}

fn audio_args_exec(r: Preset, p: &Profile) -> (a: Vec<String>)
    requires
        r.is_audio_spec(),
    ensures
        a.deep_view() == preset_args(r, *p, arbitrary(), None),
{
    let mut a: Vec<String> = Vec::new();
    match r {
        Preset::Mp3V0 => push_all(&mut a, &["-c:a", "libmp3lame", "-q:a", "0"]),
        Preset::Mp3V2 => push_all(&mut a, &["-c:a", "libmp3lame", "-q:a", "2"]),
        Preset::Mp3Cbr => {
            push_all(&mut a, &["-c:a", "libmp3lame", "-b:a"]);
            push_string(&mut a, kbps_string(p.mp3_cbr as u64));
        },
        Preset::Aac => {
            push_all(&mut a, &["-c:a", "aac"]);
            if p.aac_kbps == 0 {
                push_all(&mut a, &["-q:a", "0"]);
            } else {
                push_all(&mut a, &["-b:a"]);
                push_string(&mut a, kbps_string(p.aac_kbps as u64));
            }
        },
        Preset::Opus => {
            push_all(&mut a, &["-c:a", "libopus", "-b:a"]);
            push_string(&mut a, kbps_string(p.opus_kbps as u64));
        },
        Preset::Vorbis => push_all(&mut a, &["-c:a", "libvorbis", "-q:a", "6"]),
        Preset::Flac => push_all(&mut a, &["-c:a", "flac"]),
        _ => push_all(&mut a, &["-c:a", "pcm_s16le"]),
    }
    assert(a.deep_view() =~= preset_args(r, *p, arbitrary(), None));
    a
}

} // verus!

verus! {

fn video_args_exec(r: Preset, p: &Profile, m: &Media, tdur: &Option<String>) -> (a: Vec<String>)
    requires
        r.is_video_spec(),
        r == Preset::TargetSize ==> m.duration_us > 0,
    ensures
        a.deep_view() == preset_args(r, *p, *m, tdur.deep_view()),
{
    let mut a: Vec<String> = Vec::new();
    match r {
        Preset::H264Mp4 => {
            speed_crf(&mut a, &["-c:v", "libx264", "-preset"], p);
            push_all(&mut a, &["-pix_fmt", "yuv420p"]);
            va_args_exec(&mut a, r, p);
            push_all(&mut a, &["-movflags", "+faststart"]);
        },
        Preset::H265Mp4 => {
            speed_crf(&mut a, &["-c:v", "libx265", "-preset"], p);
            push_all(&mut a, &["-tag:v", "hvc1", "-pix_fmt", "yuv420p"]);
            va_args_exec(&mut a, r, p);
            push_all(&mut a, &["-movflags", "+faststart"]);
        },
        Preset::H265Mkv => {
            speed_crf(&mut a, &["-c:v", "libx265", "-preset"], p);
            push_all(&mut a, &["-pix_fmt", "yuv420p"]);
            va_args_exec(&mut a, r, p);
        },
        Preset::Av1Mp4 => {
            push_all(&mut a, &["-c:v", "libsvtav1", "-preset", "6", "-crf"]);
            push_string(&mut a, dec_string(p.crf as u64));
            push_all(&mut a, &["-pix_fmt", "yuv420p"]);
            va_args_exec(&mut a, r, p);
            push_all(&mut a, &["-movflags", "+faststart"]);
        },
        Preset::Vp9Webm => {
            push_all(&mut a, &["-c:v", "libvpx-vp9", "-b:v", "0", "-crf"]);
            push_string(&mut a, dec_string(p.crf as u64));
            push_all(&mut a, &["-row-mt", "1"]);
            va_args_exec(&mut a, r, p);
        },
        Preset::TargetSize => {
            let v = target_kbps_exec(p, m);
            push_all(&mut a, &["-c:v", "libx264", "-preset"]);
            push_string(&mut a, to_owned(x264_preset_name(p.x264_preset)));
            push_all(&mut a, &["-b:v"]);
            push_string(&mut a, kbps_string(v));
            push_all(&mut a, &["-maxrate"]);
            push_string(&mut a, kbps_string(v * 3 / 2));
            push_all(&mut a, &["-bufsize"]);
            push_string(&mut a, kbps_string(v * 3));
            push_all(&mut a, &["-pix_fmt", "yuv420p"]);
            va_args_exec(&mut a, r, p);
            push_all(&mut a, &["-movflags", "+faststart"]);
            assert(views_of(seq!["-b:v"]) =~= seq!["-b:v"@]);
            assert(views_of(seq!["-maxrate"]) =~= seq!["-maxrate"@]);
            assert(views_of(seq!["-bufsize"]) =~= seq!["-bufsize"@]);
        },
        Preset::Clip => {
            t_args(&mut a, tdur);
            speed_crf(&mut a, &["-c:v", "libx264", "-preset"], p);
            push_all(&mut a, &["-pix_fmt", "yuv420p"]);
            va_args_exec(&mut a, r, p);
            push_all(&mut a, &["-movflags", "+faststart"]);
        },
        Preset::Gif => {
            t_args(&mut a, tdur);
            push_all(&mut a, &["-an", "-vf"]);
            let mut vf = num_between("fps=", p.gif_fps as u64, ",scale=");
            push_dec(&mut vf, p.gif_width as u64);
            vf.append(":-1:flags=lanczos,split[s0][s1];[s0]palettegen[p];[s1][p]paletteuse");
            push_string(&mut a, vf);
            push_all(&mut a, &["-loop", "0"]);
        },
        _ => {
            push_all(&mut a, &["-c", "copy", "-f", "segment", "-segment_time"]);
            push_string(&mut a, dec_string(p.split_secs as u64));
            push_all(&mut a, &["-reset_timestamps", "1"]);
        },
    }
    assert(a.deep_view() =~= preset_args(r, *p, *m, tdur.deep_view()));
    a
}

fn image_args_exec(r: Preset, p: &Profile) -> (a: Vec<String>)
    requires
        r.is_image_spec() || r == Preset::CoverArt || r == Preset::Remux,
    ensures
        a.deep_view() == preset_args(r, *p, arbitrary(), None),
{
    let mut a: Vec<String> = Vec::new();
    match r {
        Preset::Jpeg => {
            push_all(&mut a, &["-c:v", "mjpeg", "-q:v"]);
            push_string(&mut a, dec_string(scaled_quality(3100, 29, p.img_quality, 2, 31)));
        },
        Preset::Webp => {
            push_all(&mut a, &["-c:v", "libwebp", "-quality"]);
            push_string(&mut a, dec_string(p.img_quality as u64));
        },
        Preset::Avif => {
            push_all(&mut a, &["-c:v", "libsvtav1", "-crf"]);
            push_string(&mut a, dec_string(scaled_quality(4500, 25, p.img_quality, 5, 60)));
            push_all(&mut a, &["-preset", "6", "-pix_fmt", "yuv420p"]);
        },
        Preset::Png => push_all(&mut a, &["-c:v", "png"]),
        Preset::Bmp => push_all(&mut a, &["-c:v", "bmp"]),
        Preset::CoverArt => {
            push_all(&mut a, &["-map", "0:v:0", "-frames:v", "1"]);
            if p.cover_png {
                push_all(&mut a, &["-c:v", "png"]);
            } else {
                push_all(&mut a, &["-q:v", "2"]);
            }
        },
        _ => {
            let (_, c) = remux_container(p.remux_container);
            push_all(&mut a, &["-c", "copy"]);
            let ghost a1 = a.deep_view();
            if crate::text::str_eq(c, "mp4") || crate::text::str_eq(c, "mov") {
                push_all(&mut a, &["-movflags", "+faststart"]);
            } else {
                assert(a.deep_view() =~= a1 + Seq::<Seq<char>>::empty());
            }
        },
    }
    assert(a.deep_view() =~= preset_args(r, *p, arbitrary(), None));
    a
}

fn ext_of(r: Preset, p: &Profile) -> (e: String)
    ensures
        e@ == ext_spec(r, *p),
{
    proof {
        reveal_strlit("");
    }
    let s: &str = match r {
        Preset::Mp3V0 | Preset::Mp3V2 | Preset::Mp3Cbr => "mp3",
        Preset::Aac => "m4a",
        Preset::Opus => "opus",
        Preset::Vorbis => "ogg",
        Preset::Flac => "flac",
        Preset::Wav => "wav",
        Preset::H264Mp4 | Preset::H265Mp4 | Preset::Av1Mp4 | Preset::TargetSize | Preset::Clip
        | Preset::Split => "mp4",
        Preset::H265Mkv => "mkv",
        Preset::Vp9Webm => "webm",
        Preset::Jpeg => "jpg",
        Preset::Webp => "webp",
        Preset::Avif => "avif",
        Preset::Png => "png",
        Preset::Bmp => "bmp",
        Preset::CoverArt => if p.cover_png {
            "png"
        } else {
            "jpg"
        },
        Preset::Remux => remux_container(p.remux_container).1,
        Preset::Gif => "gif",
        _ => "",
    };
    to_owned(s)
}

fn quoted_err(name: &String, lang: Lang, k: Key) -> (e: String)
    ensures
        e@ == quoted(name@, lang, k),
{
    let mut e = cat("'", name.as_str());
    e.append("' ");
    e.append(tr(lang, k));
    e
}

/// The checks of `build`, in its order: the resolved preset and its trim
/// values, or the error.
fn check_build(p: &Profile, m: &Media, lang: Lang) -> (res: Result<
    (Preset, Option<String>, Option<String>),
    String,
>)
    ensures
        match res {
            Ok((r, a, b)) => {
                &&& r == p.preset.resolve_kind(m.kind)
                &&& build_error(*p, *m, lang) is None
                &&& trim_of(r, *p) == (a.deep_view(), b.deep_view())
            },
            Err(e) => build_error(*p, *m, lang) == Some(e@),
        },
{
    let r = p.preset.resolve(m);
    if r == Preset::Merge {
        return Err(to_owned(tr(lang, Key::MergeBuildNote)));
    }
    if r.is_audio() && m.audio.is_none() {
        return Err(quoted_err(&m.name, lang, Key::NeedAudio));
    }
    if r.is_video() && m.video.is_none() {
        return Err(quoted_err(&m.name, lang, Key::NeedVideo));
    }
    if r.is_image() && m.kind != Kind::Image {
        return Err(quoted_err(&m.name, lang, Key::NeedImage));
    }
    if r == Preset::CoverArt && !m.has_cover && m.kind == Kind::Audio {
        return Err(quoted_err(&m.name, lang, Key::NoCover));
    }
    if r == Preset::TargetSize && m.duration_us == 0 {
        return Err(quoted_err(&m.name, lang, Key::TargetSizeNoDur));
    }
    let (pre_ss, t_dur): (Option<String>, Option<String>) = if r == Preset::Clip || r
        == Preset::Gif {
        match trim_args(p.trim_start.as_str(), p.trim_end.as_str(), lang) {
            Ok(x) => x,
            Err(e) => {
                return Err(e);
            },
        }
    } else {
        (None, None)
    };
    if r == Preset::Split && p.split_secs == 0 {
        return Err(to_owned(tr(lang, Key::SplitZero)));
    }
    Ok((r, pre_ss, t_dur))
}

/// Arguments after the input for a preset that passed the checks.
fn body_args(r: Preset, p: &Profile, m: &Media, t_dur: &Option<String>) -> (a: Vec<String>)
    requires
        r != Preset::Auto && r != Preset::Merge,
        r == Preset::TargetSize ==> m.duration_us > 0,
    ensures
        a.deep_view() == preset_args(r, *p, *m, t_dur.deep_view()) + scale_args(r, *p, *m)
            + words(p.custom_args@),
{
    let mut a: Vec<String> = if r.is_audio() {
        audio_args_exec(r, p)
    } else if r.is_video() {
        video_args_exec(r, p, m, t_dur)
    } else {
        image_args_exec(r, p)
    };
    let ghost a1 = a.deep_view();
    assert(a1 == preset_args(r, *p, *m, t_dur.deep_view()));
    let ghost sc = scale_args(r, *p, *m);
    // down-scaling
    if r.needs_scale() && p.max_width > 0 {
        let w: u32 = match &m.video {
            Some(v) => v.width,
            None => 0,
        };
        if w == 0 || w > p.max_width {
            push_all(&mut a, &["-vf"]);
            let s = num_between("scale=", p.max_width as u64, ":-2");
            push_string(&mut a, s);
            assert(views_of(seq!["-vf"]) =~= seq!["-vf"@]);
            assert(a.deep_view() =~= a1 + sc);
        } else {
            assert(a.deep_view() =~= a1 + sc);
        }
    } else {
        assert(a.deep_view() =~= a1 + sc);
    }
    // the user's own arguments, last
    let cv = chars_of(p.custom_args.as_str());
    let words_v = split_words(&cv);
    append_strings(&mut a, &words_v);
    a
}

/// ffmpeg arguments for one file under the profile; the error says why the
/// preset cannot be used for it.
pub fn build(p: &Profile, m: &Media, lang: Lang) -> (res: Result<Built, String>)
    ensures
        match res {
            Ok(b) => {
                let r = p.preset.resolve_kind(m.kind);
                &&& build_error(*p, *m, lang) is None
                &&& b.prefix_args.deep_view() == build_prefix(*p, *m)
                &&& b.args.deep_view() == build_args(*p, *m)
                &&& b.output_is_pattern == (r == Preset::Split)
                &&& b.ext@ == ext_spec(r, *p)
                &&& b.desc@ == desc_spec(r, *p, lang)
            },
            Err(e) => build_error(*p, *m, lang) == Some(e@),
        },
{
    let (r, pre_ss, t_dur) = match check_build(p, m, lang) {
        Ok(x) => x,
        Err(e) => {
            return Err(e);
        },
    };
    let mut pre: Vec<String> = Vec::new();
    match pre_ss {
        Some(s) => {
            push_all(&mut pre, &["-ss"]);
            push_string(&mut pre, s);
            assert(views_of(seq!["-ss"]) =~= seq!["-ss"@]);
        },
        None => {},
    }
    assert(pre.deep_view() =~= build_prefix(*p, *m));
    let a = body_args(r, p, m, &t_dur);
    Ok(
        Built {
            prefix_args: pre,
            args: a,
            output_is_pattern: r == Preset::Split,
            ext: ext_of(r, p),
            desc: desc_of(r, p, lang),
        },
    )
}

} // verus!

verus! {

// ---------------------------------------------------------------------------
// Size estimate
// ---------------------------------------------------------------------------

/// Bit rate of the presets whose size follows from their bit rate.
pub open spec fn est_kbps(r: Preset, p: Profile) -> Option<nat> {
    match r {
        Preset::Mp3V0 => Some(220),
        Preset::Mp3V2 => Some(195),
        Preset::Mp3Cbr => Some(p.mp3_cbr as nat),
        Preset::Aac => if p.aac_kbps == 0 {
            Some(220)
        } else {
            Some(p.aac_kbps as nat)
        },
        Preset::Opus => Some(p.opus_kbps as nat),
        Preset::Vorbis => Some(160),
        _ => None,
    }
}

/// Estimated output size in bytes: the source size for stream copies, the
/// target for a target size, bit rate times duration for constant-rate
/// audio, and nothing where the size depends on the content.
pub open spec fn estimate_spec(p: Profile, m: Media) -> Option<nat> {
    let r = p.preset.resolve_kind(m.kind);
    match r {
        Preset::Remux | Preset::Split => Some(m.size as nat),
        Preset::TargetSize => Some(p.target_mb as nat * 1048576),
        Preset::Clip | Preset::Gif | Preset::Merge => None,
        _ => match est_kbps(r, p) {
            Some(k) => if m.duration_us > 0 {
                let b: nat = k * 125 * m.duration_us as nat / 1_000_000;
                Some(
                    if b > u64::MAX {
                        u64::MAX as nat
                    } else {
                        b
                    },
                )
            } else {
                None
            },
            None => None,
        },
    }
}

/// Bytes of `kbps` kilobits per second (1000 bits, 8 bits a byte) over
/// `us` microseconds, kept within 64 bits.
pub open spec fn rate_bytes(kbps: nat, us: nat) -> nat {
    let b: nat = kbps * 1000 * us / 8_000_000;
    if b > u64::MAX {
        u64::MAX as nat
    } else {
        b
    }
}

/// For a constant-rate audio preset the estimate is its bit rate times the
/// duration, in bytes: the chosen rate of MP3 CBR, Opus and AAC (220 kbps
/// for AAC's automatic rate), 220 and 195 kbps for MP3 V0 and V2, 160 kbps
/// for Vorbis. Without a duration there is no estimate.
pub proof fn lemma_estimate_audio(p: Profile, m: Media)
    ensures
        ({
            let r = p.preset.resolve_kind(m.kind);
            let d = m.duration_us as nat;
            let rate: Option<nat> = if r == Preset::Mp3Cbr {
                Some(p.mp3_cbr as nat)
            } else if r == Preset::Opus {
                Some(p.opus_kbps as nat)
            } else if r == Preset::Aac {
                Some(if p.aac_kbps == 0 { 220 } else { p.aac_kbps as nat })
            } else if r == Preset::Mp3V0 {
                Some(220)
            } else if r == Preset::Mp3V2 {
                Some(195)
            } else if r == Preset::Vorbis {
                Some(160)
            } else {
                None
            };
            rate matches Some(k) ==> estimate_spec(p, m) == (if d > 0 {
                Some(rate_bytes(k, d))
            } else {
                None::<nat>
            })
        }),
{
    let r = p.preset.resolve_kind(m.kind);
    if let Some(k) = est_kbps(r, p) {
        let d = m.duration_us as nat;
        assert(k * 125 * d / 1_000_000 == k * 1000 * d / 8_000_000) by (nonlinear_arith)
            requires
                k >= 0,
                d >= 0,
        {
            assert(k * 1000 * d == 8 * (k * 125 * d));
            vstd::arithmetic::div_mod::lemma_div_multiples_vanish((k * 125 * d) as int, 1_000_000);
        }
    }
}

fn est_kbps_exec(r: Preset, p: &Profile) -> (k: Option<u64>)
    ensures
        k matches Some(x) ==> est_kbps(r, *p) == Some(x as nat),
        k is None ==> est_kbps(r, *p) is None,
        k matches Some(x) ==> x <= 0xffff_ffff,
{
    match r {
        Preset::Mp3V0 => Some(220),
        Preset::Mp3V2 => Some(195),
        Preset::Mp3Cbr => Some(p.mp3_cbr as u64),
        Preset::Aac => if p.aac_kbps == 0 {
            Some(220)
        } else {
            Some(p.aac_kbps as u64)
        },
        Preset::Opus => Some(p.opus_kbps as u64),
        Preset::Vorbis => Some(160),
        _ => None,
    }
}

/// (estimated output size, target description).
pub fn estimate(p: &Profile, m: &Media, lang: Lang) -> (r: (Option<u64>, String))
    ensures
        r.0 matches Some(x) ==> estimate_spec(*p, *m) == Some(x as nat),
        r.0 is None ==> estimate_spec(*p, *m) is None,
        r.1@ == desc_spec(p.preset.resolve_kind(m.kind), *p, lang),
{
    let r = p.preset.resolve(m);
    let est: Option<u64> = match r {
        Preset::Remux | Preset::Split => Some(m.size),
        Preset::TargetSize => Some((p.target_mb as u64) * 1048576),
        Preset::Clip | Preset::Gif | Preset::Merge => None,
        _ => match est_kbps_exec(r, p) {
            Some(k) => if m.duration_us > 0 {
                let ghost kk = k as int;
                let ghost dd = m.duration_us as int;
                assert(kk * 125 * dd <= 0xffff_ffff * 125 * 0xffff_ffff_ffff_ffff) by (nonlinear_arith)
                    requires
                        0 <= kk <= 0xffff_ffff,
                        0 <= dd <= 0xffff_ffff_ffff_ffff,
                ;
                let b: u128 = (k as u128) * 125 * (m.duration_us as u128) / 1_000_000;
                if b > 0xffff_ffff_ffff_ffff {
                    Some(0xffff_ffff_ffff_ffff)
                } else {
                    Some(b as u64)
                }
            } else {
                None
            },
            None => None,
        },
    };
    (est, desc_of(r, p, lang))
}

// ---------------------------------------------------------------------------
// Adjusting the preset's main value
// ---------------------------------------------------------------------------

pub open spec fn clamp_int(v: int, lo: int, hi: int) -> int {
    if v < lo {
        lo
    } else if v > hi {
        hi
    } else {
        v
    }
}

/// `(x as i32 + d).clamp(lo, hi) as u32`.
pub open spec fn stepped(x: u32, d: int, lo: int, hi: int) -> u32 {
    clamp_int((x as i32) as int + d, lo, hi) as u32
}

fn step_exec(x: u32, d: i64, lo: i64, hi: i64) -> (r: u32)
    requires
        -1_000_000_000 <= d <= 1_000_000_000,
        0 <= lo <= hi <= 100_000,
    ensures
        r == stepped(x, d as int, lo as int, hi as int),
{
    let xi: i32 = #[verifier::truncate] (x as i32);
    let v: i64 = (xi as i64) + d;
    let c: i64 = if v < lo {
        lo
    } else if v > hi {
        hi
    } else {
        v
    };
    c as u32
}

/// What `+`/`-` change for the current preset: the bit rate of audio
/// presets (the Opus rate for the fixed-quality ones), the target size, the
/// GIF frame rate and width, the segment length of a split, CRF and audio
/// bit rate of the other video presets, image quality; each kept within its
/// range.
pub open spec fn bump_spec(p: Profile, delta: int) -> Profile {
    let pr = p.preset;
    if matches!(pr, Preset::Mp3V0 | Preset::Mp3V2 | Preset::Vorbis | Preset::Flac | Preset::Wav)
        || pr == Preset::Opus {
        Profile { opus_kbps: stepped(p.opus_kbps, delta * 8, 64, 320), ..p }
    } else if pr == Preset::Mp3Cbr {
        Profile { mp3_cbr: stepped(p.mp3_cbr, delta * 16, 128, 320), ..p }
    } else if pr == Preset::Aac {
        Profile { aac_kbps: stepped(p.aac_kbps, delta * 16, 0, 320), ..p }
    } else if pr == Preset::TargetSize {
        Profile { target_mb: stepped(p.target_mb, delta, 1, 4096), ..p }
    } else if pr == Preset::Gif {
        Profile {
            gif_fps: stepped(p.gif_fps, delta, 5, 30),
            gif_width: stepped(p.gif_width, delta * 40, 160, 1920),
            ..p
        }
    } else if pr == Preset::Split {
        Profile { split_secs: stepped(p.split_secs, delta * 10, 10, 3600), ..p }
    } else if pr.is_video_spec() {
        Profile {
            crf: stepped(p.crf, -delta, 0, 51),
            crf_touched: true,
            video_audio_kbps: stepped(p.video_audio_kbps, delta * 16, 64, 320),
            ..p
        }
    } else if pr.is_image_spec() {
        Profile { img_quality: stepped(p.img_quality, delta * 5, 1, 100), ..p }
    } else {
        p
    }
}

/// `+` (delta 1) or `-` (delta -1) on the current preset's value.
pub fn bump(p: &mut Profile, delta: i32)
    requires
        -1_000_000 <= delta <= 1_000_000,
    ensures
        *final(p) == bump_spec(*old(p), delta as int),
{
    let d = delta as i64;
    let pr = p.preset;
    if matches!(pr, Preset::Mp3V0 | Preset::Mp3V2 | Preset::Vorbis | Preset::Flac | Preset::Wav)
        || pr == Preset::Opus {
        p.opus_kbps = step_exec(p.opus_kbps, d * 8, 64, 320);
    } else if pr == Preset::Mp3Cbr {
        p.mp3_cbr = step_exec(p.mp3_cbr, d * 16, 128, 320);
    } else if pr == Preset::Aac {
        p.aac_kbps = step_exec(p.aac_kbps, d * 16, 0, 320);
    } else if pr == Preset::TargetSize {
        p.target_mb = step_exec(p.target_mb, d, 1, 4096);
    } else if pr == Preset::Gif {
        p.gif_fps = step_exec(p.gif_fps, d, 5, 30);
        p.gif_width = step_exec(p.gif_width, d * 40, 160, 1920);
    } else if pr == Preset::Split {
        p.split_secs = step_exec(p.split_secs, d * 10, 10, 3600);
    } else if pr.is_video() {
        p.crf = step_exec(p.crf, -d, 0, 51);
        p.crf_touched = true;
        p.video_audio_kbps = step_exec(p.video_audio_kbps, d * 16, 64, 320);
    } else if pr.is_image() {
        p.img_quality = step_exec(p.img_quality, d * 5, 1, 100);
    }
}

/// A `+`/`-` step never leaves a value's range.
pub proof fn lemma_stepped_in_range(x: u32, d: int, lo: int, hi: int)
    requires
        0 <= lo <= hi <= u32::MAX,
    ensures
        lo <= stepped(x, d, lo, hi) <= hi,
{
}

} // verus!
