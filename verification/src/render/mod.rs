//! Rendering: output formats, render jobs, and the FFmpeg command lines that
//! compose, export and preview a project.
pub mod filters;
pub mod compositor;
pub mod video;
pub mod audio;
pub mod text;
pub mod stabilize;
pub mod layers;
pub mod subtitles;

use vstd::prelude::*;
use crate::config::VeditConfig;
use crate::motion::formula::MovementFormula;
use crate::motion::region::RenderRegion;
use crate::textutil::owned;

verus! {

/// Container of a video render.
#[derive(Debug, Clone, Copy, PartialEq, Eq, Structural)]
pub enum VideoFormat {
    Mp4,
    Mkv,
    Mov,
}

impl VideoFormat {
    /// The lower-case name: `mp4`, `mkv` or `mov`.
    pub open spec fn name(self) -> Seq<char> {
        match self {
            VideoFormat::Mp4 => "mp4"@,
            VideoFormat::Mkv => "mkv"@,
            VideoFormat::Mov => "mov"@,
        }
    }

    /// The text shown for a format.
    pub fn display(&self) -> (r: String)
        ensures
            r@ == self.name(),
    {
        match self {
            VideoFormat::Mp4 => owned("mp4"),
            VideoFormat::Mkv => owned("mkv"),
            VideoFormat::Mov => owned("mov"),
        }
    }
}

/// Format of an audio-only export.
#[derive(Debug, Clone, Copy, PartialEq, Eq, Structural)]
pub enum AudioFormat {
    Mp3,
    Wav,
    Aac,
    Flac,
    Ogg,
}

impl AudioFormat {
    /// The lower-case name: `mp3`, `wav`, `aac`, `flac` or `ogg`.
    pub open spec fn name(self) -> Seq<char> {
        match self {
            AudioFormat::Mp3 => "mp3"@,
            AudioFormat::Wav => "wav"@,
            AudioFormat::Aac => "aac"@,
            AudioFormat::Flac => "flac"@,
            AudioFormat::Ogg => "ogg"@,
        }
    }

    /// The text shown for a format.
    pub fn display(&self) -> (r: String)
        ensures
            r@ == self.name(),
    {
        match self {
            AudioFormat::Mp3 => owned("mp3"),
            AudioFormat::Wav => owned("wav"),
            AudioFormat::Aac => owned("aac"),
            AudioFormat::Flac => owned("flac"),
            AudioFormat::Ogg => owned("ogg"),
        }
    }

    /// The FFmpeg audio codec of a format.
    pub open spec fn codec(self) -> Seq<char> {
        match self {
            AudioFormat::Mp3 => "libmp3lame"@,
            AudioFormat::Wav => "pcm_s16le"@,
            AudioFormat::Aac => "aac"@,
            AudioFormat::Flac => "flac"@,
            AudioFormat::Ogg => "libvorbis"@,
        }
    }
}

/// The FFmpeg audio codec for an audio format: `libmp3lame`, `pcm_s16le`,
/// `aac`, `flac` or `libvorbis`.
pub fn audio_codec_for(format: &AudioFormat) -> (r: &'static str)
    ensures
        r@ == format.codec(),
{
    match format {
        AudioFormat::Mp3 => "libmp3lame",
        AudioFormat::Wav => "pcm_s16le",
        AudioFormat::Aac => "aac",
        AudioFormat::Flac => "flac",
        AudioFormat::Ogg => "libvorbis",
    }
}

/// Target frame shape.
#[derive(Debug, Clone, Copy, PartialEq, Eq, Structural)]
pub enum AspectRatio {
    /// 16:9, 1920×1080.
    Widescreen,
    /// 9:16, 1080×1920 (reels and shorts).
    Portrait,
}

impl AspectRatio {
    /// `(width, height)` of a frame shape.
    pub open spec fn dims(self) -> (u32, u32) {
        match self {
            AspectRatio::Widescreen => (1920, 1080),
            AspectRatio::Portrait => (1080, 1920),
        }
    }

    /// `(width, height)` in pixels.
    pub fn dimensions(&self) -> (r: (u32, u32))
        ensures
            r == self.dims(),
    {
        match self {
            AspectRatio::Widescreen => (1920, 1080),
            AspectRatio::Portrait => (1080, 1920),
        }
    }
}

/// What to render and how.
#[derive(Debug)]
pub struct RenderJob {
    /// The project file.
    pub project_path: String,
    /// The output file (`-` for the live preview pipe).
    pub output_path: String,
    /// Audio only.
    pub audio_only: bool,
    /// Video container; `None` uses the preferred encoder as for MP4.
    pub video_format: Option<VideoFormat>,
    /// Audio format; `None` means AAC.
    pub audio_format: Option<AudioFormat>,
    /// Frame shape.
    pub aspect: Option<AspectRatio>,
    /// Stream to a player instead of writing a file.
    pub is_live_preview: bool,
    /// Movement applied to the whole composition.
    pub motion_formula: Option<MovementFormula>,
    /// Part of the timeline to render; `None` renders all of it.
    pub region: Option<RenderRegion>,
    /// Configuration; `None` uses the defaults.
    pub config: Option<VeditConfig>,
}

/// What a finished render produced.
#[derive(Debug)]
pub struct RenderOutput {
    /// The file written.
    pub output_path: String,
    /// Length of the project (ms).
    pub duration_secs: i128,
    /// Size of the file in bytes.
    pub size_bytes: u64,
}

} // verus!
