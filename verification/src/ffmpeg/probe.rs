//! What ffprobe reports about a media file.
use vstd::prelude::*;

verus! {

/// One stream of a media file as ffprobe describes it.
#[derive(Debug, Clone)]
pub struct StreamInfo {
    /// `video`, `audio`, ...
    pub codec_type: String,
    /// Codec name.
    pub codec_name: String,
    /// Duration in seconds, as ffprobe writes it.
    pub duration: Option<String>,
    /// Width in pixels (video).
    pub width: Option<u32>,
    /// Height in pixels (video).
    pub height: Option<u32>,
    /// Sample rate, as ffprobe writes it (audio).
    pub sample_rate: Option<String>,
    /// Number of channels (audio).
    pub channels: Option<u32>,
}

/// The streams of a media file.
#[derive(Debug, Clone)]
pub struct ProbeResult {
    /// All streams, in file order.
    pub streams: Vec<StreamInfo>,
}

} // verus!
