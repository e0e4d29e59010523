//! Clips placed on tracks: audio, video, still images and text, with the enums
//! that describe how they are shown.
//!
//! Times are integers in milliseconds; volumes and speeds are integers in
//! thousandths (`1000` is 100 %, normal speed).
use vstd::prelude::*;
use crate::ids::new_id;
use crate::textutil::owned;

verus! {

// ─── Fades ──────────────────────────────────────────────────────────────────

/// A fade in or out.
#[derive(Debug, Clone, Copy, PartialEq, Eq, Structural)]
pub struct FadeEffect {
    /// Length of the fade, in milliseconds.
    pub duration_secs: i64,
}

/// `end - start` when positive, otherwise 0; 0 as well for an open end.
pub open spec fn span(start: i64, end: Option<i64>) -> int {
    match end {
        Some(e) => if e - start > 0 {
            e - start
        } else {
            0
        },
        None => 0,
    }
}

fn span_exec(start: i64, end: Option<i64>) -> (r: i128)
    ensures
        r == span(start, end),
        0 <= r <= 0x1_0000_0000_0000_0000,
{
    match end {
        Some(e) => {
            let d = e as i128 - start as i128;
            if d > 0 {
                d
            } else {
                0
            }
        },
        None => 0,
    }
}

fn copy_ranges(v: &Vec<(i64, i64)>) -> (r: Vec<(i64, i64)>)
    ensures
        r@ == v@,
{
    let mut r: Vec<(i64, i64)> = Vec::new();
    let mut i: usize = 0;
    while i < v.len()
        invariant
            0 <= i <= v@.len(),
            r@ == v@.take(i as int),
        decreases v.len() - i,
    {
        r.push(v[i]);
        assert(r@ =~= v@.take(i + 1));
        i = i + 1;
    }
    assert(v@.take(v@.len() as int) =~= v@);
    r
}

// ─── AudioClip ──────────────────────────────────────────────────────────────

/// An audio clip on a track.
#[derive(Debug)]
pub struct AudioClip {
    /// Identifier (the 128-bit value of a UUID).
    pub id: u128,
    /// Descriptive name.
    pub name: String,
    /// Source file.
    pub source_path: String,
    /// Start within the source (ms).
    pub source_start: i64,
    /// End within the source (ms); `None` until known.
    pub source_end: Option<i64>,
    /// Position on the project timeline (ms).
    pub timeline_start: i64,
    /// Volume in thousandths (0 to 2000).
    pub volume: i64,
    /// Number of repetitions (1 = no loop).
    pub loop_count: u32,
    /// Speed in thousandths (1000 = normal).
    pub speed: i64,
    /// Fade in.
    pub fade_in: Option<FadeEffect>,
    /// Fade out.
    pub fade_out: Option<FadeEffect>,
    /// Silenced ranges `(start, end)` in ms, relative to the clip.
    pub mute_ranges: Vec<(i64, i64)>,
}

/// The content of an audio clip.
pub struct AudioClipView {
    pub id: u128,
    pub name: Seq<char>,
    pub source_path: Seq<char>,
    pub source_start: i64,
    pub source_end: Option<i64>,
    pub timeline_start: i64,
    pub volume: i64,
    pub loop_count: u32,
    pub speed: i64,
    pub fade_in: Option<FadeEffect>,
    pub fade_out: Option<FadeEffect>,
    pub mute_ranges: Seq<(i64, i64)>,
}

impl View for AudioClip {
    type V = AudioClipView;

    open spec fn view(&self) -> AudioClipView {
        AudioClipView {
            id: self.id,
            name: self.name@,
            source_path: self.source_path@,
            source_start: self.source_start,
            source_end: self.source_end,
            timeline_start: self.timeline_start,
            volume: self.volume,
            loop_count: self.loop_count,
            speed: self.speed,
            fade_in: self.fade_in,
            fade_out: self.fade_out,
            mute_ranges: self.mute_ranges@,
        }
    }
}

impl AudioClipView {
    /// Net length without loops (ms).
    pub open spec fn raw_duration(self) -> int {
        span(self.source_start, self.source_end)
    }

    /// Length including loops (ms).
    pub open spec fn duration(self) -> int {
        self.raw_duration() * self.loop_count
    }

    /// Where the clip ends on the timeline (ms).
    pub open spec fn timeline_end(self) -> int {
        self.timeline_start + self.duration()
    }
}

impl AudioClip {
    /// A clip of a whole source file placed at `timeline_start`: start 0, open end,
    /// full volume, no loop, normal speed, no fades and no muted ranges.
    pub fn new(name: &str, source_path: &str, timeline_start: i64) -> (r: Self)
        ensures
            r@.name == name@,
            r@.source_path == source_path@,
            r@.source_start == 0,
            r@.source_end is None,
            r@.timeline_start == timeline_start,
            r@.volume == 1000,
            r@.loop_count == 1,
            r@.speed == 1000,
            r@.fade_in is None,
            r@.fade_out is None,
            r@.mute_ranges.len() == 0,
    {
        AudioClip {
            id: new_id(),
            name: owned(name),
            source_path: owned(source_path),
            source_start: 0,
            source_end: None,
            timeline_start,
            volume: 1000,
            loop_count: 1,
            speed: 1000,
            fade_in: None,
            fade_out: None,
            mute_ranges: Vec::new(),
        }
    }

    /// Net length of the clip without loops (ms); 0 while the end is unknown.
    pub fn raw_duration(&self) -> (r: i128)
        ensures
            r == self@.raw_duration(),
            0 <= r <= 0x1_0000_0000_0000_0000,
    {
        span_exec(self.source_start, self.source_end)
    }

    /// Length of the clip including loops (ms).
    pub fn duration(&self) -> (r: i128)
        ensures
            r == self@.duration(),
            0 <= r <= 0x1_0000_0000_0000_0000_0000_0000,
    {
        let raw = self.raw_duration();
        let n = self.loop_count as i128;
        assert(0 <= raw * n <= 0x1_0000_0000_0000_0000 * 0x1_0000_0000) by (nonlinear_arith)
            requires
                0 <= raw <= 0x1_0000_0000_0000_0000,
                0 <= n <= 0x1_0000_0000,
        ;
        raw * n
    }

    /// Sets the fade in (ms).
    pub fn set_fade_in(&mut self, millis: i64)
        ensures
            final(self)@ == (AudioClipView {
                fade_in: Some(FadeEffect { duration_secs: millis }),
                ..old(self)@
            }),
    {
        self.fade_in = Some(FadeEffect { duration_secs: millis });
    }

    /// Sets the fade out (ms).
    pub fn set_fade_out(&mut self, millis: i64)
        ensures
            final(self)@ == (AudioClipView {
                fade_out: Some(FadeEffect { duration_secs: millis }),
                ..old(self)@
            }),
    {
        self.fade_out = Some(FadeEffect { duration_secs: millis });
    }

    /// Adds a silenced range `(start, end)` (ms, relative to the clip).
    pub fn add_mute_range(&mut self, start: i64, end: i64)
        ensures
            final(self)@ == (AudioClipView {
                mute_ranges: old(self)@.mute_ranges.push((start, end)),
                ..old(self)@
            }),
    {
        self.mute_ranges.push((start, end));
    }
}

impl Clone for AudioClip {
    fn clone(&self) -> (r: Self)
        ensures
            r@ == self@,
    {
        AudioClip {
            id: self.id,
            name: self.name.clone(),
            source_path: self.source_path.clone(),
            source_start: self.source_start,
            source_end: self.source_end,
            timeline_start: self.timeline_start,
            volume: self.volume,
            loop_count: self.loop_count,
            speed: self.speed,
            fade_in: self.fade_in,
            fade_out: self.fade_out,
            mute_ranges: copy_ranges(&self.mute_ranges),
        }
    }
}

// ─── VideoClip ──────────────────────────────────────────────────────────────

/// A video clip on a track.
#[derive(Debug)]
pub struct VideoClip {
    /// Identifier (the 128-bit value of a UUID).
    pub id: u128,
    /// Descriptive name.
    pub name: String,
    /// Source file.
    pub source_path: String,
    /// Start within the source (ms).
    pub source_start: i64,
    /// End within the source (ms); `None` until known.
    pub source_end: Option<i64>,
    /// Position on the project timeline (ms).
    pub timeline_start: i64,
    /// Volume in thousandths.
    pub volume: i64,
    /// Speed in thousandths (1000 = normal).
    pub speed: i64,
    /// Fade in.
    pub fade_in: Option<FadeEffect>,
    /// Fade out.
    pub fade_out: Option<FadeEffect>,
    /// Replacement audio file.
    pub replacement_audio: Option<String>,
    /// Top-left corner within the frame.
    pub position: ClipPosition,
    /// Size relative to the frame.
    pub scale: ClipScale,
    /// Pixels cut from the edges.
    pub crop: Option<VideoCrop>,
    /// Mirrored left to right.
    pub flip_horizontal: bool,
    /// Mirrored top to bottom.
    pub flip_vertical: bool,
    /// Played backwards.
    pub reverse: bool,
    /// Transition at the end of the clip.
    pub transition_out: Option<VideoTransition>,
    /// Rotation in thousandths of a degree (clockwise).
    pub rotation_deg: i64,
    /// Colour correction.
    pub color: ColorCorrection,
    /// Visual effects.
    pub effects: VisualEffects,
    /// Shake removal from a motion analysis made before the render.
    pub stabilize: bool,
}

/// The content of a video clip.
pub struct VideoClipView {
    pub id: u128,
    pub name: Seq<char>,
    pub source_path: Seq<char>,
    pub source_start: i64,
    pub source_end: Option<i64>,
    pub timeline_start: i64,
    pub volume: i64,
    pub speed: i64,
    pub fade_in: Option<FadeEffect>,
    pub fade_out: Option<FadeEffect>,
    pub replacement_audio: Option<Seq<char>>,
    pub position: ClipPosition,
    pub scale: ClipScale,
    pub crop: Option<VideoCrop>,
    pub flip_horizontal: bool,
    pub flip_vertical: bool,
    pub reverse: bool,
    pub transition_out: Option<VideoTransition>,
    pub rotation_deg: i64,
    pub color: ColorView,
    pub effects: VisualEffects,
    pub stabilize: bool,
}

impl View for VideoClip {
    type V = VideoClipView;

    open spec fn view(&self) -> VideoClipView {
        VideoClipView {
            id: self.id,
            name: self.name@,
            source_path: self.source_path@,
            source_start: self.source_start,
            source_end: self.source_end,
            timeline_start: self.timeline_start,
            volume: self.volume,
            speed: self.speed,
            fade_in: self.fade_in,
            fade_out: self.fade_out,
            replacement_audio: match self.replacement_audio {
                Some(a) => Some(a@),
                None => None,
            },
            position: self.position,
            scale: self.scale,
            crop: self.crop,
            flip_horizontal: self.flip_horizontal,
            flip_vertical: self.flip_vertical,
            reverse: self.reverse,
            transition_out: self.transition_out,
            rotation_deg: self.rotation_deg,
            color: self.color@,
            effects: self.effects,
            stabilize: self.stabilize,
        }
    }
}

impl VideoClipView {
    /// Length of the clip (ms).
    pub open spec fn duration(self) -> int {
        span(self.source_start, self.source_end)
    }

    /// Where the clip ends on the timeline (ms).
    pub open spec fn timeline_end(self) -> int {
        self.timeline_start + self.duration()
    }
}

impl VideoClip {
    /// A clip of a whole source file placed at `timeline_start`: start 0, open end,
    /// full volume, normal speed, no fades and no replacement audio.
    pub fn new(name: &str, source_path: &str, timeline_start: i64) -> (r: Self)
        ensures
            r@.name == name@,
            r@.source_path == source_path@,
            r@.source_start == 0,
            r@.source_end is None,
            r@.timeline_start == timeline_start,
            r@.volume == 1000,
            r@.speed == 1000,
            r@.fade_in is None,
            r@.fade_out is None,
            r@.replacement_audio is None,
            r@.position == (ClipPosition { x: 0, y: 0 }),
            r@.scale == (ClipScale { width: 10000, height: 10000 }),
            r@.crop is None,
            !r@.flip_horizontal,
            !r@.flip_vertical,
            !r@.reverse,
            r@.transition_out is None,
            r@.rotation_deg == 0,
            r@.color == ColorCorrection::neutral_view(),
            r@.effects == VisualEffects::none(),
            !r@.stabilize,
    {
        VideoClip {
            id: new_id(),
            name: owned(name),
            source_path: owned(source_path),
            source_start: 0,
            source_end: None,
            timeline_start,
            volume: 1000,
            speed: 1000,
            fade_in: None,
            fade_out: None,
            replacement_audio: None,
            position: ClipPosition { x: 0, y: 0 },
            scale: ClipScale { width: 10000, height: 10000 },
            crop: None,
            flip_horizontal: false,
            flip_vertical: false,
            reverse: false,
            transition_out: None,
            rotation_deg: 0,
            color: ColorCorrection::neutral(),
            effects: VisualEffects { blur_radius: None, sharpen: None, vignette: None, noise: None, deinterlace: false },
            stabilize: false,
        }
    }

    /// Length of the clip (ms); 0 while the end is unknown.
    pub fn duration(&self) -> (r: i128)
        ensures
            r == self@.duration(),
            0 <= r <= 0x1_0000_0000_0000_0000,
    {
        span_exec(self.source_start, self.source_end)
    }

    /// Sets the fade in (ms).
    pub fn set_fade_in(&mut self, millis: i64)
        ensures
            final(self)@ == (VideoClipView {
                fade_in: Some(FadeEffect { duration_secs: millis }),
                ..old(self)@
            }),
    {
        self.fade_in = Some(FadeEffect { duration_secs: millis });
    }

    /// Sets the fade out (ms).
    pub fn set_fade_out(&mut self, millis: i64)
        ensures
            final(self)@ == (VideoClipView {
                fade_out: Some(FadeEffect { duration_secs: millis }),
                ..old(self)@
            }),
    {
        self.fade_out = Some(FadeEffect { duration_secs: millis });
    }
}

impl Clone for VideoClip {
    fn clone(&self) -> (r: Self)
        ensures
            r@ == self@,
    {
        VideoClip {
            id: self.id,
            name: self.name.clone(),
            source_path: self.source_path.clone(),
            source_start: self.source_start,
            source_end: self.source_end,
            timeline_start: self.timeline_start,
            volume: self.volume,
            speed: self.speed,
            fade_in: self.fade_in,
            fade_out: self.fade_out,
            replacement_audio: match &self.replacement_audio {
                Some(a) => Some(a.clone()),
                None => None,
            },
            position: self.position,
            scale: self.scale,
            crop: self.crop,
            flip_horizontal: self.flip_horizontal,
            flip_vertical: self.flip_vertical,
            reverse: self.reverse,
            transition_out: self.transition_out,
            rotation_deg: self.rotation_deg,
            color: self.color.clone(),
            effects: self.effects,
            stabilize: self.stabilize,
        }
    }
}

// ─── ImageClip ──────────────────────────────────────────────────────────────

/// A still image shown on the timeline.
#[derive(Debug)]
pub struct ImageClip {
    /// Identifier (the 128-bit value of a UUID).
    pub id: u128,
    /// Descriptive name.
    pub name: String,
    /// Source file.
    pub source_path: String,
    /// Position on the project timeline (ms).
    pub timeline_start: i64,
    /// How long the image is shown (ms).
    pub duration_secs: i64,
    /// Fade in.
    pub fade_in: Option<FadeEffect>,
    /// Fade out.
    pub fade_out: Option<FadeEffect>,
    /// How the image is laid over the frame.
    pub mode: ImageMode,
    /// Where the image stands.
    pub position: ImagePosition,
    /// Size relative to the frame.
    pub scale: ClipScale,
    /// Pixels cut from the edges.
    pub crop: Option<VideoCrop>,
    /// Opacity in thousandths (1000 = opaque).
    pub opacity: i64,
    /// Animation when the image appears.
    pub entry_animation: Option<EntryAnimation>,
    /// Rotation in thousandths of a degree (clockwise).
    pub rotation_deg: i64,
    /// Slow zoom and pan over the still.
    pub ken_burns: Option<KenBurnsEffect>,
}

/// The content of an image clip.
pub struct ImageClipView {
    pub id: u128,
    pub name: Seq<char>,
    pub source_path: Seq<char>,
    pub timeline_start: i64,
    pub duration_secs: i64,
    pub fade_in: Option<FadeEffect>,
    pub fade_out: Option<FadeEffect>,
    pub mode: ImageMode,
    pub position: ImagePosition,
    pub scale: ClipScale,
    pub crop: Option<VideoCrop>,
    pub opacity: i64,
    pub entry_animation: Option<EntryAnimation>,
    pub rotation_deg: i64,
    pub ken_burns: Option<KenBurnsEffect>,
}

impl View for ImageClip {
    type V = ImageClipView;

    open spec fn view(&self) -> ImageClipView {
        ImageClipView {
            id: self.id,
            name: self.name@,
            source_path: self.source_path@,
            timeline_start: self.timeline_start,
            duration_secs: self.duration_secs,
            fade_in: self.fade_in,
            fade_out: self.fade_out,
            mode: self.mode,
            position: self.position,
            scale: self.scale,
            crop: self.crop,
            opacity: self.opacity,
            entry_animation: self.entry_animation,
            rotation_deg: self.rotation_deg,
            ken_burns: self.ken_burns,
        }
    }
}

impl ImageClip {
    /// An image shown from `timeline_start` for `duration` milliseconds, without fades.
    pub fn new(name: &str, source_path: &str, timeline_start: i64, duration: i64) -> (r: Self)
        ensures
            r@.name == name@,
            r@.source_path == source_path@,
            r@.timeline_start == timeline_start,
            r@.duration_secs == duration,
            r@.fade_in is None,
            r@.fade_out is None,
            r@.mode == ImageMode::Overlay,
            r@.position == (ImagePosition { x: None, y: None }),
            r@.scale == (ClipScale { width: 10000, height: 10000 }),
            r@.crop is None,
            r@.opacity == 1000,
            r@.entry_animation is None,
            r@.rotation_deg == 0,
            r@.ken_burns is None,
    {
        ImageClip {
            id: new_id(),
            name: owned(name),
            source_path: owned(source_path),
            timeline_start,
            duration_secs: duration,
            fade_in: None,
            fade_out: None,
            mode: ImageMode::Overlay,
            position: ImagePosition { x: None, y: None },
            scale: ClipScale { width: 10000, height: 10000 },
            crop: None,
            opacity: 1000,
            entry_animation: None,
            rotation_deg: 0,
            ken_burns: None,
        }
    }
}

impl ImageClip {
    /// Gives the image the usual slow push-in: a zoom from 1.0 to 1.2 while
    /// the view drifts by a tenth of the frame to the right and down.
    pub fn apply_ken_burns(&mut self)
        ensures
            final(self)@ == (ImageClipView { ken_burns: Some(KenBurnsEffect::standard()), ..old(self)@ }),
    {
        self.ken_burns = Some(
            KenBurnsEffect {
                zoom_start: 10000,
                zoom_end: 12000,
                pan_x_start: 0,
                pan_x_end: 1000,
                pan_y_start: 0,
                pan_y_end: 1000,
            },
        );
    }

    /// Cuts the image in two `at` milliseconds after its start, strictly
    /// inside it: this clip keeps the part before the cut, its fade-in and
    /// its entry animation; the part from the cut on, with the fade-out, is
    /// returned as a new clip with a fresh identifier and the same picture,
    /// placement and look. Any other `at` leaves the clip as it is and gives
    /// `None`.
    pub fn split_at(&mut self, at: i64) -> (r: Option<ImageClip>)
        requires
            old(self).timeline_start + old(self).duration_secs <= i64::MAX,
        ensures
            ({
                let s = old(self)@;
                &&& (r is Some <==> 0 < at && at < s.duration_secs)
                &&& (r is None ==> final(self)@ == s)
                &&& (r matches Some(n) ==> {
                    &&& final(self)@ == (ImageClipView { duration_secs: at, fade_out: None, ..s })
                    &&& n@ == (ImageClipView {
                        id: n@.id,
                        timeline_start: (s.timeline_start + at) as i64,
                        duration_secs: (s.duration_secs - at) as i64,
                        fade_in: None,
                        entry_animation: None,
                        ..s
                    })
                })
            }),
    {
        if !(0 < at && at < self.duration_secs) {
            return None;
        }
        let rest = ImageClip {
            id: new_id(),
            name: self.name.clone(),
            source_path: self.source_path.clone(),
            timeline_start: self.timeline_start + at,
            duration_secs: self.duration_secs - at,
            fade_in: None,
            fade_out: self.fade_out,
            mode: self.mode,
            position: self.position,
            scale: self.scale,
            crop: self.crop,
            opacity: self.opacity,
            entry_animation: None,
            rotation_deg: self.rotation_deg,
            ken_burns: self.ken_burns,
        };
        self.duration_secs = at;
        self.fade_out = None;
        Some(rest)
    }
}

impl Clone for ImageClip {
    fn clone(&self) -> (r: Self)
        ensures
            r@ == self@,
    {
        ImageClip {
            id: self.id,
            name: self.name.clone(),
            source_path: self.source_path.clone(),
            timeline_start: self.timeline_start,
            duration_secs: self.duration_secs,
            fade_in: self.fade_in,
            fade_out: self.fade_out,
            mode: self.mode,
            position: self.position,
            scale: self.scale,
            crop: self.crop,
            opacity: self.opacity,
            entry_animation: self.entry_animation,
            rotation_deg: self.rotation_deg,
            ken_burns: self.ken_burns,
        }
    }
}

// ─── Placement ──────────────────────────────────────────────────────────────

/// Top-left corner of a video clip, in ten-thousandths of the frame size
/// (0 = left or top edge).
#[derive(Debug, Clone, Copy, PartialEq, Eq, Structural)]
pub struct ClipPosition {
    pub x: i64,
    pub y: i64,
}

/// Top-left corner of an image, in ten-thousandths of the frame size; a missing
/// coordinate centres the image on that axis.
#[derive(Debug, Clone, Copy, PartialEq, Eq, Structural)]
pub struct ImagePosition {
    pub x: Option<i64>,
    pub y: Option<i64>,
}

/// Size relative to the frame, in ten-thousandths (10000 = the frame size).
#[derive(Debug, Clone, Copy, PartialEq, Eq, Structural)]
pub struct ClipScale {
    pub width: i64,
    pub height: i64,
}

/// Pixels cut from each edge.
#[derive(Debug, Clone, Copy, PartialEq, Eq, Structural)]
pub struct VideoCrop {
    pub top: u32,
    pub bottom: u32,
    pub left: u32,
    pub right: u32,
}

/// A transition at the end of a clip, lasting `duration_secs` milliseconds.
#[derive(Debug, Clone, Copy, PartialEq, Eq, Structural)]
pub struct VideoTransition {
    pub kind: TransitionKind,
    pub duration_secs: i64,
}

impl VideoTransition {
    /// A transition of kind `kind` lasting `duration` milliseconds.
    pub fn new(kind: TransitionKind, duration: i64) -> (r: Self)
        ensures
            r == (VideoTransition { kind, duration_secs: duration }),
    {
        VideoTransition { kind, duration_secs: duration }
    }
}

// ─── Presentation enums ─────────────────────────────────────────────────────

/// How an image is laid over the frame.
#[derive(Debug, Clone, Copy, PartialEq, Eq, Structural)]
pub enum ImageMode {
    /// Placed at its position over the video.
    Overlay,
    /// Behind everything, at the origin.
    Background,
    /// Covering the frame, at the origin.
    Fullscreen,
}

/// Transition at the end of a video clip.
#[derive(Debug, Clone, Copy, PartialEq, Eq, Structural)]
pub enum TransitionKind {
    /// No transition.
    Cut,
    /// Fade to black.
    FadeToBlack,
    /// Fade to white.
    FadeToWhite,
    /// Cross dissolve (alpha fade).
    CrossDissolve,
    /// Horizontal wipe.
    WipeHorizontal,
    /// Vertical wipe.
    WipeVertical,
}

/// Entry animation of an image (30 frames).
#[derive(Debug, Clone, Copy, PartialEq, Eq, Structural)]
pub enum EntryAnimation {
    /// Grows from nothing to full size.
    ZoomIn,
    /// Slides in from the right edge towards the left.
    SlideLeft,
    /// Slides in from the left edge towards the right.
    SlideRight,
    /// Slides in from the bottom towards the top.
    SlideTop,
    /// Slides in from the top towards the bottom.
    SlideBottom,
}

/// Horizontal alignment of text.
#[derive(Debug, Clone, Copy, PartialEq, Eq, Structural)]
pub enum TextAlign {
    Left,
    Center,
    Right,
}

/// Preset position of text in the frame.
#[derive(Debug, Clone, Copy, PartialEq, Eq, Structural)]
pub enum TextPositionPreset {
    TopLeft,
    TopCenter,
    TopRight,
    MiddleLeft,
    MiddleCenter,
    MiddleRight,
    BottomLeft,
    BottomCenter,
    BottomRight,
    Custom,
}

/// A slow zoom and pan over a still image. Zoom factors and pan offsets
/// (fractions of the frame) are ten-thousandths.
#[derive(Debug, Clone, Copy, PartialEq, Eq, Structural)]
pub struct KenBurnsEffect {
    pub zoom_start: i64,
    pub zoom_end: i64,
    pub pan_x_start: i64,
    pub pan_x_end: i64,
    pub pan_y_start: i64,
    pub pan_y_end: i64,
}

impl KenBurnsEffect {
    /// The push-in that `ImageClip::apply_ken_burns` sets.
    pub open spec fn standard() -> KenBurnsEffect {
        KenBurnsEffect {
            zoom_start: 10000,
            zoom_end: 12000,
            pan_x_start: 0,
            pan_x_end: 1000,
            pan_y_start: 0,
            pan_y_end: 1000,
        }
    }
}

// ─── Colour and effects ─────────────────────────────────────────────────────

/// Colour correction of a video clip.
#[derive(Debug)]
pub struct ColorCorrection {
    /// Brightness offset in ten-thousandths (0 is neutral).
    pub brightness: i64,
    /// Contrast in ten-thousandths (10000 is neutral).
    pub contrast: i64,
    /// Saturation in ten-thousandths (10000 is neutral).
    pub saturation: i64,
    /// White balance in kelvin (6500 is neutral), if set.
    pub temperature_k: Option<i64>,
    /// A 3D lookup table file, if any.
    pub lut_path: Option<String>,
}

/// The content of a colour correction.
pub struct ColorView {
    pub brightness: i64,
    pub contrast: i64,
    pub saturation: i64,
    pub temperature_k: Option<i64>,
    pub lut_path: Option<Seq<char>>,
}

impl View for ColorCorrection {
    type V = ColorView;

    open spec fn view(&self) -> ColorView {
        ColorView {
            brightness: self.brightness,
            contrast: self.contrast,
            saturation: self.saturation,
            temperature_k: self.temperature_k,
            lut_path: match self.lut_path {
                Some(p) => Some(p@),
                None => None,
            },
        }
    }
}

impl ColorView {
    /// Whether the correction changes anything.
    pub open spec fn is_active(self) -> bool {
        self.brightness != 0 || self.contrast != 10000 || self.saturation != 10000
            || self.temperature_k is Some || self.lut_path is Some
    }
}

impl ColorCorrection {
    /// The content of the neutral correction.
    pub open spec fn neutral_view() -> ColorView {
        ColorView { brightness: 0, contrast: 10000, saturation: 10000, temperature_k: None, lut_path: None }
    }

    /// The neutral correction, which changes nothing.
    pub fn neutral() -> (r: Self)
        ensures
            r@ == Self::neutral_view(),
    {
        ColorCorrection { brightness: 0, contrast: 10000, saturation: 10000, temperature_k: None, lut_path: None }
    }

    /// Changes the settings that are given: brightness kept within -1 to 1,
    /// contrast and saturation at least 0, the white balance as given. The
    /// others, and the lookup table, stay.
    pub fn adjust(
        &mut self,
        brightness: Option<i64>,
        contrast: Option<i64>,
        saturation: Option<i64>,
        temperature_k: Option<i64>,
    )
        ensures
            final(self)@.brightness as int == (match brightness {
                Some(b) => if b < -10000 {
                    -10000
                } else if b > 10000 {
                    10000
                } else {
                    b as int
                },
                None => old(self)@.brightness as int,
            }),
            final(self)@.contrast as int == (match contrast {
                Some(c) => if c < 0 {
                    0
                } else {
                    c as int
                },
                None => old(self)@.contrast as int,
            }),
            final(self)@.saturation as int == (match saturation {
                Some(v) => if v < 0 {
                    0
                } else {
                    v as int
                },
                None => old(self)@.saturation as int,
            }),
            final(self)@.temperature_k == (match temperature_k {
                Some(t) => Some(t),
                None => old(self)@.temperature_k,
            }),
            final(self)@.lut_path == old(self)@.lut_path,
    {
        if let Some(b) = brightness {
            self.brightness = if b < -10000 {
                -10000
            } else if b > 10000 {
                10000
            } else {
                b
            };
        }
        if let Some(c) = contrast {
            self.contrast = if c < 0 {
                0
            } else {
                c
            };
        }
        if let Some(v) = saturation {
            self.saturation = if v < 0 {
                0
            } else {
                v
            };
        }
        if let Some(t) = temperature_k {
            self.temperature_k = Some(t);
        }
    }
}

impl Clone for ColorCorrection {
    fn clone(&self) -> (r: Self)
        ensures
            r@ == self@,
    {
        ColorCorrection {
            brightness: self.brightness,
            contrast: self.contrast,
            saturation: self.saturation,
            temperature_k: self.temperature_k,
            lut_path: match &self.lut_path {
                Some(p) => Some(p.clone()),
                None => None,
            },
        }
    }
}

/// Visual effects of a video clip.
#[derive(Debug, Clone, Copy, PartialEq, Eq, Structural)]
pub struct VisualEffects {
    /// Gaussian blur radius in hundredths, if any.
    pub blur_radius: Option<i64>,
    /// Sharpening amount in hundredths, if any.
    pub sharpen: Option<i64>,
    /// Vignette intensity in ten-thousandths (10000 is a quarter turn), if any.
    pub vignette: Option<i64>,
    /// Noise strength in percent, if any.
    pub noise: Option<u32>,
    /// Deinterlace the picture.
    pub deinterlace: bool,
}

impl VisualEffects {
    /// No effect at all.
    pub open spec fn none() -> VisualEffects {
        VisualEffects { blur_radius: None, sharpen: None, vignette: None, noise: None, deinterlace: false }
    }

    /// Whether any effect is set.
    pub open spec fn is_active(self) -> bool {
        self.blur_radius is Some || self.sharpen is Some || self.vignette is Some || self.noise is Some
            || self.deinterlace
    }

    /// A setting as `adjusted` applies it: not given, the current value
    /// stays; given as 0 or less, the effect is off; else it is on at the
    /// given strength, at most `max`.
    pub open spec fn setting(current: Option<i64>, given: Option<i64>, max: i64) -> Option<i64> {
        match given {
            None => current,
            Some(v) => if v <= 0 {
                None
            } else if v > max {
                Some(max)
            } else {
                Some(v)
            },
        }
    }

    /// The effects after a change of the given settings: blur (hundredths,
    /// unbounded), sharpening (hundredths, at most 5.00), vignette
    /// (ten-thousandths, at most 1) and noise (percent, at most 100), each as
    /// `setting` says; deinterlacing turned on when asked, never off.
    pub open spec fn adjusted_spec(
        self,
        blur: Option<i64>,
        sharpen: Option<i64>,
        vignette: Option<i64>,
        noise: Option<i64>,
        deinterlace: bool,
    ) -> VisualEffects {
        VisualEffects {
            blur_radius: Self::setting(self.blur_radius, blur, i64::MAX),
            sharpen: Self::setting(self.sharpen, sharpen, 500),
            vignette: Self::setting(self.vignette, vignette, 10000),
            noise: match Self::setting(
                match self.noise {
                    Some(n) => Some(n as i64),
                    None => None,
                },
                noise,
                100,
            ) {
                Some(n) => Some(n as u32),
                None => None,
            },
            deinterlace: self.deinterlace || deinterlace,
        }
    }

    fn setting_exec(current: Option<i64>, given: Option<i64>, max: i64) -> (r: Option<i64>)
        ensures
            r == Self::setting(current, given, max),
    {
        match given {
            None => current,
            Some(v) => if v <= 0 {
                None
            } else if v > max {
                Some(max)
            } else {
                Some(v)
            },
        }
    }

    /// The effects of `adjusted_spec`.
    pub fn adjusted(
        self,
        blur: Option<i64>,
        sharpen: Option<i64>,
        vignette: Option<i64>,
        noise: Option<i64>,
        deinterlace: bool,
    ) -> (r: VisualEffects)
        ensures
            r == self.adjusted_spec(blur, sharpen, vignette, noise, deinterlace),
    {
        let current_noise: Option<i64> = match self.noise {
            Some(n) => Some(n as i64),
            None => None,
        };
        let n = Self::setting_exec(current_noise, noise, 100);
        VisualEffects {
            blur_radius: Self::setting_exec(self.blur_radius, blur, 0x7fff_ffff_ffff_ffff),
            sharpen: Self::setting_exec(self.sharpen, sharpen, 500),
            vignette: Self::setting_exec(self.vignette, vignette, 10000),
            noise: match n {
                Some(v) => Some(v as u32),
                None => None,
            },
            deinterlace: self.deinterlace || deinterlace,
        }
    }
}

// ─── Text ───────────────────────────────────────────────────────────────────

/// A colour with opacity, one byte per channel.
#[derive(Debug, Clone, Copy, PartialEq, Eq, Structural)]
pub struct TextColor {
    pub r: u8,
    pub g: u8,
    pub b: u8,
    /// Opacity: 0 is transparent, 255 opaque.
    pub a: u8,
}

/// A shadow behind text: its colour and its offset in tenths of a pixel.
#[derive(Debug, Clone, Copy, PartialEq, Eq, Structural)]
pub struct TextShadow {
    pub color: TextColor,
    pub offset_x: i64,
    pub offset_y: i64,
}

/// An outline around text: its colour and width in tenths of a pixel.
#[derive(Debug, Clone, Copy, PartialEq, Eq, Structural)]
pub struct TextStroke {
    pub color: TextColor,
    pub width: i64,
}

/// How text is drawn.
#[derive(Debug)]
pub struct TextStyle {
    /// A font name, or the path of a font file.
    pub font_family: String,
    /// Size in pixels.
    pub font_size: u32,
    pub bold: bool,
    pub italic: bool,
    pub align: TextAlign,
    pub color: TextColor,
    /// Colour of a box behind the text, if any.
    pub bg_color: Option<TextColor>,
    /// Line height in thousandths of the font size (`1000` is single spacing).
    pub line_height: i64,
    pub shadow: Option<TextShadow>,
    pub stroke: Option<TextStroke>,
}

/// The content of a text style.
pub struct TextStyleView {
    pub font_family: Seq<char>,
    pub font_size: u32,
    pub bold: bool,
    pub italic: bool,
    pub align: TextAlign,
    pub color: TextColor,
    pub bg_color: Option<TextColor>,
    pub line_height: i64,
    pub shadow: Option<TextShadow>,
    pub stroke: Option<TextStroke>,
}

impl View for TextStyle {
    type V = TextStyleView;

    open spec fn view(&self) -> TextStyleView {
        TextStyleView {
            font_family: self.font_family@,
            font_size: self.font_size,
            bold: self.bold,
            italic: self.italic,
            align: self.align,
            color: self.color,
            bg_color: self.bg_color,
            line_height: self.line_height,
            shadow: self.shadow,
            stroke: self.stroke,
        }
    }
}

impl Clone for TextStyle {
    fn clone(&self) -> (r: Self)
        ensures
            r@ == self@,
    {
        TextStyle {
            font_family: self.font_family.clone(),
            font_size: self.font_size,
            bold: self.bold,
            italic: self.italic,
            align: self.align,
            color: self.color,
            bg_color: self.bg_color,
            line_height: self.line_height,
            shadow: self.shadow,
            stroke: self.stroke,
        }
    }
}

impl TextStyle {
    /// The content of the default style of `new`.
    pub open spec fn new_view() -> TextStyleView {
        TextStyleView {
            font_family: "Sans"@,
            font_size: 48,
            bold: false,
            italic: false,
            align: TextAlign::Center,
            color: TextColor { r: 255, g: 255, b: 255, a: 255 },
            bg_color: None,
            line_height: 1000,
            shadow: None,
            stroke: None,
        }
    }

    /// White 48-pixel `Sans`, centred, single-spaced, with no box, shadow or
    /// outline.
    pub fn new() -> (r: Self)
        ensures
            r@ == Self::new_view(),
    {
        TextStyle {
            font_family: owned("Sans"),
            font_size: 48,
            bold: false,
            italic: false,
            align: TextAlign::Center,
            color: TextColor { r: 255, g: 255, b: 255, a: 255 },
            bg_color: None,
            line_height: 1000,
            shadow: None,
            stroke: None,
        }
    }
}

/// A text shown over the picture from `timeline_start` for `duration_secs`
/// milliseconds.
#[derive(Debug)]
pub struct TextClip {
    /// Identifier (the 128-bit value of a UUID).
    pub id: u128,
    pub name: String,
    /// The text itself; it may hold several lines.
    pub text: String,
    pub timeline_start: i64,
    pub duration_secs: i64,
    pub fade_in: Option<FadeEffect>,
    pub fade_out: Option<FadeEffect>,
    pub style: TextStyle,
    pub position_preset: TextPositionPreset,
    /// Left edge with the `Custom` preset, in ten-thousandths of the frame width.
    pub pos_x: Option<i64>,
    /// Top edge with the `Custom` preset, in ten-thousandths of the frame height.
    pub pos_y: Option<i64>,
    /// Distance from the frame edges with the other presets, in pixels.
    pub margin: u32,
}

/// The content of a text clip.
pub struct TextClipView {
    pub id: u128,
    pub name: Seq<char>,
    pub text: Seq<char>,
    pub timeline_start: i64,
    pub duration_secs: i64,
    pub fade_in: Option<FadeEffect>,
    pub fade_out: Option<FadeEffect>,
    pub style: TextStyleView,
    pub position_preset: TextPositionPreset,
    pub pos_x: Option<i64>,
    pub pos_y: Option<i64>,
    pub margin: u32,
}

impl View for TextClip {
    type V = TextClipView;

    open spec fn view(&self) -> TextClipView {
        TextClipView {
            id: self.id,
            name: self.name@,
            text: self.text@,
            timeline_start: self.timeline_start,
            duration_secs: self.duration_secs,
            fade_in: self.fade_in,
            fade_out: self.fade_out,
            style: self.style@,
            position_preset: self.position_preset,
            pos_x: self.pos_x,
            pos_y: self.pos_y,
            margin: self.margin,
        }
    }
}

impl TextClip {
    /// The text `text` shown from `timeline_start` for `duration` milliseconds,
    /// in the default style, at the bottom centre 40 pixels from the edge,
    /// without fades.
    pub fn new(name: &str, text: &str, timeline_start: i64, duration: i64) -> (r: Self)
        ensures
            r@.name == name@,
            r@.text == text@,
            r@.timeline_start == timeline_start,
            r@.duration_secs == duration,
            r@.fade_in is None,
            r@.fade_out is None,
            r@.style == TextStyle::new_view(),
            r@.position_preset == TextPositionPreset::BottomCenter,
            r@.pos_x is None,
            r@.pos_y is None,
            r@.margin == 40,
    {
        TextClip {
            id: new_id(),
            name: owned(name),
            text: owned(text),
            timeline_start,
            duration_secs: duration,
            fade_in: None,
            fade_out: None,
            style: TextStyle::new(),
            position_preset: TextPositionPreset::BottomCenter,
            pos_x: None,
            pos_y: None,
            margin: 40,
        }
    }

    /// Cuts the clip in two `at` milliseconds after its start, strictly
    /// inside it: this clip keeps the part before the cut and its fade-in;
    /// the part from the cut on, with the fade-out, is returned as a new clip
    /// with a fresh identifier and the same text, style and placement. Any
    /// other `at` leaves the clip as it is and gives `None`.
    pub fn split_at(&mut self, at: i64) -> (r: Option<TextClip>)
        requires
            old(self).timeline_start + old(self).duration_secs <= i64::MAX,
        ensures
            ({
                let s = old(self)@;
                &&& (r is Some <==> 0 < at && at < s.duration_secs)
                &&& (r is None ==> final(self)@ == s)
                &&& (r matches Some(n) ==> {
                    &&& final(self)@ == (TextClipView { duration_secs: at, fade_out: None, ..s })
                    &&& n@ == (TextClipView {
                        id: n@.id,
                        timeline_start: (s.timeline_start + at) as i64,
                        duration_secs: (s.duration_secs - at) as i64,
                        fade_in: None,
                        ..s
                    })
                })
            }),
    {
        if !(0 < at && at < self.duration_secs) {
            return None;
        }
        let rest = TextClip {
            id: new_id(),
            name: self.name.clone(),
            text: self.text.clone(),
            timeline_start: self.timeline_start + at,
            duration_secs: self.duration_secs - at,
            fade_in: None,
            fade_out: self.fade_out,
            style: self.style.clone(),
            position_preset: self.position_preset,
            pos_x: self.pos_x,
            pos_y: self.pos_y,
            margin: self.margin,
        };
        self.duration_secs = at;
        self.fade_out = None;
        Some(rest)
    }
}

impl Clone for TextClip {
    fn clone(&self) -> (r: Self)
        ensures
            r@ == self@,
    {
        TextClip {
            id: self.id,
            name: self.name.clone(),
            text: self.text.clone(),
            timeline_start: self.timeline_start,
            duration_secs: self.duration_secs,
            fade_in: self.fade_in,
            fade_out: self.fade_out,
            style: self.style.clone(),
            position_preset: self.position_preset,
            pos_x: self.pos_x,
            pos_y: self.pos_y,
            margin: self.margin,
        }
    }
}

} // verus!
