//! The decisions of the command line: its argument enums and their
//! conversions to the library's types, track lookup by name or identifier,
//! the output-overwrite guard, render regions and movement presets given by
//! name, and the clamping rules of the edit commands.
use vstd::prelude::*;
use crate::ids::{parse_uuid, uuid_parse};
use crate::motion::formula::{FormulaView, MovementFormula};
use crate::motion::presets::{preset_for, MotionPresets};
use crate::motion::region::{checked_region, RegionError, RenderRegion};
use crate::project::clip::{ImageMode, TextAlign, TextPositionPreset, TransitionKind};
use crate::project::track::{Track, TrackKind, TrackView};
use crate::project::{first_named, Project, ProjectView};
use crate::render::{AspectRatio, AudioFormat, VideoFormat};
use crate::textutil::{lowercase, owned, push_str, str_eq, to_lowercase};
use vstd::std_specs::convert::FromSpecImpl;

verus! {

// ─── Argument enums ─────────────────────────────────────────────────────────

/// `vedit cache` subcommands.
#[derive(Debug, Clone)]
pub enum CacheCmd {
    /// Remove the temporary files (`tmp/`) of a project's cache.
    Clean { project: String },
    /// Remove the whole cache of a project.
    ClearAll { project: String },
}

/// `vedit history` subcommands.
#[derive(Debug, Clone)]
pub enum HistoryCmd {
    /// Undo the last operation.
    Undo { project: String },
    /// Redo the last undone operation.
    Redo { project: String },
    /// Show the state of the history.
    Status { project: String },
}

/// Image mode as given on the command line.
#[derive(Debug, Clone, Copy, PartialEq, Eq, Structural)]
pub enum CliImageMode {
    Overlay,
    Background,
    Fullscreen,
}

impl From<CliImageMode> for ImageMode {
    fn from(m: CliImageMode) -> (r: Self) {
        match m {
            CliImageMode::Overlay => ImageMode::Overlay,
            CliImageMode::Background => ImageMode::Background,
            CliImageMode::Fullscreen => ImageMode::Fullscreen,
        }
    }
}

impl FromSpecImpl<CliImageMode> for ImageMode {
    open spec fn obeys_from_spec() -> bool {
        true
    }

    open spec fn from_spec(m: CliImageMode) -> ImageMode {
        match m {
            CliImageMode::Overlay => ImageMode::Overlay,
            CliImageMode::Background => ImageMode::Background,
            CliImageMode::Fullscreen => ImageMode::Fullscreen,
        }
    }
}

/// Video container as given on the command line.
#[derive(Debug, Clone, Copy, PartialEq, Eq, Structural)]
pub enum CliVideoFormat {
    Mp4,
    Mkv,
    Mov,
}

impl From<CliVideoFormat> for VideoFormat {
    fn from(v: CliVideoFormat) -> (r: Self) {
        match v {
            CliVideoFormat::Mp4 => VideoFormat::Mp4,
            CliVideoFormat::Mkv => VideoFormat::Mkv,
            CliVideoFormat::Mov => VideoFormat::Mov,
        }
    }
}

impl FromSpecImpl<CliVideoFormat> for VideoFormat {
    open spec fn obeys_from_spec() -> bool {
        true
    }

    open spec fn from_spec(v: CliVideoFormat) -> VideoFormat {
        match v {
            CliVideoFormat::Mp4 => VideoFormat::Mp4,
            CliVideoFormat::Mkv => VideoFormat::Mkv,
            CliVideoFormat::Mov => VideoFormat::Mov,
        }
    }
}

/// Audio format as given on the command line.
#[derive(Debug, Clone, Copy, PartialEq, Eq, Structural)]
pub enum CliAudioFormat {
    Mp3,
    Wav,
    Aac,
    Flac,
    Ogg,
}

impl From<CliAudioFormat> for AudioFormat {
    fn from(v: CliAudioFormat) -> (r: Self) {
        match v {
            CliAudioFormat::Mp3 => AudioFormat::Mp3,
            CliAudioFormat::Wav => AudioFormat::Wav,
            CliAudioFormat::Aac => AudioFormat::Aac,
            CliAudioFormat::Flac => AudioFormat::Flac,
            CliAudioFormat::Ogg => AudioFormat::Ogg,
        }
    }
}

impl FromSpecImpl<CliAudioFormat> for AudioFormat {
    open spec fn obeys_from_spec() -> bool {
        true
    }

    open spec fn from_spec(v: CliAudioFormat) -> AudioFormat {
        match v {
            CliAudioFormat::Mp3 => AudioFormat::Mp3,
            CliAudioFormat::Wav => AudioFormat::Wav,
            CliAudioFormat::Aac => AudioFormat::Aac,
            CliAudioFormat::Flac => AudioFormat::Flac,
            CliAudioFormat::Ogg => AudioFormat::Ogg,
        }
    }
}

/// Frame shape as given on the command line (`16:9` or `9:16`).
#[derive(Debug, Clone, Copy, PartialEq, Eq, Structural)]
pub enum CliAspect {
    /// 16:9 (1920×1080).
    Widescreen,
    /// 9:16 (1080×1920).
    Portrait,
}

impl From<CliAspect> for AspectRatio {
    fn from(a: CliAspect) -> (r: Self) {
        match a {
            CliAspect::Widescreen => AspectRatio::Widescreen,
            CliAspect::Portrait => AspectRatio::Portrait,
        }
    }
}

impl FromSpecImpl<CliAspect> for AspectRatio {
    open spec fn obeys_from_spec() -> bool {
        true
    }

    open spec fn from_spec(a: CliAspect) -> AspectRatio {
        match a {
            CliAspect::Widescreen => AspectRatio::Widescreen,
            CliAspect::Portrait => AspectRatio::Portrait,
        }
    }
}

/// `vedit render preset` subcommands.
#[derive(Debug, Clone)]
pub enum PresetAction {
    /// Save a preset under a name.
    Save { name: String, format: CliVideoFormat, audio: CliAudioFormat, aspect: CliAspect },
    /// List the saved presets.
    List,
}

/// `vedit render motion` subcommands.
#[derive(Debug, Clone)]
pub enum MotionAction {
    /// List the movement presets.
    List,
    /// Show the FFmpeg expressions of a preset.
    Show { name: String },
}

/// Saved render settings.
#[derive(Debug, Clone, Copy, PartialEq, Eq, Structural)]
pub struct RenderPreset {
    pub format: CliVideoFormat,
    pub audio: CliAudioFormat,
    pub aspect: CliAspect,
}

/// Text alignment as given on the command line.
#[derive(Debug, Clone, Copy, PartialEq, Eq, Structural)]
pub enum CliTextAlign {
    Left,
    Center,
    Right,
}

impl From<CliTextAlign> for TextAlign {
    fn from(c: CliTextAlign) -> (r: Self) {
        match c {
            CliTextAlign::Left => TextAlign::Left,
            CliTextAlign::Center => TextAlign::Center,
            CliTextAlign::Right => TextAlign::Right,
        }
    }
}

impl FromSpecImpl<CliTextAlign> for TextAlign {
    open spec fn obeys_from_spec() -> bool {
        true
    }

    open spec fn from_spec(c: CliTextAlign) -> TextAlign {
        match c {
            CliTextAlign::Left => TextAlign::Left,
            CliTextAlign::Center => TextAlign::Center,
            CliTextAlign::Right => TextAlign::Right,
        }
    }
}

/// Text position preset as given on the command line.
#[derive(Debug, Clone, Copy, PartialEq, Eq, Structural)]
pub enum CliTextPreset {
    TopLeft,
    TopCenter,
    TopRight,
    MiddleLeft,
    MiddleCenter,
    MiddleRight,
    BottomLeft,
    BottomCenter,
    BottomRight,
    Custom,
}

impl From<CliTextPreset> for TextPositionPreset {
    fn from(c: CliTextPreset) -> (r: Self) {
        match c {
            CliTextPreset::TopLeft => TextPositionPreset::TopLeft,
            CliTextPreset::TopCenter => TextPositionPreset::TopCenter,
            CliTextPreset::TopRight => TextPositionPreset::TopRight,
            CliTextPreset::MiddleLeft => TextPositionPreset::MiddleLeft,
            CliTextPreset::MiddleCenter => TextPositionPreset::MiddleCenter,
            CliTextPreset::MiddleRight => TextPositionPreset::MiddleRight,
            CliTextPreset::BottomLeft => TextPositionPreset::BottomLeft,
            CliTextPreset::BottomCenter => TextPositionPreset::BottomCenter,
            CliTextPreset::BottomRight => TextPositionPreset::BottomRight,
            CliTextPreset::Custom => TextPositionPreset::Custom,
        }
    }
}

impl FromSpecImpl<CliTextPreset> for TextPositionPreset {
    open spec fn obeys_from_spec() -> bool {
        true
    }

    open spec fn from_spec(c: CliTextPreset) -> TextPositionPreset {
        match c {
            CliTextPreset::TopLeft => TextPositionPreset::TopLeft,
            CliTextPreset::TopCenter => TextPositionPreset::TopCenter,
            CliTextPreset::TopRight => TextPositionPreset::TopRight,
            CliTextPreset::MiddleLeft => TextPositionPreset::MiddleLeft,
            CliTextPreset::MiddleCenter => TextPositionPreset::MiddleCenter,
            CliTextPreset::MiddleRight => TextPositionPreset::MiddleRight,
            CliTextPreset::BottomLeft => TextPositionPreset::BottomLeft,
            CliTextPreset::BottomCenter => TextPositionPreset::BottomCenter,
            CliTextPreset::BottomRight => TextPositionPreset::BottomRight,
            CliTextPreset::Custom => TextPositionPreset::Custom,
        }
    }
}

/// Transition kind as given on the command line.
#[derive(Debug, Clone, Copy, PartialEq, Eq, Structural)]
pub enum CliTransitionKind {
    Cut,
    FadeToBlack,
    FadeToWhite,
    CrossDissolve,
    WipeHorizontal,
    WipeVertical,
}

impl From<CliTransitionKind> for TransitionKind {
    fn from(k: CliTransitionKind) -> (r: Self) {
        match k {
            CliTransitionKind::Cut => TransitionKind::Cut,
            CliTransitionKind::FadeToBlack => TransitionKind::FadeToBlack,
            CliTransitionKind::FadeToWhite => TransitionKind::FadeToWhite,
            CliTransitionKind::CrossDissolve => TransitionKind::CrossDissolve,
            CliTransitionKind::WipeHorizontal => TransitionKind::WipeHorizontal,
            CliTransitionKind::WipeVertical => TransitionKind::WipeVertical,
        }
    }
}

impl FromSpecImpl<CliTransitionKind> for TransitionKind {
    open spec fn obeys_from_spec() -> bool {
        true
    }

    open spec fn from_spec(k: CliTransitionKind) -> TransitionKind {
        match k {
            CliTransitionKind::Cut => TransitionKind::Cut,
            CliTransitionKind::FadeToBlack => TransitionKind::FadeToBlack,
            CliTransitionKind::FadeToWhite => TransitionKind::FadeToWhite,
            CliTransitionKind::CrossDissolve => TransitionKind::CrossDissolve,
            CliTransitionKind::WipeHorizontal => TransitionKind::WipeHorizontal,
            CliTransitionKind::WipeVertical => TransitionKind::WipeVertical,
        }
    }
}

// ─── Errors ─────────────────────────────────────────────────────────────────

/// What `format!("{:?}", Path::new(s))` of std writes for a path: the text in
/// double quotes with the characters that need it escaped. It depends on the
/// text alone.
pub uninterp spec fn debug_quoted(s: Seq<char>) -> Seq<char>;

/// The `Debug` text of a path (`format!("{:?}", Path::new(s))`). The contract
/// ties it to the named function `debug_quoted`; the escaping rules of std are
/// not stated.
#[verifier::external_body]
pub(crate) fn path_debug(s: &str) -> (r: String)
    ensures
        r@ == debug_quoted(s@),
{
    format!("{:?}", std::path::Path::new(s))
}

/// Why a command was refused.
#[derive(Debug)]
pub enum CliError {
    /// A track kind other than audio, video or image (lower-cased).
    UnknownTrackKind(String),
    /// No track has this name, and it is not a UUID.
    TrackNotFound(String),
    /// The track to move is not in the project.
    TrackMissing,
    /// The output file exists and `--force` was not given (its `Debug` text).
    OutputExists(String),
    /// The region was refused.
    Region(RegionError),
    /// `--start-time` without `--duration`.
    StartWithoutDuration,
    /// `--duration` without `--start-time`.
    DurationWithoutStart,
    /// No movement preset has this name.
    UnknownMotion(String),
    /// A video speed that is not positive.
    NonPositiveSpeed,
}

/// The message of an error.
pub open spec fn error_text(e: CliError) -> Seq<char> {
    match e {
        CliError::UnknownTrackKind(k) => "Tipo de track desconocido: '"@ + k@
            + "'. Usa: audio, video, image"@,
        CliError::TrackNotFound(n) => "Track '"@ + n@ + "' no encontrado"@,
        CliError::TrackMissing => "Track no encontrado"@,
        CliError::OutputExists(p) => "El archivo de salida ya existe: "@ + p@
            + ". Usa --force para sobrescribir."@,
        CliError::Region(r) => r.text(),
        CliError::StartWithoutDuration => "--start-time requiere también --duration para definir la región."@,
        CliError::DurationWithoutStart => "--duration requiere también --start-time para definir la región."@,
        CliError::UnknownMotion(n) => "Preset de movimiento '"@ + n@
            + "' no reconocido. Usa `vedit render motion list` para ver los disponibles."@,
        CliError::NonPositiveSpeed => "La velocidad debe ser mayor a 0.0"@,
    }
}

impl CliError {
    /// The message shown to the user.
    pub fn message(&self) -> (r: String)
        ensures
            r@ == error_text(*self),
    {
        match self {
            CliError::UnknownTrackKind(k) => {
                let mut m = owned("Tipo de track desconocido: '");
                push_str(&mut m, k.as_str());
                push_str(&mut m, "'. Usa: audio, video, image");
                m
            },
            CliError::TrackNotFound(n) => {
                let mut m = owned("Track '");
                push_str(&mut m, n.as_str());
                push_str(&mut m, "' no encontrado");
                m
            },
            CliError::TrackMissing => owned("Track no encontrado"),
            CliError::OutputExists(p) => {
                let mut m = owned("El archivo de salida ya existe: ");
                push_str(&mut m, p.as_str());
                push_str(&mut m, ". Usa --force para sobrescribir.");
                m
            },
            CliError::Region(r) => r.message(),
            CliError::StartWithoutDuration => owned(
                "--start-time requiere también --duration para definir la región.",
            ),
            CliError::DurationWithoutStart => owned(
                "--duration requiere también --start-time para definir la región.",
            ),
            CliError::UnknownMotion(n) => {
                let mut m = owned("Preset de movimiento '");
                push_str(&mut m, n.as_str());
                push_str(
                    &mut m,
                    "' no reconocido. Usa `vedit render motion list` para ver los disponibles.",
                );
                m
            },
            CliError::NonPositiveSpeed => owned("La velocidad debe ser mayor a 0.0"),
        }
    }
}

// ─── Decisions ──────────────────────────────────────────────────────────────

/// The track kind that a lower-cased name selects.
pub open spec fn kind_for(l: Seq<char>) -> Option<TrackKind> {
    if l == "audio"@ {
        Some(TrackKind::Audio)
    } else if l == "video"@ {
        Some(TrackKind::Video)
    } else if l == "image"@ {
        Some(TrackKind::Image)
    } else if l == "text"@ {
        Some(TrackKind::Text)
    } else {
        None
    }
}

/// The track kind named by `s`, ignoring case: `audio`, `video`, `image` or
/// `text`; any other name is refused, quoting it in lower case.
pub fn parse_kind(s: &str) -> (r: Result<TrackKind, CliError>)
    ensures
        match kind_for(lowercase(s@)) {
            Some(k) => r matches Ok(j) && j == k,
            None => r matches Err(CliError::UnknownTrackKind(o)) && o@ == lowercase(s@),
        },
{
    let lower = to_lowercase(s);
    if str_eq(lower.as_str(), "audio") {
        Ok(TrackKind::Audio)
    } else if str_eq(lower.as_str(), "video") {
        Ok(TrackKind::Video)
    } else if str_eq(lower.as_str(), "image") {
        Ok(TrackKind::Image)
    } else if str_eq(lower.as_str(), "text") {
        Ok(TrackKind::Text)
    } else {
        Err(CliError::UnknownTrackKind(lower))
    }
}

/// The track identifier that a command argument names: the UUID it spells,
/// whether or not a track has it; otherwise the identifier of the first track
/// with that name (ignoring case); otherwise an error naming the argument.
pub fn resolve_track_id(project: &Project, name_or_id: &str) -> (r: Result<u128, CliError>)
    ensures
        match uuid_parse(name_or_id@) {
            Some(id) => r == Ok::<u128, CliError>(id),
            None => match first_named(project@.tracks, lowercase(name_or_id@)) {
                Some(i) => r == Ok::<u128, CliError>(project@.tracks[i].id),
                None => r matches Err(CliError::TrackNotFound(n)) && n@ == name_or_id@,
            },
        },
{
    match parse_uuid(name_or_id) {
        Some(id) => Ok(id),
        None => match project.track_by_name(name_or_id) {
            Some(t) => Ok(t.id),
            None => Err(CliError::TrackNotFound(owned(name_or_id))),
        },
    }
}

/// Refuses to write over an existing output file unless `force` is given;
/// `exists` tells whether the file `output` exists.
pub fn check_output_not_overwritten(output: &str, exists: bool, force: bool) -> (r: Result<
    (),
    CliError,
>)
    ensures
        exists && !force ==> (r matches Err(CliError::OutputExists(p)) && p@ == debug_quoted(output@)),
        !(exists && !force) ==> r is Ok,
{
    if exists && !force {
        return Err(CliError::OutputExists(path_debug(output)));
    }
    Ok(())
}

/// The region given by `--start-time` and `--duration` (ms): both or neither
/// must be given; a given region must be valid.
pub fn resolve_render_region(start_time: Option<i64>, duration: Option<i64>) -> (r: Result<
    Option<RenderRegion>,
    CliError,
>)
    ensures
        match (start_time, duration) {
            (Some(s), Some(d)) => match checked_region(s, d) {
                Ok(g) => r matches Ok(Some(h)) && h == g,
                Err(e) => r matches Err(CliError::Region(f)) && f == e,
            },
            (Some(_), None) => r matches Err(CliError::StartWithoutDuration),
            (None, Some(_)) => r matches Err(CliError::DurationWithoutStart),
            (None, None) => r matches Ok(None),
        },
{
    match (start_time, duration) {
        (Some(s), Some(d)) => match RenderRegion::new(s, d) {
            Ok(g) => Ok(Some(g)),
            Err(e) => Err(CliError::Region(e)),
        },
        (Some(_), None) => Err(CliError::StartWithoutDuration),
        (None, Some(_)) => Err(CliError::DurationWithoutStart),
        (None, None) => Ok(None),
    }
}

/// The movement preset named by `--motion`, if one was given; an unknown name
/// is refused.
pub fn resolve_motion_formula(name: Option<&str>) -> (r: Result<Option<MovementFormula>, CliError>)
    ensures
        match name {
            None => r matches Ok(None),
            Some(n) => match preset_for(lowercase(n@)) {
                Some(f) => r matches Ok(Some(g)) && g@ == f,
                None => r matches Err(CliError::UnknownMotion(m)) && m@ == n@,
            },
        },
{
    match name {
        None => Ok(None),
        Some(n) => match MotionPresets::by_name(n) {
            Some(f) => Ok(Some(f)),
            None => Err(CliError::UnknownMotion(owned(n))),
        },
    }
}

/// Moves the track `id` to index `position` (or to the end when `position` is
/// past it) and updates the modification time; refused when no track has `id`.
pub fn reorder_track(project: &mut Project, id: u128, position: usize) -> (r: Result<(), CliError>)
    ensures
        match crate::project::track::first_index_of(
            crate::project::track_ids(old(project)@.tracks),
            id,
        ) {
            None => r matches Err(CliError::TrackMissing) && final(project)@ == old(project)@,
            Some(i) => {
                let rest = old(project)@.tracks.remove(i);
                let at: int = if position < rest.len() {
                    position as int
                } else {
                    rest.len() as int
                };
                &&& r is Ok
                &&& final(project)@.tracks == rest.insert(at, old(project)@.tracks[i])
                &&& final(project)@.same_but_tracks(old(project)@)
            },
        },
{
    proof {
        crate::project::track::lemma_first_index_of(crate::project::track_ids(project@.tracks), id);
    }
    match project.track_index(id) {
        None => Err(CliError::TrackMissing),
        Some(idx) => {
            let ghost s = project@.tracks;
            let t = project.tracks.remove(idx);
            assert(crate::project::track_views(project.tracks@) =~= s.remove(idx as int));
            let n = project.tracks.len();
            let at = if position < n {
                position
            } else {
                n
            };
            project.tracks.insert(at, t);
            assert(crate::project::track_views(project.tracks@) =~= s.remove(idx as int).insert(
                at as int,
                s[idx as int],
            ));
            project.touch();
            Ok(())
        },
    }
}

/// A clip volume (thousandths) kept within 0 to 2000.
pub fn clip_volume(v: i64) -> (r: i64)
    ensures
        r == (if v < 0 {
            0
        } else if v > 2000 {
            2000
        } else {
            v
        }),
{
    if v < 0 {
        0
    } else if v > 2000 {
        2000
    } else {
        v
    }
}

/// A clip speed (thousandths) of at least 0.1.
pub fn clip_speed(f: i64) -> (r: i64)
    ensures
        r == (if f < 100 {
            100
        } else {
            f
        }),
{
    if f < 100 {
        100
    } else {
        f
    }
}

/// An image duration (ms) of at least 0.1 s.
pub fn image_duration(d: i64) -> (r: i64)
    ensures
        r == (if d < 100 {
            100
        } else {
            d
        }),
{
    if d < 100 {
        100
    } else {
        d
    }
}

/// Checks that a video speed (thousandths) is positive.
pub fn check_video_speed(factor: i64) -> (r: Result<(), CliError>)
    ensures
        factor <= 0 ==> r matches Err(CliError::NonPositiveSpeed),
        factor > 0 ==> r is Ok,
{
    if factor <= 0 {
        Err(CliError::NonPositiveSpeed)
    } else {
        Ok(())
    }
}

/// Moving a track to another position keeps the same tracks: the result is a
/// rearrangement of the tracks before, with as many of each.
pub proof fn law_reorder_keeps_tracks(s: Seq<TrackView>, i: int, at: int)
    requires
        0 <= i < s.len(),
        0 <= at < s.len(),
    ensures
        s.remove(i).insert(at, s[i]).len() == s.len(),
        s.remove(i).insert(at, s[i]).to_multiset() == s.to_multiset(),
        s.remove(i).insert(at, s[i])[at] == s[i],
{
    broadcast use vstd::seq_lib::group_to_multiset_ensures;

    let rest = s.remove(i);
    let r = rest.insert(at, s[i]);
    assert(r.remove(at) =~= rest);
    assert(r[at] == s[i]);
    assert(r.to_multiset().count(s[i]) > 0) by {
        assert(r.contains(s[i]));
    }
    assert(s.to_multiset().count(s[i]) > 0) by {
        assert(s.contains(s[i]));
    }
    assert(r.to_multiset() =~= s.to_multiset()) by {
        assert forall|x: TrackView| r.to_multiset().count(x) == s.to_multiset().count(x) by {
            assert(r.remove(at).to_multiset() =~= r.to_multiset().remove(r[at]));
            assert(rest.to_multiset() =~= s.to_multiset().remove(s[i]));
        }
    }
}

} // verus!
