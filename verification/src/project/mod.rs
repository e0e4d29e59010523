//! The project model: metadata, tracks and clips.
//!
//! Times are integers in milliseconds, the frame rate in thousandths of a frame
//! per second, and creation and modification stamps in milliseconds since the
//! Unix epoch.
pub mod clip;
pub mod track;

use vstd::prelude::*;
use crate::clock::now_millis;
use crate::cli::{debug_quoted, path_debug};
use crate::textutil::{lowercase, owned, push_char, push_str, str_eq, to_lowercase, views};
use crate::project::clip::{AudioClipView, ImageClipView, VideoClipView};
use crate::project::track::{first_index_of, lemma_first_index_of, Track, TrackKind, TrackView};

verus! {

/// Name, frame format, frame rate, sample rate and time stamps of a project.
#[derive(Debug)]
pub struct ProjectMetadata {
    /// Project name.
    pub name: String,
    /// Frames per second, in thousandths (30000 = 30 fps).
    pub fps: i64,
    /// Frame width in pixels.
    pub width: u32,
    /// Frame height in pixels.
    pub height: u32,
    /// Audio sample rate in Hz.
    pub sample_rate: u32,
    /// Creation time (ms since the Unix epoch).
    pub created_at: i64,
    /// Last modification time (ms since the Unix epoch).
    pub modified_at: i64,
}

/// The content of project metadata.
pub struct MetadataView {
    pub name: Seq<char>,
    pub fps: i64,
    pub width: u32,
    pub height: u32,
    pub sample_rate: u32,
    pub created_at: i64,
    pub modified_at: i64,
}

impl View for ProjectMetadata {
    type V = MetadataView;

    open spec fn view(&self) -> MetadataView {
        MetadataView {
            name: self.name@,
            fps: self.fps,
            width: self.width,
            height: self.height,
            sample_rate: self.sample_rate,
            created_at: self.created_at,
            modified_at: self.modified_at,
        }
    }
}

impl MetadataView {
    /// Equal in everything but the modification time.
    pub open spec fn same_but_modified(self, other: MetadataView) -> bool {
        &&& self.name == other.name
        &&& self.fps == other.fps
        &&& self.width == other.width
        &&& self.height == other.height
        &&& self.sample_rate == other.sample_rate
        &&& self.created_at == other.created_at
    }
}

impl Default for ProjectMetadata {
    fn default() -> (r: Self)
        ensures
            r@.name == "Untitled"@,
            r@.fps == 30000,
            r@.width == 1920,
            r@.height == 1080,
            r@.sample_rate == 44100,
    {
        let now = now_millis();
        ProjectMetadata {
            name: owned("Untitled"),
            fps: 30000,
            width: 1920,
            height: 1080,
            sample_rate: 44100,
            created_at: now,
            modified_at: now,
        }
    }
}

impl Clone for ProjectMetadata {
    fn clone(&self) -> (r: Self)
        ensures
            r@ == self@,
    {
        ProjectMetadata {
            name: self.name.clone(),
            fps: self.fps,
            width: self.width,
            height: self.height,
            sample_rate: self.sample_rate,
            created_at: self.created_at,
            modified_at: self.modified_at,
        }
    }
}

/// Why a project cannot be rendered or was refused on loading.
#[derive(Debug, Clone, PartialEq, Eq)]
pub enum ProjectError {
    /// The project has no track.
    NoTracks,
    /// A clip's source file is missing (its `Debug` text).
    MissingSource(String),
    /// The frame rate is zero or negative.
    NonPositiveFps,
    /// The sample rate is zero.
    ZeroSampleRate,
}

impl ProjectError {
    /// The message shown to the user for this error.
    pub open spec fn text(self) -> Seq<char> {
        match self {
            ProjectError::NoTracks => "No hay tracks para renderizar en este proyecto. Agrega al menos un track y clip antes de exportar."@,
            ProjectError::NonPositiveFps => "Corrupción semántica: Los FPS del proyecto no pueden ser <= 0.0"@,
            ProjectError::ZeroSampleRate => "Corrupción semántica: El Sample Rate del proyecto no puede ser 0"@,
            ProjectError::MissingSource(p) => "Archivo fuente extraviado o eliminado: "@ + p@,
        }
    }

    /// The message shown to the user.
    pub fn message(&self) -> (r: String)
        ensures
            r@ == self.text(),
    {
        match self {
            ProjectError::NoTracks => owned(
                "No hay tracks para renderizar en este proyecto. Agrega al menos un track y clip antes de exportar.",
            ),
            ProjectError::NonPositiveFps => owned(
                "Corrupción semántica: Los FPS del proyecto no pueden ser <= 0.0",
            ),
            ProjectError::ZeroSampleRate => owned(
                "Corrupción semántica: El Sample Rate del proyecto no puede ser 0",
            ),
            ProjectError::MissingSource(p) => {
                let mut m = owned("Archivo fuente extraviado o eliminado: ");
                push_str(&mut m, p.as_str());
                m
            },
        }
    }
}

/// A project: identifier, metadata, tracks, and the file it was loaded from.
#[derive(Debug)]
pub struct Project {
    /// Identifier (the 128-bit value of a UUID).
    pub id: u128,
    /// Metadata.
    pub metadata: ProjectMetadata,
    /// Tracks, in order.
    pub tracks: Vec<Track>,
    /// File the project is saved to (not persisted).
    pub path: Option<String>,
}

/// The content of a project.
pub struct ProjectView {
    pub id: u128,
    pub metadata: MetadataView,
    pub tracks: Seq<TrackView>,
    pub path: Option<Seq<char>>,
}

/// Views of tracks.
pub open spec fn track_views(v: Seq<Track>) -> Seq<TrackView> {
    v.map_values(|t: Track| t@)
}

/// Identifiers of tracks, in order.
pub open spec fn track_ids(s: Seq<TrackView>) -> Seq<u128> {
    s.map_values(|t: TrackView| t.id)
}

/// The tracks whose identifier is not `id`, in order.
pub open spec fn tracks_without(s: Seq<TrackView>, id: u128) -> Seq<TrackView> {
    s.filter(|t: TrackView| t.id != id)
}

impl View for Project {
    type V = ProjectView;

    open spec fn view(&self) -> ProjectView {
        ProjectView {
            id: self.id,
            metadata: self.metadata@,
            tracks: track_views(self.tracks@),
            path: match self.path {
                Some(p) => Some(p@),
                None => None,
            },
        }
    }
}

/// Length of a track (ms): the latest end of its audio and video clips, at least 0.
pub open spec fn track_duration(t: TrackView) -> int {
    let a = crate::project::track::audio_end(t.audio_clips);
    let v = crate::project::track::video_end(t.video_clips);
    if a > v {
        a
    } else {
        v
    }
}

/// The longest track length (ms), and at least 0.
pub open spec fn longest_track(s: Seq<TrackView>) -> int
    decreases s.len(),
{
    if s.len() == 0 {
        0
    } else {
        let m = longest_track(s.drop_last());
        let d = track_duration(s.last());
        if d > m {
            d
        } else {
            m
        }
    }
}

/// Index of the first track whose lower-cased name is `lname`.
pub open spec fn first_named(s: Seq<TrackView>, lname: Seq<char>) -> Option<int>
    decreases s.len(),
{
    if s.len() == 0 {
        None
    } else {
        match first_named(s.drop_last(), lname) {
            Some(i) => Some(i),
            None => if lowercase(s.last().name) == lname {
                Some(s.len() - 1)
            } else {
                None
            },
        }
    }
}

proof fn lemma_first_named_at(s: Seq<TrackView>, lname: Seq<char>, i: int)
    requires
        0 <= i < s.len(),
        lowercase(s[i].name) == lname,
        forall|j: int| 0 <= j < i ==> lowercase(#[trigger] s[j].name) != lname,
    ensures
        first_named(s, lname) == Some(i),
    decreases s.len(),
{
    if i < s.len() - 1 {
        assert forall|j: int| 0 <= j < i implies lowercase(#[trigger] s.drop_last()[j].name)
            != lname by {
            assert(s.drop_last()[j] == s[j]);
        }
        lemma_first_named_at(s.drop_last(), lname, i);
    } else {
        lemma_first_named_none(s.drop_last(), lname);
    }
}

proof fn lemma_first_named_none(s: Seq<TrackView>, lname: Seq<char>)
    requires
        forall|j: int| 0 <= j < s.len() ==> lowercase(#[trigger] s[j].name) != lname,
    ensures
        first_named(s, lname) is None,
    decreases s.len(),
{
    if s.len() > 0 {
        assert forall|j: int| 0 <= j < s.len() - 1 implies lowercase(
            #[trigger] s.drop_last()[j].name,
        ) != lname by {
            assert(s.drop_last()[j] == s[j]);
        }
        lemma_first_named_none(s.drop_last(), lname);
    }
}

/// All source files of the clips, track by track: audio clips, then video clips,
/// then image clips of each track.
pub open spec fn source_paths(s: Seq<TrackView>) -> Seq<Seq<char>>
    decreases s.len(),
{
    if s.len() == 0 {
        Seq::empty()
    } else {
        let t = s.last();
        source_paths(s.drop_last()) + t.audio_clips.map_values(|c: AudioClipView| c.source_path)
            + t.video_clips.map_values(|c: VideoClipView| c.source_path)
            + t.image_clips.map_values(|c: ImageClipView| c.source_path)
    }
}

/// The index of the first `false` in `s`, if any.
pub open spec fn first_false(s: Seq<bool>) -> Option<int>
    decreases s.len(),
{
    if s.len() == 0 {
        None
    } else {
        match first_false(s.drop_last()) {
            Some(i) => Some(i),
            None => if !s.last() {
                Some(s.len() - 1)
            } else {
                None
            },
        }
    }
}

impl ProjectView {
    /// Equal in everything but the tracks and the modification time.
    pub open spec fn same_but_tracks(self, other: ProjectView) -> bool {
        &&& self.id == other.id
        &&& self.metadata.same_but_modified(other.metadata)
        &&& self.path == other.path
    }
}

/// `name` with every space replaced by an underscore.
pub open spec fn underscored(name: Seq<char>) -> Seq<char> {
    name.map_values(|c: char| if c == ' ' { '_' } else { c })
}

/// The directory a new project named `name` is created in: the name with its
/// spaces as underscores, in lower case.
pub fn dir_name(name: &str) -> (r: String)
    ensures
        r@ == lowercase(underscored(name@)),
{
    let n = name.unicode_len();
    let mut s = String::new();
    let mut i: usize = 0;
    while i < n
        invariant
            n == name@.len(),
            0 <= i <= n,
            s@ == underscored(name@.take(i as int)),
        decreases n - i,
    {
        let c = name.get_char(i);
        if c == ' ' {
            push_char(&mut s, '_');
        } else {
            push_char(&mut s, c);
        }
        assert(name@.take(i + 1) =~= name@.take(i as int).push(c));
        assert(underscored(name@.take(i + 1)) =~= underscored(name@.take(i as int)).push(
            if c == ' ' { '_' } else { c },
        ));
        i = i + 1;
    }
    assert(name@.take(n as int) =~= name@);
    to_lowercase(s.as_str())
}

impl Project {
    /// A new, empty project named `name` with the default metadata.
    pub fn new(name: &str) -> (r: Self)
        ensures
            r@.metadata.name == name@,
            r@.metadata.fps == 30000,
            r@.metadata.width == 1920,
            r@.metadata.height == 1080,
            r@.metadata.sample_rate == 44100,
            r@.tracks.len() == 0,
            r@.path is None,
    {
        let mut meta = ProjectMetadata::default();
        meta.name = owned(name);
        let r = Project { id: crate::ids::new_id(), metadata: meta, tracks: Vec::new(), path: None };
        assert(r@.tracks =~= Seq::<TrackView>::empty());
        r
    }

    /// Length of the project (ms): the longest of its tracks, and at least 0.
    pub fn duration_secs(&self) -> (r: i128)
        ensures
            r == longest_track(self@.tracks),
            0 <= r < 0x1_0000_0000_0000_0000_0000_0000_0000,
    {
        let mut m: i128 = 0;
        let mut i: usize = 0;
        while i < self.tracks.len()
            invariant
                0 <= i <= self.tracks@.len(),
                m == longest_track(self@.tracks.take(i as int)),
                0 <= m < 0x1_0000_0000_0000_0000_0000_0000_0000,
            decreases self.tracks.len() - i,
        {
            let d = self.tracks[i].duration_secs();
            assert(self@.tracks.take(i + 1).drop_last() =~= self@.tracks.take(i as int));
            assert(self@.tracks.take(i + 1).last() == self.tracks@[i as int]@);
            if d > m {
                m = d;
            }
            i = i + 1;
        }
        assert(self@.tracks.take(self.tracks@.len() as int) =~= self@.tracks);
        m
    }

    /// Sets the modification time to now; nothing else changes.
    pub fn touch(&mut self)
        ensures
            final(self)@.same_but_tracks(old(self)@),
            final(self)@.tracks == old(self)@.tracks,
    {
        self.metadata.modified_at = now_millis();
    }

    /// Adds an empty track of kind `kind` named `name` at the end and returns its
    /// identifier; the modification time is updated.
    pub fn add_track(&mut self, kind: TrackKind, name: &str) -> (r: u128)
        ensures
            final(self)@.same_but_tracks(old(self)@),
            final(self)@.tracks.len() == old(self)@.tracks.len() + 1,
            final(self)@.tracks.drop_last() == old(self)@.tracks,
            final(self)@.tracks.last().id == r,
            final(self)@.tracks.last().kind == kind,
            final(self)@.tracks.last().name == name@,
            final(self)@.tracks.last().volume == 1000,
            !final(self)@.tracks.last().muted,
            final(self)@.tracks.last().audio_clips.len() == 0,
            final(self)@.tracks.last().video_clips.len() == 0,
            final(self)@.tracks.last().image_clips.len() == 0,
    {
        let track = Track::new(kind, name);
        let id = track.id;
        let ghost tv = track@;
        self.tracks.push(track);
        assert(self@.tracks =~= old(self)@.tracks.push(tv));
        self.touch();
        assert(self@.tracks.drop_last() =~= old(self)@.tracks);
        id
    }

    /// Removes every track with identifier `id`; true when one was removed, and
    /// then the modification time is updated.
    pub fn remove_track(&mut self, id: u128) -> (r: bool)
        ensures
            final(self)@.tracks == tracks_without(old(self)@.tracks, id),
            r == track_ids(old(self)@.tracks).contains(id),
            final(self)@.same_but_tracks(old(self)@),
            !r ==> final(self)@ == old(self)@,
    {
        let ghost s = old(self)@.tracks;
        let mut kept: Vec<Track> = Vec::new();
        let mut found = false;
        let mut i: usize = 0;
        while i < self.tracks.len()
            invariant
                s == self@.tracks,
                self@ == old(self)@,
                0 <= i <= s.len(),
                track_views(kept@) == tracks_without(s.take(i as int), id),
                found == track_ids(s.take(i as int)).contains(id),
            decreases self.tracks.len() - i,
        {
            reveal(Seq::filter);
            let t = self.tracks[i].clone();
            assert(s.take(i + 1).drop_last() =~= s.take(i as int));
            assert(s.take(i + 1).last() == t@);
            assert(track_ids(s.take(i + 1)) =~= track_ids(s.take(i as int)).push(t.id));
            if t.id != id {
                let ghost before = track_views(kept@);
                kept.push(t);
                assert(track_views(kept@) =~= before.push(s[i as int]));
            } else {
                found = true;
            }
            assert(found == track_ids(s.take(i + 1)).contains(id)) by {
                let a = track_ids(s.take(i as int));
                let b = track_ids(s.take(i + 1));
                if t.id == id {
                    assert(b[i as int] == id);
                }
                if a.contains(id) {
                    let j = choose|j: int| 0 <= j < a.len() && a[j] == id;
                    assert(b[j] == a[j]);
                }
                if b.contains(id) && !a.contains(id) {
                    let j = choose|j: int| 0 <= j < b.len() && b[j] == id;
                    if j < i {
                        assert(a[j] == b[j]);
                    }
                }
            }
            i = i + 1;
        }
        assert(s.take(s.len() as int) =~= s);
        if found {
            self.tracks = kept;
            self.touch();
        } else {
            proof {
                reveal(Seq::filter);
                lemma_filter_keeps_all(s, id);
            }
        }
        found
    }

    /// Index of the first track with identifier `id`.
    pub fn track_index(&self, id: u128) -> (r: Option<usize>)
        ensures
            match r {
                Some(i) => first_index_of(track_ids(self@.tracks), id) == Some(i as int),
                None => first_index_of(track_ids(self@.tracks), id) is None,
            },
    {
        let ghost ids = track_ids(self@.tracks);
        let mut i: usize = 0;
        while i < self.tracks.len()
            invariant
                ids == track_ids(self@.tracks),
                0 <= i <= self.tracks@.len(),
                forall|j: int| 0 <= j < i ==> ids[j] != id,
            decreases self.tracks.len() - i,
        {
            assert(ids[i as int] == self.tracks@[i as int].id);
            if self.tracks[i].id == id {
                proof {
                    lemma_first_index_of(ids, id);
                    assert(ids.contains(id));
                }
                return Some(i);
            }
            i = i + 1;
        }
        proof {
            lemma_first_index_of(ids, id);
        }
        None
    }

    /// The first track with identifier `id`.
    pub fn track(&self, id: u128) -> (r: Option<&Track>)
        ensures
            match first_index_of(track_ids(self@.tracks), id) {
                Some(i) => r matches Some(t) && t@ == self@.tracks[i],
                None => r is None,
            },
    {
        proof {
            lemma_first_index_of(track_ids(self@.tracks), id);
        }
        match self.track_index(id) {
            Some(i) => Some(&self.tracks[i]),
            None => None,
        }
    }

    /// The first track with identifier `id`, to be changed in place.
    pub fn track_mut(&mut self, id: u128) -> (r: Option<&mut Track>)
        ensures
            match first_index_of(track_ids(old(self)@.tracks), id) {
                Some(i) => {
                    &&& r is Some
                    &&& (*r->0)@ == old(self)@.tracks[i]
                    &&& final(self)@.tracks == old(self)@.tracks.update(i, (*final(r->0))@)
                    &&& final(self)@.id == old(self)@.id
                    &&& final(self)@.metadata == old(self)@.metadata
                    &&& final(self)@.path == old(self)@.path
                },
                None => r is None && final(self)@ == old(self)@,
            },
    {
        proof {
            lemma_first_index_of(track_ids(self@.tracks), id);
        }
        match self.track_index(id) {
            Some(i) => Some(&mut self.tracks[i]),
            None => None,
        }
    }

    /// Index of the first track whose name equals `name` ignoring case.
    pub fn track_index_by_name(&self, name: &str) -> (r: Option<usize>)
        ensures
            match r {
                Some(i) => i < self@.tracks.len() && first_named(self@.tracks, lowercase(name@))
                    == Some(i as int),
                None => first_named(self@.tracks, lowercase(name@)) is None,
            },
    {
        let lower = to_lowercase(name);
        let mut i: usize = 0;
        while i < self.tracks.len()
            invariant
                lower@ == lowercase(name@),
                0 <= i <= self.tracks@.len(),
                forall|j: int| 0 <= j < i ==> lowercase(#[trigger] self@.tracks[j].name) != lower@,
            decreases self.tracks.len() - i,
        {
            let tl = to_lowercase(self.tracks[i].name.as_str());
            assert(self@.tracks[i as int].name == self.tracks@[i as int].name@);
            if str_eq(tl.as_str(), lower.as_str()) {
                proof {
                    lemma_first_named_at(self@.tracks, lower@, i as int);
                }
                return Some(i);
            }
            i = i + 1;
        }
        proof {
            lemma_first_named_none(self@.tracks, lower@);
        }
        None
    }

    /// The first track whose name equals `name` ignoring case.
    pub fn track_by_name(&self, name: &str) -> (r: Option<&Track>)
        ensures
            match first_named(self@.tracks, lowercase(name@)) {
                Some(i) => r matches Some(t) && t@ == self@.tracks[i],
                None => r is None,
            },
    {
        match self.track_index_by_name(name) {
            Some(i) => Some(&self.tracks[i]),
            None => None,
        }
    }

    /// The first track whose name equals `name` ignoring case, to be changed in place.
    pub fn track_by_name_mut(&mut self, name: &str) -> (r: Option<&mut Track>)
        ensures
            match first_named(old(self)@.tracks, lowercase(name@)) {
                Some(i) => {
                    &&& r is Some
                    &&& (*r->0)@ == old(self)@.tracks[i]
                    &&& final(self)@.tracks == old(self)@.tracks.update(i, (*final(r->0))@)
                    &&& final(self)@.id == old(self)@.id
                    &&& final(self)@.metadata == old(self)@.metadata
                    &&& final(self)@.path == old(self)@.path
                },
                None => r is None && final(self)@ == old(self)@,
            },
    {
        match self.track_index_by_name(name) {
            Some(i) => Some(&mut self.tracks[i]),
            None => None,
        }
    }

    /// Checks that a project can be rendered: it must have at least one track.
    /// Gives back the source files of all clips, in the order in which their
    /// existence is to be checked (track by track: audio, video, image clips).
    pub fn validate_for_render(&self) -> (r: Result<Vec<String>, ProjectError>)
        ensures
            self@.tracks.len() == 0 ==> r == Err::<Vec<String>, ProjectError>(
                ProjectError::NoTracks,
            ),
            self@.tracks.len() > 0 ==> (r matches Ok(paths) && views(paths@) == source_paths(
                self@.tracks,
            )),
    {
        if self.tracks.len() == 0 {
            return Err(ProjectError::NoTracks);
        }
        let mut paths: Vec<String> = Vec::new();
        let mut i: usize = 0;
        while i < self.tracks.len()
            invariant
                0 <= i <= self.tracks@.len(),
                views(paths@) == source_paths(self@.tracks.take(i as int)),
            decreases self.tracks.len() - i,
        {
            let t = &self.tracks[i];
            let ghost tv = t@;
            let ghost before = views(paths@);
            let mut j: usize = 0;
            while j < t.audio_clips.len()
                invariant
                    0 <= j <= t.audio_clips@.len(),
                    tv == t@,
                    views(paths@) == before + tv.audio_clips.take(j as int).map_values(
                        |c: AudioClipView| c.source_path,
                    ),
                decreases t.audio_clips.len() - j,
            {
                let ghost p0 = views(paths@);
                paths.push(t.audio_clips[j].source_path.clone());
                assert(views(paths@) =~= p0.push(tv.audio_clips[j as int].source_path));
                assert(tv.audio_clips.take(j + 1).map_values(|c: AudioClipView| c.source_path)
                    =~= tv.audio_clips.take(j as int).map_values(|c: AudioClipView| c.source_path).push(
                    tv.audio_clips[j as int].source_path,
                ));
                j = j + 1;
            }
            assert(tv.audio_clips.take(tv.audio_clips.len() as int) =~= tv.audio_clips);
            let ghost mid1 = views(paths@);
            let mut k: usize = 0;
            while k < t.video_clips.len()
                invariant
                    0 <= k <= t.video_clips@.len(),
                    tv == t@,
                    views(paths@) == mid1 + tv.video_clips.take(k as int).map_values(
                        |c: VideoClipView| c.source_path,
                    ),
                decreases t.video_clips.len() - k,
            {
                let ghost p0 = views(paths@);
                paths.push(t.video_clips[k].source_path.clone());
                assert(views(paths@) =~= p0.push(tv.video_clips[k as int].source_path));
                assert(tv.video_clips.take(k + 1).map_values(|c: VideoClipView| c.source_path)
                    =~= tv.video_clips.take(k as int).map_values(|c: VideoClipView| c.source_path).push(
                    tv.video_clips[k as int].source_path,
                ));
                k = k + 1;
            }
            assert(tv.video_clips.take(tv.video_clips.len() as int) =~= tv.video_clips);
            let ghost mid2 = views(paths@);
            let mut m: usize = 0;
            while m < t.image_clips.len()
                invariant
                    0 <= m <= t.image_clips@.len(),
                    tv == t@,
                    views(paths@) == mid2 + tv.image_clips.take(m as int).map_values(
                        |c: ImageClipView| c.source_path,
                    ),
                decreases t.image_clips.len() - m,
            {
                let ghost p0 = views(paths@);
                paths.push(t.image_clips[m].source_path.clone());
                assert(views(paths@) =~= p0.push(tv.image_clips[m as int].source_path));
                assert(tv.image_clips.take(m + 1).map_values(|c: ImageClipView| c.source_path)
                    =~= tv.image_clips.take(m as int).map_values(|c: ImageClipView| c.source_path).push(
                    tv.image_clips[m as int].source_path,
                ));
                m = m + 1;
            }
            assert(tv.image_clips.take(tv.image_clips.len() as int) =~= tv.image_clips);
            assert(self@.tracks.take(i + 1).drop_last() =~= self@.tracks.take(i as int));
            assert(self@.tracks.take(i + 1).last() == tv);
            assert(views(paths@) =~= source_paths(self@.tracks.take(i + 1)));
            i = i + 1;
        }
        assert(self@.tracks.take(self.tracks@.len() as int) =~= self@.tracks);
        Ok(paths)
    }

    /// The semantic checks made on a freshly loaded project: a positive frame
    /// rate and a non-zero sample rate.
    /// Checks that a project can be rendered once it is known which of its
    /// source files exist: `exists` tells, for each path of `source_paths` in
    /// that order, whether the file is there. Refused without tracks, or on the
    /// first missing file.
    pub fn check_sources(&self, exists: &Vec<bool>) -> (r: Result<(), ProjectError>)
        requires
            exists@.len() == source_paths(self@.tracks).len(),
        ensures
            self@.tracks.len() == 0 ==> r == Err::<(), ProjectError>(ProjectError::NoTracks),
            self@.tracks.len() > 0 ==> match first_false(exists@) {
                None => r is Ok,
                Some(i) => r matches Err(ProjectError::MissingSource(m)) && m@ == debug_quoted(
                    source_paths(self@.tracks)[i],
                ),
            },
    {
        let paths = match self.validate_for_render() {
            Err(e) => return Err(e),
            Ok(p) => p,
        };
        let ghost ps = views(paths@);
        let mut i: usize = 0;
        while i < exists.len()
            invariant
                0 <= i <= exists@.len(),
                exists@.len() == ps.len(),
                ps == views(paths@),
                ps == source_paths(self@.tracks),
                self@.tracks.len() > 0,
                first_false(exists@.take(i as int)) is None,
            decreases exists.len() - i,
        {
            assert(exists@.take(i + 1).drop_last() =~= exists@.take(i as int));
            if !exists[i] {
                proof {
                    lemma_first_false_at(exists@, i as int);
                }
                assert(ps[i as int] == paths@[i as int]@);
                return Err(ProjectError::MissingSource(path_debug(paths[i].as_str())));
            }
            i = i + 1;
        }
        assert(exists@.take(exists@.len() as int) =~= exists@);
        Ok(())
    }

    pub fn check_loaded(&self) -> (r: Result<(), ProjectError>)
        ensures
            r == (if self.metadata.fps <= 0 {
                Err(ProjectError::NonPositiveFps)
            } else if self.metadata.sample_rate == 0 {
                Err(ProjectError::ZeroSampleRate)
            } else {
                Ok::<(), ProjectError>(())
            }),
    {
        if self.metadata.fps <= 0 {
            return Err(ProjectError::NonPositiveFps);
        }
        if self.metadata.sample_rate == 0 {
            return Err(ProjectError::ZeroSampleRate);
        }
        Ok(())
    }
}

proof fn lemma_first_false_at(s: Seq<bool>, i: int)
    requires
        0 <= i < s.len(),
        !s[i],
        first_false(s.take(i)) is None,
    ensures
        first_false(s) == Some(i),
    decreases s.len(),
{
    if i < s.len() - 1 {
        assert(s.drop_last().take(i) =~= s.take(i));
        assert(s.drop_last()[i] == s[i]);
        lemma_first_false_at(s.drop_last(), i);
    } else {
        assert(s.drop_last() =~= s.take(i));
    }
}

proof fn lemma_filter_keeps_all(s: Seq<TrackView>, id: u128)
    requires
        !track_ids(s).contains(id),
    ensures
        tracks_without(s, id) == s,
    decreases s.len(),
{
    reveal(Seq::filter);
    if s.len() > 0 {
        assert(!track_ids(s.drop_last()).contains(id)) by {
            if track_ids(s.drop_last()).contains(id) {
                let j = choose|j: int|
                    0 <= j < track_ids(s.drop_last()).len() && track_ids(s.drop_last())[j] == id;
                assert(track_ids(s)[j] == id);
            }
        }
        lemma_filter_keeps_all(s.drop_last(), id);
        assert(track_ids(s)[s.len() - 1] == s.last().id);
        assert(s.drop_last().push(s.last()) =~= s);
    } else {
        assert(s.filter(|t: TrackView| t.id != id) =~= s);
    }
}

/// A track added under an identifier no other track has is the one found by
/// that identifier, and removing it gives back the tracks there were before.
pub proof fn law_add_then_remove_track(s: Seq<TrackView>, t: TrackView)
    requires
        !track_ids(s).contains(t.id),
    ensures
        first_index_of(track_ids(s.push(t)), t.id) == Some(s.len() as int),
        track_ids(s.push(t)).contains(t.id),
        tracks_without(s.push(t), t.id) == s,
{
    assert(track_ids(s.push(t)) =~= track_ids(s).push(t.id));
    assert(track_ids(s.push(t)).drop_last() =~= track_ids(s));
    lemma_first_index_of(track_ids(s), t.id);
    lemma_first_index_of(track_ids(s.push(t)), t.id);
    s.lemma_filter_push(t, |x: TrackView| x.id != t.id);
    lemma_filter_keeps_all(s, t.id);
}

/// After a removal no track has the removed identifier, every other track is
/// still there, and none was added.
pub proof fn law_remove_track(s: Seq<TrackView>, id: u128, t: TrackView)
    ensures
        !track_ids(tracks_without(s, id)).contains(id),
        s.contains(t) && t.id != id ==> tracks_without(s, id).contains(t),
        tracks_without(s, id).contains(t) ==> s.contains(t),
        tracks_without(s, id).len() <= s.len(),
{
    let pred = |x: TrackView| x.id != id;
    let f = tracks_without(s, id);
    s.lemma_filter_len(pred);
    if track_ids(f).contains(id) {
        let j = choose|j: int| 0 <= j < track_ids(f).len() && track_ids(f)[j] == id;
        s.lemma_filter_pred(pred, j);
    }
    if s.contains(t) && t.id != id {
        let j = choose|j: int| 0 <= j < s.len() && s[j] == t;
        s.lemma_filter_contains(pred, j);
    }
    if f.contains(t) {
        s.lemma_filter_contains_rev(pred, t);
    }
}

/// The length of a project is at least 0 and at least that of each track, and
/// it is the length of one of its tracks when it is not 0.
pub proof fn law_project_length(s: Seq<TrackView>)
    ensures
        longest_track(s) >= 0,
        forall|i: int| 0 <= i < s.len() ==> longest_track(s) >= track_duration(#[trigger] s[i]),
        longest_track(s) > 0 ==> exists|i: int|
            0 <= i < s.len() && longest_track(s) == track_duration(#[trigger] s[i]),
    decreases s.len(),
{
    if s.len() > 0 {
        law_project_length(s.drop_last());
        assert forall|i: int| 0 <= i < s.len() implies longest_track(s) >= track_duration(
            #[trigger] s[i],
        ) by {
            if i < s.len() - 1 {
                assert(s.drop_last()[i] == s[i]);
            }
        }
        if longest_track(s) > 0 {
            if longest_track(s) == track_duration(s.last()) {
                assert(s[s.len() - 1] == s.last());
            } else {
                let i = choose|i: int|
                    0 <= i < s.drop_last().len() && longest_track(s.drop_last()) == track_duration(
                        #[trigger] s.drop_last()[i],
                    );
                assert(s.drop_last()[i] == s[i]);
            }
        }
    }
}

impl Clone for Project {
    fn clone(&self) -> (r: Self)
        ensures
            r@ == self@,
    {
        let mut ts: Vec<Track> = Vec::new();
        let mut i: usize = 0;
        while i < self.tracks.len()
            invariant
                0 <= i <= self.tracks@.len(),
                track_views(ts@) == self@.tracks.take(i as int),
            decreases self.tracks.len() - i,
        {
            let t = self.tracks[i].clone();
            let ghost before = track_views(ts@);
            ts.push(t);
            assert(track_views(ts@) =~= before.push(self@.tracks[i as int]));
            assert(self@.tracks.take(i + 1) =~= self@.tracks.take(i as int).push(
                self@.tracks[i as int],
            ));
            i = i + 1;
        }
        assert(self@.tracks.take(self.tracks@.len() as int) =~= self@.tracks);
        Project {
            id: self.id,
            metadata: self.metadata.clone(),
            tracks: ts,
            path: match &self.path {
                Some(p) => Some(p.clone()),
                None => None,
            },
        }
    }
}

} // verus!
