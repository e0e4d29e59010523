//! Tracks: ordered lists of clips of one kind, with volume and mute state.
use vstd::prelude::*;
use crate::ids::new_id;
use crate::textutil::owned;
use crate::project::clip::{
    AudioClip, AudioClipView, ImageClip, ImageClipView, TextClip, TextClipView, VideoClip,
    VideoClipView,
};

verus! {

/// Kind of track.
#[derive(Debug, Clone, Copy, PartialEq, Eq, Structural)]
pub enum TrackKind {
    Audio,
    Video,
    Image,
    Text,
}

impl TrackKind {
    /// The lower-case name of a kind.
    pub open spec fn name(self) -> Seq<char> {
        match self {
            TrackKind::Audio => "audio"@,
            TrackKind::Video => "video"@,
            TrackKind::Image => "image"@,
            TrackKind::Text => "text"@,
        }
    }

    /// The text shown for a kind: `audio`, `video`, `image` or `text`.
    pub fn display(&self) -> (r: String)
        ensures
            r@ == self.name(),
    {
        match self {
            TrackKind::Audio => owned("audio"),
            TrackKind::Video => owned("video"),
            TrackKind::Image => owned("image"),
            TrackKind::Text => owned("text"),
        }
    }
}

/// A track of the project.
#[derive(Debug)]
pub struct Track {
    /// Identifier (the 128-bit value of a UUID).
    pub id: u128,
    /// Name shown to the user.
    pub name: String,
    /// Kind of clips it holds.
    pub kind: TrackKind,
    /// Base volume in thousandths, kept within 0 to 2000 by `set_volume`.
    pub volume: i64,
    /// Muted tracks are left out of renders.
    pub muted: bool,
    /// Order in the timeline (lower first).
    pub order: usize,
    /// Drawing layer of image and text tracks: lower layers are drawn first,
    /// under the higher ones.
    pub layer_order: usize,
    /// Audio clips.
    pub audio_clips: Vec<AudioClip>,
    /// Video clips.
    pub video_clips: Vec<VideoClip>,
    /// Image clips.
    pub image_clips: Vec<ImageClip>,
    /// Text clips.
    pub text_clips: Vec<TextClip>,
}

/// The content of a track.
pub struct TrackView {
    pub id: u128,
    pub name: Seq<char>,
    pub kind: TrackKind,
    pub volume: i64,
    pub muted: bool,
    pub order: usize,
    pub layer_order: usize,
    pub audio_clips: Seq<AudioClipView>,
    pub video_clips: Seq<VideoClipView>,
    pub image_clips: Seq<ImageClipView>,
    pub text_clips: Seq<TextClipView>,
}

impl TrackView {
    /// Same identifier, name, kind, volume, mute state, order and layer.
    pub open spec fn same_settings(self, other: TrackView) -> bool {
        &&& self.id == other.id
        &&& self.name == other.name
        &&& self.kind == other.kind
        &&& self.volume == other.volume
        &&& self.muted == other.muted
        &&& self.order == other.order
        &&& self.layer_order == other.layer_order
    }
}

/// Views of audio clips.
pub open spec fn audio_views(v: Seq<AudioClip>) -> Seq<AudioClipView> {
    v.map_values(|c: AudioClip| c@)
}

/// Views of video clips.
pub open spec fn video_views(v: Seq<VideoClip>) -> Seq<VideoClipView> {
    v.map_values(|c: VideoClip| c@)
}

/// Views of text clips.
pub open spec fn text_views(v: Seq<TextClip>) -> Seq<TextClipView> {
    v.map_values(|c: TextClip| c@)
}

/// Views of image clips.
pub open spec fn image_views(v: Seq<ImageClip>) -> Seq<ImageClipView> {
    v.map_values(|c: ImageClip| c@)
}

impl View for Track {
    type V = TrackView;

    open spec fn view(&self) -> TrackView {
        TrackView {
            id: self.id,
            name: self.name@,
            kind: self.kind,
            volume: self.volume,
            muted: self.muted,
            order: self.order,
            layer_order: self.layer_order,
            audio_clips: audio_views(self.audio_clips@),
            video_clips: video_views(self.video_clips@),
            image_clips: image_views(self.image_clips@),
            text_clips: text_views(self.text_clips@),
        }
    }
}

/// The latest end on the timeline among audio clips, and at least 0.
pub open spec fn audio_end(s: Seq<AudioClipView>) -> int
    decreases s.len(),
{
    if s.len() == 0 {
        0
    } else {
        let m = audio_end(s.drop_last());
        let e = s.last().timeline_end();
        if e > m {
            e
        } else {
            m
        }
    }
}

/// The latest end on the timeline among video clips, and at least 0.
pub open spec fn video_end(s: Seq<VideoClipView>) -> int
    decreases s.len(),
{
    if s.len() == 0 {
        0
    } else {
        let m = video_end(s.drop_last());
        let e = s.last().timeline_end();
        if e > m {
            e
        } else {
            m
        }
    }
}

/// Index of the first occurrence of `id` in `ids`, if any.
pub open spec fn first_index_of(ids: Seq<u128>, id: u128) -> Option<int>
    decreases ids.len(),
{
    if ids.len() == 0 {
        None
    } else {
        match first_index_of(ids.drop_last(), id) {
            Some(i) => Some(i),
            None => if ids.last() == id {
                Some(ids.len() - 1)
            } else {
                None
            },
        }
    }
}

/// `first_index_of` finds exactly the first occurrence.
pub proof fn lemma_first_index_of(ids: Seq<u128>, id: u128)
    ensures
        first_index_of(ids, id) is Some <==> ids.contains(id),
        first_index_of(ids, id) matches Some(i) ==> 0 <= i < ids.len() && ids[i] == id && forall|
            j: int,
        |
            0 <= j < i ==> ids[j] != id,
    decreases ids.len(),
{
    if ids.len() > 0 {
        lemma_first_index_of(ids.drop_last(), id);
        if ids.contains(id) && !ids.drop_last().contains(id) {
            let j = choose|j: int| 0 <= j < ids.len() && ids[j] == id;
            if j < ids.len() - 1 {
                assert(ids.drop_last()[j] == ids[j]);
            }
        }
        if ids.drop_last().contains(id) {
            let j = choose|j: int| 0 <= j < ids.len() - 1 && ids.drop_last()[j] == id;
            assert(ids[j] == ids.drop_last()[j]);
        }
        if first_index_of(ids.drop_last(), id) is Some {
            assert forall|j: int| 0 <= j < first_index_of(ids, id)->0 implies ids[j] != id by {
                assert(ids[j] == ids.drop_last()[j]);
            }
        }
        if first_index_of(ids.drop_last(), id) is None && ids.last() == id {
            assert forall|j: int| 0 <= j < ids.len() - 1 implies ids[j] != id by {
                assert(ids[j] == ids.drop_last()[j]);
            }
        }
    }
}

proof fn lemma_first_index_at(ids: Seq<u128>, id: u128, i: int)
    requires
        0 <= i < ids.len(),
        ids[i] == id,
        forall|j: int| 0 <= j < i ==> ids[j] != id,
    ensures
        first_index_of(ids, id) == Some(i),
{
    lemma_first_index_of(ids, id);
    assert(ids.contains(id));
}

proof fn lemma_first_index_none(ids: Seq<u128>, id: u128)
    requires
        forall|j: int| 0 <= j < ids.len() ==> ids[j] != id,
    ensures
        first_index_of(ids, id) is None,
{
    lemma_first_index_of(ids, id);
}

/// Identifiers of audio clips, in order.
pub open spec fn audio_ids(s: Seq<AudioClipView>) -> Seq<u128> {
    s.map_values(|c: AudioClipView| c.id)
}

/// Identifiers of video clips, in order.
pub open spec fn video_ids(s: Seq<VideoClipView>) -> Seq<u128> {
    s.map_values(|c: VideoClipView| c.id)
}

/// Identifiers of image clips, in order.
pub open spec fn image_ids(s: Seq<ImageClipView>) -> Seq<u128> {
    s.map_values(|c: ImageClipView| c.id)
}

/// The image clips whose identifier is not `id`, in order.
pub open spec fn image_without(s: Seq<ImageClipView>, id: u128) -> Seq<ImageClipView> {
    s.filter(|c: ImageClipView| c.id != id)
}

/// Identifiers of text clips, in order.
pub open spec fn text_ids(s: Seq<TextClipView>) -> Seq<u128> {
    s.map_values(|c: TextClipView| c.id)
}

/// The text clips whose identifier is not `id`, in order.
pub open spec fn text_without(s: Seq<TextClipView>, id: u128) -> Seq<TextClipView> {
    s.filter(|c: TextClipView| c.id != id)
}

/// The audio clips whose identifier is not `id`, in order.
pub open spec fn audio_without(s: Seq<AudioClipView>, id: u128) -> Seq<AudioClipView> {
    s.filter(|c: AudioClipView| c.id != id)
}

/// The video clips whose identifier is not `id`, in order.
pub open spec fn video_without(s: Seq<VideoClipView>, id: u128) -> Seq<VideoClipView> {
    s.filter(|c: VideoClipView| c.id != id)
}

impl Track {
    /// An empty, unmuted track at full volume, order 0 and layer 0.
    pub fn new(kind: TrackKind, name: &str) -> (r: Self)
        ensures
            r@.name == name@,
            r@.kind == kind,
            r@.volume == 1000,
            !r@.muted,
            r@.order == 0,
            r@.layer_order == 0,
            r@.audio_clips.len() == 0,
            r@.video_clips.len() == 0,
            r@.image_clips.len() == 0,
            r@.text_clips.len() == 0,
    {
        let r = Track {
            id: new_id(),
            name: owned(name),
            kind,
            volume: 1000,
            muted: false,
            order: 0,
            layer_order: 0,
            audio_clips: Vec::new(),
            video_clips: Vec::new(),
            image_clips: Vec::new(),
            text_clips: Vec::new(),
        };
        assert(r@.audio_clips =~= Seq::<AudioClipView>::empty());
        assert(r@.text_clips =~= Seq::<TextClipView>::empty());
        assert(r@.video_clips =~= Seq::<VideoClipView>::empty());
        assert(r@.image_clips =~= Seq::<ImageClipView>::empty());
        r
    }

    /// Length of the track (ms): the latest end of its audio and video clips,
    /// and at least 0.
    pub fn duration_secs(&self) -> (r: i128)
        ensures
            r == (if audio_end(self@.audio_clips) > video_end(self@.video_clips) {
                audio_end(self@.audio_clips)
            } else {
                video_end(self@.video_clips)
            }),
            0 <= r < 0x1_0000_0000_0000_0000_0000_0000_0000,
    {
        let mut a: i128 = 0;
        let mut i: usize = 0;
        while i < self.audio_clips.len()
            invariant
                0 <= i <= self.audio_clips@.len(),
                a == audio_end(self@.audio_clips.take(i as int)),
                0 <= a < 0x1_0000_0000_0000_0000_0000_0000_0000,
            decreases self.audio_clips.len() - i,
        {
            let c = &self.audio_clips[i];
            let e = c.timeline_start as i128 + c.duration();
            assert(self@.audio_clips.take(i + 1).drop_last() =~= self@.audio_clips.take(i as int));
            assert(self@.audio_clips.take(i + 1).last() == c@);
            if e > a {
                a = e;
            }
            i = i + 1;
        }
        assert(self@.audio_clips.take(self.audio_clips@.len() as int) =~= self@.audio_clips);
        let mut v: i128 = 0;
        let mut j: usize = 0;
        while j < self.video_clips.len()
            invariant
                0 <= j <= self.video_clips@.len(),
                v == video_end(self@.video_clips.take(j as int)),
                0 <= v < 0x1_0000_0000_0000_0000_0000_0000_0000,
            decreases self.video_clips.len() - j,
        {
            let c = &self.video_clips[j];
            let e = c.timeline_start as i128 + c.duration();
            assert(self@.video_clips.take(j + 1).drop_last() =~= self@.video_clips.take(j as int));
            assert(self@.video_clips.take(j + 1).last() == c@);
            if e > v {
                v = e;
            }
            j = j + 1;
        }
        assert(self@.video_clips.take(self.video_clips@.len() as int) =~= self@.video_clips);
        if a > v {
            a
        } else {
            v
        }
    }

    /// Mutes the track.
    pub fn mute(&mut self)
        ensures
            final(self)@ == (TrackView { muted: true, ..old(self)@ }),
    {
        self.muted = true;
    }

    /// Unmutes the track.
    pub fn unmute(&mut self)
        ensures
            final(self)@ == (TrackView { muted: false, ..old(self)@ }),
    {
        self.muted = false;
    }

    /// Sets the base volume (thousandths), clamped to 0..=2000.
    pub fn set_volume(&mut self, vol: i64)
        ensures
            final(self)@ == (TrackView {
                volume: if vol < 0 {
                    0
                } else if vol > 2000 {
                    2000
                } else {
                    vol
                },
                ..old(self)@
            }),
    {
        self.volume = if vol < 0 {
            0
        } else if vol > 2000 {
            2000
        } else {
            vol
        };
    }

    /// Renames the track.
    pub fn rename(&mut self, name: &str)
        ensures
            final(self)@ == (TrackView { name: name@, ..old(self)@ }),
    {
        self.name = owned(name);
    }

    /// Appends an audio clip and returns its identifier.
    pub fn add_audio_clip(&mut self, clip: AudioClip) -> (r: u128)
        ensures
            r == clip.id,
            final(self)@ == (TrackView {
                audio_clips: old(self)@.audio_clips.push(clip@),
                ..old(self)@
            }),
    {
        let id = clip.id;
        let ghost cv = clip@;
        self.audio_clips.push(clip);
        assert(self@.audio_clips =~= old(self)@.audio_clips.push(cv));
        id
    }

    /// Removes every audio clip with identifier `id`; true when one was removed.
    pub fn remove_audio_clip(&mut self, id: u128) -> (r: bool)
        ensures
            final(self)@ == (TrackView {
                audio_clips: audio_without(old(self)@.audio_clips, id),
                ..old(self)@
            }),
            r == audio_ids(old(self)@.audio_clips).contains(id),
    {
        let ghost s = old(self)@.audio_clips;
        let mut kept: Vec<AudioClip> = Vec::new();
        let mut found = false;
        let mut i: usize = 0;
        while i < self.audio_clips.len()
            invariant
                s == self@.audio_clips,
                self@ == old(self)@,
                0 <= i <= s.len(),
                audio_views(kept@) == audio_without(s.take(i as int), id),
                found == audio_ids(s.take(i as int)).contains(id),
            decreases self.audio_clips.len() - i,
        {
            reveal(Seq::filter);
            let c = self.audio_clips[i].clone();
            assert(s.take(i + 1).drop_last() =~= s.take(i as int));
            assert(s.take(i + 1).last() == c@);
            assert(audio_ids(s.take(i + 1)) =~= audio_ids(s.take(i as int)).push(c.id));
            if c.id != id {
                let ghost before = audio_views(kept@);
                kept.push(c);
                assert(audio_views(kept@) =~= before.push(s[i as int]));
            } else {
                found = true;
            }
            assert(found == audio_ids(s.take(i + 1)).contains(id)) by {
                let a = audio_ids(s.take(i as int));
                let b = audio_ids(s.take(i + 1));
                if c.id == id {
                    assert(b[i as int] == id);
                }
                if a.contains(id) {
                    let j = choose|j: int| 0 <= j < a.len() && a[j] == id;
                    assert(b[j] == a[j]);
                }
                if b.contains(id) && !a.contains(id) {
                    let j = choose|j: int| 0 <= j < b.len() && b[j] == id;
                    if j < i {
                        assert(a[j] == b[j]);
                    }
                }
            }
            i = i + 1;
        }
        assert(s.take(s.len() as int) =~= s);
        self.audio_clips = kept;
        found
    }

    /// Appends a video clip and returns its identifier.
    pub fn add_video_clip(&mut self, clip: VideoClip) -> (r: u128)
        ensures
            r == clip.id,
            final(self)@ == (TrackView {
                video_clips: old(self)@.video_clips.push(clip@),
                ..old(self)@
            }),
    {
        let id = clip.id;
        let ghost cv = clip@;
        self.video_clips.push(clip);
        assert(self@.video_clips =~= old(self)@.video_clips.push(cv));
        id
    }

    /// Removes every video clip with identifier `id`; true when one was removed.
    pub fn remove_video_clip(&mut self, id: u128) -> (r: bool)
        ensures
            final(self)@ == (TrackView {
                video_clips: video_without(old(self)@.video_clips, id),
                ..old(self)@
            }),
            r == video_ids(old(self)@.video_clips).contains(id),
    {
        let ghost s = old(self)@.video_clips;
        let mut kept: Vec<VideoClip> = Vec::new();
        let mut found = false;
        let mut i: usize = 0;
        while i < self.video_clips.len()
            invariant
                s == self@.video_clips,
                self@ == old(self)@,
                0 <= i <= s.len(),
                video_views(kept@) == video_without(s.take(i as int), id),
                found == video_ids(s.take(i as int)).contains(id),
            decreases self.video_clips.len() - i,
        {
            reveal(Seq::filter);
            let c = self.video_clips[i].clone();
            assert(s.take(i + 1).drop_last() =~= s.take(i as int));
            assert(s.take(i + 1).last() == c@);
            assert(video_ids(s.take(i + 1)) =~= video_ids(s.take(i as int)).push(c.id));
            if c.id != id {
                let ghost before = video_views(kept@);
                kept.push(c);
                assert(video_views(kept@) =~= before.push(s[i as int]));
            } else {
                found = true;
            }
            assert(found == video_ids(s.take(i + 1)).contains(id)) by {
                let a = video_ids(s.take(i as int));
                let b = video_ids(s.take(i + 1));
                if c.id == id {
                    assert(b[i as int] == id);
                }
                if a.contains(id) {
                    let j = choose|j: int| 0 <= j < a.len() && a[j] == id;
                    assert(b[j] == a[j]);
                }
                if b.contains(id) && !a.contains(id) {
                    let j = choose|j: int| 0 <= j < b.len() && b[j] == id;
                    if j < i {
                        assert(a[j] == b[j]);
                    }
                }
            }
            i = i + 1;
        }
        assert(s.take(s.len() as int) =~= s);
        self.video_clips = kept;
        found
    }

    /// Index of the first audio clip with identifier `id`.
    pub fn audio_clip_index(&self, id: u128) -> (r: Option<usize>)
        ensures
            match r {
                Some(i) => first_index_of(audio_ids(self@.audio_clips), id) == Some(i as int),
                None => first_index_of(audio_ids(self@.audio_clips), id) is None,
            },
    {
        let ghost ids = audio_ids(self@.audio_clips);
        let mut i: usize = 0;
        while i < self.audio_clips.len()
            invariant
                ids == audio_ids(self@.audio_clips),
                0 <= i <= self.audio_clips@.len(),
                forall|j: int| 0 <= j < i ==> ids[j] != id,
            decreases self.audio_clips.len() - i,
        {
            assert(ids[i as int] == self.audio_clips@[i as int].id);
            if self.audio_clips[i].id == id {
                proof {
                    lemma_first_index_at(ids, id, i as int);
                }
                return Some(i);
            }
            i = i + 1;
        }
        proof {
            lemma_first_index_none(ids, id);
        }
        None
    }

    /// The first audio clip with identifier `id`, to be changed in place.
    pub fn audio_clip_mut(&mut self, id: u128) -> (r: Option<&mut AudioClip>)
        ensures
            match first_index_of(audio_ids(old(self)@.audio_clips), id) {
                Some(i) => {
                    &&& r is Some
                    &&& (*r->0)@ == old(self)@.audio_clips[i]
                    &&& final(self)@.audio_clips == old(self)@.audio_clips.update(i, (*final(r->0))@)
                    &&& final(self)@.video_clips == old(self)@.video_clips
                    &&& final(self)@.image_clips == old(self)@.image_clips
                    &&& final(self)@.text_clips == old(self)@.text_clips
                    &&& final(self)@.same_settings(old(self)@)
                },
                None => r is None && final(self)@ == old(self)@,
            },
    {
        proof {
            lemma_first_index_of(audio_ids(self@.audio_clips), id);
        }
        match self.audio_clip_index(id) {
            Some(i) => Some(&mut self.audio_clips[i]),
            None => None,
        }
    }

    /// Index of the first video clip with identifier `id`.
    pub fn video_clip_index(&self, id: u128) -> (r: Option<usize>)
        ensures
            match r {
                Some(i) => first_index_of(video_ids(self@.video_clips), id) == Some(i as int),
                None => first_index_of(video_ids(self@.video_clips), id) is None,
            },
    {
        let ghost ids = video_ids(self@.video_clips);
        let mut i: usize = 0;
        while i < self.video_clips.len()
            invariant
                ids == video_ids(self@.video_clips),
                0 <= i <= self.video_clips@.len(),
                forall|j: int| 0 <= j < i ==> ids[j] != id,
            decreases self.video_clips.len() - i,
        {
            assert(ids[i as int] == self.video_clips@[i as int].id);
            if self.video_clips[i].id == id {
                proof {
                    lemma_first_index_at(ids, id, i as int);
                }
                return Some(i);
            }
            i = i + 1;
        }
        proof {
            lemma_first_index_none(ids, id);
        }
        None
    }
}

impl Clone for Track {
    fn clone(&self) -> (r: Self)
        ensures
            r@ == self@,
    {
        let mut a: Vec<AudioClip> = Vec::new();
        let mut i: usize = 0;
        while i < self.audio_clips.len()
            invariant
                0 <= i <= self.audio_clips@.len(),
                audio_views(a@) == self@.audio_clips.take(i as int),
            decreases self.audio_clips.len() - i,
        {
            let c = self.audio_clips[i].clone();
            let ghost before = audio_views(a@);
            a.push(c);
            assert(audio_views(a@) =~= before.push(self@.audio_clips[i as int]));
            assert(self@.audio_clips.take(i + 1) =~= self@.audio_clips.take(i as int).push(
                self@.audio_clips[i as int],
            ));
            i = i + 1;
        }
        assert(self@.audio_clips.take(self.audio_clips@.len() as int) =~= self@.audio_clips);
        let mut v: Vec<VideoClip> = Vec::new();
        let mut j: usize = 0;
        while j < self.video_clips.len()
            invariant
                0 <= j <= self.video_clips@.len(),
                video_views(v@) == self@.video_clips.take(j as int),
            decreases self.video_clips.len() - j,
        {
            let c = self.video_clips[j].clone();
            let ghost before = video_views(v@);
            v.push(c);
            assert(video_views(v@) =~= before.push(self@.video_clips[j as int]));
            assert(self@.video_clips.take(j + 1) =~= self@.video_clips.take(j as int).push(
                self@.video_clips[j as int],
            ));
            j = j + 1;
        }
        assert(self@.video_clips.take(self.video_clips@.len() as int) =~= self@.video_clips);
        let mut m: Vec<ImageClip> = Vec::new();
        let mut k: usize = 0;
        while k < self.image_clips.len()
            invariant
                0 <= k <= self.image_clips@.len(),
                image_views(m@) == self@.image_clips.take(k as int),
            decreases self.image_clips.len() - k,
        {
            let c = self.image_clips[k].clone();
            let ghost before = image_views(m@);
            m.push(c);
            assert(image_views(m@) =~= before.push(self@.image_clips[k as int]));
            assert(self@.image_clips.take(k + 1) =~= self@.image_clips.take(k as int).push(
                self@.image_clips[k as int],
            ));
            k = k + 1;
        }
        assert(self@.image_clips.take(self.image_clips@.len() as int) =~= self@.image_clips);
        let mut x: Vec<TextClip> = Vec::new();
        let mut q: usize = 0;
        while q < self.text_clips.len()
            invariant
                0 <= q <= self.text_clips@.len(),
                text_views(x@) == self@.text_clips.take(q as int),
            decreases self.text_clips.len() - q,
        {
            let c = self.text_clips[q].clone();
            let ghost before = text_views(x@);
            x.push(c);
            assert(text_views(x@) =~= before.push(self@.text_clips[q as int]));
            assert(self@.text_clips.take(q + 1) =~= self@.text_clips.take(q as int).push(
                self@.text_clips[q as int],
            ));
            q = q + 1;
        }
        assert(self@.text_clips.take(self.text_clips@.len() as int) =~= self@.text_clips);
        Track {
            id: self.id,
            name: self.name.clone(),
            kind: self.kind,
            volume: self.volume,
            muted: self.muted,
            order: self.order,
            layer_order: self.layer_order,
            audio_clips: a,
            video_clips: v,
            image_clips: m,
            text_clips: x,
        }
    }
}

impl Track {
    /// The first video clip with identifier `id`, to be changed in place.
    pub fn video_clip_mut(&mut self, id: u128) -> (r: Option<&mut VideoClip>)
        ensures
            match first_index_of(video_ids(old(self)@.video_clips), id) {
                Some(i) => {
                    &&& r is Some
                    &&& (*r->0)@ == old(self)@.video_clips[i]
                    &&& final(self)@.video_clips == old(self)@.video_clips.update(i, (*final(r->0))@)
                    &&& final(self)@.audio_clips == old(self)@.audio_clips
                    &&& final(self)@.image_clips == old(self)@.image_clips
                    &&& final(self)@.text_clips == old(self)@.text_clips
                    &&& final(self)@.same_settings(old(self)@)
                },
                None => r is None && final(self)@ == old(self)@,
            },
    {
        proof {
            lemma_first_index_of(video_ids(self@.video_clips), id);
        }
        match self.video_clip_index(id) {
            Some(i) => Some(&mut self.video_clips[i]),
            None => None,
        }
    }
}

impl Track {
    /// Appends an image clip and returns its identifier.
    pub fn add_image_clip(&mut self, clip: ImageClip) -> (r: u128)
        ensures
            r == clip.id,
            final(self)@ == (TrackView {
                image_clips: old(self)@.image_clips.push(clip@),
                ..old(self)@
            }),
    {
        let id = clip.id;
        let ghost cv = clip@;
        self.image_clips.push(clip);
        assert(self@.image_clips =~= old(self)@.image_clips.push(cv));
        id
    }

    /// Removes every image clip with identifier `id`; true when one was removed.
    pub fn remove_image_clip(&mut self, id: u128) -> (r: bool)
        ensures
            final(self)@ == (TrackView {
                image_clips: image_without(old(self)@.image_clips, id),
                ..old(self)@
            }),
            r == image_ids(old(self)@.image_clips).contains(id),
    {
        let ghost s = old(self)@.image_clips;
        let mut kept: Vec<ImageClip> = Vec::new();
        let mut found = false;
        let mut i: usize = 0;
        while i < self.image_clips.len()
            invariant
                s == self@.image_clips,
                self@ == old(self)@,
                0 <= i <= s.len(),
                image_views(kept@) == image_without(s.take(i as int), id),
                found == image_ids(s.take(i as int)).contains(id),
            decreases self.image_clips.len() - i,
        {
            reveal(Seq::filter);
            let c = self.image_clips[i].clone();
            assert(s.take(i + 1).drop_last() =~= s.take(i as int));
            assert(s.take(i + 1).last() == c@);
            assert(image_ids(s.take(i + 1)) =~= image_ids(s.take(i as int)).push(c.id));
            if c.id != id {
                let ghost before = image_views(kept@);
                kept.push(c);
                assert(image_views(kept@) =~= before.push(s[i as int]));
            } else {
                found = true;
            }
            assert(found == image_ids(s.take(i + 1)).contains(id)) by {
                let a = image_ids(s.take(i as int));
                let b = image_ids(s.take(i + 1));
                if c.id == id {
                    assert(b[i as int] == id);
                }
                if a.contains(id) {
                    let j = choose|j: int| 0 <= j < a.len() && a[j] == id;
                    assert(b[j] == a[j]);
                }
                if b.contains(id) && !a.contains(id) {
                    let j = choose|j: int| 0 <= j < b.len() && b[j] == id;
                    if j < i {
                        assert(a[j] == b[j]);
                    }
                }
            }
            i = i + 1;
        }
        assert(s.take(s.len() as int) =~= s);
        self.image_clips = kept;
        found
    }

    /// Index of the first image clip with identifier `id`.
    pub fn image_clip_index(&self, id: u128) -> (r: Option<usize>)
        ensures
            match r {
                Some(i) => first_index_of(image_ids(self@.image_clips), id) == Some(i as int),
                None => first_index_of(image_ids(self@.image_clips), id) is None,
            },
    {
        let ghost ids = image_ids(self@.image_clips);
        let mut i: usize = 0;
        while i < self.image_clips.len()
            invariant
                ids == image_ids(self@.image_clips),
                0 <= i <= self.image_clips@.len(),
                forall|j: int| 0 <= j < i ==> ids[j] != id,
            decreases self.image_clips.len() - i,
        {
            assert(ids[i as int] == self.image_clips@[i as int].id);
            if self.image_clips[i].id == id {
                proof {
                    lemma_first_index_at(ids, id, i as int);
                }
                return Some(i);
            }
            i = i + 1;
        }
        proof {
            lemma_first_index_none(ids, id);
        }
        None
    }

    /// The first image clip with identifier `id`, to be changed in place.
    pub fn image_clip_mut(&mut self, id: u128) -> (r: Option<&mut ImageClip>)
        ensures
            match first_index_of(image_ids(old(self)@.image_clips), id) {
                Some(i) => {
                    &&& r is Some
                    &&& (*r->0)@ == old(self)@.image_clips[i]
                    &&& final(self)@.image_clips == old(self)@.image_clips.update(i, (*final(r->0))@)
                    &&& final(self)@.audio_clips == old(self)@.audio_clips
                    &&& final(self)@.video_clips == old(self)@.video_clips
                    &&& final(self)@.text_clips == old(self)@.text_clips
                    &&& final(self)@.same_settings(old(self)@)
                },
                None => r is None && final(self)@ == old(self)@,
            },
    {
        proof {
            lemma_first_index_of(image_ids(self@.image_clips), id);
        }
        match self.image_clip_index(id) {
            Some(i) => Some(&mut self.image_clips[i]),
            None => None,
        }
    }
}

impl Track {
    /// Appends an text clip and returns its identifier.
    pub fn add_text_clip(&mut self, clip: TextClip) -> (r: u128)
        ensures
            r == clip.id,
            final(self)@ == (TrackView {
                text_clips: old(self)@.text_clips.push(clip@),
                ..old(self)@
            }),
    {
        let id = clip.id;
        let ghost cv = clip@;
        self.text_clips.push(clip);
        assert(self@.text_clips =~= old(self)@.text_clips.push(cv));
        id
    }

    /// Removes every text clip with identifier `id`; true when one was removed.
    pub fn remove_text_clip(&mut self, id: u128) -> (r: bool)
        ensures
            final(self)@ == (TrackView {
                text_clips: text_without(old(self)@.text_clips, id),
                ..old(self)@
            }),
            r == text_ids(old(self)@.text_clips).contains(id),
    {
        let ghost s = old(self)@.text_clips;
        let mut kept: Vec<TextClip> = Vec::new();
        let mut found = false;
        let mut i: usize = 0;
        while i < self.text_clips.len()
            invariant
                s == self@.text_clips,
                self@ == old(self)@,
                0 <= i <= s.len(),
                text_views(kept@) == text_without(s.take(i as int), id),
                found == text_ids(s.take(i as int)).contains(id),
            decreases self.text_clips.len() - i,
        {
            reveal(Seq::filter);
            let c = self.text_clips[i].clone();
            assert(s.take(i + 1).drop_last() =~= s.take(i as int));
            assert(s.take(i + 1).last() == c@);
            assert(text_ids(s.take(i + 1)) =~= text_ids(s.take(i as int)).push(c.id));
            if c.id != id {
                let ghost before = text_views(kept@);
                kept.push(c);
                assert(text_views(kept@) =~= before.push(s[i as int]));
            } else {
                found = true;
            }
            assert(found == text_ids(s.take(i + 1)).contains(id)) by {
                let a = text_ids(s.take(i as int));
                let b = text_ids(s.take(i + 1));
                if c.id == id {
                    assert(b[i as int] == id);
                }
                if a.contains(id) {
                    let j = choose|j: int| 0 <= j < a.len() && a[j] == id;
                    assert(b[j] == a[j]);
                }
                if b.contains(id) && !a.contains(id) {
                    let j = choose|j: int| 0 <= j < b.len() && b[j] == id;
                    if j < i {
                        assert(a[j] == b[j]);
                    }
                }
            }
            i = i + 1;
        }
        assert(s.take(s.len() as int) =~= s);
        self.text_clips = kept;
        found
    }

    /// Index of the first text clip with identifier `id`.
    pub fn text_clip_index(&self, id: u128) -> (r: Option<usize>)
        ensures
            match r {
                Some(i) => first_index_of(text_ids(self@.text_clips), id) == Some(i as int),
                None => first_index_of(text_ids(self@.text_clips), id) is None,
            },
    {
        let ghost ids = text_ids(self@.text_clips);
        let mut i: usize = 0;
        while i < self.text_clips.len()
            invariant
                ids == text_ids(self@.text_clips),
                0 <= i <= self.text_clips@.len(),
                forall|j: int| 0 <= j < i ==> ids[j] != id,
            decreases self.text_clips.len() - i,
        {
            assert(ids[i as int] == self.text_clips@[i as int].id);
            if self.text_clips[i].id == id {
                proof {
                    lemma_first_index_at(ids, id, i as int);
                }
                return Some(i);
            }
            i = i + 1;
        }
        proof {
            lemma_first_index_none(ids, id);
        }
        None
    }

    /// The first text clip with identifier `id`, to be changed in place.
    pub fn text_clip_mut(&mut self, id: u128) -> (r: Option<&mut TextClip>)
        ensures
            match first_index_of(text_ids(old(self)@.text_clips), id) {
                Some(i) => {
                    &&& r is Some
                    &&& (*r->0)@ == old(self)@.text_clips[i]
                    &&& final(self)@.text_clips == old(self)@.text_clips.update(i, (*final(r->0))@)
                    &&& final(self)@.audio_clips == old(self)@.audio_clips
                    &&& final(self)@.video_clips == old(self)@.video_clips
                    &&& final(self)@.image_clips == old(self)@.image_clips
                    &&& final(self)@.same_settings(old(self)@)
                },
                None => r is None && final(self)@ == old(self)@,
            },
    {
        proof {
            lemma_first_index_of(text_ids(self@.text_clips), id);
        }
        match self.text_clip_index(id) {
            Some(i) => Some(&mut self.text_clips[i]),
            None => None,
        }
    }
}

/// Filtering by a predicate that every item meets keeps the sequence.
proof fn lemma_filter_all<A>(s: Seq<A>, p: spec_fn(A) -> bool)
    requires
        forall|i: int| 0 <= i < s.len() ==> p(#[trigger] s[i]),
    ensures
        s.filter(p) == s,
    decreases s.len(),
{
    if s.len() > 0 {
        assert forall|i: int| 0 <= i < s.drop_last().len() implies p(#[trigger] s.drop_last()[i]) by {
            assert(s.drop_last()[i] == s[i]);
        }
        lemma_filter_all(s.drop_last(), p);
        s.drop_last().lemma_filter_push(s.last(), p);
        assert(s.drop_last().push(s.last()) =~= s);
    } else {
        reveal(Seq::filter);
        assert(s.filter(p) =~= s);
    }
}

/// An audio clip added under an identifier no other audio clip of the track
/// has is the one found by that identifier, and removing it gives back the
/// clips there were before.
pub proof fn law_add_then_remove_audio_clip(s: Seq<AudioClipView>, c: AudioClipView)
    requires
        !audio_ids(s).contains(c.id),
    ensures
        first_index_of(audio_ids(s.push(c)), c.id) == Some(s.len() as int),
        audio_without(s.push(c), c.id) == s,
{
    assert(audio_ids(s.push(c)) =~= audio_ids(s).push(c.id));
    assert(audio_ids(s.push(c)).drop_last() =~= audio_ids(s));
    lemma_first_index_of(audio_ids(s), c.id);
    let p = |x: AudioClipView| x.id != c.id;
    s.lemma_filter_push(c, p);
    assert forall|i: int| 0 <= i < s.len() implies p(#[trigger] s[i]) by {
        assert(audio_ids(s)[i] == s[i].id);
    }
    lemma_filter_all(s, p);
}

/// A video clip added under an identifier no other video clip of the track
/// has is the one found by that identifier, and removing it gives back the
/// clips there were before.
pub proof fn law_add_then_remove_video_clip(s: Seq<VideoClipView>, c: VideoClipView)
    requires
        !video_ids(s).contains(c.id),
    ensures
        first_index_of(video_ids(s.push(c)), c.id) == Some(s.len() as int),
        video_without(s.push(c), c.id) == s,
{
    assert(video_ids(s.push(c)) =~= video_ids(s).push(c.id));
    assert(video_ids(s.push(c)).drop_last() =~= video_ids(s));
    lemma_first_index_of(video_ids(s), c.id);
    let p = |x: VideoClipView| x.id != c.id;
    s.lemma_filter_push(c, p);
    assert forall|i: int| 0 <= i < s.len() implies p(#[trigger] s[i]) by {
        assert(video_ids(s)[i] == s[i].id);
    }
    lemma_filter_all(s, p);
}

/// After a removal no audio clip has the removed identifier.
pub proof fn law_remove_audio_clip(s: Seq<AudioClipView>, id: u128)
    ensures
        !audio_ids(audio_without(s, id)).contains(id),
{
    let p = |x: AudioClipView| x.id != id;
    let f = audio_without(s, id);
    if audio_ids(f).contains(id) {
        let j = choose|j: int| 0 <= j < audio_ids(f).len() && audio_ids(f)[j] == id;
        s.lemma_filter_pred(p, j);
    }
}

/// After a removal no video clip has the removed identifier.
pub proof fn law_remove_video_clip(s: Seq<VideoClipView>, id: u128)
    ensures
        !video_ids(video_without(s, id)).contains(id),
{
    let p = |x: VideoClipView| x.id != id;
    let f = video_without(s, id);
    if video_ids(f).contains(id) {
        let j = choose|j: int| 0 <= j < video_ids(f).len() && video_ids(f)[j] == id;
        s.lemma_filter_pred(p, j);
    }
}

/// Adding an image clip with a fresh identifier and then removing that
/// identifier gives back the clips before the addition; the added clip is
/// found at the end.
pub proof fn law_add_then_remove_image_clip(s: Seq<ImageClipView>, c: ImageClipView)
    requires
        !image_ids(s).contains(c.id),
    ensures
        first_index_of(image_ids(s.push(c)), c.id) == Some(s.len() as int),
        image_without(s.push(c), c.id) == s,
{
    assert(image_ids(s.push(c)) =~= image_ids(s).push(c.id));
    assert(image_ids(s.push(c)).drop_last() =~= image_ids(s));
    lemma_first_index_of(image_ids(s), c.id);
    let p = |x: ImageClipView| x.id != c.id;
    s.lemma_filter_push(c, p);
    assert forall|i: int| 0 <= i < s.len() implies p(#[trigger] s[i]) by {
        assert(image_ids(s)[i] == s[i].id);
    }
    lemma_filter_all(s, p);
}

/// After a removal no image clip has the removed identifier.
pub proof fn law_remove_image_clip(s: Seq<ImageClipView>, id: u128)
    ensures
        !image_ids(image_without(s, id)).contains(id),
{
    let p = |x: ImageClipView| x.id != id;
    let f = image_without(s, id);
    if image_ids(f).contains(id) {
        let j = choose|j: int| 0 <= j < image_ids(f).len() && image_ids(f)[j] == id;
        s.lemma_filter_pred(p, j);
    }
}

/// Adding an text clip with a fresh identifier and then removing that
/// identifier gives back the clips before the addition; the added clip is
/// found at the end.
pub proof fn law_add_then_remove_text_clip(s: Seq<TextClipView>, c: TextClipView)
    requires
        !text_ids(s).contains(c.id),
    ensures
        first_index_of(text_ids(s.push(c)), c.id) == Some(s.len() as int),
        text_without(s.push(c), c.id) == s,
{
    assert(text_ids(s.push(c)) =~= text_ids(s).push(c.id));
    assert(text_ids(s.push(c)).drop_last() =~= text_ids(s));
    lemma_first_index_of(text_ids(s), c.id);
    let p = |x: TextClipView| x.id != c.id;
    s.lemma_filter_push(c, p);
    assert forall|i: int| 0 <= i < s.len() implies p(#[trigger] s[i]) by {
        assert(text_ids(s)[i] == s[i].id);
    }
    lemma_filter_all(s, p);
}

/// After a removal no text clip has the removed identifier.
pub proof fn law_remove_text_clip(s: Seq<TextClipView>, id: u128)
    ensures
        !text_ids(text_without(s, id)).contains(id),
{
    let p = |x: TextClipView| x.id != id;
    let f = text_without(s, id);
    if text_ids(f).contains(id) {
        let j = choose|j: int| 0 <= j < text_ids(f).len() && text_ids(f)[j] == id;
        s.lemma_filter_pred(p, j);
    }
}

} // verus!
