//! The text timeline of a project: each track as a bar of cells, filled where
//! a clip plays, and its clips listed by start time.
use vstd::prelude::*;
use crate::project::clip::{AudioClipView, ImageClipView, TextClipView, VideoClipView};
use crate::textutil::push_char;
use crate::project::track::{Track, TrackView};

verus! {

/// A clip as the timeline shows it: its name and where it starts and ends (ms).
#[derive(Debug)]
pub struct TimelineClip {
    pub name: String,
    pub start: i64,
    pub end: i128,
}

/// The content of a timeline clip.
pub struct TimelineView {
    pub name: Seq<char>,
    pub start: i64,
    pub end: int,
}

impl View for TimelineClip {
    type V = TimelineView;

    open spec fn view(&self) -> TimelineView {
        TimelineView { name: self.name@, start: self.start, end: self.end as int }
    }
}

/// Views of timeline clips.
pub open spec fn timeline_views(v: Seq<TimelineClip>) -> Seq<TimelineView> {
    v.map_values(|c: TimelineClip| c@)
}

/// The name a text clip shows on the timeline: the first 15 characters of its
/// text.
pub open spec fn text_label(t: Seq<char>) -> Seq<char> {
    if t.len() <= 15 {
        t
    } else {
        t.take(15)
    }
}

/// The clips of a track as the timeline shows them: its audio clips, then its
/// video clips, then its images, then its texts, each in order.
pub open spec fn track_clips(t: TrackView) -> Seq<TimelineView> {
    t.audio_clips.map_values(
        |c: AudioClipView| TimelineView { name: c.name, start: c.timeline_start, end: c.timeline_end() },
    ) + t.video_clips.map_values(
        |c: VideoClipView| TimelineView { name: c.name, start: c.timeline_start, end: c.timeline_end() },
    ) + t.image_clips.map_values(
        |c: ImageClipView|
            TimelineView {
                name: c.name,
                start: c.timeline_start,
                end: c.timeline_start + c.duration_secs,
            },
    ) + t.text_clips.map_values(
        |c: TextClipView|
            TimelineView {
                name: text_label(c.text),
                start: c.timeline_start,
                end: c.timeline_start + c.duration_secs,
            },
    )
}

fn text_label_string(t: &str) -> (r: String)
    ensures
        r@ == text_label(t@),
{
    let n = t.unicode_len();
    let k = if n <= 15 {
        n
    } else {
        15
    };
    let mut out = String::new();
    let mut i: usize = 0;
    while i < k
        invariant
            n == t@.len(),
            k <= n,
            k == (if n <= 15 { n } else { 15 }),
            0 <= i <= k,
            out@ == t@.take(i as int),
        decreases k - i,
    {
        push_char(&mut out, t.get_char(i));
        assert(t@.take(i + 1) =~= t@.take(i as int).push(t@[i as int]));
        i = i + 1;
    }
    assert(n <= 15 ==> t@.take(n as int) =~= t@);
    out
}

/// The clips of `track_clips` for a track.
pub fn timeline_clips(track: &Track) -> (r: Vec<TimelineClip>)
    ensures
        timeline_views(r@) == track_clips(track@),
{
    let ghost t = track@;
    let mut v: Vec<TimelineClip> = Vec::new();
    let mut i: usize = 0;
    let ghost a = t.audio_clips.map_values(
        |c: AudioClipView| TimelineView { name: c.name, start: c.timeline_start, end: c.timeline_end() },
    );
    let ghost b = t.video_clips.map_values(
        |c: VideoClipView| TimelineView { name: c.name, start: c.timeline_start, end: c.timeline_end() },
    );
    let ghost m = t.image_clips.map_values(
        |c: ImageClipView|
            TimelineView {
                name: c.name,
                start: c.timeline_start,
                end: c.timeline_start + c.duration_secs,
            },
    );
    while i < track.audio_clips.len()
        invariant
            0 <= i <= track.audio_clips@.len(),
            t == track@,
            a == t.audio_clips.map_values(
                |c: AudioClipView|
                    TimelineView { name: c.name, start: c.timeline_start, end: c.timeline_end() },
            ),
            timeline_views(v@) == a.take(i as int),
        decreases track.audio_clips.len() - i,
    {
        let c = &track.audio_clips[i];
        let ghost before = timeline_views(v@);
        let x = TimelineClip { name: c.name.clone(), start: c.timeline_start, end: c.timeline_start as i128 + c.duration() };
        assert(t.audio_clips[i as int] == c@);
        assert(a[i as int] == x@);
        v.push(x);
        assert(timeline_views(v@) =~= before.push(a[i as int]));
        assert(a.take(i + 1) =~= a.take(i as int).push(a[i as int]));
        i = i + 1;
    }
    assert(a.take(track.audio_clips@.len() as int) =~= a);
    let mut j: usize = 0;
    while j < track.video_clips.len()
        invariant
            0 <= j <= track.video_clips@.len(),
            t == track@,
            b == t.video_clips.map_values(
                |c: VideoClipView|
                    TimelineView { name: c.name, start: c.timeline_start, end: c.timeline_end() },
            ),
            timeline_views(v@) == a + b.take(j as int),
        decreases track.video_clips.len() - j,
    {
        let c = &track.video_clips[j];
        let ghost before = timeline_views(v@);
        let x = TimelineClip { name: c.name.clone(), start: c.timeline_start, end: c.timeline_start as i128 + c.duration() };
        assert(t.video_clips[j as int] == c@);
        assert(b[j as int] == x@);
        v.push(x);
        assert(timeline_views(v@) =~= before.push(b[j as int]));
        assert(a + b.take(j + 1) =~= (a + b.take(j as int)).push(b[j as int]));
        j = j + 1;
    }
    assert(b.take(track.video_clips@.len() as int) =~= b);
    let mut k: usize = 0;
    while k < track.image_clips.len()
        invariant
            0 <= k <= track.image_clips@.len(),
            t == track@,
            m == t.image_clips.map_values(
                |c: ImageClipView|
                    TimelineView {
                        name: c.name,
                        start: c.timeline_start,
                        end: c.timeline_start + c.duration_secs,
                    },
            ),
            timeline_views(v@) == a + b + m.take(k as int),
        decreases track.image_clips.len() - k,
    {
        let c = &track.image_clips[k];
        let ghost before = timeline_views(v@);
        let x = TimelineClip { name: c.name.clone(), start: c.timeline_start, end: c.timeline_start as i128 + c.duration_secs as i128 };
        assert(t.image_clips[k as int] == c@);
        assert(m[k as int] == x@);
        v.push(x);
        assert(timeline_views(v@) =~= before.push(m[k as int]));
        assert(a + b + m.take(k + 1) =~= (a + b + m.take(k as int)).push(m[k as int]));
        k = k + 1;
    }
    assert(m.take(track.image_clips@.len() as int) =~= m);
    let ghost x = t.text_clips.map_values(
        |c: TextClipView|
            TimelineView {
                name: text_label(c.text),
                start: c.timeline_start,
                end: c.timeline_start + c.duration_secs,
            },
    );
    let mut q: usize = 0;
    while q < track.text_clips.len()
        invariant
            0 <= q <= track.text_clips@.len(),
            t == track@,
            x == t.text_clips.map_values(
                |c: TextClipView|
                    TimelineView {
                        name: text_label(c.text),
                        start: c.timeline_start,
                        end: c.timeline_start + c.duration_secs,
                    },
            ),
            timeline_views(v@) == a + b + m + x.take(q as int),
        decreases track.text_clips.len() - q,
    {
        let c = &track.text_clips[q];
        let ghost before = timeline_views(v@);
        let y = TimelineClip {
            name: text_label_string(c.text.as_str()),
            start: c.timeline_start,
            end: c.timeline_start as i128 + c.duration_secs as i128,
        };
        assert(t.text_clips[q as int] == c@);
        assert(x[q as int] == y@);
        v.push(y);
        assert(timeline_views(v@) =~= before.push(x[q as int]));
        assert(a + b + m + x.take(q + 1) =~= (a + b + m + x.take(q as int)).push(x[q as int]));
        q = q + 1;
    }
    assert(x.take(track.text_clips@.len() as int) =~= x);
    v
}

// ─── Order ──────────────────────────────────────────────────────────────────

/// Clip `x` comes before clip `y` (both indices into `s`): it starts earlier,
/// or at the same time and was listed first.
pub open spec fn before(s: Seq<TimelineView>, x: int, y: int) -> bool {
    s[x].start < s[y].start || (s[x].start == s[y].start && x < y)
}

/// `order` lists indices into `s` in strictly increasing `before` order.
pub open spec fn ordered(s: Seq<TimelineView>, order: Seq<usize>) -> bool {
    forall|p: int, q: int| 0 <= p < q < order.len() ==> before(s, order[p] as int, order[q] as int)
}

/// The indices `0..n`.
pub open spec fn indices(n: nat) -> Seq<usize> {
    Seq::new(n, |i: int| i as usize)
}

/// The listing order of the clips: by start time, clips starting together in
/// the order they were given in (the order of a stable sort by start). The result
/// holds every index once.
pub fn timeline_order(clips: &Vec<TimelineClip>) -> (r: Vec<usize>)
    ensures
        r@.to_multiset() == indices(clips@.len()).to_multiset(),
        ordered(timeline_views(clips@), r@),
        forall|p: int| 0 <= p < r@.len() ==> r@[p] < clips@.len(),
{
    let ghost s = timeline_views(clips@);
    let mut order: Vec<usize> = Vec::new();
    let mut i: usize = 0;
    assert(order@.to_multiset() =~= indices(0).to_multiset()) by {
        assert(order@ =~= indices(0));
    }
    while i < clips.len()
        invariant
            0 <= i <= clips@.len(),
            s == timeline_views(clips@),
            order@.to_multiset() == indices(i as nat).to_multiset(),
            ordered(s, order@),
            forall|p: int| 0 <= p < order@.len() ==> order@[p] < i,
        decreases clips.len() - i,
    {
        // Position of the first listed clip that starts after clip `i`.
        let mut p: usize = 0;
        while p < order.len() && clips[order[p]].start <= clips[i].start
            invariant
                0 <= p <= order@.len(),
                i < clips@.len(),
                s == timeline_views(clips@),
                ordered(s, order@),
                forall|q: int| 0 <= q < order@.len() ==> order@[q] < i,
                forall|q: int| 0 <= q < p ==> before(s, order@[q] as int, i as int),
            decreases order@.len() - p,
        {
            p = p + 1;
        }
        proof {
            assert forall|q: int| p <= q < order@.len() implies before(s, i as int, order@[q] as int) by {
                if p < order@.len() {
                    assert(s[order@[p as int] as int].start > s[i as int].start);
                    if q > p {
                        assert(before(s, order@[p as int] as int, order@[q] as int));
                    }
                }
            }
        }
        let ghost old_order = order@;
        order.insert(p, i);
        proof {
            assert(order@ == old_order.insert(p as int, i));
            assert forall|x: int, y: int| 0 <= x < y < order@.len() implies before(
                s,
                order@[x] as int,
                order@[y] as int,
            ) by {
                if x < p && y < p {
                    assert(order@[x] == old_order[x] && order@[y] == old_order[y]);
                } else if x < p && y == p {
                } else if x < p && y > p {
                    assert(order@[x] == old_order[x] && order@[y] == old_order[y - 1]);
                } else if x == p {
                    assert(order@[y] == old_order[y - 1]);
                } else {
                    assert(order@[x] == old_order[x - 1] && order@[y] == old_order[y - 1]);
                }
            }
            vstd::seq_lib::to_multiset_insert(old_order, p as int, i);
            assert(indices((i + 1) as nat) =~= indices(i as nat).push(i));
            vstd::seq_lib::to_multiset_build(indices(i as nat), i);
            assert forall|q: int| 0 <= q < order@.len() implies order@[q] < i + 1 by {
                if q < p {
                    assert(order@[q] == old_order[q]);
                } else if q > p {
                    assert(order@[q] == old_order[q - 1]);
                }
            }
        }
        i = i + 1;
    }
    order
}

// ─── Bar ────────────────────────────────────────────────────────────────────

/// The width of the bar for a terminal `term_width` columns wide: four columns
/// less, and at least 40.
pub fn bar_width_for(term_width: usize) -> (r: usize)
    ensures
        r == (if term_width < 44 {
            40
        } else {
            term_width - 4
        }),
{
    if term_width < 44 {
        40
    } else {
        term_width - 4
    }
}

/// The first cell of a clip starting at `start` on a bar of `bw` cells for a
/// project of length `dur` (ms): `floor(start / dur * bw)`, within the bar.
pub open spec fn first_cell(start: int, dur: int, bw: int) -> int {
    let f = (start * bw) / dur;
    let s = if f < 0 {
        0
    } else {
        f
    };
    if s > bw - 1 {
        bw - 1
    } else {
        s
    }
}

/// The cell after the last cell of a clip ending at `end`:
/// `ceil(end / dur * bw)`, at least one past its first cell and within the bar.
pub open spec fn end_cell(end: int, dur: int, bw: int, first: int) -> int {
    let c = -((-(end * bw)) / dur);
    let c0 = if c < 0 {
        0
    } else {
        c
    };
    if c0 < first + 1 {
        first + 1
    } else if c0 > bw {
        bw
    } else {
        c0
    }
}

/// Whether clip `c` fills cell `i`.
pub open spec fn fills(c: TimelineView, dur: int, bw: int, i: int) -> bool {
    let f = first_cell(c.start as int, dur, bw);
    f <= i < end_cell(c.end, dur, bw, f)
}

fn first_cell_exec(st: i64, dur: u128, w: u128) -> (r: u128)
    requires
        1 <= dur <= 0xffff_ffff_ffff_ffff,
        1 <= w <= 0xffff_ffff_ffff_ffff,
    ensures
        r == first_cell(st as int, dur as int, w as int),
        r < w,
{
    if st <= 0 {
        assert((st * w) / (dur as int) <= 0) by (nonlinear_arith)
            requires
                st <= 0,
                w >= 1,
                dur >= 1,
        ;
        0
    } else if st as u128 >= dur {
        assert((st * w) / (dur as int) >= w) by (nonlinear_arith)
            requires
                st >= dur,
                w >= 1,
                dur >= 1,
        ;
        w - 1
    } else {
        let s: u128 = st as u128;
        assert(s * w < dur * w <= 0xffff_ffff_ffff_ffff * 0xffff_ffff_ffff_ffff) by (nonlinear_arith)
            requires
                1 <= s < dur,
                1 <= w <= 0xffff_ffff_ffff_ffff,
                dur <= 0xffff_ffff_ffff_ffff,
        ;
        let p: u128 = s * w;
        let q: u128 = p / dur;
        assert(0 <= q < w) by (nonlinear_arith)
            requires
                p == s * w,
                q == p / dur,
                1 <= s < dur,
                w >= 1,
        ;
        q
    }
}

fn end_cell_exec(en: i128, dur: u128, w: u128, first: u128) -> (r: u128)
    requires
        1 <= dur <= 0xffff_ffff_ffff_ffff,
        1 <= w <= 0xffff_ffff_ffff_ffff,
        first < w,
    ensures
        r == end_cell(en as int, dur as int, w as int, first as int),
        first < r <= w,
{
    let c0: u128 = if en <= 0 {
        assert((-(en * w)) / (dur as int) >= 0) by (nonlinear_arith)
            requires
                en <= 0,
                w >= 1,
                dur >= 1,
        ;
        0
    } else if en as u128 >= dur {
        assert(-((-(en * w)) / (dur as int)) >= w) by (nonlinear_arith)
            requires
                en >= dur,
                w >= 1,
                dur >= 1,
        ;
        w
    } else {
        let e: u128 = en as u128;
        assert(e * w + dur - 1 < dur * w + dur <= 0xffff_ffff_ffff_ffff * 0xffff_ffff_ffff_ffff
            + 0xffff_ffff_ffff_ffff) by (nonlinear_arith)
            requires
                1 <= e < dur,
                1 <= w <= 0xffff_ffff_ffff_ffff,
                dur <= 0xffff_ffff_ffff_ffff,
        ;
        let x: u128 = e * w + (dur - 1);
        let q: u128 = x / dur;
        assert(q == -((-(e * w)) / (dur as int)) && q <= w) by (nonlinear_arith)
            requires
                x == e * w + dur - 1,
                q == x / dur,
                1 <= e < dur,
                w >= 1,
                dur >= 1,
        ;
        q
    };
    if c0 < first + 1 {
        first + 1
    } else if c0 > w {
        w
    } else {
        c0
    }
}

/// The cells of the bar: `true` where some clip plays.
pub fn timeline_bar(clips: &Vec<TimelineClip>, duration: i128, bar_width: usize) -> (r: Vec<bool>)
    requires
        duration > 0,
        bar_width >= 1,
        duration <= 0xffff_ffff_ffff_ffff,
    ensures
        r@.len() == bar_width,
        forall|i: int|
            0 <= i < bar_width ==> r@[i] == exists|k: int|
                0 <= k < clips@.len() && fills(#[trigger] clips@[k]@, duration as int, bar_width as int, i),
{
    let ghost dur = duration as int;
    let ghost bw = bar_width as int;
    let mut bar: Vec<bool> = Vec::new();
    let mut i: usize = 0;
    while i < bar_width
        invariant
            0 <= i <= bar_width,
            bar@.len() == i,
            forall|j: int| 0 <= j < i ==> !bar@[j],
        decreases bar_width - i,
    {
        bar.push(false);
        i = i + 1;
    }
    let w: u128 = bar_width as u128;
    let d: u128 = duration as u128;
    let mut k: usize = 0;
    while k < clips.len()
        invariant
            0 <= k <= clips@.len(),
            bar@.len() == bar_width,
            duration > 0,
            bar_width >= 1,
            w == bar_width,
            d == duration,
            dur == duration,
            bw == bar_width,
            duration <= 0xffff_ffff_ffff_ffff,
            forall|j: int|
                0 <= j < bar_width ==> bar@[j] == exists|q: int|
                    0 <= q < k && fills(#[trigger] clips@[q]@, dur, bw, j),
        decreases clips.len() - k,
    {
        let c = &clips[k];
        let first: u128 = first_cell_exec(c.start, d, w);
        let last: u128 = end_cell_exec(c.end, d, w, first);
        assert(first == first_cell(c@.start as int, dur, bw));
        assert(last == end_cell(c@.end, dur, bw, first as int));
        let ghost before_bar = bar@;
        assert(forall|x: int| 0 <= x < bar_width ==> before_bar[x] == exists|q: int|
            0 <= q < k && fills(#[trigger] clips@[q]@, dur, bw, x));
        let mut j: usize = first as usize;
        while j < last as usize
            invariant
                first <= j <= last,
                0 <= first < last <= bar_width,
                bar@.len() == bar_width,
                before_bar.len() == bar_width,
                forall|x: int| 0 <= x < bar_width ==> bar@[x] == (before_bar[x] || (first <= x < j)),
            decreases last - j,
        {
            bar.set(j, true);
            j = j + 1;
        }
        proof {
            assert(c@ == clips@[k as int]@);
            assert forall|x: int| 0 <= x < bar_width implies bar@[x] == exists|q: int|
                0 <= q < k + 1 && fills(#[trigger] clips@[q]@, dur, bw, x) by {
                let old_has = exists|q: int| 0 <= q < k && fills(#[trigger] clips@[q]@, dur, bw, x);
                assert(before_bar[x] == old_has);
                if first <= x < last {
                    assert(fills(clips@[k as int]@, dur, bw, x));
                } else {
                    assert(!fills(clips@[k as int]@, dur, bw, x));
                    if exists|q: int| 0 <= q < k + 1 && fills(#[trigger] clips@[q]@, dur, bw, x) {
                        let q = choose|q: int| 0 <= q < k + 1 && fills(#[trigger] clips@[q]@, dur, bw, x);
                        assert(q != k);
                        assert(old_has);
                    }
                    if old_has {
                        let q = choose|q: int| 0 <= q < k && fills(#[trigger] clips@[q]@, dur, bw, x);
                        assert(0 <= q < k + 1 && fills(clips@[q]@, dur, bw, x));
                    }
                }
            }
        }
        k = k + 1;
    }
    bar
}

} // verus!
