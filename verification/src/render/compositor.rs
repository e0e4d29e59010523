//! The compositor: one FFmpeg command that lays the video clips, then the
//! images, then the texts, over a black background, mixes the audio clips,
//! and optionally moves the whole picture by a movement formula.
//!
//! Input `k` of the command is the `k`-th clip in that order (videos of the
//! unmuted tracks, images of the unmuted image tracks from the lowest layer
//! up, audio clips of the unmuted tracks); the background after input `k` is
//! labelled `bg<k+1>`. Texts of the unmuted text tracks are drawn last, from
//! the lowest layer up.
use vstd::prelude::*;
use crate::project::clip::{
    AudioClip, AudioClipView, ImageClip, ImageClipView, ImageMode, TextClip, TextClipView, VideoClip,
    VideoClipView,
};
use crate::project::track::{
    audio_views, image_views, text_views, video_views, Track, TrackKind, TrackView,
};
use crate::render::layers::{by_layer, tracks_by_layer};
use crate::render::text::ends_with;
use crate::render::stabilize::{push_stabilization, stabilization_filters};
use crate::render::text::{collect_texts, push_text_steps, shown_texts, text_graph, text_output};
use crate::project::track_views;
use crate::render::filters::{
    audio_clip_filters, axis_text, build_audio_clip_filters, build_image_clip_filters,
    build_video_clip_filters, image_clip_filters, placed, push_filter, video_clip_filters,
};
use crate::textutil::{
    decimal, joined, millis_text, owned, push_i64, push_millis, push_millis_wide, push_str,
    push_u64, signed_decimal, views, join, parent_of, path_parent, path_join, join_path,
};
use crate::numfmt::{push_short, short_text};
use crate::config::{PreferredEncoder, VeditConfig};
use crate::ffmpeg::command::{CommandView, FfmpegCommand};
use crate::motion::formula::{expr_x, expr_y, FormulaView, MovementFormula};
use crate::motion::region::RenderRegion;
use crate::project::{longest_track, Project, ProjectView};
use crate::render::{AudioFormat, RenderJob, VideoFormat};

verus! {

// ─── Which clips are drawn ──────────────────────────────────────────────────

/// The video clips of the unmuted tracks, track by track, in order.
pub open spec fn unmuted_videos(s: Seq<TrackView>) -> Seq<VideoClipView>
    decreases s.len(),
{
    if s.len() == 0 {
        Seq::empty()
    } else {
        unmuted_videos(s.drop_last()) + (if s.last().muted {
            Seq::empty()
        } else {
            s.last().video_clips
        })
    }
}

/// The image clips of the unmuted image tracks, track by track, in order.
pub open spec fn shown_images(s: Seq<TrackView>) -> Seq<ImageClipView>
    decreases s.len(),
{
    if s.len() == 0 {
        Seq::empty()
    } else {
        shown_images(s.drop_last()) + (if s.last().muted || s.last().kind != TrackKind::Image {
            Seq::empty()
        } else {
            s.last().image_clips
        })
    }
}

/// The audio clips of the unmuted tracks, track by track, in order.
pub open spec fn unmuted_audio(s: Seq<TrackView>) -> Seq<AudioClipView>
    decreases s.len(),
{
    if s.len() == 0 {
        Seq::empty()
    } else {
        unmuted_audio(s.drop_last()) + (if s.last().muted {
            Seq::empty()
        } else {
            s.last().audio_clips
        })
    }
}

fn append_videos(out: &mut Vec<VideoClip>, clips: &Vec<VideoClip>)
    ensures
        video_views(final(out)@) == video_views(old(out)@) + video_views(clips@),
{
    let ghost o0 = video_views(out@);
    let mut j: usize = 0;
    while j < clips.len()
        invariant
            0 <= j <= clips@.len(),
            video_views(out@) == o0 + video_views(clips@).take(j as int),
        decreases clips.len() - j,
    {
        let ghost before = video_views(out@);
        out.push(clips[j].clone());
        assert(video_views(out@) =~= before.push(clips@[j as int]@));
        assert(video_views(clips@).take(j + 1) =~= video_views(clips@).take(j as int).push(
            clips@[j as int]@,
        ));
        j = j + 1;
    }
    assert(video_views(clips@).take(clips@.len() as int) =~= video_views(clips@));
}

fn append_images(out: &mut Vec<ImageClip>, clips: &Vec<ImageClip>)
    ensures
        image_views(final(out)@) == image_views(old(out)@) + image_views(clips@),
{
    let ghost o0 = image_views(out@);
    let mut j: usize = 0;
    while j < clips.len()
        invariant
            0 <= j <= clips@.len(),
            image_views(out@) == o0 + image_views(clips@).take(j as int),
        decreases clips.len() - j,
    {
        let ghost before = image_views(out@);
        out.push(clips[j].clone());
        assert(image_views(out@) =~= before.push(clips@[j as int]@));
        assert(image_views(clips@).take(j + 1) =~= image_views(clips@).take(j as int).push(
            clips@[j as int]@,
        ));
        j = j + 1;
    }
    assert(image_views(clips@).take(clips@.len() as int) =~= image_views(clips@));
}

fn append_audio(out: &mut Vec<AudioClip>, clips: &Vec<AudioClip>)
    ensures
        audio_views(final(out)@) == audio_views(old(out)@) + audio_views(clips@),
{
    let ghost o0 = audio_views(out@);
    let mut j: usize = 0;
    while j < clips.len()
        invariant
            0 <= j <= clips@.len(),
            audio_views(out@) == o0 + audio_views(clips@).take(j as int),
        decreases clips.len() - j,
    {
        let ghost before = audio_views(out@);
        out.push(clips[j].clone());
        assert(audio_views(out@) =~= before.push(clips@[j as int]@));
        assert(audio_views(clips@).take(j + 1) =~= audio_views(clips@).take(j as int).push(
            clips@[j as int]@,
        ));
        j = j + 1;
    }
    assert(audio_views(clips@).take(clips@.len() as int) =~= audio_views(clips@));
}

/// The clips that a render draws and mixes: `unmuted_videos`, `shown_images`
/// and `unmuted_audio` of the tracks.
pub fn collect_clips(tracks: &Vec<Track>) -> (r: (Vec<VideoClip>, Vec<ImageClip>, Vec<AudioClip>))
    ensures
        video_views(r.0@) == unmuted_videos(track_views(tracks@)),
        image_views(r.1@) == shown_images(track_views(tracks@)),
        audio_views(r.2@) == unmuted_audio(track_views(tracks@)),
{
    let ghost s = track_views(tracks@);
    let mut vs: Vec<VideoClip> = Vec::new();
    let mut is: Vec<ImageClip> = Vec::new();
    let mut aus: Vec<AudioClip> = Vec::new();
    assert(video_views(vs@) =~= Seq::<VideoClipView>::empty());
    assert(image_views(is@) =~= Seq::<ImageClipView>::empty());
    assert(audio_views(aus@) =~= Seq::<AudioClipView>::empty());
    let mut i: usize = 0;
    while i < tracks.len()
        invariant
            0 <= i <= tracks@.len(),
            s == track_views(tracks@),
            video_views(vs@) == unmuted_videos(s.take(i as int)),
            image_views(is@) == shown_images(s.take(i as int)),
            audio_views(aus@) == unmuted_audio(s.take(i as int)),
        decreases tracks.len() - i,
    {
        let t = &tracks[i];
        assert(s.take(i + 1).drop_last() =~= s.take(i as int));
        assert(s.take(i + 1).last() == t@);
        if !t.muted {
            append_videos(&mut vs, &t.video_clips);
            append_audio(&mut aus, &t.audio_clips);
            if t.kind == TrackKind::Image {
                append_images(&mut is, &t.image_clips);
            } else {
                assert(image_views(is@) =~= shown_images(s.take(i + 1)));
            }
        } else {
            assert(video_views(vs@) =~= unmuted_videos(s.take(i + 1)));
            assert(image_views(is@) =~= shown_images(s.take(i + 1)));
            assert(audio_views(aus@) =~= unmuted_audio(s.take(i + 1)));
        }
        i = i + 1;
    }
    assert(s.take(tracks@.len() as int) =~= s);
    (vs, is, aus)
}

// ─── Labels and inputs ──────────────────────────────────────────────────────

/// `prefix` followed by the number `k`.
pub open spec fn label(prefix: Seq<char>, k: int) -> Seq<char> {
    prefix + decimal(k as nat)
}

/// `[k:v]`, `[k:a]`: a stream of input `k`.
pub open spec fn stream(k: int, kind: Seq<char>) -> Seq<char> {
    "["@ + decimal(k as nat) + ":"@ + kind + "]"@
}

/// `[name]`.
pub open spec fn pad(name: Seq<char>) -> Seq<char> {
    "["@ + name + "]"@
}

/// The arguments that open a clip file from `start` (ms), up to `end` when
/// the end is known: `-i <path> -ss <start> [-t <end - start>]`.
pub open spec fn clip_input(path: Seq<char>, start: i64, end: Option<i64>) -> Seq<Seq<char>> {
    seq!["-i"@, path, "-ss"@, millis_text(start as int)] + (match end {
        Some(e) => seq!["-t"@, millis_text(e - start)],
        None => Seq::empty(),
    })
}

/// Places a clip on the timeline at `ts` (ms).
pub open spec fn setpts_text(ts: i64) -> Seq<char> {
    "setpts=PTS-STARTPTS+"@ + millis_text(ts as int) + "/TB"@
}

/// `enable='between(t,<from>,<to>)'` for times in ms.
pub open spec fn between_text(from: int, to: int) -> Seq<char> {
    "enable='between(t,"@ + millis_text(from) + ","@ + millis_text(to) + ")'"@
}

pub(crate) fn push_label(s: &mut String, prefix: &str, k: usize)
    ensures
        final(s)@ == old(s)@ + label(prefix@, k as int),
{
    push_str(s, prefix);
    push_u64(s, k as u64);
    assert(final(s)@ =~= old(s)@ + label(prefix@, k as int));
}

pub(crate) fn push_pad_label(s: &mut String, prefix: &str, k: usize)
    ensures
        final(s)@ == old(s)@ + pad(label(prefix@, k as int)),
{
    push_str(s, "[");
    push_label(s, prefix, k);
    push_str(s, "]");
    assert(final(s)@ =~= old(s)@ + pad(label(prefix@, k as int)));
}

pub(crate) fn push_stream(s: &mut String, k: usize, kind: &str)
    ensures
        final(s)@ == old(s)@ + stream(k as int, kind@),
{
    push_str(s, "[");
    push_u64(s, k as u64);
    push_str(s, ":");
    push_str(s, kind);
    push_str(s, "]");
    assert(final(s)@ =~= old(s)@ + stream(k as int, kind@));
}

fn push_input(args: &mut Vec<String>, path: &String, start: i64, end: Option<i64>)
    ensures
        views(final(args)@) == views(old(args)@) + clip_input(path@, start, end),
{
    let ghost a0 = views(args@);
    push_filter(args, owned("-i"));
    push_filter(args, path.clone());
    push_filter(args, owned("-ss"));
    let mut s = String::new();
    push_millis(&mut s, start);
    push_filter(args, s);
    match end {
        Some(e) => {
            push_filter(args, owned("-t"));
            let mut t = String::new();
            push_millis_wide(&mut t, e as i128 - start as i128);
            push_filter(args, t);
        },
        None => {},
    }
    assert(views(args@) =~= a0 + clip_input(path@, start, end));
}

// ─── Video ──────────────────────────────────────────────────────────────────

/// The arguments that open the video clips.
pub open spec fn video_inputs(vs: Seq<VideoClipView>) -> Seq<Seq<char>>
    decreases vs.len(),
{
    if vs.len() == 0 {
        Seq::empty()
    } else {
        video_inputs(vs.drop_last()) + clip_input(
            vs.last().source_path,
            vs.last().source_start,
            vs.last().source_end,
        )
    }
}

/// The filter chain of video input `k`, ending in the label `v<k>`.
pub open spec fn video_chain(k: int, c: VideoClipView, w: u32, h: u32) -> Seq<char> {
    stream(k, "v"@) + joined(video_clip_filters(c, w, h).push(setpts_text(c.timeline_start)), ","@)
        + pad(label("v"@, k))
}

/// The overlay of video `k` on background `bg<k>`, giving `bg<k+1>`.
pub open spec fn video_overlay(k: int, c: VideoClipView, w: u32, h: u32) -> Seq<char> {
    pad(label("bg"@, k)) + pad(label("v"@, k)) + "overlay="@ + signed_decimal(placed(w, c.position.x))
        + ":"@ + signed_decimal(placed(h, c.position.y)) + ":"@ + between_text(
        c.timeline_start as int,
        c.timeline_end(),
    ) + ":eof_action=pass"@ + pad(label("bg"@, k + 1))
}

/// The filter chain of video input `k` in a composition, with the shake
/// removal of a clip that asks for it (its motion file in `temp`).
pub open spec fn steady_chain(k: int, c: VideoClipView, w: u32, h: u32, temp: Seq<char>) -> Seq<char> {
    stream(k, "v"@) + joined(
        (video_clip_filters(c, w, h) + stabilization_filters(c, temp)).push(setpts_text(c.timeline_start)),
        ","@,
    ) + pad(label("v"@, k))
}

/// The chains and overlays of the video clips, two filters per clip.
pub open spec fn video_graph(vs: Seq<VideoClipView>, w: u32, h: u32, temp: Seq<char>) -> Seq<Seq<char>>
    decreases vs.len(),
{
    if vs.len() == 0 {
        Seq::empty()
    } else {
        let k = vs.len() - 1;
        video_graph(vs.drop_last(), w, h, temp) + seq![
            steady_chain(k, vs.last(), w, h, temp),
            video_overlay(k, vs.last(), w, h),
        ]
    }
}

pub(crate) fn setpts_filter(ts: i64) -> (r: String)
    ensures
        r@ == setpts_text(ts),
{
    let mut s = owned("setpts=PTS-STARTPTS+");
    push_millis(&mut s, ts);
    push_str(&mut s, "/TB");
    s
}

pub(crate) fn push_between(s: &mut String, from: i128, to: i128)
    requires
        -0x1_0000_0000_0000_0000_0000_0000 <= from <= 0x1_0000_0000_0000_0000_0000_0000,
        -0x1_0000_0000_0000_0000_0000_0000 <= to <= 0x1_0000_0000_0000_0000_0000_0000,
    ensures
        final(s)@ == old(s)@ + between_text(from as int, to as int),
{
    push_str(s, "enable='between(t,");
    push_millis_wide(s, from);
    push_str(s, ",");
    push_millis_wide(s, to);
    push_str(s, ")'");
    assert(final(s)@ =~= old(s)@ + between_text(from as int, to as int));
}

fn video_chain_string(k: usize, c: &VideoClip, w: u32, h: u32, temp: &str) -> (r: String)
    ensures
        r@ == steady_chain(k as int, c@, w, h, temp@),
{
    let mut vf = build_video_clip_filters(c, w, h);
    push_stabilization(&mut vf, c, temp);
    push_filter(&mut vf, setpts_filter(c.timeline_start));
    let mut chain = String::new();
    push_stream(&mut chain, k, "v");
    push_str(&mut chain, join(&vf, ",").as_str());
    push_pad_label(&mut chain, "v", k);
    assert(chain@ =~= steady_chain(k as int, c@, w, h, temp@));
    chain
}

fn video_overlay_string(k: usize, c: &VideoClip, w: u32, h: u32) -> (r: String)
    requires
        k < usize::MAX,
    ensures
        r@ == video_overlay(k as int, c@, w, h),
{
    let mut ov = String::new();
    push_pad_label(&mut ov, "bg", k);
    push_pad_label(&mut ov, "v", k);
    push_str(&mut ov, "overlay=");
    push_i64(&mut ov, crate::render::filters::placed_exec(w, c.position.x));
    push_str(&mut ov, ":");
    push_i64(&mut ov, crate::render::filters::placed_exec(h, c.position.y));
    push_str(&mut ov, ":");
    push_between(&mut ov, c.timeline_start as i128, c.timeline_start as i128 + c.duration());
    push_str(&mut ov, ":eof_action=pass");
    push_pad_label(&mut ov, "bg", k + 1);
    assert(ov@ =~= video_overlay(k as int, c@, w, h));
    ov
}

/// Adds the inputs and the filter graph of the video clips.
fn add_videos(
    args: &mut Vec<String>,
    graph: &mut Vec<String>,
    vs: &Vec<VideoClip>,
    w: u32,
    h: u32,
    temp: &str,
)
    ensures
        views(final(args)@) == views(old(args)@) + video_inputs(video_views(vs@)),
        views(final(graph)@) == views(old(graph)@) + video_graph(video_views(vs@), w, h, temp@),
{
    let ghost cs = video_views(vs@);
    let ghost a0 = views(args@);
    let ghost g0 = views(graph@);
    let mut i: usize = 0;
    assert(cs.take(0) =~= Seq::<VideoClipView>::empty());
    while i < vs.len()
        invariant
            0 <= i <= vs@.len(),
            cs == video_views(vs@),
            views(args@) == a0 + video_inputs(cs.take(i as int)),
            views(graph@) == g0 + video_graph(cs.take(i as int), w, h, temp@),
        decreases vs.len() - i,
    {
        let c = &vs[i];
        proof {
            assert(cs[i as int] == c@);
            assert(cs.take(i + 1).drop_last() =~= cs.take(i as int));
            assert(cs.take(i + 1).last() == c@);
        }
        let ghost pa = views(args@);
        let ghost pg = views(graph@);
        push_input(args, &c.source_path, c.source_start, c.source_end);
        push_filter(graph, video_chain_string(i, c, w, h, temp));
        push_filter(graph, video_overlay_string(i, c, w, h));
        proof {
            assert(views(args@) =~= a0 + video_inputs(cs.take(i + 1)));
            assert(views(graph@) =~= g0 + video_graph(cs.take(i + 1), w, h, temp@));
        }
        i = i + 1;
    }
    assert(cs.take(vs@.len() as int) =~= cs);
}

// ─── Images ─────────────────────────────────────────────────────────────────

/// The arguments that loop an image file for its duration:
/// `-loop 1 -t <duration> -i <path>`.
pub open spec fn image_input(c: ImageClipView) -> Seq<Seq<char>> {
    seq!["-loop"@, "1"@, "-t"@, millis_text(c.duration_secs as int), "-i"@, c.source_path]
}

/// The arguments that open the image clips.
pub open spec fn image_inputs(is: Seq<ImageClipView>) -> Seq<Seq<char>>
    decreases is.len(),
{
    if is.len() == 0 {
        Seq::empty()
    } else {
        image_inputs(is.drop_last()) + image_input(is.last())
    }
}

/// The filter chain of image input `k`, ending in the label `img<k>`.
pub open spec fn image_chain(k: int, c: ImageClipView, w: u32, h: u32, fps: i64) -> Seq<char> {
    stream(k, "v"@) + joined(image_clip_filters(c, w, h, fps).push(setpts_text(c.timeline_start)), ","@)
        + pad(label("img"@, k))
}

/// Where an image is laid: the frame origin for a background or full-screen
/// image, its own position for an overlay.
pub open spec fn image_place(c: ImageClipView, w: u32, h: u32) -> Seq<char> {
    match c.mode {
        ImageMode::Overlay => axis_text(c.position.x, w, "(main_w-overlay_w)/2"@) + ":"@ + axis_text(
            c.position.y,
            h,
            "(main_h-overlay_h)/2"@,
        ),
        _ => "0:0"@,
    }
}

/// The overlay of image `k` on background `bg<k>`, giving `bg<k+1>`.
pub open spec fn image_overlay(k: int, c: ImageClipView, w: u32, h: u32) -> Seq<char> {
    pad(label("bg"@, k)) + pad(label("img"@, k)) + "overlay="@ + image_place(c, w, h) + ":"@
        + between_text(c.timeline_start as int, c.timeline_start + c.duration_secs)
        + ":eof_action=pass"@ + pad(label("bg"@, k + 1))
}

/// The chains and overlays of the images, numbered from input `base`.
pub open spec fn image_graph(is: Seq<ImageClipView>, base: int, w: u32, h: u32, fps: i64) -> Seq<Seq<char>>
    decreases is.len(),
{
    if is.len() == 0 {
        Seq::empty()
    } else {
        let k = base + is.len() - 1;
        image_graph(is.drop_last(), base, w, h, fps) + seq![
            image_chain(k, is.last(), w, h, fps),
            image_overlay(k, is.last(), w, h),
        ]
    }
}

fn image_chain_string(k: usize, c: &ImageClip, w: u32, h: u32, fps: i64) -> (r: String)
    ensures
        r@ == image_chain(k as int, c@, w, h, fps),
{
    let mut vf = build_image_clip_filters(c, w, h, fps);
    push_filter(&mut vf, setpts_filter(c.timeline_start));
    let mut chain = String::new();
    push_stream(&mut chain, k, "v");
    push_str(&mut chain, join(&vf, ",").as_str());
    push_pad_label(&mut chain, "img", k);
    assert(chain@ =~= image_chain(k as int, c@, w, h, fps));
    chain
}

fn image_overlay_string(k: usize, c: &ImageClip, w: u32, h: u32) -> (r: String)
    requires
        k < usize::MAX,
    ensures
        r@ == image_overlay(k as int, c@, w, h),
{
    let mut ov = String::new();
    push_pad_label(&mut ov, "bg", k);
    push_pad_label(&mut ov, "img", k);
    push_str(&mut ov, "overlay=");
    let ghost p0 = ov@;
    match c.mode {
        ImageMode::Overlay => {
            let (ox, oy) = crate::render::filters::resolve_overlay_position(c, w, h);
            push_str(&mut ov, ox.as_str());
            push_str(&mut ov, ":");
            push_str(&mut ov, oy.as_str());
        },
        _ => {
            push_str(&mut ov, "0:0");
        },
    }
    assert(ov@ =~= p0 + image_place(c@, w, h));
    push_str(&mut ov, ":");
    push_between(
        &mut ov,
        c.timeline_start as i128,
        c.timeline_start as i128 + c.duration_secs as i128,
    );
    push_str(&mut ov, ":eof_action=pass");
    push_pad_label(&mut ov, "bg", k + 1);
    assert(ov@ =~= image_overlay(k as int, c@, w, h));
    ov
}

fn push_image_input(args: &mut Vec<String>, c: &ImageClip)
    ensures
        views(final(args)@) == views(old(args)@) + image_input(c@),
{
    let ghost a0 = views(args@);
    push_filter(args, owned("-loop"));
    push_filter(args, owned("1"));
    push_filter(args, owned("-t"));
    let mut d = String::new();
    push_millis(&mut d, c.duration_secs);
    push_filter(args, d);
    push_filter(args, owned("-i"));
    push_filter(args, c.source_path.clone());
    assert(views(args@) =~= a0 + image_input(c@));
}

/// Adds the inputs and the filter graph of the images, numbered from `base`.
fn add_images(
    args: &mut Vec<String>,
    graph: &mut Vec<String>,
    is: &Vec<ImageClip>,
    base: usize,
    w: u32,
    h: u32,
    fps: i64,
)
    requires
        base + is@.len() < usize::MAX,
    ensures
        views(final(args)@) == views(old(args)@) + image_inputs(image_views(is@)),
        views(final(graph)@) == views(old(graph)@) + image_graph(image_views(is@), base as int, w, h, fps),
{
    let ghost cs = image_views(is@);
    let ghost a0 = views(args@);
    let ghost g0 = views(graph@);
    let mut i: usize = 0;
    assert(cs.take(0) =~= Seq::<ImageClipView>::empty());
    while i < is.len()
        invariant
            0 <= i <= is@.len(),
            base + is@.len() < usize::MAX,
            cs == image_views(is@),
            views(args@) == a0 + image_inputs(cs.take(i as int)),
            views(graph@) == g0 + image_graph(cs.take(i as int), base as int, w, h, fps),
        decreases is.len() - i,
    {
        let c = &is[i];
        proof {
            assert(cs[i as int] == c@);
            assert(cs.take(i + 1).drop_last() =~= cs.take(i as int));
            assert(cs.take(i + 1).last() == c@);
        }
        push_image_input(args, c);
        push_filter(graph, image_chain_string(base + i, c, w, h, fps));
        push_filter(graph, image_overlay_string(base + i, c, w, h));
        proof {
            assert(views(args@) =~= a0 + image_inputs(cs.take(i + 1)));
            assert(views(graph@) =~= g0 + image_graph(cs.take(i + 1), base as int, w, h, fps));
        }
        i = i + 1;
    }
    assert(cs.take(is@.len() as int) =~= cs);
}

// ─── Audio ──────────────────────────────────────────────────────────────────

/// The arguments that open the audio clips.
pub open spec fn audio_inputs(aus: Seq<AudioClipView>) -> Seq<Seq<char>>
    decreases aus.len(),
{
    if aus.len() == 0 {
        Seq::empty()
    } else {
        audio_inputs(aus.drop_last()) + clip_input(
            aus.last().source_path,
            aus.last().source_start,
            aus.last().source_end,
        )
    }
}

/// The filter chain of audio input `k`, ending in the label `a<k>`.
pub open spec fn audio_chain(k: int, c: AudioClipView) -> Seq<char> {
    stream(k, "a"@) + joined(audio_clip_filters(c), ","@) + pad(label("a"@, k))
}

/// The chains of the audio clips, numbered from input `base`.
pub open spec fn audio_graph(aus: Seq<AudioClipView>, base: int) -> Seq<Seq<char>>
    decreases aus.len(),
{
    if aus.len() == 0 {
        Seq::empty()
    } else {
        audio_graph(aus.drop_last(), base) + seq![audio_chain(base + aus.len() - 1, aus.last())]
    }
}

/// `[a<base>][a<base+1>]...` for `n` audio streams.
pub open spec fn mix_inputs(base: int, n: nat) -> Seq<char>
    decreases n,
{
    if n == 0 {
        Seq::empty()
    } else {
        mix_inputs(base, (n - 1) as nat) + pad(label("a"@, base + n - 1))
    }
}

/// The output label of the audio stream numbered `k`: `[a<k>]`.
pub open spec fn audio_out_label(k: int) -> Seq<char> {
    pad(label("a"@, k))
}

/// The mix takes every audio stream once, in order: its inputs are the output
/// labels of the streams `base`, `base + 1`, ..., `base + n - 1`, one after
/// the other, and the chain of each audio clip ends in the output label of
/// its own stream, so the `k`-th input of the mix is what the `k`-th audio
/// chain gives.
pub proof fn law_mix_takes_each_stream(base: int, n: nat, c: AudioClipView)
    ensures
        mix_inputs(base, n) == Seq::new(n, |k: int| audio_out_label(base + k)).flatten(),
        forall|k: int|
            ends_with(#[trigger] audio_chain(k, c), audio_out_label(k)),
    decreases n,
{
    let ls = Seq::new(n, |k: int| audio_out_label(base + k));
    if n == 0 {
        assert(ls =~= Seq::<Seq<char>>::empty());
    } else {
        law_mix_takes_each_stream(base, (n - 1) as nat, c);
        let prev = Seq::new((n - 1) as nat, |k: int| audio_out_label(base + k));
        assert(ls =~= prev.push(audio_out_label(base + n - 1)));
        prev.lemma_flatten_push(audio_out_label(base + n - 1));
    }
    assert forall|k: int| ends_with(#[trigger] audio_chain(k, c), audio_out_label(k)) by {
        let a = audio_chain(k, c);
        let t = audio_out_label(k);
        let p = stream(k, "a"@) + joined(audio_clip_filters(c), ","@);
        assert(a =~= p + t);
        assert(a.subrange(a.len() - t.len(), a.len() as int) =~= t);
    }
}

/// The mix of `n` audio streams numbered from `base` into `aout`.
pub open spec fn amix_text(base: int, n: nat) -> Seq<char> {
    mix_inputs(base, n) + "amix=inputs="@ + decimal(n) + ":duration=longest[aout]"@
}

fn audio_chain_string(k: usize, c: &AudioClip) -> (r: String)
    ensures
        r@ == audio_chain(k as int, c@),
{
    let af = build_audio_clip_filters(c);
    let mut chain = String::new();
    push_stream(&mut chain, k, "a");
    push_str(&mut chain, join(&af, ",").as_str());
    push_pad_label(&mut chain, "a", k);
    assert(chain@ =~= audio_chain(k as int, c@));
    chain
}

/// Adds the inputs and the chains of the audio clips, numbered from `base`.
fn add_audio(args: &mut Vec<String>, graph: &mut Vec<String>, aus: &Vec<AudioClip>, base: usize)
    requires
        base + aus@.len() < usize::MAX,
    ensures
        views(final(args)@) == views(old(args)@) + audio_inputs(audio_views(aus@)),
        views(final(graph)@) == views(old(graph)@) + audio_graph(audio_views(aus@), base as int),
{
    let ghost cs = audio_views(aus@);
    let ghost a0 = views(args@);
    let ghost g0 = views(graph@);
    let mut i: usize = 0;
    assert(cs.take(0) =~= Seq::<AudioClipView>::empty());
    while i < aus.len()
        invariant
            0 <= i <= aus@.len(),
            base + aus@.len() < usize::MAX,
            cs == audio_views(aus@),
            views(args@) == a0 + audio_inputs(cs.take(i as int)),
            views(graph@) == g0 + audio_graph(cs.take(i as int), base as int),
        decreases aus.len() - i,
    {
        let c = &aus[i];
        proof {
            assert(cs[i as int] == c@);
            assert(cs.take(i + 1).drop_last() =~= cs.take(i as int));
            assert(cs.take(i + 1).last() == c@);
        }
        push_input(args, &c.source_path, c.source_start, c.source_end);
        push_filter(graph, audio_chain_string(base + i, c));
        proof {
            assert(views(args@) =~= a0 + audio_inputs(cs.take(i + 1)));
            assert(views(graph@) =~= g0 + audio_graph(cs.take(i + 1), base as int));
        }
        i = i + 1;
    }
    assert(cs.take(aus@.len() as int) =~= cs);
}

fn amix_string(base: usize, n: usize) -> (r: String)
    requires
        base + n < usize::MAX,
    ensures
        r@ == amix_text(base as int, n as nat),
{
    let mut s = String::new();
    let mut j: usize = 0;
    while j < n
        invariant
            0 <= j <= n,
            base + n < usize::MAX,
            s@ == mix_inputs(base as int, j as nat),
        decreases n - j,
    {
        push_pad_label(&mut s, "a", base + j);
        assert(s@ =~= mix_inputs(base as int, (j + 1) as nat));
        j = j + 1;
    }
    push_str(&mut s, "amix=inputs=");
    push_u64(&mut s, n as u64);
    push_str(&mut s, ":duration=longest[aout]");
    s
}

// ─── Settings ───────────────────────────────────────────────────────────────

/// The encoder of the job's configuration, or the default one.
pub open spec fn job_encoder(cfg: Option<VeditConfig>) -> PreferredEncoder {
    match cfg {
        Some(c) => c.preferred_encoder,
        None => PreferredEncoder::Libx264,
    }
}

/// The thread limit of the job's configuration, or the default (automatic).
pub open spec fn job_threads(cfg: Option<VeditConfig>) -> u32 {
    match cfg {
        Some(c) => c.max_threads,
        None => 0,
    }
}

/// The VA-API device of the job's configuration, or the default one.
pub open spec fn job_device(cfg: Option<VeditConfig>) -> Seq<char> {
    match cfg {
        Some(c) => c.vaapi_device@,
        None => "/dev/dri/renderD128"@,
    }
}

/// Whether the job's configuration asks to clean the cache after a render.
pub open spec fn job_cleanup(cfg: Option<VeditConfig>) -> bool {
    match cfg {
        Some(c) => c.cleanup_cache_on_exit,
        None => false,
    }
}

/// The video codec of a render: the preferred encoder for MP4 (or no format),
/// `libx265` for MKV, `prores` for MOV.
pub open spec fn job_video_codec(f: Option<VideoFormat>, cfg: Option<VeditConfig>) -> Seq<char> {
    match f {
        Some(VideoFormat::Mkv) => "libx265"@,
        Some(VideoFormat::Mov) => "prores"@,
        _ => job_encoder(cfg).codec(),
    }
}

/// The audio codec of a render; AAC when no format is given.
pub open spec fn job_audio_codec(f: Option<AudioFormat>) -> Seq<char> {
    match f {
        Some(a) => a.codec(),
        None => "aac"@,
    }
}

/// How long the canvas lasts (ms): the region, cut at the end of the project,
/// or the whole project; at least 1.
pub open spec fn canvas_length(region: Option<RenderRegion>, total: int) -> int {
    let d = match region {
        Some(r) => if r.duration_secs < total - r.start_secs {
            r.duration_secs as int
        } else {
            total - r.start_secs
        },
        None => total,
    };
    if d > 1 {
        d
    } else {
        1
    }
}

/// How long the output lasts (ms): the region's duration, or the whole project.
pub open spec fn output_length(region: Option<RenderRegion>, total: int) -> int {
    match region {
        Some(r) => r.duration_secs as int,
        None => total,
    }
}

/// The cache directory of a project: `.vedit_cache` beside its file, or in the
/// current directory when it has no file or the file has no parent.
pub open spec fn temp_dir_of(path: Option<Seq<char>>) -> Seq<char> {
    let base = match path {
        Some(p) => match path_parent(p) {
            Some(q) => q,
            None => "."@,
        },
        None => "."@,
    };
    path_join(base, ".vedit_cache"@)
}

/// The cache directory of `temp_dir_of` for a project.
pub fn resolve_temp_dir(project: &Project) -> (r: String)
    ensures
        r@ == temp_dir_of(project@.path),
{
    let base = match &project.path {
        Some(p) => match parent_of(p.as_str()) {
            Some(q) => q,
            None => owned("."),
        },
        None => owned("."),
    };
    join_path(base.as_str(), ".vedit_cache")
}

// ─── The whole command ──────────────────────────────────────────────────────

/// The black background: `color=c=black:s=WxH:d=<length>:r=<fps>[bg0]`.
pub open spec fn background_text(w: u32, h: u32, len: int, fps: i64) -> Seq<char> {
    "color=c=black:s="@ + decimal(w as nat) + "x"@ + decimal(h as nat) + ":d="@ + millis_text(len)
        + ":r="@ + short_text(fps as int, 3) + "[bg0]"@
}

/// The movement overlay over the whole composition, limited to `len` ms.
pub open spec fn motion_overlay_text(f: FormulaView, w: u32, h: u32, len: int) -> Seq<char> {
    "overlay=x='"@ + expr_x(f, w) + "':y='"@ + expr_y(f, h) + "':enable='between(t,0,"@
        + millis_text(len) + ")':eval=frame:eof_action=pass"@
}

/// The label of the picture that is written: `pic`, the picture after the
/// clips and texts, or `motion_out` when a movement is applied.
pub open spec fn final_picture(pic: Seq<char>, moved: bool) -> Seq<char> {
    if moved {
        "motion_out"@
    } else {
        pic
    }
}

/// The picture after `n` drawn clips and the texts `ts`: `bg<n>`, or the
/// output of the last text step.
pub open spec fn drawn_picture(n: int, ts: Seq<TextClipView>) -> Seq<char> {
    text_output(ts.len() as int, label("bg"@, n), "txt_bg"@, 0)
}

/// The audio mix when there are audio streams.
pub open spec fn mix_part(n: int, na: nat) -> Seq<Seq<char>> {
    if na > 0 {
        seq![amix_text(n, na)]
    } else {
        Seq::empty()
    }
}

/// The movement overlay when a formula is given, on the picture `pic`.
pub open spec fn motion_part(f: Option<FormulaView>, w: u32, h: u32, pic: Seq<char>, len: int) -> Seq<
    Seq<char>,
> {
    match f {
        Some(g) => seq![
            pad(pic) + pad(pic) + motion_overlay_text(g, w, h, len) + pad("motion_out"@),
        ],
        None => Seq::empty(),
    }
}

/// The view of an optional formula.
pub open spec fn formula_view(f: Option<MovementFormula>) -> Option<FormulaView> {
    match f {
        Some(g) => Some(g@),
        None => None,
    }
}

/// The filters of a composition of the clips `vs`, `is`, `aus` and the texts
/// `ts` (with their text files in `temp`) on a `w` by `h` frame at `fps`
/// (thousandths) lasting `len` ms: background, video clips, images, texts,
/// audio chains, audio mix (when there is audio), movement (when asked).
#[verifier::opaque]
pub open spec fn graph_of(
    motion: Option<FormulaView>,
    w: u32,
    h: u32,
    fps: i64,
    len: int,
    vs: Seq<VideoClipView>,
    is: Seq<ImageClipView>,
    ts: Seq<TextClipView>,
    temp: Seq<char>,
    aus: Seq<AudioClipView>,
) -> Seq<Seq<char>> {
    let n: int = (vs.len() + is.len()) as int;
    seq![background_text(w, h, len, fps)] + video_graph(vs, w, h, temp) + image_graph(
        is,
        vs.len() as int,
        w,
        h,
        fps,
    ) + text_graph(ts, temp, label("bg"@, n), "txt_bg"@, 0) + audio_graph(aus, n) + mix_part(
        n,
        aus.len(),
    ) + motion_part(motion, w, h, drawn_picture(n, ts), len)
}

/// The filters of the composition of a project for a job.
pub open spec fn composite_graph(job: RenderJob, p: ProjectView) -> Seq<Seq<char>> {
    graph_of(
        formula_view(job.motion_formula),
        p.metadata.width,
        p.metadata.height,
        p.metadata.fps,
        canvas_length(job.region, longest_track(p.tracks)),
        unmuted_videos(p.tracks),
        shown_images(by_layer(p.tracks)),
        shown_texts(by_layer(p.tracks), true),
        temp_dir_of(p.path),
        unmuted_audio(p.tracks),
    )
}

/// `-hide_banner -threads 0 -y`, then the configured thread limit if any.
pub open spec fn head_args(threads: u32) -> Seq<Seq<char>> {
    seq!["-hide_banner"@, "-threads"@, "0"@, "-y"@] + (if threads > 0 {
        seq!["-threads"@, decimal(threads as nat)]
    } else {
        Seq::empty()
    })
}

/// The stream selection: the final picture, and the audio mix if any.
pub open spec fn map_args(pic: Seq<char>, moved: bool, has_audio: bool) -> Seq<Seq<char>> {
    seq!["-map"@, pad(final_picture(pic, moved))] + (if has_audio {
        seq!["-map"@, "[aout]"@]
    } else {
        Seq::empty()
    })
}

/// The output options: raw streams for the live player, or device, codecs,
/// length and region start for a file.
pub open spec fn output_args(job: RenderJob, total: int) -> Seq<Seq<char>> {
    if job.is_live_preview {
        seq!["-f"@, "nut"@, "-c:v"@, "rawvideo"@, "-c:a"@, "pcm_s16le"@]
    } else {
        (if job_encoder(job.config) is H264Vaapi {
            seq!["-vaapi_device"@, job_device(job.config)]
        } else {
            Seq::empty()
        }) + seq![
            "-c:v"@,
            job_video_codec(job.video_format, job.config),
            "-c:a"@,
            job_audio_codec(job.audio_format),
            "-t"@,
            millis_text(output_length(job.region, total)),
        ] + (match job.region {
            Some(r) => if r.start_secs > 1 {
                seq!["-ss"@, millis_text(r.start_secs as int)]
            } else {
                Seq::empty()
            },
            None => Seq::empty(),
        })
    }
}

/// The plain arguments of a composition of the clips `vs`, `is`, `aus` and
/// the texts `ts` for a job, with a project of length `total` ms.
#[verifier::opaque]
pub open spec fn args_of(
    job: RenderJob,
    total: int,
    vs: Seq<VideoClipView>,
    is: Seq<ImageClipView>,
    ts: Seq<TextClipView>,
    aus: Seq<AudioClipView>,
) -> Seq<Seq<char>> {
    let n: int = (vs.len() + is.len()) as int;
    head_args(job_threads(job.config)) + video_inputs(vs) + image_inputs(is) + audio_inputs(aus)
        + map_args(drawn_picture(n, ts), job.motion_formula is Some, aus.len() > 0) + output_args(
        job,
        total,
    )
}

/// The plain arguments of the composition command of a project for a job.
pub open spec fn composite_args(job: RenderJob, p: ProjectView) -> Seq<Seq<char>> {
    args_of(
        job,
        longest_track(p.tracks),
        unmuted_videos(p.tracks),
        shown_images(by_layer(p.tracks)),
        shown_texts(by_layer(p.tracks), true),
        unmuted_audio(p.tracks),
    )
}

/// Everything a composition needs besides running FFmpeg.
#[derive(Debug)]
pub struct CompositePlan {
    /// The FFmpeg command.
    pub command: FfmpegCommand,
    /// Pipe the result to a player instead of writing a file.
    pub live_preview: bool,
    /// Output length (ms), against which progress is reported.
    pub progress_duration: i128,
    /// The cache directory to create before running.
    pub temp_dir: String,
    /// Remove the cache directory afterwards.
    pub cleanup_temp: bool,
    /// Length of the project (ms).
    pub project_duration: i128,
}

fn push_arg_str(args: &mut Vec<String>, a: &str)
    ensures
        views(final(args)@) == views(old(args)@).push(a@),
{
    push_filter(args, owned(a));
}

fn push_head_args(args: &mut Vec<String>, cfg: &Option<VeditConfig>)
    ensures
        views(final(args)@) == views(old(args)@) + head_args(job_threads(*cfg)),
{
    let ghost a0 = views(args@);
    let threads: u32 = match cfg {
        Some(c) => c.max_threads,
        None => 0,
    };
    push_arg_str(args, "-hide_banner");
    push_arg_str(args, "-threads");
    push_arg_str(args, "0");
    push_arg_str(args, "-y");
    if threads > 0 {
        push_arg_str(args, "-threads");
        push_filter(args, crate::textutil::u64_to_string(threads as u64));
    }
    assert(views(args@) =~= a0 + head_args(job_threads(*cfg)));
}

fn background_string(w: u32, h: u32, len: i128, fps: i64) -> (r: String)
    requires
        -0x1_0000_0000_0000_0000_0000_0000_0000 <= len <= 0x1_0000_0000_0000_0000_0000_0000_0000,
    ensures
        r@ == background_text(w, h, len as int, fps),
{
    let mut bg = owned("color=c=black:s=");
    push_u64(&mut bg, w as u64);
    push_str(&mut bg, "x");
    push_u64(&mut bg, h as u64);
    push_str(&mut bg, ":d=");
    push_millis_wide(&mut bg, len);
    push_str(&mut bg, ":r=");
    push_short(&mut bg, fps, 3);
    push_str(&mut bg, "[bg0]");
    bg
}

fn push_motion(graph: &mut Vec<String>, f: &Option<MovementFormula>, w: u32, h: u32, pic: &str, len: i128)
    requires
        -0x1_0000_0000_0000_0000_0000_0000_0000 <= len <= 0x1_0000_0000_0000_0000_0000_0000_0000,
    ensures
        views(final(graph)@) == views(old(graph)@) + motion_part(formula_view(*f), w, h, pic@, len as int),
{
    let ghost g0 = views(graph@);
    match f {
        Some(g) => {
            let e = g.to_ffmpeg_exprs(w, h);
            let mut m = String::new();
            push_pad_str(&mut m, pic);
            push_pad_str(&mut m, pic);
            let ghost m0 = m@;
            push_str(&mut m, "overlay=x='");
            push_str(&mut m, e.x.as_str());
            push_str(&mut m, "':y='");
            push_str(&mut m, e.y.as_str());
            push_str(&mut m, "':enable='between(t,0,");
            push_millis_wide(&mut m, len);
            push_str(&mut m, ")':eval=frame:eof_action=pass");
            assert(m@ =~= m0 + motion_overlay_text(g@, w, h, len as int));
            push_str(&mut m, "[");
            push_str(&mut m, "motion_out");
            push_str(&mut m, "]");
            assert(m@ =~= pad(pic@) + pad(pic@) + motion_overlay_text(g@, w, h, len as int) + pad(
                "motion_out"@,
            ));
            push_filter(graph, m);
        },
        None => {},
    }
    assert(views(graph@) =~= g0 + motion_part(formula_view(*f), w, h, pic@, len as int));
}

fn push_pad_str(s: &mut String, name: &str)
    ensures
        final(s)@ == old(s)@ + pad(name@),
{
    push_str(s, "[");
    push_str(s, name);
    push_str(s, "]");
    assert(final(s)@ =~= old(s)@ + pad(name@));
}

fn push_map_args(args: &mut Vec<String>, pic: &str, moved: bool, has_audio: bool)
    ensures
        views(final(args)@) == views(old(args)@) + map_args(pic@, moved, has_audio),
{
    let ghost a0 = views(args@);
    push_arg_str(args, "-map");
    let mut fp = String::new();
    if moved {
        push_str(&mut fp, "[");
        push_str(&mut fp, "motion_out");
        push_str(&mut fp, "]");
    } else {
        push_pad_str(&mut fp, pic);
    }
    push_filter(args, fp);
    if has_audio {
        push_arg_str(args, "-map");
        push_arg_str(args, "[aout]");
    }
    assert(views(args@) =~= a0 + map_args(pic@, moved, has_audio));
}

fn video_codec_of<'a>(job: &'a RenderJob, default_cfg: &'a VeditConfig) -> (r: &'a str)
    requires
        default_cfg.preferred_encoder == PreferredEncoder::Libx264,
    ensures
        r@ == job_video_codec(job.video_format, job.config),
{
    match &job.video_format {
        Some(VideoFormat::Mkv) => "libx265",
        Some(VideoFormat::Mov) => "prores",
        _ => match &job.config {
            Some(c) => c.preferred_encoder.as_ffmpeg_codec(),
            None => default_cfg.preferred_encoder.as_ffmpeg_codec(),
        },
    }
}

fn push_device_args(args: &mut Vec<String>, cfg: &Option<VeditConfig>)
    ensures
        views(final(args)@) == views(old(args)@) + (if job_encoder(*cfg) is H264Vaapi {
            seq!["-vaapi_device"@, job_device(*cfg)]
        } else {
            Seq::empty()
        }),
{
    let ghost a0 = views(args@);
    match cfg {
        Some(c) => {
            if c.preferred_encoder.requires_hwaccel_filter() {
                push_arg_str(args, "-vaapi_device");
                push_filter(args, c.vaapi_device.clone());
            }
        },
        None => {},
    }
    assert(views(args@) =~= a0 + (if job_encoder(*cfg) is H264Vaapi {
        seq!["-vaapi_device"@, job_device(*cfg)]
    } else {
        Seq::empty()
    }));
}

fn push_region_start(args: &mut Vec<String>, region: &Option<RenderRegion>)
    ensures
        views(final(args)@) == views(old(args)@) + (match *region {
            Some(r) => if r.start_secs > 1 {
                seq!["-ss"@, millis_text(r.start_secs as int)]
            } else {
                Seq::empty()
            },
            None => Seq::empty(),
        }),
{
    let ghost a0 = views(args@);
    match region {
        Some(r) => {
            if r.start_secs > 1 {
                push_arg_str(args, "-ss");
                let mut ss = String::new();
                push_millis(&mut ss, r.start_secs);
                push_filter(args, ss);
            }
        },
        None => {},
    }
    assert(views(args@) =~= a0 + (match *region {
        Some(r) => if r.start_secs > 1 {
            seq!["-ss"@, millis_text(r.start_secs as int)]
        } else {
            Seq::empty()
        },
        None => Seq::empty(),
    }));
}

#[verifier::spinoff_prover]
fn push_codec_args(args: &mut Vec<String>, job: &RenderJob, total: i128)
    requires
        0 <= total < 0x1_0000_0000_0000_0000_0000_0000_0000,
    ensures
        views(final(args)@) == views(old(args)@) + seq![
            "-c:v"@,
            job_video_codec(job.video_format, job.config),
            "-c:a"@,
            job_audio_codec(job.audio_format),
            "-t"@,
            millis_text(output_length(job.region, total as int)),
        ],
{
    let ghost a0 = views(args@);
    let default_cfg = VeditConfig::default();
    let vcodec = video_codec_of(job, &default_cfg);
    let acodec: &str = match &job.audio_format {
        Some(f) => crate::render::audio_codec_for(f),
        None => "aac",
    };
    assert(acodec@ == job_audio_codec(job.audio_format));
    let out_len: i128 = match &job.region {
        Some(r) => r.duration_secs as i128,
        None => total,
    };
    assert(out_len == output_length(job.region, total as int));
    let mut t = String::new();
    push_millis_wide(&mut t, out_len);
    let ghost tail = seq!["-c:v"@, vcodec@, "-c:a"@, acodec@, "-t"@, t@];
    push_arg_str(args, "-c:v");
    push_arg_str(args, vcodec);
    push_arg_str(args, "-c:a");
    push_arg_str(args, acodec);
    push_arg_str(args, "-t");
    push_filter(args, t);
    assert(views(args@) =~= a0 + tail);
}

fn push_output_args(args: &mut Vec<String>, job: &RenderJob, total: i128) -> (out: String)
    requires
        0 <= total < 0x1_0000_0000_0000_0000_0000_0000_0000,
    ensures
        views(final(args)@) == views(old(args)@) + output_args(*job, total as int),
        out@ == (if job.is_live_preview { "-"@ } else { job.output_path@ }),
{
    let ghost a0 = views(args@);
    if job.is_live_preview {
        push_arg_str(args, "-f");
        push_arg_str(args, "nut");
        push_arg_str(args, "-c:v");
        push_arg_str(args, "rawvideo");
        push_arg_str(args, "-c:a");
        push_arg_str(args, "pcm_s16le");
        assert(views(args@) =~= a0 + output_args(*job, total as int));
        return owned("-");
    }
    push_device_args(args, &job.config);
    push_codec_args(args, job, total);
    push_region_start(args, &job.region);
    assert(views(args@) =~= a0 + output_args(*job, total as int));
    job.output_path.clone()
}

proof fn lemma_graph_of(
    motion: Option<FormulaView>,
    w: u32,
    h: u32,
    fps: i64,
    len: int,
    vs: Seq<VideoClipView>,
    is: Seq<ImageClipView>,
    ts: Seq<TextClipView>,
    temp: Seq<char>,
    aus: Seq<AudioClipView>,
    graph: Seq<Seq<char>>,
)
    requires
        graph == seq![background_text(w, h, len, fps)] + video_graph(vs, w, h, temp) + image_graph(
            is,
            vs.len() as int,
            w,
            h,
            fps,
        ) + text_graph(ts, temp, label("bg"@, (vs.len() + is.len()) as int), "txt_bg"@, 0)
            + audio_graph(aus, (vs.len() + is.len()) as int) + mix_part(
            (vs.len() + is.len()) as int,
            aus.len(),
        ) + motion_part(motion, w, h, drawn_picture((vs.len() + is.len()) as int, ts), len),
    ensures
        graph == graph_of(motion, w, h, fps, len, vs, is, ts, temp, aus),
{
    reveal(graph_of);
}

proof fn lemma_args_of(
    job: RenderJob,
    total: int,
    vs: Seq<VideoClipView>,
    is: Seq<ImageClipView>,
    ts: Seq<TextClipView>,
    aus: Seq<AudioClipView>,
    a1: Seq<Seq<char>>,
    a2: Seq<Seq<char>>,
    a3: Seq<Seq<char>>,
    args: Seq<Seq<char>>,
    n: int,
    moved: bool,
    has_audio: bool,
)
    requires
        a1 === head_args(job_threads(job.config)),
        a2 === a1 + video_inputs(vs) + image_inputs(is) + audio_inputs(aus),
        a3 === a2 + map_args(drawn_picture(n, ts), moved, has_audio),
        args === a3 + output_args(job, total),
        n == vs.len() + is.len(),
        moved == (job.motion_formula is Some),
        has_audio == (aus.len() > 0),
    ensures
        args === args_of(job, total, vs, is, ts, aus),
{
    reveal(args_of);
}

fn canvas_length_exec(region: &Option<RenderRegion>, total: i128) -> (r: i128)
    requires
        0 <= total < 0x1_0000_0000_0000_0000_0000_0000_0000,
    ensures
        r == canvas_length(*region, total as int),
        1 <= r < 0x1_0000_0000_0000_0000_0000_0000_0000 + 0x1_0000_0000_0000_0000,
{
    let d: i128 = match region {
        Some(r) => if (r.duration_secs as i128) < total - r.start_secs as i128 {
            r.duration_secs as i128
        } else {
            total - r.start_secs as i128
        },
        None => total,
    };
    if d > 1 {
        d
    } else {
        1
    }
}

/// The clips' inputs and filters, appended to the plain arguments and to the
/// filter list.
fn add_clips(
    args: &mut Vec<String>,
    graph: &mut Vec<String>,
    vs: &Vec<VideoClip>,
    is: &Vec<ImageClip>,
    ts: &Vec<TextClip>,
    temp: &str,
    aus: &Vec<AudioClip>,
    w: u32,
    h: u32,
    fps: i64,
)
    requires
        vs@.len() + is@.len() + aus@.len() < usize::MAX,
        ts@.len() < usize::MAX,
    ensures
        views(final(args)@) == views(old(args)@) + video_inputs(video_views(vs@)) + image_inputs(
            image_views(is@),
        ) + audio_inputs(audio_views(aus@)),
        views(final(graph)@) == views(old(graph)@) + video_graph(video_views(vs@), w, h, temp@) + image_graph(
            image_views(is@),
            vs@.len() as int,
            w,
            h,
            fps,
        ) + text_graph(
            text_views(ts@),
            temp@,
            label("bg"@, (vs@.len() + is@.len()) as int),
            "txt_bg"@,
            0,
        ) + audio_graph(audio_views(aus@), (vs@.len() + is@.len()) as int) + mix_part(
            (vs@.len() + is@.len()) as int,
            aus@.len(),
        ),
{
    let ghost a0 = views(args@);
    let ghost g0 = views(graph@);
    let nv = vs.len();
    let n = nv + is.len();
    add_videos(args, graph, vs, w, h, temp);
    add_images(args, graph, is, nv, w, h, fps);
    let mut first = String::new();
    push_label(&mut first, "bg", n);
    push_text_steps(graph, ts, temp, first.as_str(), "txt_bg", 0);
    add_audio(args, graph, aus, n);
    let ghost g1 = views(graph@);
    if aus.len() > 0 {
        push_filter(graph, amix_string(n, aus.len()));
    }
    assert(views(graph@) =~= g1 + mix_part(n as int, aus@.len()));
    assert(views(args@) =~= a0 + video_inputs(video_views(vs@)) + image_inputs(image_views(is@))
        + audio_inputs(audio_views(aus@)));
    assert(views(graph@) =~= g0 + video_graph(video_views(vs@), w, h, temp@) + image_graph(
        image_views(is@),
        vs@.len() as int,
        w,
        h,
        fps,
    ) + text_graph(text_views(ts@), temp@, label("bg"@, n as int), "txt_bg"@, 0) + audio_graph(
        audio_views(aus@),
        n as int,
    ) + mix_part(n as int, aus@.len()));
}

/// The FFmpeg command of a composition: see `composite_args` and `composite_graph`.
fn composite_command(job: &RenderJob, project: &Project) -> (r: FfmpegCommand)
    requires
        unmuted_videos(project@.tracks).len() + shown_images(by_layer(project@.tracks)).len()
            + unmuted_audio(project@.tracks).len() < usize::MAX,
        shown_texts(by_layer(project@.tracks), true).len() < usize::MAX,
    ensures
        r@ == (CommandView {
            args: composite_args(*job, project@),
            video_filters: Seq::empty(),
            audio_filters: Seq::empty(),
            complex_filters: seq![joined(composite_graph(*job, project@), ";"@)],
            output: Some(if job.is_live_preview { "-"@ } else { job.output_path@ }),
        }),
{
    let ghost p = project@;
    let w = project.metadata.width;
    let h = project.metadata.height;
    let total = project.duration_secs();
    let (vs, _unsorted, aus) = collect_clips(&project.tracks);
    let layered = tracks_by_layer(&project.tracks);
    let (_videos, is, _audio) = collect_clips(&layered);
    let ts = collect_texts(&layered, true);
    let temp = resolve_temp_dir(project);
    let n = vs.len() + is.len();
    let len = canvas_length_exec(&job.region, total);
    let mut args: Vec<String> = Vec::new();
    let mut graph: Vec<String> = Vec::new();
    assert(views(args@) =~= Seq::<Seq<char>>::empty());
    push_head_args(&mut args, &job.config);
    assert(views(args@) =~= head_args(job_threads(job.config)));
    push_filter(&mut graph, background_string(w, h, len, project.metadata.fps));
    let ghost a1 = views(args@);
    let ghost g1 = views(graph@);
    add_clips(&mut args, &mut graph, &vs, &is, &ts, temp.as_str(), &aus, w, h, project.metadata.fps);
    let mut pic = String::new();
    if ts.len() == 0 {
        push_label(&mut pic, "bg", n);
    } else {
        push_label(&mut pic, "txt_bg", ts.len() - 1);
    }
    assert(pic@ == drawn_picture(n as int, text_views(ts@)));
    push_motion(&mut graph, &job.motion_formula, w, h, pic.as_str(), len);
    let ghost a2 = views(args@);
    let moved = job.motion_formula.is_some();
    let has_audio = aus.len() > 0;
    push_map_args(&mut args, pic.as_str(), moved, has_audio);
    let ghost a3 = views(args@);
    let output = push_output_args(&mut args, job, total);
    let ghost gv = views(graph@);
    let ghost av = views(args@);
    assert(gv == composite_graph(*job, p)) by {
        assert(g1 =~= seq![background_text(w, h, len as int, p.metadata.fps)]);
        lemma_graph_of(
            formula_view(job.motion_formula),
            w,
            h,
            p.metadata.fps,
            len as int,
            video_views(vs@),
            image_views(is@),
            text_views(ts@),
            temp@,
            audio_views(aus@),
            gv,
        );
    }
    proof {
        lemma_args_of(
            *job,
            total as int,
            video_views(vs@),
            image_views(is@),
            text_views(ts@),
            audio_views(aus@),
            a1,
            a2,
            a3,
            av,
            n as int,
            moved,
            has_audio,
        );
    }
    assemble(args, &graph, output)
}

fn assemble(args: Vec<String>, graph: &Vec<String>, output: String) -> (r: FfmpegCommand)
    ensures
        r@ == (CommandView {
            args: views(args@),
            video_filters: Seq::empty(),
            audio_filters: Seq::empty(),
            complex_filters: seq![joined(views(graph@), ";"@)],
            output: Some(output@),
        }),
{
    let mut complex: Vec<String> = Vec::new();
    push_filter(&mut complex, join(graph, ";"));
    assert(views(complex@) =~= seq![joined(views(graph@), ";"@)]);
    let r = FfmpegCommand::from_parts(args, complex, Some(output));
    assert(r@.video_filters =~= Seq::<Seq<char>>::empty());
    assert(r@.audio_filters =~= Seq::<Seq<char>>::empty());
    r
}

/// Plans the render of `project` for `job`: the FFmpeg command that lays out
/// all clips (see `composite_graph` and `composite_args`), whether it feeds a
/// live player, the output length for progress, and the cache directory with
/// whether to clean it afterwards.
pub fn composite(job: &RenderJob, project: &Project) -> (r: CompositePlan)
    requires
        unmuted_videos(project@.tracks).len() + shown_images(by_layer(project@.tracks)).len()
            + unmuted_audio(project@.tracks).len() < usize::MAX,
        shown_texts(by_layer(project@.tracks), true).len() < usize::MAX,
    ensures
        r.command@ == (CommandView {
            args: composite_args(*job, project@),
            video_filters: Seq::empty(),
            audio_filters: Seq::empty(),
            complex_filters: seq![joined(composite_graph(*job, project@), ";"@)],
            output: Some(if job.is_live_preview { "-"@ } else { job.output_path@ }),
        }),
        r.live_preview == job.is_live_preview,
        r.progress_duration == output_length(job.region, longest_track(project@.tracks)),
        r.temp_dir@ == temp_dir_of(project@.path),
        r.cleanup_temp == job_cleanup(job.config),
        r.project_duration == longest_track(project@.tracks),
{
    let total = project.duration_secs();
    let out_len: i128 = match &job.region {
        Some(r) => r.duration_secs as i128,
        None => total,
    };
    let cleanup: bool = match &job.config {
        Some(c) => c.cleanup_cache_on_exit,
        None => false,
    };
    CompositePlan {
        command: composite_command(job, project),
        live_preview: job.is_live_preview,
        progress_duration: out_len,
        temp_dir: resolve_temp_dir(project),
        cleanup_temp: cleanup,
        project_duration: total,
    }
}

} // verus!
