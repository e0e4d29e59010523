//! Video-only renders and single-frame exports.
use vstd::prelude::*;
use crate::ffmpeg::command::{CommandView, FfmpegCommand};
use crate::numfmt::div_round;
use crate::project::clip::{VideoClip, VideoClipView};
use crate::project::track::video_views;
use crate::project::{longest_track, Project};
use crate::render::compositor::{
    between_text, collect_clips, label, pad, push_between, push_pad_label, push_stream,
    setpts_filter, setpts_text, stream, unmuted_videos, video_chain, video_inputs,
};
use crate::render::filters::{build_video_clip_filters, placed, placed_exec, push_filter};
use crate::render::VideoFormat;
use crate::textutil::{
    decimal, join, joined, millis_text, owned, push_i64, push_millis, push_millis_wide, push_str,
    push_u64, signed_decimal, views,
};

verus! {

/// The FFmpeg video codec for a container: `libx264` for MP4, `libx265` for
/// MKV, `prores` for MOV.
pub open spec fn video_codec(f: VideoFormat) -> Seq<char> {
    match f {
        VideoFormat::Mp4 => "libx264"@,
        VideoFormat::Mkv => "libx265"@,
        VideoFormat::Mov => "prores"@,
    }
}

/// The FFmpeg video codec for a container.
pub fn video_codec_for(format: &VideoFormat) -> (r: &'static str)
    ensures
        r@ == video_codec(*format),
{
    match format {
        VideoFormat::Mp4 => "libx264",
        VideoFormat::Mkv => "libx265",
        VideoFormat::Mov => "prores",
    }
}

/// Why a video render or a frame export cannot start.
#[derive(Debug, Clone, Copy, PartialEq, Eq, Structural)]
pub enum RenderError {
    /// No unmuted track has a video clip.
    NoVideoClips,
    /// No video clip covers the instant (ms).
    NoClipAt(i64),
    /// The project has no length to render.
    EmptyProject,
}

impl RenderError {
    /// The message shown to the user.
    pub open spec fn text(self) -> Seq<char> {
        match self {
            RenderError::NoVideoClips => "No hay clips de video para renderizar"@,
            RenderError::NoClipAt(t) => "No hay clip de video en el instante "@ + millis_text(t as int)
                + "s"@,
            RenderError::EmptyProject => "El proyecto está vacío"@,
        }
    }

    /// The message shown to the user.
    pub fn message(&self) -> (r: String)
        ensures
            r@ == self.text(),
    {
        match self {
            RenderError::NoVideoClips => owned("No hay clips de video para renderizar"),
            RenderError::NoClipAt(t) => {
                let mut m = owned("No hay clip de video en el instante ");
                push_millis(&mut m, *t);
                push_str(&mut m, "s");
                m
            },
            RenderError::EmptyProject => owned("El proyecto está vacío"),
        }
    }
}

/// The overlay of video `k` on `bg<k>` giving `bg<k+1>`, shown only while the
/// clip plays.
pub open spec fn plain_overlay(k: int, c: VideoClipView, w: u32, h: u32) -> Seq<char> {
    pad(label("bg"@, k)) + pad(label("v"@, k)) + "overlay="@ + signed_decimal(placed(w, c.position.x))
        + ":"@ + signed_decimal(placed(h, c.position.y)) + ":"@ + between_text(
        c.timeline_start as int,
        c.timeline_end(),
    ) + pad(label("bg"@, k + 1))
}

/// The chains and overlays of a video-only render.
pub open spec fn plain_graph(vs: Seq<VideoClipView>, w: u32, h: u32) -> Seq<Seq<char>>
    decreases vs.len(),
{
    if vs.len() == 0 {
        Seq::empty()
    } else {
        let k = vs.len() - 1;
        plain_graph(vs.drop_last(), w, h) + seq![
            video_chain(k, vs.last(), w, h),
            plain_overlay(k, vs.last(), w, h),
        ]
    }
}

/// The filters of a video-only render of a project of length `total` ms.
pub open spec fn video_render_graph(vs: Seq<VideoClipView>, w: u32, h: u32, total: int) -> Seq<
    Seq<char>,
> {
    seq![
        "color=c=black:s="@ + decimal(w as nat) + "x"@ + decimal(h as nat) + ":d="@ + millis_text(total)
            + "[bg0]"@,
    ] + plain_graph(vs, w, h)
}

/// The plain arguments of a video-only render.
pub open spec fn video_render_args(vs: Seq<VideoClipView>, f: VideoFormat) -> Seq<Seq<char>> {
    seq!["-hide_banner"@, "-threads"@, "0"@, "-y"@] + video_inputs(vs) + seq![
        "-map"@,
        pad(label("bg"@, vs.len() as int)),
        "-an"@,
        "-c:v"@,
        video_codec(f),
    ]
}

fn push_arg(args: &mut Vec<String>, a: &str)
    ensures
        views(final(args)@) == views(old(args)@).push(a@),
{
    push_filter(args, owned(a));
}

fn chain_string(k: usize, c: &VideoClip, w: u32, h: u32) -> (r: String)
    ensures
        r@ == video_chain(k as int, c@, w, h),
{
    let mut vf = build_video_clip_filters(c, w, h);
    push_filter(&mut vf, setpts_filter(c.timeline_start));
    let mut chain = String::new();
    push_stream(&mut chain, k, "v");
    push_str(&mut chain, join(&vf, ",").as_str());
    push_pad_label(&mut chain, "v", k);
    assert(chain@ =~= video_chain(k as int, c@, w, h));
    chain
}

fn overlay_string(k: usize, c: &VideoClip, w: u32, h: u32) -> (r: String)
    requires
        k < usize::MAX,
    ensures
        r@ == plain_overlay(k as int, c@, w, h),
{
    let mut ov = String::new();
    push_pad_label(&mut ov, "bg", k);
    push_pad_label(&mut ov, "v", k);
    push_str(&mut ov, "overlay=");
    push_i64(&mut ov, placed_exec(w, c.position.x));
    push_str(&mut ov, ":");
    push_i64(&mut ov, placed_exec(h, c.position.y));
    push_str(&mut ov, ":");
    push_between(&mut ov, c.timeline_start as i128, c.timeline_start as i128 + c.duration());
    push_pad_label(&mut ov, "bg", k + 1);
    assert(ov@ =~= plain_overlay(k as int, c@, w, h));
    ov
}

fn add_plain_videos(args: &mut Vec<String>, graph: &mut Vec<String>, vs: &Vec<VideoClip>, w: u32, h: u32)
    requires
        vs@.len() < usize::MAX,
    ensures
        views(final(args)@) == views(old(args)@) + video_inputs(video_views(vs@)),
        views(final(graph)@) == views(old(graph)@) + plain_graph(video_views(vs@), w, h),
{
    let ghost cs = video_views(vs@);
    let ghost a0 = views(args@);
    let ghost g0 = views(graph@);
    let mut i: usize = 0;
    assert(cs.take(0) =~= Seq::<VideoClipView>::empty());
    while i < vs.len()
        invariant
            0 <= i <= vs@.len(),
            vs@.len() < usize::MAX,
            cs == video_views(vs@),
            views(args@) == a0 + video_inputs(cs.take(i as int)),
            views(graph@) == g0 + plain_graph(cs.take(i as int), w, h),
        decreases vs.len() - i,
    {
        let c = &vs[i];
        proof {
            assert(cs[i as int] == c@);
            assert(cs.take(i + 1).drop_last() =~= cs.take(i as int));
            assert(cs.take(i + 1).last() == c@);
        }
        let ghost ia = views(args@);
        push_arg(args, "-i");
        push_filter(args, c.source_path.clone());
        push_arg(args, "-ss");
        let mut ss = String::new();
        push_millis(&mut ss, c.source_start);
        push_filter(args, ss);
        match c.source_end {
            Some(e) => {
                push_arg(args, "-t");
                let mut t = String::new();
                push_millis_wide(&mut t, e as i128 - c.source_start as i128);
                push_filter(args, t);
            },
            None => {},
        }
        push_filter(graph, chain_string(i, c, w, h));
        push_filter(graph, overlay_string(i, c, w, h));
        proof {
            assert(views(args@) =~= a0 + video_inputs(cs.take(i + 1)));
            assert(views(graph@) =~= g0 + plain_graph(cs.take(i + 1), w, h));
        }
        i = i + 1;
    }
    assert(cs.take(vs@.len() as int) =~= cs);
}

/// The FFmpeg command that renders the video of `project` alone (no audio) on
/// a `width` by `height` frame into `output`; refused when no unmuted track
/// has a video clip.
pub fn render_video(
    project: &Project,
    output: &str,
    format: &VideoFormat,
    width: u32,
    height: u32,
) -> (r: Result<FfmpegCommand, RenderError>)
    requires
        unmuted_videos(project@.tracks).len() < usize::MAX,
    ensures
        unmuted_videos(project@.tracks).len() == 0 ==> r == Err::<FfmpegCommand, RenderError>(
            RenderError::NoVideoClips,
        ),
        unmuted_videos(project@.tracks).len() > 0 ==> (r matches Ok(cmd) && cmd@ == (CommandView {
            args: video_render_args(unmuted_videos(project@.tracks), *format),
            video_filters: Seq::empty(),
            audio_filters: Seq::empty(),
            complex_filters: seq![
                joined(
                    video_render_graph(
                        unmuted_videos(project@.tracks),
                        width,
                        height,
                        longest_track(project@.tracks),
                    ),
                    ";"@,
                ),
            ],
            output: Some(output@),
        })),
{
    let total = project.duration_secs();
    let (vs, _is, _aus) = collect_clips(&project.tracks);
    if vs.len() == 0 {
        return Err(RenderError::NoVideoClips);
    }
    let mut args: Vec<String> = Vec::new();
    let mut graph: Vec<String> = Vec::new();
    assert(views(args@) =~= Seq::<Seq<char>>::empty());
    assert(views(graph@) =~= Seq::<Seq<char>>::empty());
    push_arg(&mut args, "-hide_banner");
    push_arg(&mut args, "-threads");
    push_arg(&mut args, "0");
    push_arg(&mut args, "-y");
    let ghost a1 = views(args@);
    let mut bg = owned("color=c=black:s=");
    push_u64(&mut bg, width as u64);
    push_str(&mut bg, "x");
    push_u64(&mut bg, height as u64);
    push_str(&mut bg, ":d=");
    push_millis_wide(&mut bg, total);
    push_str(&mut bg, "[bg0]");
    push_filter(&mut graph, bg);
    let ghost g1 = views(graph@);
    add_plain_videos(&mut args, &mut graph, &vs, width, height);
    let ghost a2 = views(args@);
    push_arg(&mut args, "-map");
    let mut m = String::new();
    push_pad_label(&mut m, "bg", vs.len());
    push_filter(&mut args, m);
    push_arg(&mut args, "-an");
    push_arg(&mut args, "-c:v");
    push_arg(&mut args, video_codec_for(format));
    proof {
        let cs = video_views(vs@);
        assert(cs.len() == vs@.len());
        assert(a1 =~= seq!["-hide_banner"@, "-threads"@, "0"@, "-y"@]);
        assert(views(args@) =~= a2 + seq![
            "-map"@,
            pad(label("bg"@, vs.len() as int)),
            "-an"@,
            "-c:v"@,
            video_codec(*format),
        ]);
        assert(views(args@) =~= video_render_args(cs, *format));
        assert(views(graph@) =~= video_render_graph(cs, width, height, total as int));
    }
    let mut complex: Vec<String> = Vec::new();
    push_filter(&mut complex, join(&graph, ";"));
    assert(views(complex@) =~= seq![joined(views(graph@), ";"@)]);
    let cmd = FfmpegCommand::from_parts(args, complex, Some(owned(output)));
    assert(cmd@.video_filters =~= Seq::<Seq<char>>::empty());
    assert(cmd@.audio_filters =~= Seq::<Seq<char>>::empty());
    Ok(cmd)
}

// ─── Frame export ───────────────────────────────────────────────────────────

/// The first of the clips `vs` that covers the instant `at` (ms): it starts
/// at or before `at` and ends after it.
pub open spec fn clip_at(vs: Seq<VideoClipView>, at: i64) -> Option<int>
    decreases vs.len(),
{
    if vs.len() == 0 {
        None
    } else {
        match clip_at(vs.drop_last(), at) {
            Some(i) => Some(i),
            None => if vs.last().timeline_start <= at && at < vs.last().timeline_end() {
                Some(vs.len() - 1)
            } else {
                None
            },
        }
    }
}

/// Where to seek in the source of `c` to show the instant `at` (ms): its
/// source start plus the offset into the clip times its speed, rounded to the
/// millisecond.
pub open spec fn seek_in(c: VideoClipView, at: i64) -> int {
    c.source_start + div_round((at - c.timeline_start) * c.speed, 1000)
}

/// The arguments of a frame export of clip `c` at `at`.
pub open spec fn frame_args(c: VideoClipView, at: i64) -> Seq<Seq<char>> {
    seq![
        "-hide_banner"@,
        "-threads"@,
        "0"@,
        "-y"@,
        "-ss"@,
        millis_text(seek_in(c, at)),
        "-i"@,
        c.source_path,
        "-vframes"@,
        "1"@,
    ]
}

proof fn lemma_clip_at(vs: Seq<VideoClipView>, at: i64, i: int)
    requires
        0 <= i < vs.len(),
        vs[i].timeline_start <= at && at < vs[i].timeline_end(),
        forall|j: int|
            0 <= j < i ==> !(vs[j].timeline_start <= at && at < #[trigger] vs[j].timeline_end()),
    ensures
        clip_at(vs, at) == Some(i),
    decreases vs.len(),
{
    if i < vs.len() - 1 {
        assert forall|j: int| 0 <= j < i implies !(vs.drop_last()[j].timeline_start <= at && at
            < #[trigger] vs.drop_last()[j].timeline_end()) by {
            assert(vs.drop_last()[j] == vs[j]);
        }
        lemma_clip_at(vs.drop_last(), at, i);
    } else {
        lemma_clip_at_none(vs.drop_last(), at);
    }
}

proof fn lemma_clip_at_none(vs: Seq<VideoClipView>, at: i64)
    requires
        forall|j: int|
            0 <= j < vs.len() ==> !(vs[j].timeline_start <= at && at < #[trigger] vs[j].timeline_end()),
    ensures
        clip_at(vs, at) is None,
    decreases vs.len(),
{
    if vs.len() > 0 {
        assert forall|j: int| 0 <= j < vs.len() - 1 implies !(vs.drop_last()[j].timeline_start <= at
            && at < #[trigger] vs.drop_last()[j].timeline_end()) by {
            assert(vs.drop_last()[j] == vs[j]);
        }
        lemma_clip_at_none(vs.drop_last(), at);
    }
}

fn round_thousandth(p: i128) -> (r: i128)
    requires
        -0x7fff_ffff_ffff_ffff_8000_0000_0000_0000 <= p <= 0x7fff_ffff_ffff_ffff_8000_0000_0000_0000,
    ensures
        r == div_round(p as int, 1000),
        -0x0100_0000_0000_0000_0000_0000_0000_0000 <= r <= 0x0100_0000_0000_0000_0000_0000_0000_0000,
{
    if p >= 0 {
        let q = (p + 500) / 1000;
        assert(q == (2 * p + 1000) / 2000 && 0 <= q <= p / 1000 + 1) by (nonlinear_arith)
            requires
                p >= 0,
                q == (p + 500) / 1000,
        ;
        q
    } else {
        let m: i128 = 0 - p;
        let q = (m + 500) / 1000;
        assert(q == (2 * m + 1000) / 2000 && 0 <= q <= m / 1000 + 1) by (nonlinear_arith)
            requires
                m >= 0,
                q == (m + 500) / 1000,
        ;
        0 - q
    }
}

fn seek_exec(c: &VideoClip, at: i64) -> (r: i128)
    ensures
        r == seek_in(c@, at),
        -0x1000_0000_0000_0000_0000_0000_0000_0000 <= r <= 0x1000_0000_0000_0000_0000_0000_0000_0000,
{
    let off: i128 = at as i128 - c.timeline_start as i128;
    let sp: i128 = c.speed as i128;
    assert(-0x7fff_ffff_ffff_ffff_8000_0000_0000_0000 <= off * sp <= 0x7fff_ffff_ffff_ffff_8000_0000_0000_0000)
        by (nonlinear_arith)
        requires
            -0xffff_ffff_ffff_ffff <= off <= 0xffff_ffff_ffff_ffff,
            -0x8000_0000_0000_0000 <= sp <= 0x7fff_ffff_ffff_ffff,
    ;
    let p: i128 = off * sp;
    c.source_start as i128 + round_thousandth(p)
}

/// The FFmpeg command that writes the frame of `project` shown at `at_secs`
/// (ms) into `output`: a seek into the first unmuted video clip that covers
/// that instant and one frame of it; refused when no clip covers it.
pub fn export_frame(project: &Project, output: &str, at_secs: i64) -> (r: Result<
    FfmpegCommand,
    RenderError,
>)
    ensures
        match clip_at(unmuted_videos(project@.tracks), at_secs) {
            None => r == Err::<FfmpegCommand, RenderError>(RenderError::NoClipAt(at_secs)),
            Some(i) => r matches Ok(cmd) && cmd@ == (CommandView {
                args: frame_args(unmuted_videos(project@.tracks)[i], at_secs),
                video_filters: Seq::empty(),
                audio_filters: Seq::empty(),
                complex_filters: Seq::empty(),
                output: Some(output@),
            }),
        },
{
    let (vs, _is, _aus) = collect_clips(&project.tracks);
    let ghost cs = video_views(vs@);
    let mut i: usize = 0;
    while i < vs.len()
        invariant
            0 <= i <= vs@.len(),
            cs == video_views(vs@),
            cs == unmuted_videos(project@.tracks),
            forall|j: int|
                0 <= j < i ==> !(cs[j].timeline_start <= at_secs && at_secs
                    < #[trigger] cs[j].timeline_end()),
        decreases vs.len() - i,
    {
        let c = &vs[i];
        assert(cs[i as int] == c@);
        let end: i128 = c.timeline_start as i128 + c.duration();
        if c.timeline_start <= at_secs && (at_secs as i128) < end {
            proof {
                lemma_clip_at(cs, at_secs, i as int);
            }
            let mut args: Vec<String> = Vec::new();
            push_arg(&mut args, "-hide_banner");
            push_arg(&mut args, "-threads");
            push_arg(&mut args, "0");
            push_arg(&mut args, "-y");
            push_arg(&mut args, "-ss");
            let mut s = String::new();
            push_millis_wide(&mut s, seek_exec(c, at_secs));
            push_filter(&mut args, s);
            push_arg(&mut args, "-i");
            push_filter(&mut args, c.source_path.clone());
            push_arg(&mut args, "-vframes");
            push_arg(&mut args, "1");
            assert(views(args@) =~= frame_args(c@, at_secs));
            let cmd = FfmpegCommand::from_parts(args, Vec::new(), Some(owned(output)));
            assert(cmd@.video_filters =~= Seq::<Seq<char>>::empty());
            assert(cmd@.audio_filters =~= Seq::<Seq<char>>::empty());
            assert(cmd@.complex_filters =~= Seq::<Seq<char>>::empty());
            return Ok(cmd);
        }
        i = i + 1;
    }
    proof {
        lemma_clip_at_none(cs, at_secs);
    }
    Err(RenderError::NoClipAt(at_secs))
}

} // verus!
