//! FFmpeg filter text for clips: the per-clip video chain, the image chain
//! and the audio chain, with the placement of overlays.
//!
//! Frame fractions (positions, scales) are ten-thousandths; times are
//! milliseconds, written as seconds with three decimals.
use vstd::prelude::*;
use crate::numfmt::{
    div_round, div_round_exec, fixed_text, push_fixed, push_fixed_wide, push_short, short_text,
};
use crate::project::clip::{
    AudioClipView, ColorCorrection, ColorView, EntryAnimation, FadeEffect, ImageClip,
    ImageClipView, KenBurnsEffect, TransitionKind, VideoClip, VideoClipView, VideoCrop,
    VideoTransition,
    VisualEffects,
};
use crate::ffmpeg::escape_filter_arg;
use crate::render::text::ends_with;
use crate::textutil::{
    decimal, millis_text, owned, push_i128, push_i64, push_millis, push_millis_wide, push_str, push_u64,
    quote_escaped, signed_decimal, views,
};

verus! {

/// Appends a string to a list of filters.
pub fn push_filter(v: &mut Vec<String>, s: String)
    ensures
        views(final(v)@) == views(old(v)@).push(s@),
{
    let ghost s0 = views(v@);
    v.push(s);
    assert(views(v@) =~= s0.push(s@));
}

/// `round(n * frac / 10000)` saturated to the range of `u32`, as a float cast
/// to `u32` saturates.
pub open spec fn scaled(n: u32, frac: i64) -> int {
    let v = div_round(n * frac, 10000);
    if v < 0 {
        0
    } else if v > u32::MAX {
        u32::MAX as int
    } else {
        v
    }
}

/// `round(n * frac / 10000)` saturated to the range of `i64`.
pub open spec fn placed(n: u32, frac: i64) -> int {
    let v = div_round(n * frac, 10000);
    if v < i64::MIN {
        i64::MIN as int
    } else if v > i64::MAX {
        i64::MAX as int
    } else {
        v
    }
}

pub fn scaled_exec(n: u32, frac: i64) -> (r: u32)
    ensures
        r == scaled(n, frac),
{
    assert(-0x8000_0000_0000_0000_0000_0000 <= n * frac <= 0x8000_0000_0000_0000_0000_0000) by (nonlinear_arith)
        requires
            0 <= n <= 0xffff_ffff,
            -0x8000_0000_0000_0000 <= frac <= 0x7fff_ffff_ffff_ffff,
    ;
    let p: i128 = n as i128 * frac as i128;
    let v: i128 = if p >= 0 {
        (2 * p + 10000) / 20000
    } else {
        0 - ((2 * (0 - p) + 10000) / 20000)
    };
    if v < 0 {
        0
    } else if v > 0xffff_ffff {
        0xffff_ffff
    } else {
        v as u32
    }
}

pub fn placed_exec(n: u32, frac: i64) -> (r: i64)
    ensures
        r == placed(n, frac),
{
    assert(-0x8000_0000_0000_0000_0000_0000 <= n * frac <= 0x8000_0000_0000_0000_0000_0000) by (nonlinear_arith)
        requires
            0 <= n <= 0xffff_ffff,
            -0x8000_0000_0000_0000 <= frac <= 0x7fff_ffff_ffff_ffff,
    ;
    let p: i128 = n as i128 * frac as i128;
    let v: i128 = if p >= 0 {
        (2 * p + 10000) / 20000
    } else {
        0 - ((2 * (0 - p) + 10000) / 20000)
    };
    if v < -0x8000_0000_0000_0000 {
        -0x8000_0000_0000_0000i64
    } else if v > 0x7fff_ffff_ffff_ffff {
        0x7fff_ffff_ffff_ffff
    } else {
        v as i64
    }
}

/// Whether a speed (thousandths) differs from normal speed by more than 0.001.
pub open spec fn speed_differs(speed: i64) -> bool {
    speed - 1000 > 1 || 1000 - speed > 1
}

/// `1 / speed` with six decimals; `inf` for a zero speed.
pub open spec fn inverse_text(speed: i64) -> Seq<char> {
    if speed == 0 {
        "inf"@
    } else if speed > 0 {
        fixed_text(div_round(1_000_000_000, speed as int), 6)
    } else {
        fixed_text(-div_round(1_000_000_000, -speed), 6)
    }
}

/// The crop filter that removes the given edges.
pub open spec fn crop_text(c: VideoCrop) -> Seq<char> {
    "crop=iw-"@ + decimal(c.left as nat) + "-"@ + decimal(c.right as nat) + ":ih-"@ + decimal(
        c.top as nat,
    ) + "-"@ + decimal(c.bottom as nat) + ":"@ + decimal(c.left as nat) + ":"@ + decimal(
        c.top as nat,
    )
}

/// `scale=W:H`.
pub open spec fn scale_text(w: int, h: int) -> Seq<char> {
    "scale="@ + decimal(w as nat) + ":"@ + decimal(h as nat)
}

/// Where a fade out or an end transition of length `d` starts in a clip of
/// length `len`: `len - d`, and at least 0.
pub open spec fn tail_start(len: int, d: i64) -> int {
    if len - d > 0 {
        len - d
    } else {
        0
    }
}

/// The fade filters of a clip of length `len`; `suffix` ends each of them.
pub open spec fn fade_filters(
    fade_in: Option<FadeEffect>,
    fade_out: Option<FadeEffect>,
    len: int,
    suffix: Seq<char>,
) -> Seq<Seq<char>> {
    (match fade_in {
        Some(f) => seq!["fade=t=in:st=0:d="@ + millis_text(f.duration_secs as int) + suffix],
        None => Seq::empty(),
    }) + (match fade_out {
        Some(f) => seq![
            "fade=t=out:st="@ + millis_text(tail_start(len, f.duration_secs)) + ":d="@ + millis_text(
                f.duration_secs as int,
            ) + suffix,
        ],
        None => Seq::empty(),
    })
}

/// The filter of the transition at the end of a clip of length `len`.
pub open spec fn transition_filters(t: Option<VideoTransition>, len: int) -> Seq<Seq<char>> {
    match t {
        None => Seq::empty(),
        Some(tr) => {
            let st = millis_text(tail_start(len, tr.duration_secs));
            let d = millis_text(tr.duration_secs as int);
            match tr.kind {
                TransitionKind::Cut => Seq::empty(),
                TransitionKind::FadeToBlack => seq![
                    "fade=t=out:st="@ + st + ":d="@ + d + ":color=black"@,
                ],
                TransitionKind::FadeToWhite => seq![
                    "fade=t=out:st="@ + st + ":d="@ + d + ":color=white"@,
                ],
                TransitionKind::CrossDissolve => seq![
                    "format=rgba,fade=t=out:st="@ + st + ":d="@ + d + ":alpha=1"@,
                ],
                TransitionKind::WipeHorizontal => seq![
                    "crop=iw*max(0\\,1-(t-"@ + st + ")/"@ + d + "):ih:0:0"@,
                ],
                TransitionKind::WipeVertical => seq![
                    "crop=iw:ih*max(0\\,1-(t-"@ + st + ")/"@ + d + "):0:0"@,
                ],
            }
        },
    }
}

/// The rotation of a clip turned by `r` thousandths of a degree, when it is
/// turned at all: the angle written as degrees times `PI/180`.
pub open spec fn rotation_filters(r: i64) -> Seq<Seq<char>> {
    if r != 0 {
        seq!["rotate="@ + fixed_text(r as int, 3) + "*PI/180:fillcolor=none"@]
    } else {
        Seq::empty()
    }
}

/// How many frames a clip of `d` milliseconds spans at `fps` thousandths of a
/// frame per second, rounded and kept within `u64`.
pub open spec fn frame_count(d: i64, fps: i64) -> int {
    let v = div_round(d * fps, 1_000_000);
    if v < 0 {
        0
    } else if v > u64::MAX {
        u64::MAX as int
    } else {
        v
    }
}

/// The whole frames per second of a rate in thousandths, kept within `u32`.
pub open spec fn whole_fps(fps: i64) -> int {
    if fps < 0 {
        0
    } else if fps / 1000 > u32::MAX {
        u32::MAX as int
    } else {
        fps / 1000
    }
}

/// One axis of a pan over `m` steps on a side of `size` pixels: the start
/// offset in whole pixels, then the distance (four decimals) per step.
pub open spec fn pan_text(from: i64, to: i64, size: u32, m: int) -> Seq<char> {
    "'"@ + signed_decimal(div_round(from * size, 10000)) + "+"@ + fixed_text((to - from) * size, 4)
        + "*on/"@ + decimal(m as nat) + "'"@
}

/// The `zoompan` filter of a slow zoom and pan on a `w` by `h` picture shown
/// for `d` milliseconds at `fps` thousandths of a frame per second: the zoom
/// grows by an equal step (six decimals) each frame up to its end value.
pub open spec fn ken_burns_text(kb: KenBurnsEffect, w: u32, h: u32, d: i64, fps: i64) -> Seq<char> {
    let n = frame_count(d, fps);
    let m = if n < 1 {
        1
    } else {
        n
    };
    "zoompan=z='min(zoom+"@ + fixed_text(div_round((kb.zoom_end - kb.zoom_start) * 100, m), 6) + ","@
        + fixed_text(kb.zoom_end as int, 4) + ")':x="@ + pan_text(kb.pan_x_start, kb.pan_x_end, w, m)
        + ":y="@ + pan_text(kb.pan_y_start, kb.pan_y_end, h, m) + ":d="@ + decimal(n as nat) + ":s="@
        + decimal(w as nat) + "x"@ + decimal(h as nat) + ":fps="@ + decimal(whole_fps(fps) as nat)
}

fn frame_count_exec(d: i64, fps: i64) -> (r: u64)
    ensures
        r == frame_count(d, fps),
{
    assert(-0x4000_0000_0000_0000_0000_0000_0000_0000 <= d * fps <= 0x4000_0000_0000_0000_0000_0000_0000_0000) by (nonlinear_arith)
        requires
            -0x8000_0000_0000_0000 <= d <= 0x7fff_ffff_ffff_ffff,
            -0x8000_0000_0000_0000 <= fps <= 0x7fff_ffff_ffff_ffff,
    ;
    let p: i128 = d as i128 * fps as i128;
    let v = div_round_exec(p, 1_000_000);
    if v < 0 {
        0
    } else if v > 0xffff_ffff_ffff_ffff {
        0xffff_ffff_ffff_ffff
    } else {
        v as u64
    }
}

fn whole_fps_exec(fps: i64) -> (r: u32)
    ensures
        r == whole_fps(fps),
{
    if fps < 0 {
        0
    } else if fps / 1000 > 0xffff_ffff {
        0xffff_ffff
    } else {
        (fps / 1000) as u32
    }
}

fn push_pan(s: &mut String, from: i64, to: i64, size: u32, m: u64)
    ensures
        final(s)@ == old(s)@ + pan_text(from, to, size, m as int),
{
    let ghost s0 = s@;
    assert(-0x8000_0000_0000_0000_0000_0000 <= from * size <= 0x8000_0000_0000_0000_0000_0000) by (nonlinear_arith)
        requires
            -0x8000_0000_0000_0000 <= from <= 0x7fff_ffff_ffff_ffff,
            0 <= size <= 0xffff_ffff,
    ;
    assert(-0x4_0000_0000_0000_0000_0000_0000 <= (to - from) * size <= 0x4_0000_0000_0000_0000_0000_0000) by (nonlinear_arith)
        requires
            -0x1_0000_0000_0000_0000 <= to - from <= 0x1_0000_0000_0000_0000,
            0 <= size <= 0xffff_ffff,
    ;
    push_str(s, "'");
    let start = div_round_exec(from as i128 * size as i128, 10000);
    push_i128(s, start);
    push_str(s, "+");
    push_fixed_wide(s, (to as i128 - from as i128) * size as i128, 4);
    push_str(s, "*on/");
    push_u64(s, m);
    push_str(s, "'");
    assert(s@ =~= s0 + pan_text(from, to, size, m as int));
}

/// The `zoompan` filter of `ken_burns_text`.
pub fn build_ken_burns_filter(kb: &KenBurnsEffect, w: u32, h: u32, duration: i64, fps: i64) -> (r: String)
    ensures
        r@ == ken_burns_text(*kb, w, h, duration, fps),
{
    let n = frame_count_exec(duration, fps);
    let m: u64 = if n < 1 {
        1
    } else {
        n
    };
    let mut s = owned("zoompan=z='min(zoom+");
    let step = div_round_exec((kb.zoom_end as i128 - kb.zoom_start as i128) * 100, m);
    push_fixed_wide(&mut s, step, 6);
    push_str(&mut s, ",");
    push_fixed(&mut s, kb.zoom_end, 4);
    push_str(&mut s, ")':x=");
    push_pan(&mut s, kb.pan_x_start, kb.pan_x_end, w, m);
    push_str(&mut s, ":y=");
    push_pan(&mut s, kb.pan_y_start, kb.pan_y_end, h, m);
    push_str(&mut s, ":d=");
    push_u64(&mut s, n);
    push_str(&mut s, ":s=");
    push_u64(&mut s, w as u64);
    push_str(&mut s, "x");
    push_u64(&mut s, h as u64);
    push_str(&mut s, ":fps=");
    push_u64(&mut s, whole_fps_exec(fps) as u64);
    assert(s@ =~= ken_burns_text(*kb, w, h, duration, fps));
    s
}

/// The hue shift for a white balance of `t` kelvin, in ten-thousandths:
/// `(t - 6500) / 6500 * 0.3`, rounded (halves away from 0).
pub open spec fn tint(t: i64) -> int {
    div_round((t - 6500) * 3000, 6500)
}

/// The colour filters of a correction, when it changes anything: brightness,
/// contrast and saturation, then the white balance and the lookup table when
/// they are set.
pub open spec fn color_filters(c: ColorView) -> Seq<Seq<char>> {
    if !c.is_active() {
        Seq::empty()
    } else {
        seq![
            "eq=brightness="@ + fixed_text(c.brightness as int, 4) + ":contrast="@ + fixed_text(
                c.contrast as int,
                4,
            ) + ":saturation="@ + fixed_text(c.saturation as int, 4),
        ] + (match c.temperature_k {
            Some(t) => seq!["hue=s=1:H="@ + fixed_text(tint(t), 4)],
            None => Seq::empty(),
        }) + (match c.lut_path {
            Some(p) => seq!["lut3d='"@ + quote_escaped(p) + "'"@],
            None => Seq::empty(),
        })
    }
}

/// The effect filters, when any is set: blur, sharpening, vignette (its
/// angle written as the intensity times `PI/2`), noise, deinterlacing.
pub open spec fn effect_filters(e: VisualEffects) -> Seq<Seq<char>> {
    if !e.is_active() {
        Seq::empty()
    } else {
        (match e.blur_radius {
            Some(b) => seq!["gblur=sigma="@ + fixed_text(b as int, 2)],
            None => Seq::empty(),
        }) + (match e.sharpen {
            Some(a) => seq!["unsharp=luma_msize_x=5:luma_msize_y=5:luma_amount="@ + fixed_text(a as int, 2)],
            None => Seq::empty(),
        }) + (match e.vignette {
            Some(v) => seq!["vignette=angle="@ + fixed_text(v as int, 4) + "*PI/2"@],
            None => Seq::empty(),
        }) + (match e.noise {
            Some(n) => seq!["noise=alls="@ + decimal(n as nat) + ":allf=t+u"@],
            None => Seq::empty(),
        }) + (if e.deinterlace {
            seq!["yadif=mode=1"@]
        } else {
            Seq::empty()
        })
    }
}

/// The filters of a video clip on a `w` by `h` frame, in order: reverse,
/// speed, crop, scale, flips, rotation, colour, effects, fades, end transition.
pub open spec fn video_clip_filters(c: VideoClipView, w: u32, h: u32) -> Seq<Seq<char>> {
    (if c.reverse {
        seq!["reverse"@]
    } else {
        Seq::empty()
    }) + (if speed_differs(c.speed) {
        seq!["setpts="@ + inverse_text(c.speed) + "*PTS"@]
    } else {
        Seq::empty()
    }) + (match c.crop {
        Some(k) => seq![crop_text(k)],
        None => Seq::empty(),
    }) + seq![scale_text(scaled(w, c.scale.width), scaled(h, c.scale.height))] + (if c.flip_horizontal {
        seq!["hflip"@]
    } else {
        Seq::empty()
    }) + (if c.flip_vertical {
        seq!["vflip"@]
    } else {
        Seq::empty()
    }) + rotation_filters(c.rotation_deg) + color_filters(c.color) + effect_filters(c.effects)
        + fade_filters(c.fade_in, c.fade_out, c.duration(), Seq::empty()) + transition_filters(
        c.transition_out,
        c.duration(),
    )
}

/// A fading end transition fades to the colour it names: the last filter of a
/// clip that ends fading to white is a fade out ending in `:color=white`, one
/// that ends fading to black a fade out ending in `:color=black`, and the two
/// never give the same last filter.
pub proof fn law_fade_transition_colour(c: VideoClipView, w: u32, h: u32)
    requires
        c.transition_out is Some,
    ensures
        ({
            let f = video_clip_filters(c, w, h);
            let k = c.transition_out->0.kind;
            &&& (k == TransitionKind::FadeToWhite ==> {
                &&& f.len() > 0
                &&& ends_with(f.last(), ":color=white"@)
                &&& !ends_with(f.last(), ":color=black"@)
                &&& exists|p: Seq<char>| f.last() == "fade=t=out:st="@ + p
            })
            &&& (k == TransitionKind::FadeToBlack ==> {
                &&& f.len() > 0
                &&& ends_with(f.last(), ":color=black"@)
                &&& !ends_with(f.last(), ":color=white"@)
                &&& exists|p: Seq<char>| f.last() == "fade=t=out:st="@ + p
            })
        }),
{
    reveal_strlit(":color=white");
    reveal_strlit(":color=black");
    let f = video_clip_filters(c, w, h);
    let tr = c.transition_out->0;
    let st = millis_text(tail_start(c.duration(), tr.duration_secs));
    let d = millis_text(tr.duration_secs as int);
    if tr.kind == TransitionKind::FadeToWhite || tr.kind == TransitionKind::FadeToBlack {
        let colour = if tr.kind == TransitionKind::FadeToWhite {
            ":color=white"@
        } else {
            ":color=black"@
        };
        let t = "fade=t=out:st="@ + st + ":d="@ + d + colour;
        assert(transition_filters(c.transition_out, c.duration()) =~= seq![t]);
        assert(f.last() == t);
        let body = st + ":d="@ + d;
        assert(t =~= "fade=t=out:st="@ + (body + colour));
        let p = "fade=t=out:st="@ + st + ":d="@ + d;
        assert(t.subrange(t.len() - colour.len(), t.len() as int) =~= colour);
        assert(":color=white"@[7] != ":color=black"@[7]);
    }
}

/// A cut is no transition at all: a clip that ends on a cut gets the same
/// filters as the same clip with no end transition.
pub proof fn law_cut_adds_nothing(c: VideoClipView, w: u32, h: u32, d: i64)
    requires
        c.transition_out == Some(VideoTransition { kind: TransitionKind::Cut, duration_secs: d }),
    ensures
        video_clip_filters(c, w, h) == video_clip_filters(
            VideoClipView { transition_out: None, ..c },
            w,
            h,
        ),
{
    let n = VideoClipView { transition_out: None, ..c };
    assert(transition_filters(c.transition_out, c.duration()) =~= Seq::<Seq<char>>::empty());
    assert(transition_filters(n.transition_out, n.duration()) =~= Seq::<Seq<char>>::empty());
    assert(video_clip_filters(c, w, h) =~= video_clip_filters(n, w, h));
}

fn push_crop(v: &mut Vec<String>, c: &VideoCrop)
    ensures
        views(final(v)@) == views(old(v)@).push(crop_text(*c)),
{
    let mut s = owned("crop=iw-");
    push_u64(&mut s, c.left as u64);
    push_str(&mut s, "-");
    push_u64(&mut s, c.right as u64);
    push_str(&mut s, ":ih-");
    push_u64(&mut s, c.top as u64);
    push_str(&mut s, "-");
    push_u64(&mut s, c.bottom as u64);
    push_str(&mut s, ":");
    push_u64(&mut s, c.left as u64);
    push_str(&mut s, ":");
    push_u64(&mut s, c.top as u64);
    assert(s@ =~= crop_text(*c));
    push_filter(v, s);
}

fn push_labelled_fixed(v: &mut Vec<String>, head: &str, x: i64, k: u32, tail: &str)
    requires
        0 < k <= 18,
    ensures
        views(final(v)@) == views(old(v)@).push(head@ + fixed_text(x as int, k as nat) + tail@),
{
    let mut s = owned(head);
    push_fixed(&mut s, x, k);
    push_str(&mut s, tail);
    push_filter(v, s);
}

fn push_rotation(v: &mut Vec<String>, r: i64)
    ensures
        views(final(v)@) == views(old(v)@) + rotation_filters(r),
{
    let ghost v0 = views(v@);
    if r != 0 {
        push_labelled_fixed(v, "rotate=", r, 3, "*PI/180:fillcolor=none");
    }
    assert(views(v@) =~= v0 + rotation_filters(r));
}

fn tint_exec(t: i64) -> (r: i64)
    ensures
        r == tint(t),
{
    let d: i128 = t as i128 - 6500;
    assert(-0x8000_0000_0000_2000 <= d <= 0x8000_0000_0000_0000int);
    let n: i128 = d * 3000;
    assert(n == (t - 6500) * 3000);
    if n >= 0 {
        let q: i128 = (2 * n + 6500) / 13000;
        assert(0 <= q <= 0x8000_0000_0000_0000int / 2) by (nonlinear_arith)
            requires
                0 <= n <= 0x8000_0000_0000_0000int * 3000,
                q == (2 * n + 6500) / 13000,
        ;
        q as i64
    } else {
        let m: i128 = 0 - n;
        let q: i128 = (2 * m + 6500) / 13000;
        assert(0 <= q <= 0x8000_0000_0000_0000int / 2) by (nonlinear_arith)
            requires
                0 < m <= 0x8000_0000_0000_2000int * 3000,
                q == (2 * m + 6500) / 13000,
        ;
        (0 - q) as i64
    }
}

fn push_color(v: &mut Vec<String>, c: &ColorCorrection)
    ensures
        views(final(v)@) == views(old(v)@) + color_filters(c@),
{
    let ghost v0 = views(v@);
    if c.brightness != 0 || c.contrast != 10000 || c.saturation != 10000 || c.temperature_k.is_some()
        || c.lut_path.is_some() {
        let mut s = owned("eq=brightness=");
        push_fixed(&mut s, c.brightness, 4);
        push_str(&mut s, ":contrast=");
        push_fixed(&mut s, c.contrast, 4);
        push_str(&mut s, ":saturation=");
        push_fixed(&mut s, c.saturation, 4);
        push_filter(v, s);
        let ghost v1 = views(v@);
        match c.temperature_k {
            Some(t) => push_labelled_fixed(v, "hue=s=1:H=", tint_exec(t), 4, ""),
            None => {},
        }
        let ghost v2 = views(v@);
        match &c.lut_path {
            Some(p) => {
                let mut s = owned("lut3d='");
                push_str(&mut s, escape_filter_arg(p.as_str()).as_str());
                push_str(&mut s, "'");
                push_filter(v, s);
            },
            None => {},
        }
        proof {
            reveal_strlit("");
            assert(v1 =~= v0 + seq![
                "eq=brightness="@ + fixed_text(c@.brightness as int, 4) + ":contrast="@ + fixed_text(
                    c@.contrast as int,
                    4,
                ) + ":saturation="@ + fixed_text(c@.saturation as int, 4),
            ]);
            assert(v2 =~= v1 + (match c@.temperature_k {
                Some(t) => seq!["hue=s=1:H="@ + fixed_text(tint(t), 4)],
                None => Seq::empty(),
            }));
        }
    }
    assert(views(v@) =~= v0 + color_filters(c@));
}

fn push_effects(v: &mut Vec<String>, e: &VisualEffects)
    ensures
        views(final(v)@) == views(old(v)@) + effect_filters(*e),
{
    let ghost v0 = views(v@);
    if e.blur_radius.is_some() || e.sharpen.is_some() || e.vignette.is_some() || e.noise.is_some()
        || e.deinterlace {
        match e.blur_radius {
            Some(b) => push_labelled_fixed(v, "gblur=sigma=", b, 2, ""),
            None => {},
        }
        let ghost v1 = views(v@);
        match e.sharpen {
            Some(a) => push_labelled_fixed(
                v,
                "unsharp=luma_msize_x=5:luma_msize_y=5:luma_amount=",
                a,
                2,
                "",
            ),
            None => {},
        }
        let ghost v2 = views(v@);
        match e.vignette {
            Some(x) => push_labelled_fixed(v, "vignette=angle=", x, 4, "*PI/2"),
            None => {},
        }
        let ghost v3 = views(v@);
        match e.noise {
            Some(n) => {
                let mut s = owned("noise=alls=");
                push_u64(&mut s, n as u64);
                push_str(&mut s, ":allf=t+u");
                push_filter(v, s);
            },
            None => {},
        }
        let ghost v4 = views(v@);
        if e.deinterlace {
            push_filter(v, owned("yadif=mode=1"));
        }
        proof {
            reveal_strlit("");
            let z = Seq::<Seq<char>>::empty();
            assert(v1 =~= v0 + (match e.blur_radius {
                Some(b) => seq!["gblur=sigma="@ + fixed_text(b as int, 2)],
                None => z,
            }));
            assert(v2 =~= v1 + (match e.sharpen {
                Some(a) => seq!["unsharp=luma_msize_x=5:luma_msize_y=5:luma_amount="@ + fixed_text(a as int, 2)],
                None => z,
            }));
            assert(v3 =~= v2 + (match e.vignette {
                Some(x) => seq!["vignette=angle="@ + fixed_text(x as int, 4) + "*PI/2"@],
                None => z,
            }));
            assert(v4 =~= v3 + (match e.noise {
                Some(n) => seq!["noise=alls="@ + decimal(n as nat) + ":allf=t+u"@],
                None => z,
            }));
        }
    }
    assert(views(v@) =~= v0 + effect_filters(*e));
}

fn push_scale(v: &mut Vec<String>, w: u32, h: u32)
    ensures
        views(final(v)@) == views(old(v)@).push(scale_text(w as int, h as int)),
{
    let mut s = owned("scale=");
    push_u64(&mut s, w as u64);
    push_str(&mut s, ":");
    push_u64(&mut s, h as u64);
    assert(s@ =~= scale_text(w as int, h as int));
    push_filter(v, s);
}

fn tail_start_exec(len: i128, d: i64) -> (r: i128)
    requires
        0 <= len <= 0x1_0000_0000_0000_0000_0000_0000,
    ensures
        r == tail_start(len as int, d),
        0 <= r <= 0x1_0000_0000_0000_0000_0000_0000 + 0x1_0000_0000_0000_0000,
{
    let x = len - d as i128;
    if x > 0 {
        x
    } else {
        0
    }
}

fn push_fades(
    v: &mut Vec<String>,
    fade_in: Option<FadeEffect>,
    fade_out: Option<FadeEffect>,
    len: i128,
    suffix: &str,
)
    requires
        0 <= len <= 0x1_0000_0000_0000_0000_0000_0000,
    ensures
        views(final(v)@) == views(old(v)@) + fade_filters(fade_in, fade_out, len as int, suffix@),
{
    let ghost v0 = views(v@);
    match fade_in {
        Some(f) => {
            let mut s = owned("fade=t=in:st=0:d=");
            push_millis(&mut s, f.duration_secs);
            push_str(&mut s, suffix);
            push_filter(v, s);
        },
        None => {},
    }
    let ghost v1 = views(v@);
    match fade_out {
        Some(f) => {
            let mut s = owned("fade=t=out:st=");
            push_millis_wide(&mut s, tail_start_exec(len, f.duration_secs));
            push_str(&mut s, ":d=");
            push_millis(&mut s, f.duration_secs);
            push_str(&mut s, suffix);
            push_filter(v, s);
        },
        None => {},
    }
    assert(views(v@) =~= v0 + fade_filters(fade_in, fade_out, len as int, suffix@));
}

fn push_transition(v: &mut Vec<String>, t: Option<VideoTransition>, len: i128)
    requires
        0 <= len <= 0x1_0000_0000_0000_0000_0000_0000,
    ensures
        views(final(v)@) == views(old(v)@) + transition_filters(t, len as int),
{
    let ghost v0 = views(v@);
    match t {
        None => {},
        Some(tr) => {
            let st = tail_start_exec(len, tr.duration_secs);
            match tr.kind {
                TransitionKind::Cut => {},
                TransitionKind::FadeToBlack => {
                    let mut s = owned("fade=t=out:st=");
                    push_millis_wide(&mut s, st);
                    push_str(&mut s, ":d=");
                    push_millis(&mut s, tr.duration_secs);
                    push_str(&mut s, ":color=black");
                    push_filter(v, s);
                },
                TransitionKind::FadeToWhite => {
                    let mut s = owned("fade=t=out:st=");
                    push_millis_wide(&mut s, st);
                    push_str(&mut s, ":d=");
                    push_millis(&mut s, tr.duration_secs);
                    push_str(&mut s, ":color=white");
                    push_filter(v, s);
                },
                TransitionKind::CrossDissolve => {
                    let mut s = owned("format=rgba,fade=t=out:st=");
                    push_millis_wide(&mut s, st);
                    push_str(&mut s, ":d=");
                    push_millis(&mut s, tr.duration_secs);
                    push_str(&mut s, ":alpha=1");
                    push_filter(v, s);
                },
                TransitionKind::WipeHorizontal => {
                    let mut s = owned("crop=iw*max(0\\,1-(t-");
                    push_millis_wide(&mut s, st);
                    push_str(&mut s, ")/");
                    push_millis(&mut s, tr.duration_secs);
                    push_str(&mut s, "):ih:0:0");
                    push_filter(v, s);
                },
                TransitionKind::WipeVertical => {
                    let mut s = owned("crop=iw:ih*max(0\\,1-(t-");
                    push_millis_wide(&mut s, st);
                    push_str(&mut s, ")/");
                    push_millis(&mut s, tr.duration_secs);
                    push_str(&mut s, "):0:0");
                    push_filter(v, s);
                },
            }
        },
    }
    assert(views(v@) =~= v0 + transition_filters(t, len as int));
}

fn push_inverse(s: &mut String, speed: i64)
    ensures
        final(s)@ == old(s)@ + inverse_text(speed),
{
    if speed == 0 {
        push_str(s, "inf");
    } else if speed > 0 {
        let d: i128 = speed as i128;
        let q: i128 = (2 * 1_000_000_000i128 + d) / (2 * d);
        assert(0 <= q <= 2_000_000_001) by (nonlinear_arith)
            requires
                d >= 1,
                q == (2 * 1_000_000_000 + d) / (2 * d),
        ;
        push_fixed(s, q as i64, 6);
    } else {
        let m: i128 = 0 - speed as i128;
        let q: i128 = (2 * 1_000_000_000i128 + m) / (2 * m);
        assert(0 <= q <= 2_000_000_001) by (nonlinear_arith)
            requires
                m >= 1,
                q == (2 * 1_000_000_000 + m) / (2 * m),
        ;
        push_fixed(s, (0 - q) as i64, 6);
    }
}

/// The filter chain of a video clip on a `frame_w` by `frame_h` frame: reverse,
/// speed, crop, scale, flips, fades and end transition. The placement on the
/// timeline (`setpts`) is left to the caller.
pub fn build_video_clip_filters(clip: &VideoClip, frame_w: u32, frame_h: u32) -> (r: Vec<String>)
    ensures
        views(r@) == video_clip_filters(clip@, frame_w, frame_h),
{
    let mut v: Vec<String> = Vec::new();
    let ghost c = clip@;
    assert(views(v@) =~= Seq::<Seq<char>>::empty());
    if clip.reverse {
        push_filter(&mut v, owned("reverse"));
    }
    let ghost a0 = views(v@);
    if clip.speed > 1001 || clip.speed < 999 {
        let mut s = owned("setpts=");
        push_inverse(&mut s, clip.speed);
        push_str(&mut s, "*PTS");
        push_filter(&mut v, s);
    }
    let ghost a1 = views(v@);
    match &clip.crop {
        Some(k) => push_crop(&mut v, k),
        None => {},
    }
    let ghost a2 = views(v@);
    push_scale(&mut v, scaled_exec(frame_w, clip.scale.width), scaled_exec(frame_h, clip.scale.height));
    let ghost a3 = views(v@);
    if clip.flip_horizontal {
        push_filter(&mut v, owned("hflip"));
    }
    let ghost a4 = views(v@);
    if clip.flip_vertical {
        push_filter(&mut v, owned("vflip"));
    }
    let ghost a5 = views(v@);
    push_rotation(&mut v, clip.rotation_deg);
    push_color(&mut v, &clip.color);
    push_effects(&mut v, &clip.effects);
    let ghost a5b = views(v@);
    let len = clip.duration();
    push_fades(&mut v, clip.fade_in, clip.fade_out, len, "");
    let ghost a6 = views(v@);
    push_transition(&mut v, clip.transition_out, len);
    proof {
        let e = Seq::<Seq<char>>::empty();
        assert(a0 =~= (if c.reverse { seq!["reverse"@] } else { e }));
        assert(a1 =~= a0 + (if speed_differs(c.speed) {
            seq!["setpts="@ + inverse_text(c.speed) + "*PTS"@]
        } else {
            e
        }));
        assert(a2 =~= a1 + (match c.crop {
            Some(k) => seq![crop_text(k)],
            None => e,
        }));
        assert(a3 =~= a2 + seq![scale_text(scaled(frame_w, c.scale.width), scaled(frame_h, c.scale.height))]);
        assert(a4 =~= a3 + (if c.flip_horizontal { seq!["hflip"@] } else { e }));
        assert(a5 =~= a4 + (if c.flip_vertical { seq!["vflip"@] } else { e }));
        assert(a5b =~= a5 + rotation_filters(c.rotation_deg) + color_filters(c.color) + effect_filters(
            c.effects,
        ));
        reveal_strlit("");
        assert(""@ =~= Seq::<char>::empty());
        assert(views(v@) =~= video_clip_filters(c, frame_w, frame_h));
    }
    v
}

// ─── Images ─────────────────────────────────────────────────────────────────

/// Whether an opacity (thousandths) differs from opaque by more than 0.001.
pub open spec fn opacity_differs(op: i64) -> bool {
    op - 1000 > 1 || 1000 - op > 1
}

/// The entry animation filter for an image scaled to `w` by `h`: 30 frames of
/// zoom or slide.
pub open spec fn entry_animation_text(a: EntryAnimation, w: u32, h: u32) -> Seq<char> {
    let ws = decimal(w as nat);
    let hs = decimal(h as nat);
    match a {
        EntryAnimation::ZoomIn => "scale='if(lt(n,30),"@ + ws + "*n/30,"@ + ws + ")':'if(lt(n,30),"@
            + hs + "*n/30,"@ + hs + ")'"@,
        EntryAnimation::SlideLeft => "pad="@ + ws + "+iw:ih:x='if(lt(n,30),iw*(1-n/30),0)':y=0"@,
        EntryAnimation::SlideRight => "pad="@ + ws + "+iw:ih:x='if(lt(n,30),-(iw*(1-n/30)),0)':y=0"@,
        EntryAnimation::SlideTop => "pad=iw:"@ + hs + "+ih:x=0:y='if(lt(n,30),ih*(1-n/30),0)'"@,
        EntryAnimation::SlideBottom => "pad=iw:"@ + hs + "+ih:x=0:y='if(lt(n,30),-(ih*(1-n/30)),0)'"@,
    }
}

/// The slides enter from opposite sides: sliding in from the right pads the
/// picture as sliding in from the left does, with the offset of the first 30
/// frames negated (`-(...)`); sliding in from the bottom mirrors sliding in
/// from the top in the same way.
pub proof fn law_slides_mirror(w: u32, h: u32)
    ensures
        exists|pre: Seq<char>, off: Seq<char>, post: Seq<char>|
            entry_animation_text(EntryAnimation::SlideLeft, w, h) == pre + off + post
                && entry_animation_text(EntryAnimation::SlideRight, w, h) == pre + "-("@ + off + ")"@
                + post,
        exists|pre: Seq<char>, off: Seq<char>, post: Seq<char>|
            entry_animation_text(EntryAnimation::SlideTop, w, h) == pre + off + post
                && entry_animation_text(EntryAnimation::SlideBottom, w, h) == pre + "-("@ + off + ")"@
                + post,
        entry_animation_text(EntryAnimation::SlideLeft, w, h) != entry_animation_text(
            EntryAnimation::SlideRight,
            w,
            h,
        ),
        entry_animation_text(EntryAnimation::SlideTop, w, h) != entry_animation_text(
            EntryAnimation::SlideBottom,
            w,
            h,
        ),
{
    reveal_strlit("pad=");
    reveal_strlit("pad=iw:");
    reveal_strlit("+iw:ih:x='if(lt(n,30),iw*(1-n/30),0)':y=0");
    reveal_strlit("+iw:ih:x='if(lt(n,30),-(iw*(1-n/30)),0)':y=0");
    reveal_strlit("+ih:x=0:y='if(lt(n,30),ih*(1-n/30),0)'");
    reveal_strlit("+ih:x=0:y='if(lt(n,30),-(ih*(1-n/30)),0)'");
    reveal_strlit("+iw:ih:x='if(lt(n,30),");
    reveal_strlit("+ih:x=0:y='if(lt(n,30),");
    reveal_strlit("iw*(1-n/30)");
    reveal_strlit("ih*(1-n/30)");
    reveal_strlit(",0)':y=0");
    reveal_strlit(",0)'");
    reveal_strlit("-(");
    reveal_strlit(")");
    let ws = decimal(w as nat);
    let hs = decimal(h as nat);
    let pre_x = "pad="@ + ws + "+iw:ih:x='if(lt(n,30),"@;
    let off_x = "iw*(1-n/30)"@;
    let post_x = ",0)':y=0"@;
    assert(entry_animation_text(EntryAnimation::SlideLeft, w, h) =~= pre_x + off_x + post_x);
    assert(entry_animation_text(EntryAnimation::SlideRight, w, h) =~= pre_x + "-("@ + off_x + ")"@
        + post_x);
    let pre_y = "pad=iw:"@ + hs + "+ih:x=0:y='if(lt(n,30),"@;
    let off_y = "ih*(1-n/30)"@;
    let post_y = ",0)'"@;
    assert(entry_animation_text(EntryAnimation::SlideTop, w, h) =~= pre_y + off_y + post_y);
    assert(entry_animation_text(EntryAnimation::SlideBottom, w, h) =~= pre_y + "-("@ + off_y + ")"@
        + post_y);
    assert(entry_animation_text(EntryAnimation::SlideLeft, w, h).len() + 3 == entry_animation_text(
        EntryAnimation::SlideRight,
        w,
        h,
    ).len());
    assert(entry_animation_text(EntryAnimation::SlideTop, w, h).len() + 3 == entry_animation_text(
        EntryAnimation::SlideBottom,
        w,
        h,
    ).len());
}

/// The entry animation filter (30 frames) for an image scaled to `w` by `h`.
pub fn build_entry_animation_filter(anim: &EntryAnimation, w: u32, h: u32) -> (r: String)
    ensures
        r@ == entry_animation_text(*anim, w, h),
{
    let mut s = String::new();
    match anim {
        EntryAnimation::ZoomIn => {
            push_str(&mut s, "scale='if(lt(n,30),");
            push_u64(&mut s, w as u64);
            push_str(&mut s, "*n/30,");
            push_u64(&mut s, w as u64);
            push_str(&mut s, ")':'if(lt(n,30),");
            push_u64(&mut s, h as u64);
            push_str(&mut s, "*n/30,");
            push_u64(&mut s, h as u64);
            push_str(&mut s, ")'");
        },
        EntryAnimation::SlideLeft => {
            push_str(&mut s, "pad=");
            push_u64(&mut s, w as u64);
            push_str(&mut s, "+iw:ih:x='if(lt(n,30),iw*(1-n/30),0)':y=0");
        },
        EntryAnimation::SlideRight => {
            push_str(&mut s, "pad=");
            push_u64(&mut s, w as u64);
            push_str(&mut s, "+iw:ih:x='if(lt(n,30),-(iw*(1-n/30)),0)':y=0");
        },
        EntryAnimation::SlideTop => {
            push_str(&mut s, "pad=iw:");
            push_u64(&mut s, h as u64);
            push_str(&mut s, "+ih:x=0:y='if(lt(n,30),ih*(1-n/30),0)'");
        },
        EntryAnimation::SlideBottom => {
            push_str(&mut s, "pad=iw:");
            push_u64(&mut s, h as u64);
            push_str(&mut s, "+ih:x=0:y='if(lt(n,30),-(ih*(1-n/30)),0)'");
        },
    }
    assert(s@ =~= entry_animation_text(*anim, w, h));
    s
}

/// The overlay coordinate of an image along one axis of `n` pixels: the
/// rounded pixel offset when a position is set, otherwise the centring
/// expression `centred`.
pub open spec fn axis_text(p: Option<i64>, n: u32, centred: Seq<char>) -> Seq<char> {
    match p {
        Some(f) => signed_decimal(placed(n, f)),
        None => centred,
    }
}

/// The overlay position `(x, y)` of an image on a `frame_w` by `frame_h`
/// frame: pixels from the set fractions, and centring expressions for the
/// coordinates that are not set.
pub fn resolve_overlay_position(clip: &ImageClip, frame_w: u32, frame_h: u32) -> (r: (
    String,
    String,
))
    ensures
        r.0@ == axis_text(clip.position.x, frame_w, "(main_w-overlay_w)/2"@),
        r.1@ == axis_text(clip.position.y, frame_h, "(main_h-overlay_h)/2"@),
{
    let ox = match clip.position.x {
        Some(fx) => {
            let mut s = String::new();
            push_i64(&mut s, placed_exec(frame_w, fx));
            assert(s@ =~= signed_decimal(placed(frame_w, fx)));
            s
        },
        None => owned("(main_w-overlay_w)/2"),
    };
    let oy = match clip.position.y {
        Some(fy) => {
            let mut s = String::new();
            push_i64(&mut s, placed_exec(frame_h, fy));
            assert(s@ =~= signed_decimal(placed(frame_h, fy)));
            s
        },
        None => owned("(main_h-overlay_h)/2"),
    };
    (ox, oy)
}

/// The filters of an image clip on a `w` by `h` frame, before its placement
/// on the timeline: crop, scale, opacity, fades (on the alpha channel) and
/// entry animation.
pub open spec fn image_clip_filters(c: ImageClipView, w: u32, h: u32, fps: i64) -> Seq<Seq<char>> {
    let tw = scaled(w, c.scale.width);
    let th = scaled(h, c.scale.height);
    (match c.crop {
        Some(k) => seq![crop_text(k)],
        None => Seq::empty(),
    }) + seq![scale_text(tw, th)] + (match c.ken_burns {
        Some(kb) => seq![ken_burns_text(kb, tw as u32, th as u32, c.duration_secs, fps)],
        None => Seq::empty(),
    }) + rotation_filters(c.rotation_deg) + (if opacity_differs(c.opacity) {
        seq!["format=rgba,colorchannelmixer=aa="@ + millis_text(c.opacity as int)]
    } else {
        Seq::empty()
    }) + fade_filters(c.fade_in, c.fade_out, c.duration_secs as int, ":alpha=1"@) + (
    match c.entry_animation {
        Some(a) => seq![entry_animation_text(a, tw as u32, th as u32)],
        None => Seq::empty(),
    })
}

/// The image filters of `image_clip_filters`.
pub fn build_image_clip_filters(clip: &ImageClip, frame_w: u32, frame_h: u32, fps: i64) -> (r: Vec<String>)
    ensures
        views(r@) == image_clip_filters(clip@, frame_w, frame_h, fps),
{
    let ghost c = clip@;
    let mut v: Vec<String> = Vec::new();
    assert(views(v@) =~= Seq::<Seq<char>>::empty());
    match &clip.crop {
        Some(k) => push_crop(&mut v, k),
        None => {},
    }
    let ghost a0 = views(v@);
    let tw = scaled_exec(frame_w, clip.scale.width);
    let th = scaled_exec(frame_h, clip.scale.height);
    push_scale(&mut v, tw, th);
    let ghost a1a = views(v@);
    match &clip.ken_burns {
        Some(kb) => push_filter(&mut v, build_ken_burns_filter(kb, tw, th, clip.duration_secs, fps)),
        None => {},
    }
    push_rotation(&mut v, clip.rotation_deg);
    let ghost a1 = views(v@);
    if clip.opacity > 1001 || clip.opacity < 999 {
        let mut s = owned("format=rgba,colorchannelmixer=aa=");
        push_millis(&mut s, clip.opacity);
        push_filter(&mut v, s);
    }
    let ghost a2 = views(v@);
    push_image_fades(&mut v, clip.fade_in, clip.fade_out, clip.duration_secs);
    let ghost a3 = views(v@);
    match &clip.entry_animation {
        Some(a) => push_filter(&mut v, build_entry_animation_filter(a, tw, th)),
        None => {},
    }
    proof {
        let e = Seq::<Seq<char>>::empty();
        assert(a0 =~= (match c.crop {
            Some(k) => seq![crop_text(k)],
            None => e,
        }));
        assert(a1a =~= a0 + seq![scale_text(tw as int, th as int)]);
        assert(a1 =~= a1a + (match c.ken_burns {
            Some(kb) => seq![ken_burns_text(kb, tw, th, c.duration_secs, fps)],
            None => e,
        }) + rotation_filters(c.rotation_deg));
        assert(a2 =~= a1 + (if opacity_differs(c.opacity) {
            seq!["format=rgba,colorchannelmixer=aa="@ + millis_text(c.opacity as int)]
        } else {
            e
        }));
        assert(views(v@) =~= image_clip_filters(c, frame_w, frame_h, fps));
    }
    v
}

fn push_image_fades(
    v: &mut Vec<String>,
    fade_in: Option<FadeEffect>,
    fade_out: Option<FadeEffect>,
    len: i64,
)
    ensures
        views(final(v)@) == views(old(v)@) + fade_filters(fade_in, fade_out, len as int, ":alpha=1"@),
{
    let ghost v0 = views(v@);
    match fade_in {
        Some(f) => {
            let mut s = owned("fade=t=in:st=0:d=");
            push_millis(&mut s, f.duration_secs);
            push_str(&mut s, ":alpha=1");
            push_filter(v, s);
        },
        None => {},
    }
    match fade_out {
        Some(f) => {
            let x: i128 = len as i128 - f.duration_secs as i128;
            let st: i128 = if x > 0 {
                x
            } else {
                0
            };
            let mut s = owned("fade=t=out:st=");
            push_millis_wide(&mut s, st);
            push_str(&mut s, ":d=");
            push_millis(&mut s, f.duration_secs);
            push_str(&mut s, ":alpha=1");
            push_filter(v, s);
        },
        None => {},
    }
    assert(views(v@) =~= v0 + fade_filters(fade_in, fade_out, len as int, ":alpha=1"@));
}

// ─── Audio ──────────────────────────────────────────────────────────────────

/// The audio filters of a clip: a delay to its place on the timeline (ms, on
/// both channels), then its fades.
pub open spec fn audio_clip_filters(c: AudioClipView) -> Seq<Seq<char>> {
    let d = signed_decimal(c.timeline_start as int);
    seq!["adelay="@ + d + "|"@ + d] + (match c.fade_in {
        Some(f) => seq!["afade=t=in:d="@ + short_text(f.duration_secs as int, 3)],
        None => Seq::empty(),
    }) + (match c.fade_out {
        Some(f) => seq!["afade=t=out:d="@ + short_text(f.duration_secs as int, 3)],
        None => Seq::empty(),
    })
}

/// The audio filters of `audio_clip_filters`.
pub fn build_audio_clip_filters(clip: &crate::project::clip::AudioClip) -> (r: Vec<String>)
    ensures
        views(r@) == audio_clip_filters(clip@),
{
    let ghost c = clip@;
    let mut v: Vec<String> = Vec::new();
    let mut s = owned("adelay=");
    push_i64(&mut s, clip.timeline_start);
    push_str(&mut s, "|");
    push_i64(&mut s, clip.timeline_start);
    let ghost d = signed_decimal(c.timeline_start as int);
    assert(s@ =~= "adelay="@ + d + "|"@ + d);
    push_filter(&mut v, s);
    let ghost a0 = views(v@);
    match clip.fade_in {
        Some(f) => {
            let mut t = owned("afade=t=in:d=");
            push_short(&mut t, f.duration_secs, 3);
            push_filter(&mut v, t);
        },
        None => {},
    }
    let ghost a1 = views(v@);
    match clip.fade_out {
        Some(f) => {
            let mut t = owned("afade=t=out:d=");
            push_short(&mut t, f.duration_secs, 3);
            push_filter(&mut v, t);
        },
        None => {},
    }
    assert(views(v@) =~= audio_clip_filters(c));
    v
}

} // verus!
