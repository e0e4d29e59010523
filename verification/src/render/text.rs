//! Text over the picture: the FFmpeg `drawtext` filter of a text clip, and the
//! quick preview that draws only the texts on a black background.
use vstd::prelude::*;
use crate::ffmpeg::command::{CommandView, FfmpegCommand};
use crate::ids::{hex_char, uuid_text, uuid_to_string};
use crate::numfmt::{div_round, fixed_text, push_fixed};
use crate::project::clip::{
    FadeEffect, TextClip, TextClipView, TextColor, TextPositionPreset, TextStyleView,
};
use crate::project::track::{text_views, Track, TrackKind, TrackView};
use crate::project::{longest_track, track_views, Project, ProjectView};
use crate::render::compositor::{label, pad};
use crate::render::filters::push_filter;
use crate::render::video::{video_codec, video_codec_for, RenderError};
use crate::render::VideoFormat;
use crate::textutil::{
    decimal, has_infix, join, join_path, joined, lemma_infix_of_concat, lemma_infix_trans,
    lemma_joined_holds_parts, millis_text, owned, path_join, push_char, push_i128,
    push_millis_wide, push_str, push_u64, signed_decimal, views,
};

verus! {

// ─── Colours ────────────────────────────────────────────────────────────────

/// The two lower-case hexadecimal digits of a byte.
pub open spec fn hex_byte(b: u8) -> Seq<char> {
    seq![hex_char(b as int / 16), hex_char(b as int % 16)]
}

/// A colour as FFmpeg reads it: `0xRRGGBBAA`.
pub open spec fn color_text(c: TextColor) -> Seq<char> {
    "0x"@ + hex_byte(c.r) + hex_byte(c.g) + hex_byte(c.b) + hex_byte(c.a)
}

fn hex_digit(d: u8) -> (c: char)
    requires
        d < 16,
    ensures
        c == hex_char(d as int),
{
    if d < 10 {
        crate::textutil::digit(d as u64)
    } else if d == 10 {
        'a'
    } else if d == 11 {
        'b'
    } else if d == 12 {
        'c'
    } else if d == 13 {
        'd'
    } else if d == 14 {
        'e'
    } else {
        'f'
    }
}

fn push_hex_byte(s: &mut String, b: u8)
    ensures
        final(s)@ == old(s)@ + hex_byte(b),
{
    let ghost s0 = s@;
    push_char(s, hex_digit(b / 16));
    push_char(s, hex_digit(b % 16));
    assert(s@ =~= s0 + hex_byte(b));
}

impl TextColor {
    /// The colour as FFmpeg reads it (`color_text`).
    pub fn to_ffmpeg_hex(&self) -> (r: String)
        ensures
            r@ == color_text(*self),
    {
        let mut s = owned("0x");
        push_hex_byte(&mut s, self.r);
        push_hex_byte(&mut s, self.g);
        push_hex_byte(&mut s, self.b);
        push_hex_byte(&mut s, self.a);
        s
    }
}

// ─── The drawtext filter ────────────────────────────────────────────────────

/// `s` with every backslash turned into a slash.
pub open spec fn slashed(s: Seq<char>) -> Seq<char> {
    s.map_values(|c: char| if c == '\\' { '/' } else { c })
}

/// Whether `s` ends with `suffix`.
pub open spec fn ends_with(s: Seq<char>, suffix: Seq<char>) -> bool {
    s.len() >= suffix.len() && s.subrange(s.len() - suffix.len(), s.len() as int) == suffix
}

/// Whether a font family names a font file rather than a font: it holds a
/// slash or a backslash, or ends with `.ttf` or `.otf`.
pub open spec fn is_font_file(f: Seq<char>) -> bool {
    f.contains('/') || f.contains('\\') || ends_with(f, ".ttf"@) || ends_with(f, ".otf"@)
}

/// `fontfile='<path>'` (slashes only) for a font file, `font='<name>'` otherwise.
pub open spec fn font_part(f: Seq<char>) -> Seq<char> {
    if is_font_file(f) {
        "fontfile='"@ + slashed(f) + "'"@
    } else {
        "font='"@ + f + "'"@
    }
}

/// The box behind the text, when the style has one.
pub open spec fn box_parts(st: TextStyleView) -> Seq<Seq<char>> {
    match st.bg_color {
        Some(bg) => seq!["box=1"@, "boxcolor="@ + color_text(bg), "boxborderw=10"@],
        None => Seq::empty(),
    }
}

/// Extra space between lines in pixels: the font size times the line height
/// beyond single spacing, rounded to the nearest pixel (halves away from 0).
pub open spec fn spacing_px(st: TextStyleView) -> int {
    div_round(st.font_size * (st.line_height - 1000), 1000)
}

/// The line spacing, unless the text is single-spaced.
pub open spec fn spacing_parts(st: TextStyleView) -> Seq<Seq<char>> {
    if st.line_height != 1000 {
        seq!["line_spacing="@ + signed_decimal(spacing_px(st))]
    } else {
        Seq::empty()
    }
}

/// The shadow, when the style has one (offsets with one decimal).
pub open spec fn shadow_parts(st: TextStyleView) -> Seq<Seq<char>> {
    match st.shadow {
        Some(sh) => seq![
            "shadowcolor="@ + color_text(sh.color),
            "shadowx="@ + fixed_text(sh.offset_x as int, 1),
            "shadowy="@ + fixed_text(sh.offset_y as int, 1),
        ],
        None => Seq::empty(),
    }
}

/// The outline, when the style has one (width with one decimal).
pub open spec fn stroke_parts(st: TextStyleView) -> Seq<Seq<char>> {
    match st.stroke {
        Some(k) => seq!["bordercolor="@ + color_text(k.color), "borderw="@ + fixed_text(k.width as int, 1)],
        None => Seq::empty(),
    }
}

/// Column of a preset: 0 left, 1 centre, 2 right, 3 custom.
pub open spec fn preset_column(p: TextPositionPreset) -> int {
    match p {
        TextPositionPreset::TopLeft | TextPositionPreset::MiddleLeft | TextPositionPreset::BottomLeft => 0,
        TextPositionPreset::TopCenter | TextPositionPreset::MiddleCenter
        | TextPositionPreset::BottomCenter => 1,
        TextPositionPreset::TopRight | TextPositionPreset::MiddleRight
        | TextPositionPreset::BottomRight => 2,
        TextPositionPreset::Custom => 3,
    }
}

/// Row of a preset: 0 top, 1 middle, 2 bottom, 3 custom.
pub open spec fn preset_row(p: TextPositionPreset) -> int {
    match p {
        TextPositionPreset::TopLeft | TextPositionPreset::TopCenter | TextPositionPreset::TopRight => 0,
        TextPositionPreset::MiddleLeft | TextPositionPreset::MiddleCenter
        | TextPositionPreset::MiddleRight => 1,
        TextPositionPreset::BottomLeft | TextPositionPreset::BottomCenter
        | TextPositionPreset::BottomRight => 2,
        TextPositionPreset::Custom => 3,
    }
}

/// The x expression of a text: at `margin` pixels from the left edge, centred,
/// at `margin` pixels from the right edge, or with the `Custom` preset at the
/// fraction `pos_x` of the width (centred when it is not set).
pub open spec fn x_expr(c: TextClipView) -> Seq<char> {
    let col = preset_column(c.position_preset);
    if col == 0 {
        decimal(c.margin as nat)
    } else if col == 2 {
        "w-text_w-"@ + decimal(c.margin as nat)
    } else if col == 3 && c.pos_x is Some {
        "w*"@ + fixed_text(c.pos_x->0 as int, 4)
    } else {
        "(w-text_w)/2"@
    }
}

/// The y expression of a text, like `x_expr` with top, middle and bottom.
pub open spec fn y_expr(c: TextClipView) -> Seq<char> {
    let row = preset_row(c.position_preset);
    if row == 0 {
        decimal(c.margin as nat)
    } else if row == 2 {
        "h-text_h-"@ + decimal(c.margin as nat)
    } else if row == 3 && c.pos_y is Some {
        "h*"@ + fixed_text(c.pos_y->0 as int, 4)
    } else {
        "(h-text_h)/2"@
    }
}

/// Where a text clip ends (ms).
pub open spec fn text_end(c: TextClipView) -> int {
    c.timeline_start + c.duration_secs
}

/// The opacity while fading in over `f`, starting at `start`.
pub open spec fn fade_in_alpha(start: int, f: FadeEffect) -> Seq<char> {
    "if(lt(t,"@ + millis_text(start) + "+"@ + millis_text(f.duration_secs as int) + "),(t-"@
        + millis_text(start) + ")/"@ + millis_text(f.duration_secs as int) + ",1)"@
}

/// The opacity while fading out over `f`, ending at `end`.
pub open spec fn fade_out_alpha(end: int, f: FadeEffect) -> Seq<char> {
    "if(gt(t,"@ + millis_text(end - f.duration_secs) + "),("@ + millis_text(end) + "-t)/"@
        + millis_text(f.duration_secs as int) + ",1)"@
}

/// The opacity option: the fade in, the fade out, or the lower of both; none
/// without fades.
pub open spec fn alpha_parts(c: TextClipView) -> Seq<Seq<char>> {
    match (c.fade_in, c.fade_out) {
        (None, None) => Seq::empty(),
        (Some(i), None) => seq!["alpha='"@ + fade_in_alpha(c.timeline_start as int, i) + "'"@],
        (None, Some(o)) => seq!["alpha='"@ + fade_out_alpha(text_end(c), o) + "'"@],
        (Some(i), Some(o)) => seq![
            "alpha='min("@ + fade_in_alpha(c.timeline_start as int, i) + ","@ + fade_out_alpha(
                text_end(c),
                o,
            ) + ")'"@,
        ],
    }
}

/// The options of the `drawtext` filter of a clip whose text is in `file`.
pub open spec fn drawtext_parts(c: TextClipView, file: Seq<char>) -> Seq<Seq<char>> {
    seq![
        "textfile='"@ + slashed(file) + "'"@,
        font_part(c.style.font_family),
        "fontsize="@ + decimal(c.style.font_size as nat),
        "fontcolor="@ + color_text(c.style.color),
    ] + box_parts(c.style) + spacing_parts(c.style) + shadow_parts(c.style) + stroke_parts(c.style)
        + seq!["x="@ + x_expr(c), "y="@ + y_expr(c)] + alpha_parts(c) + seq![
        "enable='between(t,"@ + millis_text(c.timeline_start as int) + ","@ + millis_text(text_end(c))
            + ")'"@,
    ]
}

/// The `drawtext` filter of a clip whose text is in `file`.
pub open spec fn drawtext_text(c: TextClipView, file: Seq<char>) -> Seq<char> {
    "drawtext="@ + joined(drawtext_parts(c, file), ":"@)
}

/// The ramp of a fade in over `d` ms from `start`: below `start + d` the
/// opacity is `(t - start) / d`.
pub open spec fn fade_in_ramp(start: int, d: i64) -> Seq<char> {
    "if(lt(t,"@ + millis_text(start) + "+"@ + millis_text(d as int) + "),(t-"@ + millis_text(start)
        + ")/"@ + millis_text(d as int)
}

/// The ramp of a fade out over `d` ms up to `end`: above `end - d` the
/// opacity is `(end - t) / d`.
pub open spec fn fade_out_ramp(end: int, d: i64) -> Seq<char> {
    "if(gt(t,"@ + millis_text(end - d) + "),("@ + millis_text(end) + "-t)/"@ + millis_text(d as int)
}

/// Whether the `drawtext` filter of a clip has an `alpha` option holding `r`
/// (and so the whole filter holds `r`).
pub open spec fn alpha_option_holds(c: TextClipView, file: Seq<char>, r: Seq<char>) -> bool {
    &&& exists|k: int|
        0 <= k < drawtext_parts(c, file).len() && (exists|rest: Seq<char>| #[trigger]
            drawtext_parts(c, file)[k] == "alpha='"@ + rest) && has_infix(drawtext_parts(c, file)[k], r)
    &&& has_infix(drawtext_text(c, file), r)
}

proof fn lemma_alpha_part_holds(c: TextClipView, file: Seq<char>, r: Seq<char>, a: Seq<char>, b: Seq<char>)
    requires
        alpha_parts(c).len() == 1,
        alpha_parts(c)[0] == "alpha='"@ + a + r + b,
    ensures
        alpha_option_holds(c, file, r),
{
    let parts = drawtext_parts(c, file);
    let head = seq![
        "textfile='"@ + slashed(file) + "'"@,
        font_part(c.style.font_family),
        "fontsize="@ + decimal(c.style.font_size as nat),
        "fontcolor="@ + color_text(c.style.color),
    ] + box_parts(c.style) + spacing_parts(c.style) + shadow_parts(c.style) + stroke_parts(c.style)
        + seq!["x="@ + x_expr(c), "y="@ + y_expr(c)];
    let k = head.len() as int;
    assert(parts[k] == alpha_parts(c)[0]);
    let p = parts[k];
    assert(p =~= "alpha='"@ + (a + r + b));
    assert(p =~= ("alpha='"@ + a) + r + b);
    lemma_infix_of_concat("alpha='"@ + a, r, b);
    lemma_joined_holds_parts(parts, ":"@, k);
    lemma_infix_trans(joined(parts, ":"@), p, r);
    lemma_infix_of_concat("drawtext="@, joined(parts, ":"@), Seq::empty());
    assert("drawtext="@ + joined(parts, ":"@) + Seq::<char>::empty() =~= drawtext_text(c, file));
    lemma_infix_trans(drawtext_text(c, file), joined(parts, ":"@), r);
}

proof fn lemma_single_fade_holds(c: TextClipView, file: Seq<char>, r: Seq<char>)
    requires
        alpha_parts(c) == seq!["alpha='"@ + (r + ",1)"@) + "'"@],
    ensures
        alpha_option_holds(c, file, r),
{
    let e: Seq<char> = Seq::empty();
    assert(alpha_parts(c)[0] =~= "alpha='"@ + e + r + (",1)"@ + "'"@));
    lemma_alpha_part_holds(c, file, r, e, ",1)"@ + "'"@);
}

proof fn lemma_both_fades_hold(c: TextClipView, file: Seq<char>, ri: Seq<char>, ro: Seq<char>)
    requires
        alpha_parts(c) == seq!["alpha='min("@ + (ri + ",1)"@) + ","@ + (ro + ",1)"@) + ")'"@],
    ensures
        alpha_option_holds(c, file, ri),
        alpha_option_holds(c, file, ro),
{
    reveal_strlit("alpha='min(");
    reveal_strlit("alpha='");
    reveal_strlit("min(");
    let fi = ri + ",1)"@;
    assert(alpha_parts(c)[0] =~= "alpha='"@ + "min("@ + ri + (",1)"@ + ","@ + (ro + ",1)"@) + ")'"@));
    lemma_alpha_part_holds(c, file, ri, "min("@, ",1)"@ + ","@ + (ro + ",1)"@) + ")'"@);
    assert(alpha_parts(c)[0] =~= "alpha='"@ + ("min("@ + fi + ","@) + ro + (",1)"@ + ")'"@));
    lemma_alpha_part_holds(c, file, ro, "min("@ + fi + ","@, ",1)"@ + ")'"@);
}

/// A fading text really fades: whenever a clip fades in, its `drawtext`
/// filter has an `alpha` option holding the fade-in ramp (`(t - start) / d`
/// until `start + d`), and whenever it fades out, one holding the fade-out
/// ramp (`(end - t) / d` after `end - d`), whether it also has the other
/// fade or not.
pub proof fn law_text_fades_ramp(c: TextClipView, file: Seq<char>)
    ensures
        c.fade_in matches Some(i) ==> alpha_option_holds(
            c,
            file,
            fade_in_ramp(c.timeline_start as int, i.duration_secs),
        ),
        c.fade_out matches Some(o) ==> alpha_option_holds(
            c,
            file,
            fade_out_ramp(text_end(c), o.duration_secs),
        ),
{
    match (c.fade_in, c.fade_out) {
        (None, None) => {},
        (Some(i), None) => {
            let r = fade_in_ramp(c.timeline_start as int, i.duration_secs);
            assert(fade_in_alpha(c.timeline_start as int, i) =~= r + ",1)"@);
            lemma_single_fade_holds(c, file, r);
        },
        (None, Some(o)) => {
            let r = fade_out_ramp(text_end(c), o.duration_secs);
            assert(fade_out_alpha(text_end(c), o) =~= r + ",1)"@);
            lemma_single_fade_holds(c, file, r);
        },
        (Some(i), Some(o)) => {
            let ri = fade_in_ramp(c.timeline_start as int, i.duration_secs);
            let ro = fade_out_ramp(text_end(c), o.duration_secs);
            assert(fade_in_alpha(c.timeline_start as int, i) =~= ri + ",1)"@);
            assert(fade_out_alpha(text_end(c), o) =~= ro + ",1)"@);
            lemma_both_fades_hold(c, file, ri, ro);
        },
    }
}

/// The file a clip's text is written to before rendering:
/// `<temp_dir>/text_<clip id>.txt`.
pub open spec fn text_file_of(temp_dir: Seq<char>, id: u128) -> Seq<char> {
    path_join(temp_dir, "text_"@ + uuid_text(id) + ".txt"@)
}

/// The file of `text_file_of` for a clip of a cache directory.
pub fn text_file_path(temp_dir: &str, id: u128) -> (r: String)
    ensures
        r@ == text_file_of(temp_dir@, id),
{
    let mut name = owned("text_");
    push_str(&mut name, uuid_to_string(id).as_str());
    push_str(&mut name, ".txt");
    join_path(temp_dir, name.as_str())
}

fn slashed_string(s: &str) -> (r: String)
    ensures
        r@ == slashed(s@),
{
    let n = s.unicode_len();
    let mut out = String::new();
    let mut i: usize = 0;
    while i < n
        invariant
            n == s@.len(),
            0 <= i <= n,
            out@ == slashed(s@.take(i as int)),
        decreases n - i,
    {
        let c = s.get_char(i);
        if c == '\\' {
            push_char(&mut out, '/');
        } else {
            push_char(&mut out, c);
        }
        assert(s@.take(i + 1) =~= s@.take(i as int).push(c));
        assert(slashed(s@.take(i + 1)) =~= slashed(s@.take(i as int)).push(
            if c == '\\' { '/' } else { c },
        ));
        i = i + 1;
    }
    assert(s@.take(n as int) =~= s@);
    out
}

fn has_char(s: &str, c: char) -> (r: bool)
    ensures
        r == s@.contains(c),
{
    crate::textutil::contains_char(s, c)
}

fn has_suffix(s: &str, suffix: &str) -> (r: bool)
    ensures
        r == ends_with(s@, suffix@),
{
    let n = s.unicode_len();
    let m = suffix.unicode_len();
    if n < m {
        return false;
    }
    let mut i: usize = 0;
    while i < m
        invariant
            n == s@.len(),
            m == suffix@.len(),
            m <= n,
            0 <= i <= m,
            forall|j: int| 0 <= j < i ==> s@[n - m + j] == suffix@[j],
        decreases m - i,
    {
        if s.get_char(n - m + i) != suffix.get_char(i) {
            assert(s@.subrange(n - m, n as int)[i as int] != suffix@[i as int]);
            return false;
        }
        i = i + 1;
    }
    assert(s@.subrange(n - m, n as int) =~= suffix@);
    true
}

fn font_string(f: &str) -> (r: String)
    ensures
        r@ == font_part(f@),
{
    if has_char(f, '/') || has_char(f, '\\') || has_suffix(f, ".ttf") || has_suffix(f, ".otf") {
        let mut s = owned("fontfile='");
        push_str(&mut s, slashed_string(f).as_str());
        push_str(&mut s, "'");
        s
    } else {
        let mut s = owned("font='");
        push_str(&mut s, f);
        push_str(&mut s, "'");
        s
    }
}

fn push_part(v: &mut Vec<String>, head: &str, tail: String)
    ensures
        views(final(v)@) == views(old(v)@).push(head@ + tail@),
{
    let mut s = owned(head);
    push_str(&mut s, tail.as_str());
    push_filter(v, s);
}

fn color_string(c: &TextColor) -> (r: String)
    ensures
        r@ == color_text(*c),
{
    c.to_ffmpeg_hex()
}

fn fixed1(v: i64) -> (r: String)
    ensures
        r@ == fixed_text(v as int, 1),
{
    let mut s = String::new();
    push_fixed(&mut s, v, 1);
    s
}

fn spacing_exec(size: u32, lh: i64) -> (r: i128)
    ensures
        r == div_round(size * (lh - 1000), 1000),
        -0x1_0000_0000_0000_0000_0000_0000 <= r,
{
    let d: i128 = lh as i128 - 1000;
    assert(-0x1_0000_0000_0000_0000_0000_0000 <= size * d <= 0x1_0000_0000_0000_0000_0000_0000)
        by (nonlinear_arith)
        requires
            0 <= size <= 0xffff_ffff,
            -0x8000_0000_0000_1000 <= d <= 0x8000_0000_0000_0000,
    ;
    let n: i128 = size as i128 * d;
    if n >= 0 {
        (2 * n + 1000) / 2000
    } else {
        let m: i128 = 0 - n;
        0 - ((2 * m + 1000) / 2000)
    }
}

fn push_style_parts(v: &mut Vec<String>, c: &TextClip)
    ensures
        views(final(v)@) == views(old(v)@) + box_parts(c@.style) + spacing_parts(c@.style)
            + shadow_parts(c@.style) + stroke_parts(c@.style),
{
    let ghost v0 = views(v@);
    let st = &c.style;
    match &st.bg_color {
        Some(bg) => {
            push_filter(v, owned("box=1"));
            push_part(v, "boxcolor=", color_string(bg));
            push_filter(v, owned("boxborderw=10"));
        },
        None => {},
    }
    assert(views(v@) =~= v0 + box_parts(c@.style));
    let ghost v1 = views(v@);
    if st.line_height != 1000 {
        let mut s = owned("line_spacing=");
        push_i128(&mut s, spacing_exec(st.font_size, st.line_height));
        push_filter(v, s);
    }
    assert(views(v@) =~= v1 + spacing_parts(c@.style));
    let ghost v2 = views(v@);
    match &st.shadow {
        Some(sh) => {
            push_part(v, "shadowcolor=", color_string(&sh.color));
            push_part(v, "shadowx=", fixed1(sh.offset_x));
            push_part(v, "shadowy=", fixed1(sh.offset_y));
        },
        None => {},
    }
    assert(views(v@) =~= v2 + shadow_parts(c@.style));
    let ghost v3 = views(v@);
    match &st.stroke {
        Some(k) => {
            push_part(v, "bordercolor=", color_string(&k.color));
            push_part(v, "borderw=", fixed1(k.width));
        },
        None => {},
    }
    assert(views(v@) =~= v3 + stroke_parts(c@.style));
}

fn column_of(p: TextPositionPreset) -> (r: u8)
    ensures
        r == preset_column(p),
{
    match p {
        TextPositionPreset::TopLeft | TextPositionPreset::MiddleLeft | TextPositionPreset::BottomLeft => 0,
        TextPositionPreset::TopCenter | TextPositionPreset::MiddleCenter
        | TextPositionPreset::BottomCenter => 1,
        TextPositionPreset::TopRight | TextPositionPreset::MiddleRight
        | TextPositionPreset::BottomRight => 2,
        TextPositionPreset::Custom => 3,
    }
}

fn row_of(p: TextPositionPreset) -> (r: u8)
    ensures
        r == preset_row(p),
{
    match p {
        TextPositionPreset::TopLeft | TextPositionPreset::TopCenter | TextPositionPreset::TopRight => 0,
        TextPositionPreset::MiddleLeft | TextPositionPreset::MiddleCenter
        | TextPositionPreset::MiddleRight => 1,
        TextPositionPreset::BottomLeft | TextPositionPreset::BottomCenter
        | TextPositionPreset::BottomRight => 2,
        TextPositionPreset::Custom => 3,
    }
}

fn edge_expr(pos: u8, margin: u32, far: &str, frac: Option<i64>, scale: &str, centre: &str) -> (r: String)
    ensures
        r@ == (if pos == 0 {
            decimal(margin as nat)
        } else if pos == 2 {
            far@ + decimal(margin as nat)
        } else if pos == 3 && frac is Some {
            scale@ + fixed_text(frac->0 as int, 4)
        } else {
            centre@
        }),
{
    if pos == 0 {
        let mut s = String::new();
        push_u64(&mut s, margin as u64);
        s
    } else if pos == 2 {
        let mut s = owned(far);
        push_u64(&mut s, margin as u64);
        s
    } else if pos == 3 && frac.is_some() {
        let mut s = owned(scale);
        match frac {
            Some(f) => push_fixed(&mut s, f, 4),
            None => {},
        }
        s
    } else {
        owned(centre)
    }
}

fn push_alpha(s: &mut String, start: i128, d: i64, end: i128, fade_in: bool)
    requires
        -0x1_0000_0000_0000_0000 <= start <= 0x1_0000_0000_0000_0000,
        -0x1_0000_0000_0000_0000 <= end <= 0x1_0000_0000_0000_0000,
    ensures
        fade_in ==> final(s)@ == old(s)@ + fade_in_alpha(
            start as int,
            FadeEffect { duration_secs: d },
        ),
        !fade_in ==> final(s)@ == old(s)@ + fade_out_alpha(end as int, FadeEffect { duration_secs: d }),
{
    let ghost s0 = s@;
    if fade_in {
        push_str(s, "if(lt(t,");
        push_millis_wide(s, start);
        push_str(s, "+");
        push_millis_wide(s, d as i128);
        push_str(s, "),(t-");
        push_millis_wide(s, start);
        push_str(s, ")/");
        push_millis_wide(s, d as i128);
        push_str(s, ",1)");
        assert(s@ =~= s0 + fade_in_alpha(start as int, FadeEffect { duration_secs: d }));
    } else {
        push_str(s, "if(gt(t,");
        push_millis_wide(s, end - d as i128);
        push_str(s, "),(");
        push_millis_wide(s, end);
        push_str(s, "-t)/");
        push_millis_wide(s, d as i128);
        push_str(s, ",1)");
        assert(s@ =~= s0 + fade_out_alpha(end as int, FadeEffect { duration_secs: d }));
    }
}

fn push_alpha_part(v: &mut Vec<String>, c: &TextClip)
    ensures
        views(final(v)@) == views(old(v)@) + alpha_parts(c@),
{
    let start: i128 = c.timeline_start as i128;
    let end: i128 = c.timeline_start as i128 + c.duration_secs as i128;
    let ghost v0 = views(v@);
    match (c.fade_in, c.fade_out) {
        (None, None) => {},
        (Some(i), None) => {
            let mut s = owned("alpha='");
            push_alpha(&mut s, start, i.duration_secs, end, true);
            push_str(&mut s, "'");
            push_filter(v, s);
        },
        (None, Some(o)) => {
            let mut s = owned("alpha='");
            push_alpha(&mut s, start, o.duration_secs, end, false);
            push_str(&mut s, "'");
            push_filter(v, s);
        },
        (Some(i), Some(o)) => {
            let mut s = owned("alpha='min(");
            push_alpha(&mut s, start, i.duration_secs, end, true);
            push_str(&mut s, ",");
            push_alpha(&mut s, start, o.duration_secs, end, false);
            push_str(&mut s, ")'");
            push_filter(v, s);
        },
    }
    assert(views(v@) =~= v0 + alpha_parts(c@));
}

/// The `drawtext` filter of `clip`, reading its text from `text_file` (which
/// the caller writes first): see `drawtext_text`.
pub fn build_drawtext_filter(clip: &TextClip, text_file: &str) -> (r: String)
    ensures
        r@ == drawtext_text(clip@, text_file@),
{
    let mut v: Vec<String> = Vec::new();
    let mut t0 = owned("textfile='");
    push_str(&mut t0, slashed_string(text_file).as_str());
    push_str(&mut t0, "'");
    let mut t2 = owned("fontsize=");
    push_u64(&mut t2, clip.style.font_size as u64);
    let mut t3 = owned("fontcolor=");
    push_str(&mut t3, color_string(&clip.style.color).as_str());
    let t1 = font_string(clip.style.font_family.as_str());
    let ghost e0 = "textfile='"@ + slashed(text_file@) + "'"@;
    let ghost e2 = "fontsize="@ + decimal(clip@.style.font_size as nat);
    let ghost e3 = "fontcolor="@ + color_text(clip@.style.color);
    assert(t0@ =~= e0);
    assert(t2@ =~= e2);
    assert(t3@ =~= e3);
    push_filter(&mut v, t0);
    push_filter(&mut v, t1);
    push_filter(&mut v, t2);
    push_filter(&mut v, t3);
    let ghost v0 = views(v@);
    assert(v0 =~= seq![e0, font_part(clip@.style.font_family), e2, e3]);
    push_style_parts(&mut v, clip);
    let ghost v1 = views(v@);
    push_part(
        &mut v,
        "x=",
        edge_expr(
            column_of(clip.position_preset),
            clip.margin,
            "w-text_w-",
            clip.pos_x,
            "w*",
            "(w-text_w)/2",
        ),
    );
    push_part(
        &mut v,
        "y=",
        edge_expr(
            row_of(clip.position_preset),
            clip.margin,
            "h-text_h-",
            clip.pos_y,
            "h*",
            "(h-text_h)/2",
        ),
    );
    assert(views(v@) =~= v1 + seq!["x="@ + x_expr(clip@), "y="@ + y_expr(clip@)]);
    let ghost v2 = views(v@);
    push_alpha_part(&mut v, clip);
    let ghost v3 = views(v@);
    let mut e = owned("enable='between(t,");
    push_millis_wide(&mut e, clip.timeline_start as i128);
    push_str(&mut e, ",");
    push_millis_wide(&mut e, clip.timeline_start as i128 + clip.duration_secs as i128);
    push_str(&mut e, ")'");
    push_filter(&mut v, e);
    assert(views(v@) =~= drawtext_parts(clip@, text_file@));
    let mut r = owned("drawtext=");
    push_str(&mut r, join(&v, ":").as_str());
    r
}

// ─── Which texts are drawn ──────────────────────────────────────────────────

/// The text clips of the unmuted tracks, track by track, in order; with
/// `text_only`, of the unmuted text tracks alone.
pub open spec fn shown_texts(s: Seq<TrackView>, text_only: bool) -> Seq<TextClipView>
    decreases s.len(),
{
    if s.len() == 0 {
        Seq::empty()
    } else {
        shown_texts(s.drop_last(), text_only) + (if s.last().muted || (text_only && s.last().kind
            != TrackKind::Text) {
            Seq::empty()
        } else {
            s.last().text_clips
        })
    }
}

fn append_texts(out: &mut Vec<TextClip>, clips: &Vec<TextClip>)
    ensures
        text_views(final(out)@) == text_views(old(out)@) + text_views(clips@),
{
    let ghost o0 = text_views(out@);
    let mut j: usize = 0;
    while j < clips.len()
        invariant
            0 <= j <= clips@.len(),
            text_views(out@) == o0 + text_views(clips@).take(j as int),
        decreases clips.len() - j,
    {
        let ghost before = text_views(out@);
        out.push(clips[j].clone());
        assert(text_views(out@) =~= before.push(clips@[j as int]@));
        assert(text_views(clips@).take(j + 1) =~= text_views(clips@).take(j as int).push(
            clips@[j as int]@,
        ));
        j = j + 1;
    }
    assert(text_views(clips@).take(clips@.len() as int) =~= text_views(clips@));
}

/// The texts of `shown_texts`.
pub fn collect_texts(tracks: &Vec<Track>, text_only: bool) -> (r: Vec<TextClip>)
    ensures
        text_views(r@) == shown_texts(track_views(tracks@), text_only),
{
    let ghost s = track_views(tracks@);
    let mut out: Vec<TextClip> = Vec::new();
    assert(text_views(out@) =~= Seq::<TextClipView>::empty());
    let mut i: usize = 0;
    while i < tracks.len()
        invariant
            0 <= i <= tracks@.len(),
            s == track_views(tracks@),
            text_views(out@) == shown_texts(s.take(i as int), text_only),
        decreases tracks.len() - i,
    {
        let t = &tracks[i];
        assert(s.take(i + 1).drop_last() =~= s.take(i as int));
        assert(s.take(i + 1).last() == t@);
        if !t.muted && (!text_only || t.kind == TrackKind::Text) {
            append_texts(&mut out, &t.text_clips);
        } else {
            assert(text_views(out@) =~= shown_texts(s.take(i + 1), text_only));
        }
        i = i + 1;
    }
    assert(s.take(tracks@.len() as int) =~= s);
    out
}

// ─── Drawing texts one over another ─────────────────────────────────────────

/// The input picture of the text step `k`: `first` for the first one, then the
/// output of the step before.
pub open spec fn text_input(k: int, first: Seq<char>, prefix: Seq<char>, shift: int) -> Seq<char> {
    if k == 0 {
        first
    } else {
        label(prefix, k - 1 + shift)
    }
}

/// Step `k`: draw text `c` (read from its file in `temp`) over the picture
/// before, giving `<prefix><k + shift>`.
pub open spec fn text_step(
    k: int,
    c: TextClipView,
    temp: Seq<char>,
    first: Seq<char>,
    prefix: Seq<char>,
    shift: int,
) -> Seq<char> {
    pad(text_input(k, first, prefix, shift)) + drawtext_text(c, text_file_of(temp, c.id)) + pad(
        label(prefix, k + shift),
    )
}

/// The steps that draw the texts `cs` in turn, starting from the picture
/// `first`.
pub open spec fn text_graph(
    cs: Seq<TextClipView>,
    temp: Seq<char>,
    first: Seq<char>,
    prefix: Seq<char>,
    shift: int,
) -> Seq<Seq<char>> {
    Seq::new(cs.len(), |k: int| text_step(k, cs[k], temp, first, prefix, shift))
}

/// The picture after the texts: `first` when there are none.
pub open spec fn text_output(n: int, first: Seq<char>, prefix: Seq<char>, shift: int) -> Seq<char> {
    text_input(n, first, prefix, shift)
}

fn push_label(s: &mut String, prefix: &str, k: usize)
    ensures
        final(s)@ == old(s)@ + pad(label(prefix@, k as int)),
{
    let ghost s0 = s@;
    push_str(s, "[");
    push_str(s, prefix);
    push_u64(s, k as u64);
    push_str(s, "]");
    assert(s@ =~= s0 + pad(label(prefix@, k as int)));
}

/// Appends the steps of `text_graph` for `cs` to `graph`.
pub fn push_text_steps(
    graph: &mut Vec<String>,
    cs: &Vec<TextClip>,
    temp: &str,
    first: &str,
    prefix: &str,
    shift: usize,
)
    requires
        cs@.len() + shift < usize::MAX,
    ensures
        views(final(graph)@) == views(old(graph)@) + text_graph(
            text_views(cs@),
            temp@,
            first@,
            prefix@,
            shift as int,
        ),
{
    let ghost g0 = views(graph@);
    let ghost tv = text_views(cs@);
    let mut i: usize = 0;
    while i < cs.len()
        invariant
            0 <= i <= cs@.len(),
            cs@.len() + shift < usize::MAX,
            tv == text_views(cs@),
            views(graph@) == g0 + Seq::new(
                i as nat,
                |k: int| text_step(k, tv[k], temp@, first@, prefix@, shift as int),
            ),
        decreases cs.len() - i,
    {
        let c = &cs[i];
        let mut s = String::new();
        if i == 0 {
            push_str(&mut s, "[");
            push_str(&mut s, first);
            push_str(&mut s, "]");
        } else {
            push_label(&mut s, prefix, i - 1 + shift);
        }
        let file = text_file_path(temp, c.id);
        push_str(&mut s, build_drawtext_filter(c, file.as_str()).as_str());
        push_label(&mut s, prefix, i + shift);
        assert(tv[i as int] == c@);
        assert(s@ =~= text_step(i as int, tv[i as int], temp@, first@, prefix@, shift as int));
        let ghost before = views(graph@);
        push_filter(graph, s);
        assert(views(graph@) =~= g0 + Seq::new(
            (i + 1) as nat,
            |k: int| text_step(k, tv[k], temp@, first@, prefix@, shift as int),
        ));
        i = i + 1;
    }
    assert(Seq::new(cs@.len(), |k: int| text_step(k, tv[k], temp@, first@, prefix@, shift as int))
        =~= text_graph(tv, temp@, first@, prefix@, shift as int));
}

// ─── Text preview ───────────────────────────────────────────────────────────

/// The black background of the preview: `color=c=black:s=WxH:d=<length>[bg0]`.
pub open spec fn preview_background(w: u32, h: u32, len: int) -> Seq<char> {
    "color=c=black:s="@ + decimal(w as nat) + "x"@ + decimal(h as nat) + ":d="@ + millis_text(len)
        + "[bg0]"@
}

/// The command of the text preview of a project: every text of the unmuted
/// tracks drawn in turn over a black background as long as the project,
/// without audio, into `output` with the codec of `format`.
pub open spec fn text_preview_command(
    p: ProjectView,
    temp: Seq<char>,
    output: Seq<char>,
    format: VideoFormat,
    w: u32,
    h: u32,
) -> CommandView {
    let cs = shown_texts(p.tracks, false);
    CommandView {
        args: seq![
            "-hide_banner"@,
            "-threads"@,
            "0"@,
            "-y"@,
            "-map"@,
            pad(text_output(cs.len() as int, "bg0"@, "bg"@, 1)),
            "-an"@,
            "-c:v"@,
            video_codec(format),
        ],
        video_filters: Seq::empty(),
        audio_filters: Seq::empty(),
        complex_filters: seq![
            joined(
                seq![preview_background(w, h, longest_track(p.tracks))] + text_graph(
                    cs,
                    temp,
                    "bg0"@,
                    "bg"@,
                    1,
                ),
                ";"@,
            ),
        ],
        output: Some(output),
    }
}

/// The FFmpeg command of a quick preview that draws only the texts of
/// `project` (see `text_preview_command`), with the text files in
/// `temp_dir`; refused when the project has no length.
pub fn render_text_preview(
    project: &Project,
    output: &str,
    format: &VideoFormat,
    width: u32,
    height: u32,
    temp_dir: &str,
) -> (r: Result<FfmpegCommand, RenderError>)
    requires
        shown_texts(project@.tracks, false).len() + 1 < usize::MAX,
    ensures
        longest_track(project@.tracks) <= 0 ==> r == Err::<FfmpegCommand, RenderError>(
            RenderError::EmptyProject,
        ),
        longest_track(project@.tracks) > 0 ==> (r matches Ok(c) && c@ == text_preview_command(
            project@,
            temp_dir@,
            output@,
            *format,
            width,
            height,
        )),
{
    let total = project.duration_secs();
    if total <= 0 {
        return Err(RenderError::EmptyProject);
    }
    let cs = collect_texts(&project.tracks, false);
    let n = cs.len();
    let mut graph: Vec<String> = Vec::new();
    let mut bg = owned("color=c=black:s=");
    push_u64(&mut bg, width as u64);
    push_str(&mut bg, "x");
    push_u64(&mut bg, height as u64);
    push_str(&mut bg, ":d=");
    push_millis_wide(&mut bg, total);
    push_str(&mut bg, "[bg0]");
    assert(bg@ =~= preview_background(width, height, longest_track(project@.tracks)));
    push_filter(&mut graph, bg);
    let ghost g1 = views(graph@);
    push_text_steps(&mut graph, &cs, temp_dir, "bg0", "bg", 1);
    assert(views(graph@) =~= seq![preview_background(width, height, longest_track(project@.tracks))]
        + text_graph(shown_texts(project@.tracks, false), temp_dir@, "bg0"@, "bg"@, 1));
    let mut args: Vec<String> = Vec::new();
    push_filter(&mut args, owned("-hide_banner"));
    push_filter(&mut args, owned("-threads"));
    push_filter(&mut args, owned("0"));
    push_filter(&mut args, owned("-y"));
    push_filter(&mut args, owned("-map"));
    let mut m = String::new();
    if n == 0 {
        push_str(&mut m, "[");
        push_str(&mut m, "bg0");
        push_str(&mut m, "]");
    } else {
        push_label(&mut m, "bg", n - 1 + 1);
    }
    assert(m@ =~= pad(text_output(n as int, "bg0"@, "bg"@, 1)));
    push_filter(&mut args, m);
    push_filter(&mut args, owned("-an"));
    push_filter(&mut args, owned("-c:v"));
    push_filter(&mut args, owned(video_codec_for(format)));
    let mut complex: Vec<String> = Vec::new();
    push_filter(&mut complex, join(&graph, ";"));
    let r = FfmpegCommand::from_parts(args, complex, Some(owned(output)));
    let ghost want = text_preview_command(project@, temp_dir@, output@, *format, width, height);
    assert(r@.args =~= want.args);
    assert(r@.video_filters =~= want.video_filters);
    assert(r@.audio_filters =~= want.audio_filters);
    assert(r@.complex_filters =~= want.complex_filters);
    Ok(r)
}

} // verus!
