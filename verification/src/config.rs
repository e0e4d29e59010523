//! Global configuration: preferred encoder, default resolution, paths to the
//! FFmpeg binaries, cache directory, thread limits, and the rules that apply
//! environment overrides and `config set` keys on top of a configuration.
//!
//! Values come, in order of priority, from environment variables (`VEDIT_*`),
//! the persisted configuration file, and the defaults of [`VeditConfig::default`].
use vstd::prelude::*;
use crate::textutil::{
    ascii_lower, is_ascii_char, is_ascii_text, is_digit_char, is_whitespace, lemma_ascii_lower_keeps,
    lemma_decimal_digits,
    decimal, join_path, lowercase, owned, parse_u32, parse_u32_spec, path_join, push_char, push_str,
    push_u64, str_eq, to_lowercase, trim, trimmed, u64_to_string, views,
};

verus! {

// ─── PreferredEncoder ───────────────────────────────────────────────────────

/// Video encoder used when a render does not name one explicitly.
#[derive(Debug, Clone, PartialEq, Eq)]
pub enum PreferredEncoder {
    /// CPU only (`libx264`), the most portable choice.
    Libx264,
    /// NVIDIA NVENC (`h264_nvenc`).
    H264Nvenc,
    /// Intel VA-API (`h264_vaapi`).
    H264Vaapi,
    /// AMD AMF (`h264_amf`).
    H264Amf,
    /// Any other codec name understood by the local FFmpeg.
    Custom(String),
}

impl PreferredEncoder {
    /// The FFmpeg codec name of an encoder.
    pub open spec fn codec(self) -> Seq<char> {
        match self {
            PreferredEncoder::Libx264 => "libx264"@,
            PreferredEncoder::H264Nvenc => "h264_nvenc"@,
            PreferredEncoder::H264Vaapi => "h264_vaapi"@,
            PreferredEncoder::H264Amf => "h264_amf"@,
            PreferredEncoder::Custom(s) => s@,
        }
    }

    /// The codec name as FFmpeg understands it.
    pub fn as_ffmpeg_codec(&self) -> (r: &str)
        ensures
            r@ == self.codec(),
    {
        match self {
            PreferredEncoder::Libx264 => "libx264",
            PreferredEncoder::H264Nvenc => "h264_nvenc",
            PreferredEncoder::H264Vaapi => "h264_vaapi",
            PreferredEncoder::H264Amf => "h264_amf",
            PreferredEncoder::Custom(s) => s.as_str(),
        }
    }

    /// Whether the encoder needs an extra hardware upload filter (VA-API only).
    pub fn requires_hwaccel_filter(&self) -> (r: bool)
        ensures
            r == (*self is H264Vaapi),
    {
        match self {
            PreferredEncoder::H264Vaapi => true,
            _ => false,
        }
    }

    /// The text shown for an encoder: its codec name.
    pub fn display(&self) -> (r: String)
        ensures
            r@ == self.codec(),
    {
        owned(self.as_ffmpeg_codec())
    }
}

impl Default for PreferredEncoder {
    fn default() -> (r: Self)
        ensures
            r == PreferredEncoder::Libx264,
    {
        PreferredEncoder::Libx264
    }
}

/// The encoder chosen by an already lower-cased name: the four known names
/// select their variant, any other name becomes `Custom` with that name.
pub open spec fn encoder_for(e: PreferredEncoder, lower: Seq<char>) -> bool {
    if lower == "libx264"@ {
        e == PreferredEncoder::Libx264
    } else if lower == "h264_nvenc"@ {
        e == PreferredEncoder::H264Nvenc
    } else if lower == "h264_vaapi"@ {
        e == PreferredEncoder::H264Vaapi
    } else if lower == "h264_amf"@ {
        e == PreferredEncoder::H264Amf
    } else {
        e matches PreferredEncoder::Custom(s) && s@ == lower
    }
}

/// Selects the encoder for a name that is already in lower case.
pub fn encoder_from_lowercase(lower: &str) -> (r: PreferredEncoder)
    ensures
        encoder_for(r, lower@),
{
    if str_eq(lower, "libx264") {
        PreferredEncoder::Libx264
    } else if str_eq(lower, "h264_nvenc") {
        PreferredEncoder::H264Nvenc
    } else if str_eq(lower, "h264_vaapi") {
        PreferredEncoder::H264Vaapi
    } else if str_eq(lower, "h264_amf") {
        PreferredEncoder::H264Amf
    } else {
        PreferredEncoder::Custom(owned(lower))
    }
}

/// Parses an encoder name case-insensitively (`config set preferred-encoder`,
/// `VEDIT_ENCODER`).
pub fn parse_encoder(value: &str) -> (r: PreferredEncoder)
    ensures
        encoder_for(r, lowercase(value@)),
        is_ascii_text(value@) ==> encoder_for(r, ascii_lower(value@)),
{
    let lower = to_lowercase(value);
    encoder_from_lowercase(lower.as_str())
}

/// Whether a name is one of the four encoders known by name.
pub open spec fn known_codec(l: Seq<char>) -> bool {
    l == "libx264"@ || l == "h264_nvenc"@ || l == "h264_vaapi"@ || l == "h264_amf"@
}

/// An encoder's codec name parses back to the encoder (`r` is what
/// `parse_encoder` gives for that name): a named encoder always, a custom one
/// whose name is in lower case already and is none of the known names.
pub proof fn law_encoder_name_round_trip(e: PreferredEncoder, r: PreferredEncoder)
    requires
        encoder_for(r, lowercase(e.codec())),
        is_ascii_text(e.codec()) ==> encoder_for(r, ascii_lower(e.codec())),
        e matches PreferredEncoder::Custom(s) ==> lowercase(s@) == s@ && !known_codec(s@),
    ensures
        r.codec() == e.codec(),
        !(e is Custom) ==> r == e,
        (e is Custom) == (r is Custom),
{
    reveal_strlit("libx264");
    reveal_strlit("h264_nvenc");
    reveal_strlit("h264_vaapi");
    reveal_strlit("h264_amf");
    if !(e is Custom) {
        let c = e.codec();
        assert forall|j: int| 0 <= j < c.len() implies #[trigger] is_ascii_char(c[j]) && !(65 <= (
        c[j] as u32) <= 90) by {}
        lemma_ascii_lower_keeps(c);
        assert(encoder_for(r, c));
        match e {
            PreferredEncoder::Libx264 => {
                assert(c == "libx264"@);
                assert(r == PreferredEncoder::Libx264);
            },
            PreferredEncoder::H264Nvenc => {
                assert(c == "h264_nvenc"@);
                assert(r == PreferredEncoder::H264Nvenc);
            },
            PreferredEncoder::H264Vaapi => {
                assert(c == "h264_vaapi"@);
                assert(c[5] != "h264_nvenc"@[5]);
                assert(r == PreferredEncoder::H264Vaapi);
            },
            PreferredEncoder::H264Amf => {
                assert(c == "h264_amf"@);
                assert(c.len() != "h264_nvenc"@.len());
                assert(r == PreferredEncoder::H264Amf);
            },
            PreferredEncoder::Custom(_) => {},
        }
    }
}

// ─── DefaultAspectRatio ─────────────────────────────────────────────────────

/// Default resolution for new projects.
#[derive(Debug, Clone, Copy, PartialEq, Eq, Structural)]
pub enum DefaultAspectRatio {
    /// 16:9, 1920×1080.
    Widescreen,
    /// 9:16, 1080×1920 (reels, shorts).
    Portrait,
    /// 1:1, 1080×1080.
    Square,
    /// Any width and height.
    Custom { width: u32, height: u32 },
}

impl DefaultAspectRatio {
    /// `(width, height)` in pixels of a default resolution.
    pub open spec fn dims(self) -> (u32, u32) {
        match self {
            DefaultAspectRatio::Widescreen => (1920u32, 1080u32),
            DefaultAspectRatio::Portrait => (1080u32, 1920u32),
            DefaultAspectRatio::Square => (1080u32, 1080u32),
            DefaultAspectRatio::Custom { width, height } => (width, height),
        }
    }

    /// `(width, height)` in pixels.
    pub fn dimensions(&self) -> (r: (u32, u32))
        ensures
            r == self.dims(),
    {
        match self {
            DefaultAspectRatio::Widescreen => (1920, 1080),
            DefaultAspectRatio::Portrait => (1080, 1920),
            DefaultAspectRatio::Square => (1080, 1080),
            DefaultAspectRatio::Custom { width, height } => (*width, *height),
        }
    }

    /// The text shown for a resolution: `WxH`.
    pub fn display(&self) -> (r: String)
        ensures
            r@ == decimal(self.dims().0 as nat) + seq!['x'] + decimal(self.dims().1 as nat),
    {
        let (w, h) = self.dimensions();
        let mut s = u64_to_string(w as u64);
        push_char(&mut s, 'x');
        push_u64(&mut s, h as u64);
        s
    }
}

impl Default for DefaultAspectRatio {
    fn default() -> (r: Self)
        ensures
            r == DefaultAspectRatio::Widescreen,
    {
        DefaultAspectRatio::Widescreen
    }
}

// ─── Errors ─────────────────────────────────────────────────────────────────

/// Why a configuration value was refused.
#[derive(Debug, Clone, PartialEq, Eq)]
pub enum ConfigError {
    /// The width part of `WxH` is not a number.
    InvalidWidth(String),
    /// The height part of `WxH` is not a number.
    InvalidHeight(String),
    /// `WxH` with a zero width or height.
    ZeroDimension,
    /// Neither a known preset nor `WxH`.
    UnknownResolution(String),
    /// A default FPS outside `1..=240`.
    FpsOutOfRange(u32),
    /// A log level other than trace, debug, info, warn, error.
    InvalidLogLevel(String),
}

impl ConfigError {
    /// The message shown to the user for this error.
    pub open spec fn text(self) -> Seq<char> {
        match self {
            ConfigError::InvalidWidth(s) => "Ancho inválido: '"@ + s@ + "'"@,
            ConfigError::InvalidHeight(s) => "Alto inválido: '"@ + s@ + "'"@,
            ConfigError::ZeroDimension => "La resolución no puede tener dimensiones en cero."@,
            ConfigError::UnknownResolution(s) => "Resolución '"@ + s@
                + "' no reconocida. Usa: widescreen, portrait, square, o WxH (ej. 3840x2160)"@,
            ConfigError::FpsOutOfRange(v) => "FPS debe estar entre 1 y 240. Recibido: "@ + decimal(
                v as nat,
            ),
            ConfigError::InvalidLogLevel(s) => "Nivel de log inválido: '"@ + s@
                + "'. Opciones válidas: [\"trace\", \"debug\", \"info\", \"warn\", \"error\"]"@,
        }
    }

    /// The message shown to the user.
    pub fn message(&self) -> (r: String)
        ensures
            r@ == self.text(),
    {
        let mut r = String::new();
        match self {
            ConfigError::InvalidWidth(s) => {
                push_str(&mut r, "Ancho inválido: '");
                push_str(&mut r, s.as_str());
                push_str(&mut r, "'");
            },
            ConfigError::InvalidHeight(s) => {
                push_str(&mut r, "Alto inválido: '");
                push_str(&mut r, s.as_str());
                push_str(&mut r, "'");
            },
            ConfigError::ZeroDimension => {
                push_str(&mut r, "La resolución no puede tener dimensiones en cero.");
            },
            ConfigError::UnknownResolution(s) => {
                push_str(&mut r, "Resolución '");
                push_str(&mut r, s.as_str());
                push_str(
                    &mut r,
                    "' no reconocida. Usa: widescreen, portrait, square, o WxH (ej. 3840x2160)",
                );
            },
            ConfigError::FpsOutOfRange(v) => {
                push_str(&mut r, "FPS debe estar entre 1 y 240. Recibido: ");
                push_u64(&mut r, *v as u64);
            },
            ConfigError::InvalidLogLevel(s) => {
                push_str(&mut r, "Nivel de log inválido: '");
                push_str(&mut r, s.as_str());
                push_str(
                    &mut r,
                    "'. Opciones válidas: [\"trace\", \"debug\", \"info\", \"warn\", \"error\"]",
                );
            },
        }
        assert(r@ =~= self.text());
        r
    }
}

// ─── Resolution parsing ─────────────────────────────────────────────────────

/// The pieces of `s` between occurrences of `c`, as `s.split(c)` yields them.
pub open spec fn split_on(s: Seq<char>, c: char) -> Seq<Seq<char>>
    decreases s.len(),
{
    if s.len() == 0 {
        seq![Seq::<char>::empty()]
    } else {
        let init = split_on(s.drop_last(), c);
        if s.last() == c {
            init.push(Seq::empty())
        } else {
            init.update(init.len() - 1, init.last().push(s.last()))
        }
    }
}

proof fn lemma_split_nonempty(s: Seq<char>, c: char)
    ensures
        split_on(s, c).len() >= 1,
    decreases s.len(),
{
    if s.len() > 0 {
        lemma_split_nonempty(s.drop_last(), c);
    }
}

/// `s.split(c).collect::<Vec<_>>()`.
pub fn split_char(s: &str, c: char) -> (r: Vec<String>)
    ensures
        views(r@) == split_on(s@, c),
{
    let n = s.unicode_len();
    let mut parts: Vec<String> = Vec::new();
    parts.push(String::new());
    let mut i: usize = 0;
    while i < n
        invariant
            n == s@.len(),
            0 <= i <= n,
            parts@.len() >= 1,
            views(parts@) == split_on(s@.take(i as int), c),
        decreases n - i,
    {
        let ch = s.get_char(i);
        let ghost prev = views(parts@);
        assert(s@.take(i + 1).drop_last() =~= s@.take(i as int));
        assert(s@.take(i + 1).last() == ch);
        if ch == c {
            parts.push(String::new());
            assert(views(parts@) =~= prev.push(Seq::empty()));
        } else {
            let last = parts.len() - 1;
            let mut piece = parts.pop().unwrap();
            push_char(&mut piece, ch);
            parts.push(piece);
            assert(views(parts@) =~= prev.update(prev.len() - 1, prev.last().push(ch)));
        }
        i = i + 1;
    }
    assert(s@.take(n as int) =~= s@);
    parts
}

/// What `parse_resolution` gives for a value whose lower-case form is `l`
/// (`value` is the text as typed, used in the error messages).
pub open spec fn resolution_for(l: Seq<char>, value: Seq<char>, r: Result<
    DefaultAspectRatio,
    ConfigError,
>) -> bool {
    if l == "widescreen"@ || l == "16:9"@ {
        r == Ok::<DefaultAspectRatio, ConfigError>(DefaultAspectRatio::Widescreen)
    } else if l == "portrait"@ || l == "9:16"@ {
        r == Ok::<DefaultAspectRatio, ConfigError>(DefaultAspectRatio::Portrait)
    } else if l == "square"@ || l == "1:1"@ {
        r == Ok::<DefaultAspectRatio, ConfigError>(DefaultAspectRatio::Square)
    } else {
        let parts = split_on(l, 'x');
        if parts.len() != 2 {
            r matches Err(ConfigError::UnknownResolution(v)) && v@ == value
        } else if parse_u32_spec(trimmed(parts[0])) is None {
            r matches Err(ConfigError::InvalidWidth(v)) && v@ == parts[0]
        } else if parse_u32_spec(trimmed(parts[1])) is None {
            r matches Err(ConfigError::InvalidHeight(v)) && v@ == parts[1]
        } else {
            let w = parse_u32_spec(trimmed(parts[0]))->0;
            let h = parse_u32_spec(trimmed(parts[1]))->0;
            if w == 0 || h == 0 {
                r == Err::<DefaultAspectRatio, ConfigError>(ConfigError::ZeroDimension)
            } else {
                r == Ok::<DefaultAspectRatio, ConfigError>(
                    DefaultAspectRatio::Custom { width: w, height: h },
                )
            }
        }
    }
}

/// Resolution for an already lower-cased text `lower`; `value` is the text as
/// typed, quoted in the error for an unknown resolution.
pub fn resolution_from_lowercase(lower: &str, value: &str) -> (r: Result<
    DefaultAspectRatio,
    ConfigError,
>)
    ensures
        resolution_for(lower@, value@, r),
{
    if str_eq(lower, "widescreen") || str_eq(lower, "16:9") {
        return Ok(DefaultAspectRatio::Widescreen);
    }
    if str_eq(lower, "portrait") || str_eq(lower, "9:16") {
        return Ok(DefaultAspectRatio::Portrait);
    }
    if str_eq(lower, "square") || str_eq(lower, "1:1") {
        return Ok(DefaultAspectRatio::Square);
    }
    let parts = split_char(lower, 'x');
    proof {
        lemma_split_nonempty(lower@, 'x');
    }
    assert(views(parts@)[0] == parts@[0]@);
    if parts.len() != 2 {
        return Err(ConfigError::UnknownResolution(owned(value)));
    }
    assert(views(parts@)[1] == parts@[1]@);
    let wt = trim(parts[0].as_str());
    let w = match parse_u32(wt.as_str()) {
        Some(w) => w,
        None => {
            return Err(ConfigError::InvalidWidth(parts[0].clone()));
        },
    };
    let ht = trim(parts[1].as_str());
    let h = match parse_u32(ht.as_str()) {
        Some(h) => h,
        None => {
            return Err(ConfigError::InvalidHeight(parts[1].clone()));
        },
    };
    if w == 0 || h == 0 {
        return Err(ConfigError::ZeroDimension);
    }
    Ok(DefaultAspectRatio::Custom { width: w, height: h })
}

/// Parses a resolution: `widescreen`/`16:9`, `portrait`/`9:16`, `square`/`1:1`
/// (case-insensitive), or `WxH` with non-zero width and height.
pub fn parse_resolution(value: &str) -> (r: Result<DefaultAspectRatio, ConfigError>)
    ensures
        resolution_for(lowercase(value@), value@, r),
        is_ascii_text(value@) ==> resolution_for(ascii_lower(value@), value@, r),
{
    let lower = to_lowercase(value);
    resolution_from_lowercase(lower.as_str(), value)
}

proof fn lemma_split_append(pre: Seq<char>, b: Seq<char>, c: char)
    requires
        !b.contains(c),
    ensures
        split_on(pre + b, c) == split_on(pre, c).update(
            split_on(pre, c).len() - 1,
            split_on(pre, c).last() + b,
        ),
    decreases b.len(),
{
    lemma_split_nonempty(pre, c);
    if b.len() == 0 {
        assert(pre + b =~= pre);
        assert(split_on(pre, c).last() + b =~= split_on(pre, c).last());
        assert(split_on(pre, c).update(split_on(pre, c).len() - 1, split_on(pre, c).last())
            =~= split_on(pre, c));
    } else {
        let b0 = b.drop_last();
        assert(!b0.contains(c)) by {
            if b0.contains(c) {
                let j = choose|j: int| 0 <= j < b0.len() && b0[j] == c;
                assert(b[j] == c);
            }
        }
        lemma_split_append(pre, b0, c);
        assert((pre + b).drop_last() =~= pre + b0);
        assert((pre + b).last() == b.last());
        assert(b.last() != c) by {
            assert(b[b.len() - 1] == b.last());
        }
        lemma_split_nonempty(pre + b0, c);
        let init = split_on(pre + b0, c);
        let sp = split_on(pre, c);
        assert(init.len() == sp.len());
        assert(init.last() == sp.last() + b0);
        assert(init.last().push(b.last()) =~= sp.last() + b);
        assert(init.update(init.len() - 1, init.last().push(b.last())) =~= sp.update(
            sp.len() - 1,
            sp.last() + b,
        ));
    }
}

/// `WxH` text splits on `x` into the width and the height.
proof fn lemma_split_dims(a: Seq<char>, b: Seq<char>)
    requires
        !a.contains('x'),
        !b.contains('x'),
    ensures
        split_on(a + seq!['x'] + b, 'x') == seq![a, b],
{
    let e = Seq::<char>::empty();
    lemma_split_append(e, a, 'x');
    assert(e + a =~= a);
    assert(split_on(e, 'x') == seq![e]);
    assert(split_on(a, 'x') =~= seq![a]);
    let ax = a + seq!['x'];
    assert(ax.drop_last() =~= a);
    assert(split_on(ax, 'x') =~= seq![a, e]);
    lemma_split_append(ax, b, 'x');
    assert(e + b =~= b);
}

proof fn lemma_digits_text(n: nat)
    ensures
        !decimal(n).contains('x'),
        trimmed(decimal(n)) == decimal(n),
        parse_u32_spec(decimal(n)) == (if n <= u32::MAX {
            Some(n as u32)
        } else {
            None::<u32>
        }),
        is_ascii_text(decimal(n)),
        forall|i: int| 0 <= i < decimal(n).len() ==> !(65 <= (#[trigger] decimal(n)[i] as u32) <= 90),
{
    lemma_decimal_digits(n);
    let s = decimal(n);
    assert(!s.contains('x')) by {
        if s.contains('x') {
            let j = choose|j: int| 0 <= j < s.len() && s[j] == 'x';
            assert(is_digit_char(s[j]));
        }
    }
    assert(is_digit_char(s[0]));
    assert(is_digit_char(s[s.len() - 1]));
    assert(!is_whitespace(s[0]));
    assert(!is_whitespace(s[s.len() - 1]));
    assert(s.subrange(0, s.len() as int) =~= s);
    assert(s[0] != '+');
    assert forall|i: int| 0 <= i < s.len() implies #[trigger] is_ascii_char(s[i]) by {
        assert(is_digit_char(s[i]));
    }
    assert forall|i: int| 0 <= i < s.len() implies !(65 <= (#[trigger] s[i] as u32) <= 90) by {
        assert(is_digit_char(s[i]));
    }
}

/// The `WxH` text of a resolution parses back to a custom resolution of the
/// same size (`r` is what `parse_resolution` gives for that text), when both
/// sides are positive.
pub proof fn law_resolution_round_trip(d: DefaultAspectRatio, r: Result<DefaultAspectRatio, ConfigError>)
    requires
        d.dims().0 > 0,
        d.dims().1 > 0,
        ({
            let t = decimal(d.dims().0 as nat) + seq!['x'] + decimal(d.dims().1 as nat);
            is_ascii_text(t) ==> resolution_for(ascii_lower(t), t, r)
        }),
    ensures
        is_ascii_text(decimal(d.dims().0 as nat) + seq!['x'] + decimal(d.dims().1 as nat)),
        r == Ok::<DefaultAspectRatio, ConfigError>(
            DefaultAspectRatio::Custom { width: d.dims().0, height: d.dims().1 },
        ),
{
    let w = d.dims().0;
    let h = d.dims().1;
    let a = decimal(w as nat);
    let b = decimal(h as nat);
    let t = a + seq!['x'] + b;
    lemma_digits_text(w as nat);
    lemma_digits_text(h as nat);
    assert forall|i: int| 0 <= i < t.len() implies #[trigger] is_ascii_char(t[i]) && !(65 <= (
    t[i] as u32) <= 90) by {
        if i < a.len() {
            assert(t[i] == a[i]);
        } else if i > a.len() {
            assert(t[i] == b[i - a.len() - 1]);
        }
    }
    lemma_ascii_lower_keeps(t);
    lemma_split_dims(a, b);
    assert(t[a.len() as int] == 'x');
    reveal_strlit("widescreen");
    reveal_strlit("16:9");
    reveal_strlit("portrait");
    reveal_strlit("9:16");
    reveal_strlit("square");
    reveal_strlit("1:1");
    assert(t != "widescreen"@ && t != "16:9"@ && t != "portrait"@ && t != "9:16"@ && t
        != "square"@ && t != "1:1"@) by {
        assert(t.contains('x'));
        assert(!"widescreen"@.contains('x'));
        assert(!"16:9"@.contains('x'));
        assert(!"portrait"@.contains('x'));
        assert(!"9:16"@.contains('x'));
        assert(!"square"@.contains('x'));
        assert(!"1:1"@.contains('x'));
    }
}

// ─── VeditConfig ────────────────────────────────────────────────────────────

/// Global configuration of the editor.
#[derive(Debug, Clone)]
pub struct VeditConfig {
    /// Path to the `ffmpeg` binary; `None` looks it up in `PATH`.
    pub ffmpeg_path: Option<String>,
    /// Path to the `ffprobe` binary; `None` looks it up in `PATH`.
    pub ffprobe_path: Option<String>,
    /// Global cache directory; `None` uses `<project_dir>/.vedit_cache`.
    pub cache_dir: Option<String>,
    /// Preferred video encoder.
    pub preferred_encoder: PreferredEncoder,
    /// VA-API device used with hardware encoding.
    pub vaapi_device: String,
    /// Default FPS for new projects.
    pub default_fps: u32,
    /// Default resolution for new projects.
    pub default_resolution: DefaultAspectRatio,
    /// Maximum FFmpeg threads; `0` lets FFmpeg decide.
    pub max_threads: u32,
    /// Remove the cache directory after a successful render.
    pub cleanup_cache_on_exit: bool,
    /// Default log level when none is given on the command line.
    pub log_level: String,
}

/// The character sequence held by an optional string.
pub open spec fn opt_view(o: Option<String>) -> Option<Seq<char>> {
    match o {
        Some(s) => Some(s@),
        None => None,
    }
}

/// The log levels that `config set log-level` accepts.
pub open spec fn valid_log_level(s: Seq<char>) -> bool {
    s == "trace"@ || s == "debug"@ || s == "info"@ || s == "warn"@ || s == "error"@
}

/// Values of the `VEDIT_*` environment variables, each `None` when unset.
#[derive(Debug, Clone)]
pub struct EnvOverrides {
    /// `VEDIT_FFMPEG_PATH`
    pub ffmpeg_path: Option<String>,
    /// `VEDIT_FFPROBE_PATH`
    pub ffprobe_path: Option<String>,
    /// `VEDIT_CACHE_DIR`
    pub cache_dir: Option<String>,
    /// `VEDIT_ENCODER`
    pub encoder: Option<String>,
    /// `VEDIT_VAAPI_DEVICE`
    pub vaapi_device: Option<String>,
    /// `VEDIT_MAX_THREADS`
    pub max_threads: Option<String>,
    /// `VEDIT_CLEANUP_CACHE`
    pub cleanup_cache: Option<String>,
    /// `VEDIT_LOG`
    pub log_level: Option<String>,
}

/// A key of `config set` with its value.
#[derive(Debug, Clone)]
pub enum ConfigKey {
    /// Path to FFmpeg, or `auto` to search `PATH`.
    FfmpegPath { value: String },
    /// Path to FFprobe, or `auto` to search `PATH`.
    FfprobePath { value: String },
    /// Global cache directory, or `auto` for the per-project directory.
    CacheDir { value: String },
    /// Encoder name.
    PreferredEncoder { value: String },
    /// Default FPS (1 to 240).
    DefaultFps { value: u32 },
    /// Default resolution (preset or `WxH`).
    DefaultResolution { value: String },
    /// Maximum FFmpeg threads (0 = automatic).
    MaxThreads { value: u32 },
    /// Clean the cache after rendering.
    CleanupCacheOnExit { value: bool },
    /// Default log level.
    LogLevel { value: String },
}

/// Subcommands of `vedit config`.
#[derive(Debug, Clone)]
pub enum ConfigCmd {
    /// Show the current configuration.
    Show,
    /// Set one value (`config set`).
    SetValue { key: ConfigKey },
    /// Reset to defaults (`yes` confirms).
    Reset { yes: bool },
    /// Print the path of the configuration file.
    Path,
    /// Check that FFmpeg and FFprobe can be reached.
    Check,
}

/// `None` for the word `auto`, otherwise the value itself.
pub open spec fn auto_or(v: Seq<char>) -> Option<Seq<char>> {
    if v == "auto"@ {
        None
    } else {
        Some(v)
    }
}

impl VeditConfig {
    /// Every field except the ones named by the relation is the same in `a` and `b`.
    pub open spec fn same_except_paths(a: VeditConfig, b: VeditConfig) -> bool {
        &&& a.preferred_encoder == b.preferred_encoder
        &&& a.vaapi_device@ == b.vaapi_device@
        &&& a.default_fps == b.default_fps
        &&& a.default_resolution == b.default_resolution
        &&& a.max_threads == b.max_threads
        &&& a.cleanup_cache_on_exit == b.cleanup_cache_on_exit
        &&& a.log_level@ == b.log_level@
    }

    /// Path of the configuration file for home directory `home`:
    /// `<home>/.config/vedit/config.json`.
    pub fn config_path(home: &str) -> (r: String)
        ensures
            r@ == path_join(
                path_join(path_join(home@, ".config"@), "vedit"@),
                "config.json"@,
            ),
    {
        let a = join_path(home, ".config");
        let b = join_path(a.as_str(), "vedit");
        join_path(b.as_str(), "config.json")
    }

    /// Effective `ffmpeg` binary: the configured path, or `ffmpeg` from `PATH`.
    pub fn ffmpeg_binary(&self) -> (r: String)
        ensures
            r@ == (match self.ffmpeg_path {
                Some(p) => p@,
                None => "ffmpeg"@,
            }),
    {
        match &self.ffmpeg_path {
            Some(p) => p.clone(),
            None => owned("ffmpeg"),
        }
    }

    /// Effective `ffprobe` binary: the configured path, or `ffprobe` from `PATH`.
    pub fn ffprobe_binary(&self) -> (r: String)
        ensures
            r@ == (match self.ffprobe_path {
                Some(p) => p@,
                None => "ffprobe"@,
            }),
    {
        match &self.ffprobe_path {
            Some(p) => p.clone(),
            None => owned("ffprobe"),
        }
    }

    /// Cache directory for a project: the global one when configured, otherwise
    /// `<project_dir>/.vedit_cache`.
    pub fn resolve_cache_dir(&self, project_dir: &str) -> (r: String)
        ensures
            r@ == (match self.cache_dir {
                Some(d) => d@,
                None => path_join(project_dir@, ".vedit_cache"@),
            }),
    {
        match &self.cache_dir {
            Some(d) => d.clone(),
            None => join_path(project_dir, ".vedit_cache"),
        }
    }

    /// `-threads N` for FFmpeg, or nothing when the limit is automatic (0).
    pub fn ffmpeg_thread_args(&self) -> (r: Vec<String>)
        ensures
            self.max_threads > 0 ==> views(r@) == seq!["-threads"@, decimal(self.max_threads as nat)],
            self.max_threads == 0 ==> r@.len() == 0,
    {
        let mut v: Vec<String> = Vec::new();
        if self.max_threads > 0 {
            v.push(owned("-threads"));
            v.push(u64_to_string(self.max_threads as u64));
            assert(views(v@) =~= seq!["-threads"@, decimal(self.max_threads as nat)]);
        }
        v
    }

    /// `(width, height)` of the default resolution.
    pub fn default_dimensions(&self) -> (r: (u32, u32))
        ensures
            r == self.default_resolution.dims(),
    {
        self.default_resolution.dimensions()
    }

    /// Applies the `VEDIT_*` environment variables, which take priority over the
    /// file: paths, device and log level are taken as given; the encoder is
    /// matched case-insensitively; the thread count only when it parses as a
    /// `u32`; the cleanup flag is on exactly for `1`, `true` or `yes` (any case).
    pub fn apply_env_overrides(&mut self, env: &EnvOverrides)
        ensures
            opt_view(final(self).ffmpeg_path) == (match env.ffmpeg_path {
                Some(p) => Some(p@),
                None => opt_view(old(self).ffmpeg_path),
            }),
            opt_view(final(self).ffprobe_path) == (match env.ffprobe_path {
                Some(p) => Some(p@),
                None => opt_view(old(self).ffprobe_path),
            }),
            opt_view(final(self).cache_dir) == (match env.cache_dir {
                Some(p) => Some(p@),
                None => opt_view(old(self).cache_dir),
            }),
            match env.encoder {
                Some(e) => encoder_for(final(self).preferred_encoder, lowercase(e@)),
                None => final(self).preferred_encoder == old(self).preferred_encoder,
            },
            final(self).vaapi_device@ == (match env.vaapi_device {
                Some(d) => d@,
                None => old(self).vaapi_device@,
            }),
            final(self).max_threads == (match env.max_threads {
                Some(t) => match parse_u32_spec(t@) {
                    Some(n) => n,
                    None => old(self).max_threads,
                },
                None => old(self).max_threads,
            }),
            final(self).cleanup_cache_on_exit == (match env.cleanup_cache {
                Some(v) => lowercase(v@) == "1"@ || lowercase(v@) == "true"@ || lowercase(v@)
                    == "yes"@,
                None => old(self).cleanup_cache_on_exit,
            }),
            final(self).log_level@ == (match env.log_level {
                Some(l) => l@,
                None => old(self).log_level@,
            }),
            final(self).default_fps == old(self).default_fps,
            final(self).default_resolution == old(self).default_resolution,
    {
        if let Some(p) = &env.ffmpeg_path {
            self.ffmpeg_path = Some(p.clone());
        }
        if let Some(p) = &env.ffprobe_path {
            self.ffprobe_path = Some(p.clone());
        }
        if let Some(p) = &env.cache_dir {
            self.cache_dir = Some(p.clone());
        }
        if let Some(e) = &env.encoder {
            self.preferred_encoder = parse_encoder(e.as_str());
        }
        if let Some(d) = &env.vaapi_device {
            self.vaapi_device = d.clone();
        }
        if let Some(t) = &env.max_threads {
            if let Some(n) = parse_u32(t.as_str()) {
                self.max_threads = n;
            }
        }
        if let Some(v) = &env.cleanup_cache {
            let l = to_lowercase(v.as_str());
            self.cleanup_cache_on_exit = str_eq(l.as_str(), "1") || str_eq(l.as_str(), "true")
                || str_eq(l.as_str(), "yes");
        }
        if let Some(l) = &env.log_level {
            self.log_level = l.clone();
        }
    }
}

impl Default for VeditConfig {
    fn default() -> (r: Self)
        ensures
            r.ffmpeg_path is None,
            r.ffprobe_path is None,
            r.cache_dir is None,
            r.preferred_encoder == PreferredEncoder::Libx264,
            r.vaapi_device@ == "/dev/dri/renderD128"@,
            r.default_fps == 30,
            r.default_resolution == DefaultAspectRatio::Widescreen,
            r.max_threads == 0,
            !r.cleanup_cache_on_exit,
            r.log_level@ == "info"@,
    {
        VeditConfig {
            ffmpeg_path: None,
            ffprobe_path: None,
            cache_dir: None,
            preferred_encoder: PreferredEncoder::Libx264,
            vaapi_device: owned("/dev/dri/renderD128"),
            default_fps: 30,
            default_resolution: DefaultAspectRatio::Widescreen,
            max_threads: 0,
            cleanup_cache_on_exit: false,
            log_level: owned("info"),
        }
    }
}

/// Applies one `config set` key to a configuration. A path set to `auto` is
/// cleared; the FPS must lie in `1..=240`, the resolution must parse and the log
/// level must be one of trace, debug, info, warn, error, else the configuration is
/// left unchanged and the error says why. On success only the setting named by
/// the key changes.
pub fn apply_key(cfg: &mut VeditConfig, key: ConfigKey) -> (r: Result<(), ConfigError>)
    ensures
        match key {
            ConfigKey::FfmpegPath { value } => {
                &&& r is Ok
                &&& opt_view(final(cfg).ffmpeg_path) == auto_or(value@)
                &&& opt_view(final(cfg).ffprobe_path) == opt_view(old(cfg).ffprobe_path)
                &&& opt_view(final(cfg).cache_dir) == opt_view(old(cfg).cache_dir)
                &&& VeditConfig::same_except_paths(*final(cfg), *old(cfg))
            },
            ConfigKey::FfprobePath { value } => {
                &&& r is Ok
                &&& opt_view(final(cfg).ffprobe_path) == auto_or(value@)
                &&& opt_view(final(cfg).ffmpeg_path) == opt_view(old(cfg).ffmpeg_path)
                &&& opt_view(final(cfg).cache_dir) == opt_view(old(cfg).cache_dir)
                &&& VeditConfig::same_except_paths(*final(cfg), *old(cfg))
            },
            ConfigKey::CacheDir { value } => {
                &&& r is Ok
                &&& opt_view(final(cfg).cache_dir) == auto_or(value@)
                &&& opt_view(final(cfg).ffmpeg_path) == opt_view(old(cfg).ffmpeg_path)
                &&& opt_view(final(cfg).ffprobe_path) == opt_view(old(cfg).ffprobe_path)
                &&& VeditConfig::same_except_paths(*final(cfg), *old(cfg))
            },
            ConfigKey::PreferredEncoder { value } => {
                &&& r is Ok
                &&& encoder_for(final(cfg).preferred_encoder, lowercase(value@))
                &&& *final(cfg) == (VeditConfig {
                    preferred_encoder: final(cfg).preferred_encoder,
                    ..*old(cfg)
                })
            },
            ConfigKey::DefaultFps { value } => if value == 0 || value > 240 {
                &&& r == Err::<(), ConfigError>(ConfigError::FpsOutOfRange(value))
                &&& *final(cfg) == *old(cfg)
            } else {
                &&& r is Ok
                &&& *final(cfg) == (VeditConfig { default_fps: value, ..*old(cfg) })
            },
            ConfigKey::DefaultResolution { value } => {
                &&& resolution_for(
                    lowercase(value@),
                    value@,
                    match r {
                        Ok(_) => Ok(final(cfg).default_resolution),
                        Err(e) => Err(e),
                    },
                )
                &&& (r is Err ==> *final(cfg) == *old(cfg))
                &&& (r is Ok ==> *final(cfg) == (VeditConfig {
                    default_resolution: final(cfg).default_resolution,
                    ..*old(cfg)
                }))
            },
            ConfigKey::MaxThreads { value } => {
                &&& r is Ok
                &&& *final(cfg) == (VeditConfig { max_threads: value, ..*old(cfg) })
            },
            ConfigKey::CleanupCacheOnExit { value } => {
                &&& r is Ok
                &&& *final(cfg) == (VeditConfig { cleanup_cache_on_exit: value, ..*old(cfg) })
            },
            ConfigKey::LogLevel { value } => if valid_log_level(value@) {
                &&& r is Ok
                &&& *final(cfg) == (VeditConfig { log_level: value, ..*old(cfg) })
            } else {
                &&& r matches Err(ConfigError::InvalidLogLevel(v)) && v@ == value@
                &&& *final(cfg) == *old(cfg)
            },
        },
{
    match key {
        ConfigKey::FfmpegPath { value } => {
            cfg.ffmpeg_path = if str_eq(value.as_str(), "auto") {
                None
            } else {
                Some(value)
            };
            Ok(())
        },
        ConfigKey::FfprobePath { value } => {
            cfg.ffprobe_path = if str_eq(value.as_str(), "auto") {
                None
            } else {
                Some(value)
            };
            Ok(())
        },
        ConfigKey::CacheDir { value } => {
            cfg.cache_dir = if str_eq(value.as_str(), "auto") {
                None
            } else {
                Some(value)
            };
            Ok(())
        },
        ConfigKey::PreferredEncoder { value } => {
            cfg.preferred_encoder = parse_encoder(value.as_str());
            Ok(())
        },
        ConfigKey::DefaultFps { value } => {
            if value == 0 || value > 240 {
                return Err(ConfigError::FpsOutOfRange(value));
            }
            cfg.default_fps = value;
            Ok(())
        },
        ConfigKey::DefaultResolution { value } => {
            match parse_resolution(value.as_str()) {
                Ok(res) => {
                    cfg.default_resolution = res;
                    Ok(())
                },
                Err(e) => Err(e),
            }
        },
        ConfigKey::MaxThreads { value } => {
            cfg.max_threads = value;
            Ok(())
        },
        ConfigKey::CleanupCacheOnExit { value } => {
            cfg.cleanup_cache_on_exit = value;
            Ok(())
        },
        ConfigKey::LogLevel { value } => {
            let v = value.as_str();
            if str_eq(v, "trace") || str_eq(v, "debug") || str_eq(v, "info") || str_eq(v, "warn")
                || str_eq(v, "error") {
                cfg.log_level = value;
                Ok(())
            } else {
                Err(ConfigError::InvalidLogLevel(value))
            }
        },
    }
}

/// Width to which `fmt_key` pads a key.
pub const KEY_WIDTH: usize = 28;

/// `key` followed by `:` and padded with spaces on the right to 28 characters,
/// as `format!("{:<28}", format!("{}:", key))` writes it.
pub open spec fn padded_key(key: Seq<char>) -> Seq<char> {
    let k = key.push(':');
    if k.len() >= 28 {
        k
    } else {
        k + Seq::new((28 - k.len()) as nat, |_i: int| ' ')
    }
}

/// Formats a configuration key for the aligned listing of `config show`.
pub fn fmt_key(key: &str) -> (r: String)
    ensures
        r@ == padded_key(key@),
{
    let mut r = owned(key);
    push_char(&mut r, ':');
    let m = key.unicode_len();
    let ghost k = key@.push(':');
    if m < KEY_WIDTH - 1 {
        let n = m + 1;
        let mut i: usize = n;
        while i < KEY_WIDTH
            invariant
                n <= i <= KEY_WIDTH,
                n == k.len(),
                r@ == k + Seq::new((i - n) as nat, |_i: int| ' '),
            decreases KEY_WIDTH - i,
        {
            push_char(&mut r, ' ');
            i = i + 1;
            assert(r@ =~= k + Seq::new((i - n) as nat, |_i: int| ' '));
        }
    } else {
        assert(r@ =~= k);
    }
    r
}

/// The values that `config show` lists, in order: ffmpeg path, ffprobe path,
/// cache directory, encoder, default FPS, default resolution, thread limit,
/// cache cleanup and log level. A path left to `PATH` shows as `auto (<binary>)`.
pub open spec fn config_values(cfg: VeditConfig) -> Seq<Seq<char>> {
    let dims = cfg.default_resolution.dims();
    seq![
        match cfg.ffmpeg_path {
            Some(p) => p@,
            None => "auto ("@ + "ffmpeg"@ + ")"@,
        },
        match cfg.ffprobe_path {
            Some(p) => p@,
            None => "auto ("@ + "ffprobe"@ + ")"@,
        },
        match cfg.cache_dir {
            Some(p) => p@,
            None => "<por proyecto>/.vedit_cache"@,
        },
        cfg.preferred_encoder.codec(),
        decimal(cfg.default_fps as nat),
        decimal(dims.0 as nat) + "x"@ + decimal(dims.1 as nat),
        if cfg.max_threads == 0 {
            "0 (automático)"@
        } else {
            decimal(cfg.max_threads as nat) + " hilos"@
        },
        if cfg.cleanup_cache_on_exit {
            "true"@
        } else {
            "false"@
        },
        cfg.log_level@,
    ]
}

fn path_or_auto(p: &Option<String>, binary: String) -> (r: String)
    ensures
        r@ == (match *p {
            Some(q) => q@,
            None => "auto ("@ + binary@ + ")"@,
        }),
{
    match p {
        Some(q) => q.clone(),
        None => {
            let mut s = owned("auto (");
            push_str(&mut s, binary.as_str());
            push_str(&mut s, ")");
            s
        },
    }
}

/// The values of `config_values`.
pub fn config_row_values(cfg: &VeditConfig) -> (r: Vec<String>)
    ensures
        views(r@) == config_values(*cfg),
{
    let mut v: Vec<String> = Vec::new();
    v.push(path_or_auto(&cfg.ffmpeg_path, cfg.ffmpeg_binary()));
    v.push(path_or_auto(&cfg.ffprobe_path, cfg.ffprobe_binary()));
    v.push(match &cfg.cache_dir {
        Some(p) => p.clone(),
        None => owned("<por proyecto>/.vedit_cache"),
    });
    v.push(owned(cfg.preferred_encoder.as_ffmpeg_codec()));
    v.push(u64_to_string(cfg.default_fps as u64));
    let (w, h) = cfg.default_resolution.dimensions();
    let mut res = u64_to_string(w as u64);
    push_str(&mut res, "x");
    push_str(&mut res, u64_to_string(h as u64).as_str());
    v.push(res);
    if cfg.max_threads == 0 {
        v.push(owned("0 (automático)"));
    } else {
        let mut t = u64_to_string(cfg.max_threads as u64);
        push_str(&mut t, " hilos");
        v.push(t);
    }
    v.push(owned(if cfg.cleanup_cache_on_exit {
        "true"
    } else {
        "false"
    }));
    v.push(cfg.log_level.clone());
    assert(views(v@) =~= config_values(*cfg));
    v
}

} // verus!
