//! Movement formulas and the FFmpeg expressions they become.
//!
//! Parameters are fixed-point integers carrying exactly the decimals that the
//! expressions print: pixels in hundredths, velocities and scales in
//! ten-thousandths, frequencies and angular speeds in millionths, and frame
//! fractions in ten-thousandths.
use vstd::prelude::*;
use crate::numfmt::{div_round, div_round_exec, fixed_text, push_fixed, push_fixed_wide};
use crate::textutil::{owned, push_str};

verus! {

/// A formula that FFmpeg evaluates at every frame to move or scale the picture.
#[derive(Debug)]
pub enum MovementFormula {
    /// Sine bounce along x: `amplitude_px` (hundredths of a pixel) times
    /// `sin(t * frequency)` (frequency in millionths of a radian per second).
    Bounce { amplitude_px: i64, frequency: i64 },
    /// Scale pulse between `scale_min` and `scale_max` (ten-thousandths) at
    /// `frequency` (millionths of a radian per second).
    Pulse { scale_min: i64, scale_max: i64, frequency: i64 },
    /// Constant drift in pixels per second (ten-thousandths).
    Linear { velocity_x: i64, velocity_y: i64 },
    /// Circle around a centre given in ten-thousandths of the frame, with a radius
    /// in hundredths of a pixel and an angular speed in millionths of a radian
    /// per second.
    Orbit { center_x_frac: i64, center_y_frac: i64, radius_px: i64, angular_speed: i64 },
    /// Expressions written by the user, passed on as they are.
    Custom { x_expr: String, y_expr: String },
}

/// The content of a movement formula.
pub enum FormulaView {
    Bounce { amplitude_px: i64, frequency: i64 },
    Pulse { scale_min: i64, scale_max: i64, frequency: i64 },
    Linear { velocity_x: i64, velocity_y: i64 },
    Orbit { center_x_frac: i64, center_y_frac: i64, radius_px: i64, angular_speed: i64 },
    Custom { x_expr: Seq<char>, y_expr: Seq<char> },
}

impl View for MovementFormula {
    type V = FormulaView;

    open spec fn view(&self) -> FormulaView {
        match self {
            MovementFormula::Bounce { amplitude_px, frequency } => FormulaView::Bounce {
                amplitude_px: *amplitude_px,
                frequency: *frequency,
            },
            MovementFormula::Pulse { scale_min, scale_max, frequency } => FormulaView::Pulse {
                scale_min: *scale_min,
                scale_max: *scale_max,
                frequency: *frequency,
            },
            MovementFormula::Linear { velocity_x, velocity_y } => FormulaView::Linear {
                velocity_x: *velocity_x,
                velocity_y: *velocity_y,
            },
            MovementFormula::Orbit { center_x_frac, center_y_frac, radius_px, angular_speed } =>
                FormulaView::Orbit {
                center_x_frac: *center_x_frac,
                center_y_frac: *center_y_frac,
                radius_px: *radius_px,
                angular_speed: *angular_speed,
            },
            MovementFormula::Custom { x_expr, y_expr } => FormulaView::Custom {
                x_expr: x_expr@,
                y_expr: y_expr@,
            },
        }
    }
}

impl Clone for MovementFormula {
    fn clone(&self) -> (r: Self)
        ensures
            r@ == self@,
    {
        match self {
            MovementFormula::Bounce { amplitude_px, frequency } => MovementFormula::Bounce {
                amplitude_px: *amplitude_px,
                frequency: *frequency,
            },
            MovementFormula::Pulse { scale_min, scale_max, frequency } => MovementFormula::Pulse {
                scale_min: *scale_min,
                scale_max: *scale_max,
                frequency: *frequency,
            },
            MovementFormula::Linear { velocity_x, velocity_y } => MovementFormula::Linear {
                velocity_x: *velocity_x,
                velocity_y: *velocity_y,
            },
            MovementFormula::Orbit { center_x_frac, center_y_frac, radius_px, angular_speed } =>
                MovementFormula::Orbit {
                center_x_frac: *center_x_frac,
                center_y_frac: *center_y_frac,
                radius_px: *radius_px,
                angular_speed: *angular_speed,
            },
            MovementFormula::Custom { x_expr, y_expr } => MovementFormula::Custom {
                x_expr: x_expr.clone(),
                y_expr: y_expr.clone(),
            },
        }
    }
}

/// The pair of FFmpeg expressions `(x, y)` for an overlay.
#[derive(Debug)]
pub struct FfmpegMotionExprs {
    /// Expression for x.
    pub x: String,
    /// Expression for y.
    pub y: String,
}

/// Midpoint of a pulse, in ten-thousandths.
pub open spec fn pulse_mid(lo: i64, hi: i64) -> int {
    div_round(hi + lo, 2)
}

/// Half the range of a pulse, in ten-thousandths.
pub open spec fn pulse_half(lo: i64, hi: i64) -> int {
    div_round(hi - lo, 2)
}

/// The expression for x of `f` on a frame `w` pixels wide.
pub open spec fn expr_x(f: FormulaView, w: u32) -> Seq<char> {
    match f {
        FormulaView::Bounce { amplitude_px, frequency } => "sin(t*"@ + fixed_text(frequency as int, 6)
            + ")*"@ + fixed_text(amplitude_px as int, 2),
        FormulaView::Pulse { scale_min, scale_max, frequency } => "iw*("@ + fixed_text(
            pulse_mid(scale_min, scale_max),
            4,
        ) + "+"@ + fixed_text(pulse_half(scale_min, scale_max), 4) + "*sin(t*"@ + fixed_text(
            frequency as int,
            6,
        ) + "))"@,
        FormulaView::Linear { velocity_x, .. } => "t*"@ + fixed_text(velocity_x as int, 4),
        FormulaView::Orbit { center_x_frac, radius_px, angular_speed, .. } => fixed_text(
            div_round(center_x_frac * w, 100),
            2,
        ) + "+"@ + fixed_text(radius_px as int, 2) + "*cos(t*"@ + fixed_text(angular_speed as int, 6)
            + ")"@,
        FormulaView::Custom { x_expr, .. } => x_expr,
    }
}

/// The expression for y of `f` on a frame `h` pixels high.
pub open spec fn expr_y(f: FormulaView, h: u32) -> Seq<char> {
    match f {
        FormulaView::Bounce { .. } => "0"@,
        FormulaView::Pulse { scale_min, scale_max, frequency } => "ih*("@ + fixed_text(
            pulse_mid(scale_min, scale_max),
            4,
        ) + "+"@ + fixed_text(pulse_half(scale_min, scale_max), 4) + "*sin(t*"@ + fixed_text(
            frequency as int,
            6,
        ) + "))"@,
        FormulaView::Linear { velocity_y, .. } => "t*"@ + fixed_text(velocity_y as int, 4),
        FormulaView::Orbit { center_y_frac, radius_px, angular_speed, .. } => fixed_text(
            div_round(center_y_frac * h, 100),
            2,
        ) + "+"@ + fixed_text(radius_px as int, 2) + "*sin(t*"@ + fixed_text(angular_speed as int, 6)
            + ")"@,
        FormulaView::Custom { y_expr, .. } => y_expr,
    }
}

/// The overlay filter that moves the picture by `f`, evaluated at every frame.
pub open spec fn overlay_text(f: FormulaView, w: u32, h: u32) -> Seq<char> {
    "overlay=x='"@ + expr_x(f, w) + "':y='"@ + expr_y(f, h) + "':eval=frame:eof_action=pass"@
}

/// The name of the kind of a formula.
pub open spec fn formula_name(f: FormulaView) -> Seq<char> {
    match f {
        FormulaView::Bounce { .. } => "bounce"@,
        FormulaView::Pulse { .. } => "pulse"@,
        FormulaView::Linear { .. } => "linear"@,
        FormulaView::Orbit { .. } => "orbit"@,
        FormulaView::Custom { .. } => "custom"@,
    }
}

fn half_round_wide(n: i128) -> (r: i128)
    requires
        -0x1_0000_0000_0000_0000 <= n <= 0x1_0000_0000_0000_0000,
    ensures
        r == div_round(n as int, 2),
{
    if n >= 0 {
        (2 * n + 2) / 4
    } else {
        let m: i128 = 0 - n;
        0 - ((2 * m + 2) / 4)
    }
}

fn scaled_wide(a: i64, b: u32) -> (r: i128)
    ensures
        r == a * b,
        -0x8000_0000_0000_0000_0000_0000 <= r <= 0x8000_0000_0000_0000_0000_0000,
{
    assert(-0x8000_0000_0000_0000 * 0xffff_ffff <= a * b <= 0x7fff_ffff_ffff_ffff * 0xffff_ffff)
        by (nonlinear_arith)
        requires
            -0x8000_0000_0000_0000 <= a <= 0x7fff_ffff_ffff_ffff,
            0 <= b <= 0xffff_ffff,
    ;
    a as i128 * b as i128
}

impl MovementFormula {
    /// The expressions `(x, y)` for an overlay over a frame of `frame_w` by
    /// `frame_h` pixels.
    pub fn to_ffmpeg_exprs(&self, frame_w: u32, frame_h: u32) -> (r: FfmpegMotionExprs)
        ensures
            r.x@ == expr_x(self@, frame_w),
            r.y@ == expr_y(self@, frame_h),
    {
        match self {
            MovementFormula::Bounce { amplitude_px, frequency } => {
                let mut x = owned("sin(t*");
                push_fixed(&mut x, *frequency, 6);
                push_str(&mut x, ")*");
                push_fixed(&mut x, *amplitude_px, 2);
                FfmpegMotionExprs { x, y: owned("0") }
            },
            MovementFormula::Pulse { scale_min, scale_max, frequency } => {
                let mid = half_round_wide(*scale_max as i128 + *scale_min as i128);
                let half = half_round_wide(*scale_max as i128 - *scale_min as i128);
                let mut x = owned("iw*(");
                push_fixed_wide(&mut x, mid, 4);
                push_str(&mut x, "+");
                push_fixed_wide(&mut x, half, 4);
                push_str(&mut x, "*sin(t*");
                push_fixed(&mut x, *frequency, 6);
                push_str(&mut x, "))");
                let mut y = owned("ih*(");
                push_fixed_wide(&mut y, mid, 4);
                push_str(&mut y, "+");
                push_fixed_wide(&mut y, half, 4);
                push_str(&mut y, "*sin(t*");
                push_fixed(&mut y, *frequency, 6);
                push_str(&mut y, "))");
                FfmpegMotionExprs { x, y }
            },
            MovementFormula::Linear { velocity_x, velocity_y } => {
                let mut x = owned("t*");
                push_fixed(&mut x, *velocity_x, 4);
                let mut y = owned("t*");
                push_fixed(&mut y, *velocity_y, 4);
                FfmpegMotionExprs { x, y }
            },
            MovementFormula::Orbit { center_x_frac, center_y_frac, radius_px, angular_speed } => {
                let cx = div_round_exec(scaled_wide(*center_x_frac, frame_w), 100);
                let cy = div_round_exec(scaled_wide(*center_y_frac, frame_h), 100);
                let mut x = String::new();
                push_fixed_wide(&mut x, cx, 2);
                push_str(&mut x, "+");
                push_fixed(&mut x, *radius_px, 2);
                push_str(&mut x, "*cos(t*");
                push_fixed(&mut x, *angular_speed, 6);
                push_str(&mut x, ")");
                let mut y = String::new();
                push_fixed_wide(&mut y, cy, 2);
                push_str(&mut y, "+");
                push_fixed(&mut y, *radius_px, 2);
                push_str(&mut y, "*sin(t*");
                push_fixed(&mut y, *angular_speed, 6);
                push_str(&mut y, ")");
                FfmpegMotionExprs { x, y }
            },
            MovementFormula::Custom { x_expr, y_expr } => FfmpegMotionExprs {
                x: x_expr.clone(),
                y: y_expr.clone(),
            },
        }
    }

    /// The complete overlay filter with `eval=frame`.
    pub fn to_overlay_filter(&self, frame_w: u32, frame_h: u32) -> (r: String)
        ensures
            r@ == overlay_text(self@, frame_w, frame_h),
    {
        let e = self.to_ffmpeg_exprs(frame_w, frame_h);
        let mut s = owned("overlay=x='");
        push_str(&mut s, e.x.as_str());
        push_str(&mut s, "':y='");
        push_str(&mut s, e.y.as_str());
        push_str(&mut s, "':eval=frame:eof_action=pass");
        s
    }

    /// The name of the kind of formula: `bounce`, `pulse`, `linear`, `orbit` or `custom`.
    pub fn display(&self) -> (r: String)
        ensures
            r@ == formula_name(self@),
    {
        match self {
            MovementFormula::Bounce { .. } => owned("bounce"),
            MovementFormula::Pulse { .. } => owned("pulse"),
            MovementFormula::Linear { .. } => owned("linear"),
            MovementFormula::Orbit { .. } => owned("orbit"),
            MovementFormula::Custom { .. } => owned("custom"),
        }
    }
}

} // verus!
