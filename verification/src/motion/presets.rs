//! A catalogue of ready-made movement formulas.
//!
//! Frequencies are the printed six-decimal values of the angles they stand
//! for: π/4 is 785398 millionths, π/2 is 1570796, π/6 is 523599, π is 3141593.
use vstd::prelude::*;
use crate::motion::formula::{FormulaView, MovementFormula};
use crate::textutil::{
    ascii_lower, is_ascii_char, is_ascii_text, lemma_ascii_lower_idempotent, lemma_ascii_lower_keeps,
    lowercase, owned, str_eq, to_lowercase,
};

verus! {

/// The catalogue of movement presets.
pub struct MotionPresets;

/// The preset names, in the order they are listed.
pub open spec fn preset_names() -> Seq<Seq<char>> {
    seq![
        "dvd_bounce"@,
        "pulse_slow"@,
        "pulse_fast"@,
        "drift_right"@,
        "drift_left"@,
        "pendulum"@,
        "orbit_slow"@,
        "orbit_fast"@,
        "shake"@,
    ]
}

/// The x expression of the shake preset.
pub open spec fn shake_x() -> Seq<char> {
    "sin(t*23)*8+sin(t*47)*5+sin(t*71)*3"@
}

/// The y expression of the shake preset.
pub open spec fn shake_y() -> Seq<char> {
    "sin(t*31)*6+sin(t*53)*4+sin(t*79)*2"@
}

/// The preset that a lower-case name selects (`dvd` is another name for
/// `dvd_bounce`).
pub open spec fn preset_for(l: Seq<char>) -> Option<FormulaView> {
    if l == "dvd_bounce"@ || l == "dvd"@ {
        Some(FormulaView::Bounce { amplitude_px: 96000, frequency: 1000000 })
    } else if l == "pulse_slow"@ {
        Some(FormulaView::Pulse { scale_min: 8000, scale_max: 12000, frequency: 785398 })
    } else if l == "pulse_fast"@ {
        Some(FormulaView::Pulse { scale_min: 9000, scale_max: 11000, frequency: 3141593 })
    } else if l == "drift_right"@ {
        Some(FormulaView::Linear { velocity_x: 1000000, velocity_y: 0 })
    } else if l == "drift_left"@ {
        Some(FormulaView::Linear { velocity_x: -1000000i64, velocity_y: 0 })
    } else if l == "pendulum"@ {
        Some(FormulaView::Bounce { amplitude_px: 30000, frequency: 1570796 })
    } else if l == "orbit_slow"@ {
        Some(
            FormulaView::Orbit {
                center_x_frac: 5000,
                center_y_frac: 5000,
                radius_px: 20000,
                angular_speed: 523599,
            },
        )
    } else if l == "orbit_fast"@ {
        Some(
            FormulaView::Orbit {
                center_x_frac: 5000,
                center_y_frac: 5000,
                radius_px: 10000,
                angular_speed: 1570796,
            },
        )
    } else if l == "shake"@ {
        Some(FormulaView::Custom { x_expr: shake_x(), y_expr: shake_y() })
    } else {
        None
    }
}

/// Classic DVD bounce: 960 px (half of a 1920-pixel frame) at 1 rad/s along x.
pub fn dvd_bounce() -> (r: MovementFormula)
    ensures
        r@ == (FormulaView::Bounce { amplitude_px: 96000, frequency: 1000000 }),
{
    MovementFormula::Bounce { amplitude_px: 96000, frequency: 1000000 }
}

/// Slow pulse between 80 % and 120 % of the size, at π/4 rad/s.
pub fn pulse_slow() -> (r: MovementFormula)
    ensures
        r@ == (FormulaView::Pulse { scale_min: 8000, scale_max: 12000, frequency: 785398 }),
{
    MovementFormula::Pulse { scale_min: 8000, scale_max: 12000, frequency: 785398 }
}

/// Fast pulse between 90 % and 110 % of the size, at π rad/s.
pub fn pulse_fast() -> (r: MovementFormula)
    ensures
        r@ == (FormulaView::Pulse { scale_min: 9000, scale_max: 11000, frequency: 3141593 }),
{
    MovementFormula::Pulse { scale_min: 9000, scale_max: 11000, frequency: 3141593 }
}

/// Drift to the right at 100 px/s.
pub fn drift_right() -> (r: MovementFormula)
    ensures
        r@ == (FormulaView::Linear { velocity_x: 1000000, velocity_y: 0 }),
{
    MovementFormula::Linear { velocity_x: 1000000, velocity_y: 0 }
}

/// Drift to the left at 100 px/s.
pub fn drift_left() -> (r: MovementFormula)
    ensures
        r@ == (FormulaView::Linear { velocity_x: -1000000i64, velocity_y: 0 }),
{
    MovementFormula::Linear { velocity_x: -1000000, velocity_y: 0 }
}

/// Horizontal pendulum: ±300 px at π/2 rad/s.
pub fn pendulum() -> (r: MovementFormula)
    ensures
        r@ == (FormulaView::Bounce { amplitude_px: 30000, frequency: 1570796 }),
{
    MovementFormula::Bounce { amplitude_px: 30000, frequency: 1570796 }
}

/// Slow orbit around the centre of the frame: radius 200 px at π/6 rad/s.
pub fn orbit_slow() -> (r: MovementFormula)
    ensures
        r@ == (FormulaView::Orbit { center_x_frac: 5000, center_y_frac: 5000, radius_px: 20000, angular_speed: 523599 }),
{
    MovementFormula::Orbit {
        center_x_frac: 5000,
        center_y_frac: 5000,
        radius_px: 20000,
        angular_speed: 523599,
    }
}

/// Fast orbit around the centre of the frame: radius 100 px at π/2 rad/s.
pub fn orbit_fast() -> (r: MovementFormula)
    ensures
        r@ == (FormulaView::Orbit { center_x_frac: 5000, center_y_frac: 5000, radius_px: 10000, angular_speed: 1570796 }),
{
    MovementFormula::Orbit {
        center_x_frac: 5000,
        center_y_frac: 5000,
        radius_px: 10000,
        angular_speed: 1570796,
    }
}

/// Camera shake: three sine harmonics on each axis.
pub fn shake() -> (r: MovementFormula)
    ensures
        r@ == (FormulaView::Custom { x_expr: shake_x(), y_expr: shake_y() }),
{
    MovementFormula::Custom {
        x_expr: owned("sin(t*23)*8+sin(t*47)*5+sin(t*71)*3"),
        y_expr: owned("sin(t*31)*6+sin(t*53)*4+sin(t*79)*2"),
    }
}

impl MotionPresets {
    /// The preset called `name`, ignoring case; `None` for an unknown name.
    pub fn by_name(name: &str) -> (r: Option<MovementFormula>)
        ensures
            match preset_for(lowercase(name@)) {
                Some(f) => r matches Some(g) && g@ == f,
                None => r is None,
            },
            is_ascii_text(name@) ==> match preset_for(ascii_lower(name@)) {
                Some(f) => r matches Some(g) && g@ == f,
                None => r is None,
            },
    {
        let lower = to_lowercase(name);
        let l = lower.as_str();
        if str_eq(l, "dvd_bounce") || str_eq(l, "dvd") {
            Some(dvd_bounce())
        } else if str_eq(l, "pulse_slow") {
            Some(pulse_slow())
        } else if str_eq(l, "pulse_fast") {
            Some(pulse_fast())
        } else if str_eq(l, "drift_right") {
            Some(drift_right())
        } else if str_eq(l, "drift_left") {
            Some(drift_left())
        } else if str_eq(l, "pendulum") {
            Some(pendulum())
        } else if str_eq(l, "orbit_slow") {
            Some(orbit_slow())
        } else if str_eq(l, "orbit_fast") {
            Some(orbit_fast())
        } else if str_eq(l, "shake") {
            Some(shake())
        } else {
            None
        }
    }

    /// The names of all presets, in catalogue order.
    pub fn available_names() -> (r: Vec<&'static str>)
        ensures
            r@.map_values(|s: &str| s@) == preset_names(),
    {
        let v: Vec<&'static str> = vec![
            "dvd_bounce",
            "pulse_slow",
            "pulse_fast",
            "drift_right",
            "drift_left",
            "pendulum",
            "orbit_slow",
            "orbit_fast",
            "shake",
        ];
        assert(v@.map_values(|s: &str| s@) =~= preset_names());
        v
    }
}

/// Every listed name selects a preset, typed in any ASCII case: each is
/// printable ASCII text, in lower case already, and `dvd` selects what
/// `dvd_bounce` does.
pub proof fn law_listed_names_resolve(i: int)
    requires
        0 <= i < preset_names().len(),
    ensures
        preset_for(preset_names()[i]) is Some,
        is_ascii_text(preset_names()[i]),
        ascii_lower(preset_names()[i]) == preset_names()[i],
        preset_for("dvd"@) == preset_for("dvd_bounce"@),
{
    reveal_strlit("dvd_bounce");
    reveal_strlit("pulse_slow");
    reveal_strlit("pulse_fast");
    reveal_strlit("drift_right");
    reveal_strlit("drift_left");
    reveal_strlit("pendulum");
    reveal_strlit("orbit_slow");
    reveal_strlit("orbit_fast");
    reveal_strlit("shake");
    reveal_strlit("dvd");
    let n = preset_names()[i];
    assert forall|j: int| 0 <= j < n.len() implies #[trigger] is_ascii_char(n[j]) && !(65 <= (
    n[j] as u32) <= 90) by {}
    lemma_ascii_lower_keeps(n);
}

proof fn lemma_names_differ()
    ensures
        "dvd_bounce"@ != "pulse_slow"@,
        "dvd_bounce"@ != "pulse_fast"@,
        "dvd_bounce"@ != "pendulum"@,
        "dvd_bounce"@ != "orbit_slow"@,
        "dvd_bounce"@ != "orbit_fast"@,
        "dvd_bounce"@ != "shake"@,
        "pulse_slow"@ != "shake"@,
        "pulse_fast"@ != "pulse_slow"@,
        "pulse_fast"@ != "shake"@,
        "drift_right"@ != "dvd_bounce"@,
        "drift_right"@ != "pulse_slow"@,
        "drift_right"@ != "pulse_fast"@,
        "drift_right"@ != "pendulum"@,
        "drift_right"@ != "orbit_slow"@,
        "drift_right"@ != "orbit_fast"@,
        "drift_right"@ != "shake"@,
        "drift_right"@ != "dvd"@,
        "drift_left"@ != "dvd_bounce"@,
        "drift_left"@ != "pulse_slow"@,
        "drift_left"@ != "pulse_fast"@,
        "drift_left"@ != "drift_right"@,
        "drift_left"@ != "pendulum"@,
        "drift_left"@ != "orbit_slow"@,
        "drift_left"@ != "orbit_fast"@,
        "drift_left"@ != "shake"@,
        "drift_left"@ != "dvd"@,
        "pendulum"@ != "pulse_slow"@,
        "pendulum"@ != "pulse_fast"@,
        "pendulum"@ != "shake"@,
        "orbit_slow"@ != "pulse_slow"@,
        "orbit_slow"@ != "pulse_fast"@,
        "orbit_slow"@ != "pendulum"@,
        "orbit_slow"@ != "shake"@,
        "orbit_fast"@ != "pulse_slow"@,
        "orbit_fast"@ != "pulse_fast"@,
        "orbit_fast"@ != "pendulum"@,
        "orbit_fast"@ != "orbit_slow"@,
        "orbit_fast"@ != "shake"@,
        "dvd"@ != "dvd_bounce"@,
        "dvd"@ != "pulse_slow"@,
        "dvd"@ != "pulse_fast"@,
        "dvd"@ != "pendulum"@,
        "dvd"@ != "orbit_slow"@,
        "dvd"@ != "orbit_fast"@,
        "dvd"@ != "shake"@,
{
    reveal_strlit("dvd_bounce");
    reveal_strlit("pulse_slow");
    reveal_strlit("pulse_fast");
    reveal_strlit("drift_right");
    reveal_strlit("drift_left");
    reveal_strlit("pendulum");
    reveal_strlit("orbit_slow");
    reveal_strlit("orbit_fast");
    reveal_strlit("shake");
    reveal_strlit("dvd");
    assert("dvd_bounce"@[0] != "pulse_slow"@[0]);
    assert("dvd_bounce"@[0] != "pulse_fast"@[0]);
    assert("dvd_bounce"@.len() != "pendulum"@.len());
    assert("dvd_bounce"@[0] != "orbit_slow"@[0]);
    assert("dvd_bounce"@[0] != "orbit_fast"@[0]);
    assert("dvd_bounce"@.len() != "shake"@.len());
    assert("pulse_slow"@.len() != "shake"@.len());
    assert("pulse_fast"@[6] != "pulse_slow"@[6]);
    assert("pulse_fast"@.len() != "shake"@.len());
    assert("drift_right"@.len() != "dvd_bounce"@.len());
    assert("drift_right"@.len() != "pulse_slow"@.len());
    assert("drift_right"@.len() != "pulse_fast"@.len());
    assert("drift_right"@.len() != "pendulum"@.len());
    assert("drift_right"@.len() != "orbit_slow"@.len());
    assert("drift_right"@.len() != "orbit_fast"@.len());
    assert("drift_right"@.len() != "shake"@.len());
    assert("drift_right"@.len() != "dvd"@.len());
    assert("drift_left"@[1] != "dvd_bounce"@[1]);
    assert("drift_left"@[0] != "pulse_slow"@[0]);
    assert("drift_left"@[0] != "pulse_fast"@[0]);
    assert("drift_left"@.len() != "drift_right"@.len());
    assert("drift_left"@.len() != "pendulum"@.len());
    assert("drift_left"@[0] != "orbit_slow"@[0]);
    assert("drift_left"@[0] != "orbit_fast"@[0]);
    assert("drift_left"@.len() != "shake"@.len());
    assert("drift_left"@.len() != "dvd"@.len());
    assert("pendulum"@.len() != "pulse_slow"@.len());
    assert("pendulum"@.len() != "pulse_fast"@.len());
    assert("pendulum"@.len() != "shake"@.len());
    assert("orbit_slow"@[0] != "pulse_slow"@[0]);
    assert("orbit_slow"@[0] != "pulse_fast"@[0]);
    assert("orbit_slow"@.len() != "pendulum"@.len());
    assert("orbit_slow"@.len() != "shake"@.len());
    assert("orbit_fast"@[0] != "pulse_slow"@[0]);
    assert("orbit_fast"@[0] != "pulse_fast"@[0]);
    assert("orbit_fast"@.len() != "pendulum"@.len());
    assert("orbit_fast"@[6] != "orbit_slow"@[6]);
    assert("orbit_fast"@.len() != "shake"@.len());
    assert("dvd"@.len() != "dvd_bounce"@.len());
    assert("dvd"@.len() != "pulse_slow"@.len());
    assert("dvd"@.len() != "pulse_fast"@.len());
    assert("dvd"@.len() != "pendulum"@.len());
    assert("dvd"@.len() != "orbit_slow"@.len());
    assert("dvd"@.len() != "orbit_fast"@.len());
    assert("dvd"@.len() != "shake"@.len());
}

/// Every listed name selects a preset of its own: two different names of the
/// list never select the same formula.
pub proof fn law_presets_are_distinct(i: int, j: int)
    requires
        0 <= i < preset_names().len(),
        0 <= j < preset_names().len(),
        i != j,
    ensures
        preset_for(preset_names()[i]) != preset_for(preset_names()[j]),
{
    lemma_names_differ();
    reveal_strlit("sin(t*23)*8+sin(t*47)*5+sin(t*71)*3");
    reveal_strlit("sin(t*31)*6+sin(t*53)*4+sin(t*79)*2");
}

/// The drifts mirror each other: `drift_right` moves along x only, to the
/// right (a positive velocity), and `drift_left` moves at the same speed the
/// other way.
pub proof fn law_drifts_mirror()
    ensures
        match (preset_for("drift_right"@), preset_for("drift_left"@)) {
            (
                Some(FormulaView::Linear { velocity_x: a, velocity_y: b }),
                Some(FormulaView::Linear { velocity_x: c, velocity_y: d }),
            ) => a > 0 && c == -a && b == 0 && d == 0,
            _ => false,
        },
{
    lemma_names_differ();
}

/// A preset name is looked up ignoring case: for ASCII text, the name and its
/// lower case select the same preset.
pub proof fn law_preset_lookup_ignores_case(name: Seq<char>)
    requires
        is_ascii_text(name),
    ensures
        is_ascii_text(ascii_lower(name)),
        preset_for(ascii_lower(ascii_lower(name))) == preset_for(ascii_lower(name)),
{
    lemma_ascii_lower_idempotent(name);
}

} // verus!
