use vedit::motion::formula::MovementFormula;
use vedit::motion::presets::{dvd_bounce, shake, MotionPresets};
use vedit::motion::region::{RegionError, RenderRegion};

#[test]
fn bounce_produces_sin_expression() {
    let f = MovementFormula::Bounce { amplitude_px: 10000, frequency: 3141593 };
    let exprs = f.to_ffmpeg_exprs(1920, 1080);
    assert!(exprs.x.contains("sin(t*"));
    assert_eq!(exprs.y, "0");
    assert_eq!(exprs.x, "sin(t*3.141593)*100.00");
}

#[test]
fn linear_produces_t_expression() {
    let f = MovementFormula::Linear { velocity_x: 500000, velocity_y: -300000 };
    let exprs = f.to_ffmpeg_exprs(1920, 1080);
    assert!(exprs.x.contains("t*"));
    assert!(exprs.y.contains("t*"));
    assert_eq!(exprs.x, "t*50.0000");
    assert_eq!(exprs.y, "t*-30.0000");
}

#[test]
fn custom_passthrough() {
    let x = "sin(t)*200+960".to_string();
    let y = "cos(t)*100+540".to_string();
    let f = MovementFormula::Custom { x_expr: x.clone(), y_expr: y.clone() };
    let exprs = f.to_ffmpeg_exprs(1920, 1080);
    assert_eq!(exprs.x, x);
    assert_eq!(exprs.y, y);
}

#[test]
fn overlay_filter_contains_eval_frame() {
    let f = MovementFormula::Bounce { amplitude_px: 8000, frequency: 2000000 };
    let filter = f.to_overlay_filter(1920, 1080);
    assert!(filter.contains("eval=frame"));
    assert_eq!(filter, "overlay=x='sin(t*2.000000)*80.00':y='0':eval=frame:eof_action=pass");
}

#[test]
fn display_names_are_stable() {
    assert_eq!(MovementFormula::Bounce { amplitude_px: 100, frequency: 1000000 }.display(), "bounce");
    assert_eq!(
        MovementFormula::Pulse { scale_min: 8000, scale_max: 12000, frequency: 1000000 }.display(),
        "pulse"
    );
    assert_eq!(MovementFormula::Linear { velocity_x: 10000, velocity_y: 0 }.display(), "linear");
}

#[test]
fn pulse_and_orbit_expressions() {
    let p = MovementFormula::Pulse { scale_min: 8000, scale_max: 12000, frequency: 785398 };
    let e = p.to_ffmpeg_exprs(1920, 1080);
    assert_eq!(e.x, "iw*(1.0000+0.2000*sin(t*0.785398))");
    assert_eq!(e.y, "ih*(1.0000+0.2000*sin(t*0.785398))");
    let o = MovementFormula::Orbit { center_x_frac: 5000, center_y_frac: 5000, radius_px: 20000, angular_speed: 523599 };
    let e = o.to_ffmpeg_exprs(1920, 1080);
    assert_eq!(e.x, "960.00+200.00*cos(t*0.523599)");
    assert_eq!(e.y, "540.00+200.00*sin(t*0.523599)");
    assert_eq!(o.display(), "orbit");
    let eighth = MovementFormula::Orbit { center_x_frac: 1250, center_y_frac: 3333, radius_px: 0, angular_speed: 0 };
    let e = eighth.to_ffmpeg_exprs(1920, 1080);
    assert_eq!(e.x, "240.00+0.00*cos(t*0.000000)");
    assert_eq!(e.y, "359.96+0.00*sin(t*0.000000)");
    assert_eq!(shake().display(), "custom");
}

#[test]
fn by_name_resolves_known_presets() {
    assert!(MotionPresets::by_name("dvd_bounce").is_some());
    assert!(MotionPresets::by_name("DVD").is_some());
    assert!(MotionPresets::by_name("shake").is_some());
    assert!(MotionPresets::by_name("no_existe").is_none());
}

#[test]
fn all_presets_produce_valid_overlay_filter() {
    for name in MotionPresets::available_names() {
        let formula = MotionPresets::by_name(name).unwrap();
        let filter = formula.to_overlay_filter(1920, 1080);
        assert!(filter.contains("eval=frame"), "preset '{}' must include eval=frame", name);
        assert!(filter.contains("overlay=x="), "preset '{}' must start with overlay=x=", name);
    }
}

#[test]
fn dvd_bounce_has_high_amplitude() {
    if let MovementFormula::Bounce { amplitude_px, .. } = dvd_bounce() {
        assert!(amplitude_px > 40000, "DVD bounce debe tener amplitud significativa");
    } else {
        panic!("dvd_bounce debe ser variante Bounce");
    }
}

#[test]
fn shake_is_custom_with_multiple_harmonics() {
    if let MovementFormula::Custom { x_expr, .. } = shake() {
        assert!(x_expr.contains('+'), "shake debe combinar armónicos");
    } else {
        panic!("shake debe ser variante Custom");
    }
}

#[test]
fn preset_names_in_order() {
    assert_eq!(
        MotionPresets::available_names(),
        vec![
            "dvd_bounce",
            "pulse_slow",
            "pulse_fast",
            "drift_right",
            "drift_left",
            "pendulum",
            "orbit_slow",
            "orbit_fast",
            "shake",
        ]
    );
    let f = MotionPresets::by_name("Drift_Left").unwrap();
    assert_eq!(f.to_ffmpeg_exprs(1920, 1080).x, "t*-100.0000");
}

#[test]
fn valid_region_is_created() {
    let r = RenderRegion::new(10000, 30000).unwrap();
    assert_eq!(r.start_secs, 10000);
    assert_eq!(r.duration_secs, 30000);
    assert_eq!(r.end_secs(), 40000);
}

#[test]
fn negative_start_is_rejected() {
    assert!(RenderRegion::new(-1000, 10000).is_err());
}

#[test]
fn zero_duration_is_rejected() {
    assert!(RenderRegion::new(0, 0).is_err());
    assert!(RenderRegion::new(5000, -3000).is_err());
}

#[test]
fn contains_works_correctly() {
    let r = RenderRegion::new(10000, 5000).unwrap();
    assert!(r.contains(10000));
    assert!(r.contains(14999));
    assert!(!r.contains(15000));
    assert!(!r.contains(9999));
}

#[test]
fn ffmpeg_args_are_well_formed() {
    let r = RenderRegion::new(5500, 20000).unwrap();
    let args = r.to_ffmpeg_args();
    assert_eq!(args[0], "-ss");
    assert_eq!(args[1], "5.500");
    assert_eq!(args[2], "-t");
    assert_eq!(args[3], "20.000");
}

#[test]
fn region_errors_and_display() {
    let e = RenderRegion::new(-1500, 10).unwrap_err();
    assert_eq!(e, RegionError::NegativeStart(-1500));
    assert_eq!(e.message(), "El instante de inicio (-1.500s) no puede ser negativo.");
    let e = RenderRegion::new(0, 0).unwrap_err();
    assert_eq!(e.message(), "La duración (0.000s) debe ser mayor que cero.");
    let r = RenderRegion::new(1000, 2500).unwrap();
    assert_eq!(r.display(), "1.000s – 3.500s (duración: 2.500s)");
}

#[test]
fn extreme_formulas_still_print() {
    let huge = MovementFormula::Orbit {
        center_x_frac: i64::MAX,
        center_y_frac: -3,
        radius_px: 0,
        angular_speed: 0,
    };
    let e = huge.to_ffmpeg_exprs(2, 1);
    assert_eq!(e.x, "1844674407370955.16+0.00*cos(t*0.000000)");
    assert_eq!(e.y, "0.00+0.00*sin(t*0.000000)");
    let pulse = MovementFormula::Pulse { scale_min: i64::MIN, scale_max: i64::MAX, frequency: 1 };
    let e = pulse.to_ffmpeg_exprs(1920, 1080);
    assert_eq!(e.x, "iw*(-0.0001+922337203685477.5808*sin(t*0.000001))");
}
