use vedit::cli::{
    check_output_not_overwritten, check_video_speed, clip_speed, clip_volume, image_duration,
    parse_kind, reorder_track, resolve_motion_formula, resolve_render_region, resolve_track_id,
    CliAspect, CliAudioFormat, CliError, CliImageMode, CliTextAlign, CliTextPreset,
    CliTransitionKind, CliVideoFormat,
};
use vedit::motion::region::{RegionError, RenderRegion};
use vedit::project::clip::{ImageMode, TextAlign, TextPositionPreset, TransitionKind};
use vedit::project::track::TrackKind;
use vedit::project::Project;
use vedit::render::{AspectRatio, AudioFormat, VideoFormat};

#[test]
fn test_cli_image_mode_conversion() {
    assert_eq!(ImageMode::from(CliImageMode::Overlay), ImageMode::Overlay);
    assert_eq!(ImageMode::from(CliImageMode::Background), ImageMode::Background);
    assert_eq!(ImageMode::from(CliImageMode::Fullscreen), ImageMode::Fullscreen);
}

#[test]
fn test_cli_transition_kind_conversion() {
    assert_eq!(TransitionKind::from(CliTransitionKind::Cut), TransitionKind::Cut);
    assert_eq!(TransitionKind::from(CliTransitionKind::FadeToBlack), TransitionKind::FadeToBlack);
    assert_eq!(TransitionKind::from(CliTransitionKind::FadeToWhite), TransitionKind::FadeToWhite);
    assert_eq!(TransitionKind::from(CliTransitionKind::CrossDissolve), TransitionKind::CrossDissolve);
    assert_eq!(TransitionKind::from(CliTransitionKind::WipeHorizontal), TransitionKind::WipeHorizontal);
    assert_eq!(TransitionKind::from(CliTransitionKind::WipeVertical), TransitionKind::WipeVertical);
}

#[test]
fn other_cli_conversions() {
    assert_eq!(VideoFormat::from(CliVideoFormat::Mov), VideoFormat::Mov);
    assert_eq!(AudioFormat::from(CliAudioFormat::Ogg), AudioFormat::Ogg);
    assert_eq!(AspectRatio::from(CliAspect::Portrait), AspectRatio::Portrait);
    assert_eq!(TextAlign::from(CliTextAlign::Right), TextAlign::Right);
    assert_eq!(TextPositionPreset::from(CliTextPreset::BottomCenter), TextPositionPreset::BottomCenter);
    assert_eq!(TextPositionPreset::from(CliTextPreset::Custom), TextPositionPreset::Custom);
}

#[test]
fn image_test_resolve_track_id_by_uuid() {
    let proj = Project::new("test");
    let id: u128 = 0x1234_5678_9abc_4def_8123_456789abcdef;
    let resolved = resolve_track_id(&proj, &uuid::Uuid::from_u128(id).to_string()).unwrap();
    assert_eq!(resolved, id);
}

#[test]
fn image_test_resolve_track_id_by_name() {
    let mut proj = Project::new("test");
    let id = proj.add_track(TrackKind::Video, "My Video Track");
    let resolved = resolve_track_id(&proj, "My Video Track").unwrap();
    assert_eq!(resolved, id);
}

#[test]
fn image_test_resolve_track_id_not_found() {
    let proj = Project::new("test");
    let result = resolve_track_id(&proj, "Nonexistent");
    assert!(result.is_err());
    assert_eq!(result.unwrap_err().message(), "Track 'Nonexistent' no encontrado");
}

#[test]
fn video_test_resolve_track_id_by_name() {
    let mut proj = Project::new("test");
    let id = proj.add_track(TrackKind::Video, "Main Video");
    let resolved = resolve_track_id(&proj, "Main Video").unwrap();
    assert_eq!(resolved, id);
}

#[test]
fn video_test_resolve_track_id_by_uuid() {
    let proj = Project::new("test");
    let id: u128 = 0x0f0e_0d0c_0b0a_4908_8706_050403020100;
    let resolved = resolve_track_id(&proj, &uuid::Uuid::from_u128(id).to_string()).unwrap();
    assert_eq!(resolved, id);
}

#[test]
fn video_test_resolve_track_id_not_found() {
    let proj = Project::new("test");
    let result = resolve_track_id(&proj, "Nonexistent");
    assert!(result.is_err());
}

#[test]
fn uuid_text_is_hyphenated_lower_case() {
    let c = vedit::cache::CacheManager::default_for_project("/c", 0x1234_5678_9abc_4def_8123_456789abcdef);
    assert_eq!(c.dir(), "/c/vedit/12345678-9abc-4def-8123-456789abcdef");
    let z = vedit::cache::CacheManager::default_for_project("/c", 0);
    assert_eq!(z.dir(), "/c/vedit/00000000-0000-0000-0000-000000000000");
}

#[test]
fn unknown_kind_is_quoted_in_lower_case() {
    let e = parse_kind("ÁBC").unwrap_err();
    assert_eq!(e.message(), "Tipo de track desconocido: 'ábc'. Usa: audio, video, image");
}

#[test]
fn existing_output_is_quoted_in_the_error() {
    let e = check_output_not_overwritten("/tmp/a \"b\".mp4", true, false).unwrap_err();
    assert_eq!(
        e.message(),
        "El archivo de salida ya existe: \"/tmp/a \\\"b\\\".mp4\". Usa --force para sobrescribir."
    );
}

#[test]
fn track_kinds_parse_ignoring_case() {
    assert_eq!(parse_kind("Audio").unwrap(), TrackKind::Audio);
    assert_eq!(parse_kind("VIDEO").unwrap(), TrackKind::Video);
    assert_eq!(parse_kind("image").unwrap(), TrackKind::Image);
    let e = parse_kind("Texto").unwrap_err();
    assert_eq!(e.message(), "Tipo de track desconocido: 'texto'. Usa: audio, video, image");
}

#[test]
fn output_guard() {
    assert!(check_output_not_overwritten("out.mp4", false, false).is_ok());
    assert!(check_output_not_overwritten("out.mp4", true, true).is_ok());
    let e = check_output_not_overwritten("out.mp4", true, false).unwrap_err();
    assert_eq!(
        e.message(),
        "El archivo de salida ya existe: \"out.mp4\". Usa --force para sobrescribir."
    );
}

#[test]
fn render_region_flags() {
    assert!(matches!(resolve_render_region(None, None), Ok(None)));
    let r = resolve_render_region(Some(2000), Some(3000)).unwrap().unwrap();
    assert_eq!(r, RenderRegion { start_secs: 2000, duration_secs: 3000 });
    let e = resolve_render_region(Some(2000), None).unwrap_err();
    assert!(matches!(e, CliError::StartWithoutDuration));
    assert_eq!(e.message(), "--start-time requiere también --duration para definir la región.");
    let e = resolve_render_region(None, Some(1)).unwrap_err();
    assert_eq!(e.message(), "--duration requiere también --start-time para definir la región.");
    let e = resolve_render_region(Some(-1), Some(1)).unwrap_err();
    assert!(matches!(e, CliError::Region(RegionError::NegativeStart(-1))));
}

#[test]
fn motion_flag() {
    assert!(matches!(resolve_motion_formula(None), Ok(None)));
    let f = resolve_motion_formula(Some("ORBIT_SLOW")).unwrap().unwrap();
    assert_eq!(f.display(), "orbit");
    let e = resolve_motion_formula(Some("girar")).unwrap_err();
    assert_eq!(
        e.message(),
        "Preset de movimiento 'girar' no reconocido. Usa `vedit render motion list` para ver los disponibles."
    );
}

#[test]
fn reorder_moves_a_track() {
    let mut p = Project::new("R");
    let a = p.add_track(TrackKind::Audio, "a");
    p.add_track(TrackKind::Audio, "b");
    p.add_track(TrackKind::Audio, "c");
    reorder_track(&mut p, a, 1).unwrap();
    let names: Vec<&str> = p.tracks.iter().map(|t| t.name.as_str()).collect();
    assert_eq!(names, vec!["b", "a", "c"]);
    reorder_track(&mut p, a, 99).unwrap();
    let names: Vec<&str> = p.tracks.iter().map(|t| t.name.as_str()).collect();
    assert_eq!(names, vec!["b", "c", "a"]);
    let e = reorder_track(&mut p, 7, 0).unwrap_err();
    assert_eq!(e.message(), "Track no encontrado");
}

#[test]
fn clamping_rules() {
    assert_eq!(clip_volume(-3), 0);
    assert_eq!(clip_volume(2500), 2000);
    assert_eq!(clip_volume(700), 700);
    assert_eq!(clip_speed(50), 100);
    assert_eq!(clip_speed(1500), 1500);
    assert_eq!(image_duration(0), 100);
    assert_eq!(image_duration(2500), 2500);
    assert!(check_video_speed(1).is_ok());
    assert_eq!(check_video_speed(0).unwrap_err().message(), "La velocidad debe ser mayor a 0.0");
}
