use vedit::cli::parse_kind;
use vedit::config::{
    apply_key, parse_encoder, parse_resolution, ConfigKey, DefaultAspectRatio, PreferredEncoder,
    VeditConfig,
};
use vedit::history::History;
use vedit::motion::formula::MovementFormula;
use vedit::motion::presets::{dvd_bounce, MotionPresets};
use vedit::project::clip::{
    FadeEffect, TextClip, TextColor, TextPositionPreset, TextShadow, TextStroke, VideoClip,
};
use vedit::project::track::{Track, TrackKind};
use vedit::project::{Project, ProjectError};
use vedit::render::compositor::composite;
use vedit::render::subtitles::export_srt;
use vedit::render::text::{build_drawtext_filter, render_text_preview, text_file_path};
use vedit::render::video::RenderError;
use vedit::render::{AspectRatio, AudioFormat, RenderJob, VideoFormat};
use vedit::timeline::{timeline_bar, timeline_clips, TimelineClip};

const ID: u128 = 0x1234_5678_9abc_4def_8123_456789abcdef;

fn clip() -> TextClip {
    let mut c = TextClip::new("t", "Hola", 2000, 4000);
    c.id = ID;
    c
}

#[test]
fn text_tracks_are_a_kind() {
    assert_eq!(parse_kind("text").unwrap(), TrackKind::Text);
    assert_eq!(parse_kind("TEXT").unwrap(), TrackKind::Text);
    assert_eq!(TrackKind::Text.display(), "text");
    let mut p = Project::new("p");
    let id = p.add_track(TrackKind::Text, "TextTrack");
    assert_eq!(p.track(id).unwrap().kind, TrackKind::Text);
}

#[test]
fn dvd_bounce_swings_half_a_frame() {
    match dvd_bounce() {
        MovementFormula::Bounce { amplitude_px, frequency } => {
            assert_eq!(amplitude_px, 96000);
            assert_eq!(frequency, 1_000_000);
        }
        _ => panic!("dvd_bounce is a bounce"),
    }
    assert_eq!(
        dvd_bounce().to_overlay_filter(1920, 1080),
        "overlay=x='sin(t*1.000000)*960.00':y='0':eval=frame:eof_action=pass"
    );
}

#[test]
fn config_set_changes_only_its_key() {
    let mut cfg = VeditConfig::default();
    apply_key(&mut cfg, ConfigKey::DefaultFps { value: 240 }).unwrap();
    let d = VeditConfig::default();
    assert_eq!(cfg.default_fps, 240);
    assert_eq!(cfg.log_level, d.log_level);
    assert_eq!(cfg.cache_dir, d.cache_dir);
    assert_eq!(cfg.vaapi_device, d.vaapi_device);
    assert_eq!(cfg.max_threads, d.max_threads);
    apply_key(&mut cfg, ConfigKey::LogLevel { value: "debug".to_string() }).unwrap();
    assert_eq!(cfg.log_level, "debug");
    assert_eq!(cfg.default_fps, 240);
    assert!(apply_key(&mut cfg, ConfigKey::LogLevel { value: "DEBUG".to_string() }).is_err());
    assert_eq!(cfg.log_level, "debug");
}

#[test]
fn drawtext_of_a_default_clip() {
    let file = text_file_path("/tmp/c", ID);
    assert_eq!(file, "/tmp/c/text_12345678-9abc-4def-8123-456789abcdef.txt");
    assert_eq!(
        build_drawtext_filter(&clip(), &file),
        "drawtext=textfile='/tmp/c/text_12345678-9abc-4def-8123-456789abcdef.txt':font='Sans':fontsize=48:fontcolor=0xffffffff:x=(w-text_w)/2:y=h-text_h-40:enable='between(t,2.000,6.000)'"
    );
}

#[test]
fn drawtext_with_style_fades_and_custom_position() {
    let mut c = clip();
    c.style.font_family = "C:\\fonts\\a.ttf".to_string();
    c.style.bg_color = Some(TextColor { r: 0, g: 0, b: 0, a: 128 });
    c.style.line_height = 1500;
    c.style.shadow = Some(TextShadow { color: TextColor { r: 16, g: 32, b: 255, a: 255 }, offset_x: 25, offset_y: -5 });
    c.style.stroke = Some(TextStroke { color: TextColor { r: 255, g: 0, b: 0, a: 255 }, width: 20 });
    c.position_preset = TextPositionPreset::Custom;
    c.pos_x = Some(2500);
    c.fade_in = Some(FadeEffect { duration_secs: 500 });
    c.fade_out = Some(FadeEffect { duration_secs: 1000 });
    assert_eq!(
        build_drawtext_filter(&c, "C:\\tmp\\t.txt"),
        "drawtext=textfile='C:/tmp/t.txt':fontfile='C:/fonts/a.ttf':fontsize=48:fontcolor=0xffffffff:box=1:boxcolor=0x00000080:boxborderw=10:line_spacing=24:shadowcolor=0x1020ffff:shadowx=2.5:shadowy=-0.5:bordercolor=0xff0000ff:borderw=2.0:x=w*0.2500:y=(h-text_h)/2:alpha='min(if(lt(t,2.000+0.500),(t-2.000)/0.500,1),if(gt(t,5.000),(6.000-t)/1.000,1))':enable='between(t,2.000,6.000)'"
    );
    let mut d = clip();
    d.position_preset = TextPositionPreset::TopRight;
    d.margin = 10;
    d.fade_out = Some(FadeEffect { duration_secs: 1000 });
    assert_eq!(
        build_drawtext_filter(&d, "f.txt"),
        "drawtext=textfile='f.txt':font='Sans':fontsize=48:fontcolor=0xffffffff:x=w-text_w-10:y=10:alpha='if(gt(t,5.000),(6.000-t)/1.000,1)':enable='between(t,2.000,6.000)'"
    );
}

#[test]
fn text_preview_draws_texts_over_black() {
    let empty = Project::new("e");
    assert_eq!(
        render_text_preview(&empty, "o.mp4", &VideoFormat::Mp4, 1920, 1080, "/c").unwrap_err(),
        RenderError::EmptyProject
    );
    assert_eq!(RenderError::EmptyProject.message(), "El proyecto está vacío");
    let mut p = Project::new("p");
    let v = p.add_track(TrackKind::Video, "V");
    let mut vc = VideoClip::new("v", "/m/v.mp4", 0);
    vc.source_end = Some(6000);
    p.track_mut(v).unwrap().add_video_clip(vc);
    let t = p.add_track(TrackKind::Text, "T");
    p.track_mut(t).unwrap().add_text_clip(clip());
    let cmd = render_text_preview(&p, "o.mp4", &VideoFormat::Mkv, 1920, 1080, "/c").unwrap();
    let f = build_drawtext_filter(&clip(), &text_file_path("/c", ID));
    assert_eq!(
        cmd.build_args(),
        vec![
            "-hide_banner".to_string(),
            "-threads".into(),
            "0".into(),
            "-y".into(),
            "-map".into(),
            "[bg1]".into(),
            "-an".into(),
            "-c:v".into(),
            "libx265".into(),
            "-filter_complex".into(),
            format!("color=c=black:s=1920x1080:d=6.000[bg0];[bg0]{}[bg1]", f),
            "o.mp4".into(),
        ]
    );
}

#[test]
fn composite_draws_text_tracks_after_images() {
    let mut p = Project::new("p");
    p.path = Some("/proj/p.vedit".to_string());
    let v = p.add_track(TrackKind::Video, "V");
    let mut vc = VideoClip::new("v", "/m/v.mp4", 0);
    vc.source_end = Some(2000);
    p.track_mut(v).unwrap().add_video_clip(vc);
    let t = p.add_track(TrackKind::Text, "T");
    p.track_mut(t).unwrap().add_text_clip(clip());
    let job = RenderJob {
        project_path: "p.vedit".to_string(),
        output_path: "out.mp4".to_string(),
        audio_only: false,
        video_format: Some(VideoFormat::Mp4),
        audio_format: Some(AudioFormat::Aac),
        aspect: Some(AspectRatio::Widescreen),
        is_live_preview: false,
        motion_formula: None,
        region: None,
        config: None,
    };
    let plan = composite(&job, &p);
    let args = plan.command.build_args();
    let f = build_drawtext_filter(&clip(), &text_file_path("/proj/.vedit_cache", ID));
    let graph = args.iter().position(|a| a == "-filter_complex").unwrap() + 1;
    assert!(args[graph].ends_with(&format!(";[bg1]{}[txt_bg0]", f)));
    let map = args.iter().position(|a| a == "-map").unwrap() + 1;
    assert_eq!(args[map], "[txt_bg0]");
}

#[test]
fn text_layers_are_drawn_lowest_first() {
    let mut p = Project::new("p");
    p.path = Some("/proj/p.vedit".to_string());
    let high = p.add_track(TrackKind::Text, "high");
    let low = p.add_track(TrackKind::Text, "low");
    p.track_mut(high).unwrap().layer_order = 100;
    p.track_mut(low).unwrap().layer_order = 3;
    let mut a = TextClip::new("a", "Arriba", 0, 1000);
    a.id = ID;
    let mut b = TextClip::new("b", "Abajo", 0, 1000);
    b.id = ID + 1;
    p.track_mut(high).unwrap().add_text_clip(a.clone());
    p.track_mut(low).unwrap().add_text_clip(b.clone());
    let job = RenderJob {
        project_path: "p.vedit".to_string(),
        output_path: "out.mp4".to_string(),
        audio_only: false,
        video_format: Some(VideoFormat::Mp4),
        audio_format: Some(AudioFormat::Aac),
        aspect: Some(AspectRatio::Widescreen),
        is_live_preview: false,
        motion_formula: None,
        region: None,
        config: None,
    };
    let args = composite(&job, &p).command.build_args();
    let fa = build_drawtext_filter(&a, &text_file_path("/proj/.vedit_cache", ID));
    let fb = build_drawtext_filter(&b, &text_file_path("/proj/.vedit_cache", ID + 1));
    let graph = args.iter().position(|a| a == "-filter_complex").unwrap() + 1;
    assert!(args[graph].ends_with(&format!(";[bg0]{}[txt_bg0];[txt_bg0]{}[txt_bg1]", fb, fa)));
}

#[test]
fn sources_are_checked_in_order() {
    let p = Project::new("e");
    assert_eq!(p.check_sources(&vec![]), Err(ProjectError::NoTracks));
    let mut p = Project::new("p");
    let t = p.add_track(TrackKind::Video, "V");
    p.track_mut(t).unwrap().add_video_clip(VideoClip::new("a", "/m/a.mp4", 0));
    p.track_mut(t).unwrap().add_video_clip(VideoClip::new("b", "/m/b.mp4", 0));
    assert_eq!(p.validate_for_render().unwrap(), vec!["/m/a.mp4".to_string(), "/m/b.mp4".into()]);
    assert_eq!(p.check_sources(&vec![true, true]), Ok(()));
    let e = p.check_sources(&vec![true, false]).unwrap_err();
    assert_eq!(e.message(), "Archivo fuente extraviado o eliminado: \"/m/b.mp4\"");
}

#[test]
fn text_clips_on_tracks_and_timeline() {
    let mut track = Track::new(TrackKind::Text, "T");
    let mut long = TextClip::new("l", "Un texto bastante largo", 0, 1000);
    long.id = 7;
    let id = track.add_text_clip(long);
    assert_eq!(track.text_clip_index(id), Some(0));
    let tl = timeline_clips(&track);
    assert_eq!(tl[0].name, "Un texto bastan");
    assert_eq!(tl[0].end, 1000);
    track.text_clip_mut(id).unwrap().timeline_start = 500;
    assert_eq!(track.text_clips[0].timeline_start, 500);
    assert!(track.remove_text_clip(id));
    assert!(!track.remove_text_clip(id));
}

#[test]
fn wide_timeline_bars() {
    let clips = vec![TimelineClip { name: "a".into(), start: 0, end: 500 }];
    let bar = timeline_bar(&clips, 1000, 100_000);
    assert_eq!(bar.len(), 100_000);
    assert_eq!(bar.iter().filter(|&&b| b).count(), 50_000);
    let far = vec![TimelineClip { name: "b".into(), start: -5, end: i128::MAX }];
    assert!(timeline_bar(&far, 1000, 10).iter().all(|&b| b));
}

#[test]
fn fifty_undos_after_many_pushes() {
    let p = Project::new("p");
    let mut h = History::new();
    for _ in 0..55 {
        h.push(&p, "op");
    }
    for _ in 0..50 {
        assert!(h.undo(&p).is_some());
    }
    assert!(h.undo(&p).is_none());
}

#[test]
fn names_and_resolutions_read_back() {
    for e in [
        PreferredEncoder::Libx264,
        PreferredEncoder::H264Nvenc,
        PreferredEncoder::H264Vaapi,
        PreferredEncoder::H264Amf,
        PreferredEncoder::Custom("hevc_qsv".to_string()),
    ] {
        assert_eq!(parse_encoder(e.as_ffmpeg_codec()), e);
    }
    for d in [
        DefaultAspectRatio::Widescreen,
        DefaultAspectRatio::Portrait,
        DefaultAspectRatio::Square,
        DefaultAspectRatio::Custom { width: 3840, height: 2160 },
    ] {
        let (w, h) = d.dimensions();
        assert_eq!(
            parse_resolution(&d.display()),
            Ok(DefaultAspectRatio::Custom { width: w, height: h })
        );
    }
    for name in MotionPresets::available_names() {
        let upper = name.to_uppercase();
        assert_eq!(
            MotionPresets::by_name(&upper).map(|f| f.display()),
            MotionPresets::by_name(name).map(|f| f.display())
        );
        assert!(MotionPresets::by_name(name).is_some());
    }
    assert_eq!(
        MotionPresets::by_name("DVD").map(|f| f.to_overlay_filter(1920, 1080)),
        MotionPresets::by_name("dvd_bounce").map(|f| f.to_overlay_filter(1920, 1080))
    );
}

#[test]
fn text_clips_split_inside_only() {
    let mut c = clip();
    c.fade_in = Some(FadeEffect { duration_secs: 300 });
    c.fade_out = Some(FadeEffect { duration_secs: 500 });
    assert!(c.split_at(0).is_none());
    assert!(c.split_at(4000).is_none());
    assert!(c.split_at(-1).is_none());
    assert_eq!(c.duration_secs, 4000);
    let rest = c.split_at(1500).unwrap();
    assert_eq!(c.timeline_start, 2000);
    assert_eq!(c.duration_secs, 1500);
    assert_eq!(c.fade_in, Some(FadeEffect { duration_secs: 300 }));
    assert_eq!(c.fade_out, None);
    assert_eq!(rest.timeline_start, 3500);
    assert_eq!(rest.duration_secs, 2500);
    assert_eq!(rest.text, "Hola");
    assert_eq!(rest.fade_in, None);
    assert_eq!(rest.fade_out, Some(FadeEffect { duration_secs: 500 }));
    assert_ne!(rest.id, c.id);
}

#[test]
fn text_clips_export_as_subrip() {
    let mut a = TextClip::new("a", "Hola", 2000, 4000);
    a.id = ID;
    let b = TextClip::new("b", "Dos\nlíneas", 3_723_456, 1_000);
    let c = TextClip::new("c", "antes", -500, 400);
    assert_eq!(
        export_srt(&vec![a, b, c]),
        "1\n00:00:02,000 --> 00:00:06,000\nHola\n\n\
         2\n01:02:03,456 --> 01:02:04,456\nDos\nlíneas\n\n\
         3\n00:00:00,000 --> 00:00:00,000\nantes\n\n"
    );
    assert_eq!(export_srt(&vec![]), "");
    let long = TextClip::new("l", "x", 360_000_000, 1);
    assert_eq!(export_srt(&vec![long]), "1\n100:00:00,000 --> 100:00:00,001\nx\n\n");
}
