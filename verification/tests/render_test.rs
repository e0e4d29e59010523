use vedit::config::{PreferredEncoder, VeditConfig};
use vedit::motion::presets::dvd_bounce;
use vedit::motion::region::RenderRegion;
use vedit::project::clip::{
    AudioClip, ClipScale, ColorCorrection, EntryAnimation, FadeEffect, ImageClip, ImageMode,
    ImagePosition, KenBurnsEffect, TransitionKind, VideoClip, VideoCrop, VideoTransition,
    VisualEffects,
};
use vedit::project::track::TrackKind;
use vedit::project::Project;
use vedit::render::compositor::{composite, resolve_temp_dir};
use vedit::render::filters::{
    build_audio_clip_filters, build_entry_animation_filter, build_image_clip_filters,
    build_ken_burns_filter, build_video_clip_filters, resolve_overlay_position,
};
use vedit::render::layers::tracks_by_layer;
use vedit::render::stabilize::stabilization_jobs;
use vedit::render::audio::render_audio;
use vedit::render::video::{export_frame, render_video, video_codec_for, RenderError};
use vedit::render::{audio_codec_for, AspectRatio, AudioFormat, RenderJob, VideoFormat};

fn sample_project() -> Project {
    let mut p = Project::new("S");
    let v = p.add_track(TrackKind::Video, "V");
    let a = p.add_track(TrackKind::Audio, "A");
    let mut vc = VideoClip::new("v", "/m/v.mp4", 0);
    vc.source_end = Some(2000);
    p.track_mut(v).unwrap().add_video_clip(vc);
    let mut ac = AudioClip::new("a", "/m/a.wav", 500);
    ac.source_end = Some(3000);
    p.track_mut(a).unwrap().add_audio_clip(ac);
    p
}

fn job(output: &str) -> RenderJob {
    RenderJob {
        project_path: "p.vedit".to_string(),
        output_path: output.to_string(),
        audio_only: false,
        video_format: Some(VideoFormat::Mp4),
        audio_format: Some(AudioFormat::Aac),
        aspect: Some(AspectRatio::Widescreen),
        is_live_preview: false,
        motion_formula: None,
        region: None,
        config: None,
    }
}

#[test]
fn composite_lays_out_video_and_mixes_audio() {
    let p = sample_project();
    let plan = composite(&job("out.mp4"), &p);
    let graph = [
        "color=c=black:s=1920x1080:d=3.500:r=30[bg0]",
        "[0:v]scale=1920:1080,setpts=PTS-STARTPTS+0.000/TB[v0]",
        "[bg0][v0]overlay=0:0:enable='between(t,0.000,2.000)':eof_action=pass[bg1]",
        "[1:a]adelay=500|500[a1]",
        "[a1]amix=inputs=1:duration=longest[aout]",
    ]
    .join(";");
    assert_eq!(
        plan.command.build_args(),
        vec![
            "-hide_banner", "-threads", "0", "-y",
            "-i", "/m/v.mp4", "-ss", "0.000", "-t", "2.000",
            "-i", "/m/a.wav", "-ss", "0.000", "-t", "3.000",
            "-map", "[bg1]", "-map", "[aout]",
            "-c:v", "libx264", "-c:a", "aac", "-t", "3.500",
            "-filter_complex", graph.as_str(),
            "out.mp4",
        ]
    );
    assert!(!plan.live_preview);
    assert_eq!(plan.progress_duration, 3500);
    assert_eq!(plan.project_duration, 3500);
    assert!(!plan.cleanup_temp);
    assert_eq!(plan.temp_dir, "./.vedit_cache");
}

#[test]
fn composite_live_preview_streams_to_player() {
    let p = sample_project();
    let mut j = job("-");
    j.is_live_preview = true;
    let args = composite(&j, &p).command.build_args();
    let n = args.len();
    assert_eq!(&args[n - 10..n - 3], &["[aout]", "-f", "nut", "-c:v", "rawvideo", "-c:a", "pcm_s16le"]);
    assert_eq!(args[n - 1], "-");
}

#[test]
fn composite_with_region_motion_and_config() {
    let mut p = sample_project();
    p.path = Some("/proj/demo/project.vedit".to_string());
    let mut j = job("out.mkv");
    j.video_format = Some(VideoFormat::Mkv);
    j.audio_format = Some(AudioFormat::Flac);
    j.region = Some(RenderRegion::new(1000, 1000).unwrap());
    j.motion_formula = Some(dvd_bounce());
    let mut cfg = VeditConfig::default();
    cfg.max_threads = 4;
    cfg.cleanup_cache_on_exit = true;
    cfg.preferred_encoder = PreferredEncoder::H264Vaapi;
    j.config = Some(cfg);
    let plan = composite(&j, &p);
    let args = plan.command.build_args();
    assert_eq!(&args[..6], &["-hide_banner", "-threads", "0", "-y", "-threads", "4"]);
    let graph = &args[args.len() - 2];
    assert!(graph.starts_with("color=c=black:s=1920x1080:d=1.000:r=30[bg0]"));
    assert!(graph.ends_with(
        "[bg1][bg1]overlay=x='sin(t*1.000000)*960.00':y='0':enable='between(t,0,1.000)':eval=frame:eof_action=pass[motion_out]"
    ));
    let tail = &args[args.len() - 17..args.len() - 3];
    assert_eq!(
        tail,
        &[
            "-map", "[motion_out]", "-map", "[aout]",
            "-vaapi_device", "/dev/dri/renderD128",
            "-c:v", "libx265", "-c:a", "flac", "-t", "1.000", "-ss", "1.000",
        ]
    );
    assert_eq!(args[args.len() - 1], "out.mkv");
    assert_eq!(plan.progress_duration, 1000);
    assert!(plan.cleanup_temp);
    assert_eq!(plan.temp_dir, "/proj/demo/.vedit_cache");
    assert_eq!(resolve_temp_dir(&p), "/proj/demo/.vedit_cache");
}

#[test]
fn composite_places_images() {
    let mut p = Project::new("I");
    let t = p.add_track(TrackKind::Image, "Img");
    let mut ic = ImageClip::new("i", "/m/i.png", 1000, 2000);
    ic.position = ImagePosition { x: Some(2500), y: None };
    p.tracks[0].image_clips.push(ic);
    let mut bg = ImageClip::new("b", "/m/b.png", 0, 500);
    bg.mode = ImageMode::Fullscreen;
    p.track_mut(t).unwrap().image_clips.push(bg);
    let args = composite(&job("o.mp4"), &p).command.build_args();
    assert_eq!(
        &args[4..16],
        &["-loop", "1", "-t", "2.000", "-i", "/m/i.png", "-loop", "1", "-t", "0.500", "-i", "/m/b.png"]
    );
    let graph = &args[args.len() - 2];
    assert!(graph.contains("[0:v]scale=1920:1080,setpts=PTS-STARTPTS+1.000/TB[img0]"));
    assert!(graph.contains(
        "[bg0][img0]overlay=480:(main_h-overlay_h)/2:enable='between(t,1.000,3.000)':eof_action=pass[bg1]"
    ));
    assert!(graph.contains("[bg1][img1]overlay=0:0:enable='between(t,0.000,0.500)':eof_action=pass[bg2]"));
    assert!(args.contains(&"[bg2]".to_string()));
}

#[test]
fn muted_tracks_are_left_out() {
    let mut p = sample_project();
    p.tracks[1].mute();
    let args = composite(&job("out.mp4"), &p).command.build_args();
    assert!(!args.contains(&"/m/a.wav".to_string()));
    assert!(!args.contains(&"[aout]".to_string()));
}

#[test]
fn video_only_render() {
    let p = sample_project();
    let cmd = render_video(&p, "out.mp4", &VideoFormat::Mp4, 1920, 1080).unwrap();
    assert_eq!(
        cmd.build_args(),
        vec![
            "-hide_banner", "-threads", "0", "-y",
            "-i", "/m/v.mp4", "-ss", "0.000", "-t", "2.000",
            "-map", "[bg1]", "-an", "-c:v", "libx264",
            "-filter_complex",
            "color=c=black:s=1920x1080:d=3.500[bg0];[0:v]scale=1920:1080,setpts=PTS-STARTPTS+0.000/TB[v0];[bg0][v0]overlay=0:0:enable='between(t,0.000,2.000)'[bg1]",
            "out.mp4",
        ]
    );
    let empty = Project::new("E");
    let e = render_video(&empty, "o.mp4", &VideoFormat::Mov, 1080, 1920).err().unwrap();
    assert_eq!(e, RenderError::NoVideoClips);
    assert_eq!(e.message(), "No hay clips de video para renderizar");
}

#[test]
fn frame_export_seeks_into_the_clip() {
    let mut p = sample_project();
    p.tracks[0].video_clips[0].speed = 2000;
    let cmd = export_frame(&p, "f.png", 1000).unwrap();
    assert_eq!(
        cmd.build_args(),
        vec!["-hide_banner", "-threads", "0", "-y", "-ss", "2.000", "-i", "/m/v.mp4", "-vframes", "1", "f.png"]
    );
    let e = export_frame(&p, "f.png", 5000).err().unwrap();
    assert_eq!(e, RenderError::NoClipAt(5000));
    assert_eq!(e.message(), "No hay clip de video en el instante 5.000s");
}

#[test]
fn audio_only_export() {
    let p = sample_project();
    let cmd = render_audio(&p, "out.mp3", &AudioFormat::Mp3);
    assert_eq!(
        cmd.build_args(),
        vec!["-i", "/m/a.wav", "-ss", "0.000", "-t", "3.000", "-c:a", "libmp3lame", "out.mp3"]
    );
}

#[test]
fn video_filter_chain_order() {
    let mut c = VideoClip::new("v", "v.mp4", 0);
    c.source_end = Some(4000);
    c.reverse = true;
    c.speed = 2000;
    c.crop = Some(VideoCrop { top: 30, bottom: 40, left: 10, right: 20 });
    c.scale = ClipScale { width: 5000, height: 5000 };
    c.flip_horizontal = true;
    c.fade_in = Some(FadeEffect { duration_secs: 500 });
    c.fade_out = Some(FadeEffect { duration_secs: 1000 });
    c.transition_out = Some(VideoTransition::new(TransitionKind::FadeToBlack, 500));
    assert_eq!(
        build_video_clip_filters(&c, 1920, 1080),
        vec![
            "reverse",
            "setpts=0.500000*PTS",
            "crop=iw-10-20:ih-30-40:10:30",
            "scale=960:540",
            "hflip",
            "fade=t=in:st=0:d=0.500",
            "fade=t=out:st=3.000:d=1.000",
            "fade=t=out:st=3.500:d=0.500:color=black",
        ]
    );
    c.transition_out = Some(VideoTransition::new(TransitionKind::WipeHorizontal, 1000));
    let f = build_video_clip_filters(&c, 1920, 1080);
    assert_eq!(f[f.len() - 1], "crop=iw*max(0\\,1-(t-3.000)/1.000):ih:0:0");
    c.speed = 1001;
    c.transition_out = Some(VideoTransition::new(TransitionKind::Cut, 1000));
    let f = build_video_clip_filters(&c, 1920, 1080);
    assert!(!f.iter().any(|s| s.starts_with("setpts")));
    assert_eq!(f[f.len() - 1], "fade=t=out:st=3.000:d=1.000");
}

#[test]
fn image_filter_chain_and_position() {
    let mut i = ImageClip::new("i", "i.png", 0, 3000);
    i.opacity = 500;
    i.fade_out = Some(FadeEffect { duration_secs: 1000 });
    i.entry_animation = Some(EntryAnimation::ZoomIn);
    assert_eq!(
        build_image_clip_filters(&i, 1920, 1080, 30000),
        vec![
            "scale=1920:1080",
            "format=rgba,colorchannelmixer=aa=0.500",
            "fade=t=out:st=2.000:d=1.000:alpha=1",
            "scale='if(lt(n,30),1920*n/30,1920)':'if(lt(n,30),1080*n/30,1080)'",
        ]
    );
    i.position = ImagePosition { x: Some(2500), y: None };
    let (x, y) = resolve_overlay_position(&i, 1920, 1080);
    assert_eq!(x, "480");
    assert_eq!(y, "(main_h-overlay_h)/2");
    i.position = ImagePosition { x: None, y: Some(-1000) };
    let (x, y) = resolve_overlay_position(&i, 1920, 1080);
    assert_eq!(x, "(main_w-overlay_w)/2");
    assert_eq!(y, "-108");
}

#[test]
fn entry_animations() {
    assert_eq!(
        build_entry_animation_filter(&EntryAnimation::SlideLeft, 640, 360),
        "pad=640+iw:ih:x='if(lt(n,30),iw*(1-n/30),0)':y=0"
    );
    assert_eq!(
        build_entry_animation_filter(&EntryAnimation::SlideBottom, 640, 360),
        "pad=iw:360+ih:x=0:y='if(lt(n,30),-(ih*(1-n/30)),0)'"
    );
}

#[test]
fn audio_filters_delay_and_fades() {
    let mut a = AudioClip::new("a", "a.wav", 1250);
    a.fade_in = Some(FadeEffect { duration_secs: 1500 });
    a.fade_out = Some(FadeEffect { duration_secs: 2000 });
    assert_eq!(
        build_audio_clip_filters(&a),
        vec!["adelay=1250|1250", "afade=t=in:d=1.5", "afade=t=out:d=2"]
    );
}

#[test]
fn formats_and_codecs() {
    assert_eq!(video_codec_for(&VideoFormat::Mp4), "libx264");
    assert_eq!(video_codec_for(&VideoFormat::Mkv), "libx265");
    assert_eq!(video_codec_for(&VideoFormat::Mov), "prores");
    assert_eq!(audio_codec_for(&AudioFormat::Wav), "pcm_s16le");
    assert_eq!(audio_codec_for(&AudioFormat::Ogg), "libvorbis");
    assert_eq!(VideoFormat::Mkv.display(), "mkv");
    assert_eq!(AudioFormat::Flac.display(), "flac");
    assert_eq!(AspectRatio::Widescreen.dimensions(), (1920, 1080));
    assert_eq!(AspectRatio::Portrait.dimensions(), (1080, 1920));
}

#[test]
fn video_rotation_colour_and_effects() {
    let mut c = VideoClip::new("v", "v.mp4", 0);
    c.source_end = Some(4000);
    assert_eq!(build_video_clip_filters(&c, 1920, 1080), vec!["scale=1920:1080"]);
    c.rotation_deg = -90_000;
    c.color = ColorCorrection {
        brightness: 1000,
        contrast: 12000,
        saturation: 8000,
        temperature_k: Some(3200),
        lut_path: Some("/l/film.cube".to_string()),
    };
    c.effects = VisualEffects {
        blur_radius: Some(250),
        sharpen: Some(100),
        vignette: Some(5000),
        noise: Some(20),
        deinterlace: true,
    };
    assert_eq!(
        build_video_clip_filters(&c, 1920, 1080),
        vec![
            "scale=1920:1080",
            "rotate=-90.000*PI/180:fillcolor=none",
            "eq=brightness=0.1000:contrast=1.2000:saturation=0.8000",
            "hue=s=1:H=-0.1523",
            "lut3d='/l/film.cube'",
            "gblur=sigma=2.50",
            "unsharp=luma_msize_x=5:luma_msize_y=5:luma_amount=1.00",
            "vignette=angle=0.5000*PI/2",
            "noise=alls=20:allf=t+u",
            "yadif=mode=1",
        ]
    );
    c.rotation_deg = 0;
    c.color = ColorCorrection::neutral();
    c.color.temperature_k = Some(9750);
    c.effects = VisualEffects { blur_radius: None, sharpen: None, vignette: None, noise: None, deinterlace: false };
    assert_eq!(
        build_video_clip_filters(&c, 1920, 1080),
        vec![
            "scale=1920:1080",
            "eq=brightness=0.0000:contrast=1.0000:saturation=1.0000",
            "hue=s=1:H=0.1500",
        ]
    );
}

#[test]
fn image_rotation_and_ken_burns() {
    let mut i = ImageClip::new("i", "i.png", 0, 5000);
    i.rotation_deg = 45_000;
    i.apply_ken_burns();
    assert_eq!(
        i.ken_burns,
        Some(KenBurnsEffect {
            zoom_start: 10000,
            zoom_end: 12000,
            pan_x_start: 0,
            pan_x_end: 1000,
            pan_y_start: 0,
            pan_y_end: 1000,
        })
    );
    assert_eq!(
        build_image_clip_filters(&i, 1920, 1080, 30000),
        vec![
            "scale=1920:1080",
            "zoompan=z='min(zoom+0.001333,1.2000)':x='0+192.0000*on/150':y='0+108.0000*on/150':d=150:s=1920x1080:fps=30",
            "rotate=45.000*PI/180:fillcolor=none",
        ]
    );
    let kb = KenBurnsEffect {
        zoom_start: 12000,
        zoom_end: 10000,
        pan_x_start: 2500,
        pan_x_end: 0,
        pan_y_start: 0,
        pan_y_end: 0,
    };
    assert_eq!(
        build_ken_burns_filter(&kb, 1000, 500, 0, 25000),
        "zoompan=z='min(zoom+-0.200000,1.0000)':x='250+-250.0000*on/1':y='0+0.0000*on/1':d=0:s=1000x500:fps=25"
    );
}

#[test]
fn stabilized_clips_get_analysis_and_transform() {
    let mut p = Project::new("S");
    let v = p.add_track(TrackKind::Video, "V");
    let mut c = VideoClip::new("shaky", "/m/v.mp4", 0);
    c.id = 0x1234_5678_9abc_4def_8123_456789abcdef;
    c.source_start = 1000;
    c.source_end = Some(3000);
    c.stabilize = true;
    let mut calm = VideoClip::new("calm", "/m/w.mp4", 0);
    calm.source_end = Some(1000);
    p.track_mut(v).unwrap().add_video_clip(c);
    p.track_mut(v).unwrap().add_video_clip(calm);
    let jobs = stabilization_jobs(&p);
    assert_eq!(jobs.len(), 1);
    let trf = "./.vedit_cache/12345678-9abc-4def-8123-456789abcdef_stab.trf";
    assert_eq!(jobs[0].clip_name, "shaky");
    assert_eq!(jobs[0].motion_file, trf);
    assert_eq!(
        jobs[0].command.build_args(),
        vec![
            "-hide_banner",
            "-threads",
            "0",
            "-y",
            "-i",
            "/m/v.mp4",
            "-ss",
            "1.000",
            "-t",
            "2.000",
            "-f",
            "null",
            "-vf",
            "vidstabdetect=result='./.vedit_cache/12345678-9abc-4def-8123-456789abcdef_stab.trf'",
            "-",
        ]
    );
    let plan = composite(&job("out.mp4"), &p);
    let args = plan.command.build_args();
    let graph = &args[args.iter().position(|a| a == "-filter_complex").unwrap() + 1];
    assert!(graph.contains(
        "[0:v]scale=1920:1080,vidstabtransform=input='./.vedit_cache/12345678-9abc-4def-8123-456789abcdef_stab.trf':optzoom=1:zoomspeed=0.25,setpts=PTS-STARTPTS+0.000/TB[v0]"
    ));
    assert!(graph.contains("[1:v]scale=1920:1080,setpts=PTS-STARTPTS+0.000/TB[v1]"));
}

#[test]
fn colour_and_effect_settings_are_bounded() {
    let mut c = ColorCorrection::neutral();
    c.adjust(Some(25000), Some(-5), None, Some(5600));
    assert_eq!(c.brightness, 10000);
    assert_eq!(c.contrast, 0);
    assert_eq!(c.saturation, 10000);
    assert_eq!(c.temperature_k, Some(5600));
    c.adjust(Some(-20000), None, Some(-1), None);
    assert_eq!(c.brightness, -10000);
    assert_eq!(c.saturation, 0);
    assert_eq!(c.temperature_k, Some(5600));
    let e = VisualEffects { blur_radius: None, sharpen: None, vignette: None, noise: None, deinterlace: false };
    let e = e.adjusted(Some(300), Some(900), Some(20000), Some(250), true);
    assert_eq!(
        e,
        VisualEffects {
            blur_radius: Some(300),
            sharpen: Some(500),
            vignette: Some(10000),
            noise: Some(100),
            deinterlace: true,
        }
    );
    let e = e.adjusted(Some(0), None, Some(-3), Some(40), false);
    assert_eq!(
        e,
        VisualEffects { blur_radius: None, sharpen: Some(500), vignette: None, noise: Some(40), deinterlace: true }
    );
}

#[test]
fn image_tracks_are_drawn_from_the_lowest_layer() {
    let mut p = Project::new("L");
    let top = p.add_track(TrackKind::Image, "top");
    let bottom = p.add_track(TrackKind::Image, "bottom");
    let also_bottom = p.add_track(TrackKind::Image, "also-bottom");
    p.track_mut(top).unwrap().layer_order = 5;
    p.track_mut(bottom).unwrap().layer_order = 1;
    p.track_mut(also_bottom).unwrap().layer_order = 1;
    p.track_mut(top).unwrap().add_image_clip(ImageClip::new("t", "/m/top.png", 0, 1000));
    p.track_mut(bottom).unwrap().add_image_clip(ImageClip::new("b", "/m/bottom.png", 0, 1000));
    p.track_mut(also_bottom).unwrap().add_image_clip(ImageClip::new("c", "/m/also.png", 0, 1000));
    let names: Vec<String> = tracks_by_layer(&p.tracks).iter().map(|t| t.name.clone()).collect();
    assert_eq!(names, vec!["bottom", "also-bottom", "top"]);
    let args = composite(&job("out.mp4"), &p).command.build_args();
    let inputs: Vec<&String> = args.iter().filter(|a| a.starts_with("/m/")).collect();
    assert_eq!(inputs, vec!["/m/bottom.png", "/m/also.png", "/m/top.png"]);
}

#[test]
fn image_clips_split_inside_only() {
    let mut i = ImageClip::new("i", "/m/i.png", 1000, 3000);
    i.fade_in = Some(FadeEffect { duration_secs: 200 });
    i.fade_out = Some(FadeEffect { duration_secs: 400 });
    i.entry_animation = Some(EntryAnimation::SlideLeft);
    assert!(i.split_at(0).is_none());
    assert!(i.split_at(3000).is_none());
    assert_eq!(i.duration_secs, 3000);
    let rest = i.split_at(1000).unwrap();
    assert_eq!(i.duration_secs, 1000);
    assert_eq!(i.fade_out, None);
    assert_eq!(i.entry_animation, Some(EntryAnimation::SlideLeft));
    assert_eq!(rest.timeline_start, 2000);
    assert_eq!(rest.duration_secs, 2000);
    assert_eq!(rest.fade_in, None);
    assert_eq!(rest.fade_out, Some(FadeEffect { duration_secs: 400 }));
    assert_eq!(rest.entry_animation, None);
    assert_eq!(rest.source_path, "/m/i.png");
    assert_ne!(rest.id, i.id);
}
