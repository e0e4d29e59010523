use vedit::project::clip::{AudioClip, FadeEffect, ImageClip, VideoClip};
use vedit::project::track::{Track, TrackKind};
use vedit::project::{Project, ProjectError};

#[test]
fn test_project_creation() {
    let proj = Project::new("TestProj");
    assert_eq!(proj.metadata.name, "TestProj");
    assert_eq!(proj.tracks.len(), 0);
}

#[test]
fn test_manage_tracks() {
    let mut proj = Project::new("T");
    let id1 = proj.add_track(TrackKind::Audio, "Voice");
    let _id2 = proj.add_track(TrackKind::Video, "B-Roll");

    assert_eq!(proj.tracks.len(), 2);

    assert!(proj.track_by_name("voice").is_some());
    assert!(proj.track_by_name("VOICE").is_some());
    assert!(proj.track_by_name("B-Roll").is_some());

    assert!(proj.remove_track(id1));
    assert_eq!(proj.tracks.len(), 1);
    assert!(!proj.remove_track(id1));
}

#[test]
fn test_empty_render_validation() {
    let proj = Project::new("Empty");
    assert!(proj.validate_for_render().is_err());
}

#[test]
fn new_project_defaults() {
    let p = Project::new("X");
    assert_eq!(p.metadata.fps, 30000);
    assert_eq!((p.metadata.width, p.metadata.height), (1920, 1080));
    assert_eq!(p.metadata.sample_rate, 44100);
    assert!(p.path.is_none());
    assert_eq!(p.duration_secs(), 0);
}

#[test]
fn validation_lists_sources_track_by_track() {
    let mut p = Project::new("V");
    let a = p.add_track(TrackKind::Audio, "A");
    let v = p.add_track(TrackKind::Video, "V");
    p.track_mut(a).unwrap().add_audio_clip(AudioClip::new("a1", "/m/a1.wav", 0));
    p.track_mut(a).unwrap().add_audio_clip(AudioClip::new("a2", "/m/a2.wav", 0));
    p.track_mut(v).unwrap().add_video_clip(VideoClip::new("v1", "/m/v1.mp4", 0));
    let paths = p.validate_for_render().unwrap();
    assert_eq!(paths, vec!["/m/a1.wav", "/m/a2.wav", "/m/v1.mp4"]);
}

#[test]
fn empty_project_error_message() {
    let p = Project::new("E");
    let e = p.validate_for_render().unwrap_err();
    assert_eq!(e, ProjectError::NoTracks);
    assert!(e.message().starts_with("No hay tracks para renderizar"));
}

#[test]
fn loaded_project_checks() {
    let mut p = Project::new("L");
    assert!(p.check_loaded().is_ok());
    p.metadata.fps = 0;
    assert_eq!(p.check_loaded(), Err(ProjectError::NonPositiveFps));
    p.metadata.fps = 25000;
    p.metadata.sample_rate = 0;
    assert_eq!(p.check_loaded(), Err(ProjectError::ZeroSampleRate));
    assert!(ProjectError::ZeroSampleRate.message().contains("Sample Rate"));
    assert!(ProjectError::NonPositiveFps.message().contains("FPS"));
}

#[test]
fn project_length_is_longest_track() {
    let mut p = Project::new("D");
    let a = p.add_track(TrackKind::Audio, "A");
    let v = p.add_track(TrackKind::Video, "V");
    let mut c = AudioClip::new("a", "a.wav", 1000);
    c.source_start = 1000;
    c.source_end = Some(4000);
    c.loop_count = 2;
    p.track_mut(a).unwrap().add_audio_clip(c);
    let mut vc = VideoClip::new("v", "v.mp4", 500);
    vc.source_start = 1000;
    vc.source_end = Some(3000);
    p.track_mut(v).unwrap().add_video_clip(vc);
    // audio: 1000 + 3000 * 2 = 7000; video: 500 + 2000 = 2500
    assert_eq!(p.duration_secs(), 7000);
    assert_eq!(p.track(a).unwrap().duration_secs(), 7000);
    assert_eq!(p.track(v).unwrap().duration_secs(), 2500);
}

#[test]
fn add_then_remove_track_restores_tracks() {
    let mut p = Project::new("R");
    p.add_track(TrackKind::Audio, "keep");
    let id = p.add_track(TrackKind::Image, "temp");
    assert_eq!(p.track_index(id), Some(1));
    assert!(p.remove_track(id));
    assert_eq!(p.tracks.len(), 1);
    assert_eq!(p.tracks[0].name, "keep");
    assert!(p.track(id).is_none());
}

#[test]
fn track_lookup_by_name_and_mut() {
    let mut p = Project::new("N");
    p.add_track(TrackKind::Video, "Main");
    p.track_by_name_mut("MAIN").unwrap().rename("Principal");
    assert!(p.track_by_name("principal").is_some());
    assert!(p.track_by_name_mut("main").is_none());
    assert_eq!(p.track_index_by_name("PRINCIPAL"), Some(0));
}

#[test]
fn track_volume_is_clamped() {
    let mut t = Track::new(TrackKind::Audio, "t");
    assert_eq!(t.volume, 1000);
    t.set_volume(2500);
    assert_eq!(t.volume, 2000);
    t.set_volume(-5);
    assert_eq!(t.volume, 0);
    t.set_volume(750);
    assert_eq!(t.volume, 750);
    t.mute();
    assert!(t.muted);
    t.unmute();
    assert!(!t.muted);
}

#[test]
fn clip_add_remove_and_lookup() {
    let mut t = Track::new(TrackKind::Audio, "t");
    let c = AudioClip::new("a", "a.wav", 0);
    let id = t.add_audio_clip(c);
    assert_eq!(t.audio_clip_index(id), Some(0));
    t.audio_clip_mut(id).unwrap().timeline_start = 1500;
    assert_eq!(t.audio_clips[0].timeline_start, 1500);
    assert!(t.remove_audio_clip(id));
    assert!(!t.remove_audio_clip(id));
    assert!(t.audio_clips.is_empty());

    let v = VideoClip::new("v", "v.mp4", 0);
    let vid = t.add_video_clip(v);
    assert_eq!(t.video_clip_index(vid), Some(0));
    t.video_clip_mut(vid).unwrap().speed = 2000;
    assert_eq!(t.video_clips[0].speed, 2000);
    assert!(t.remove_video_clip(vid));
    assert!(t.video_clip_mut(vid).is_none());
}

#[test]
fn clip_durations() {
    let mut c = AudioClip::new("a", "a.wav", 0);
    assert_eq!(c.raw_duration(), 0);
    c.source_start = 2000;
    c.source_end = Some(1000);
    assert_eq!(c.raw_duration(), 0);
    c.source_end = Some(5000);
    c.loop_count = 3;
    assert_eq!(c.raw_duration(), 3000);
    assert_eq!(c.duration(), 9000);
    c.set_fade_in(300);
    c.set_fade_out(400);
    c.add_mute_range(100, 200);
    assert_eq!(c.fade_in, Some(FadeEffect { duration_secs: 300 }));
    assert_eq!(c.fade_out, Some(FadeEffect { duration_secs: 400 }));
    assert_eq!(c.mute_ranges, vec![(100, 200)]);

    let mut v = VideoClip::new("v", "v.mp4", 0);
    assert_eq!(v.duration(), 0);
    v.source_end = Some(1234);
    assert_eq!(v.duration(), 1234);

    let i = ImageClip::new("i", "i.png", 100, 5000);
    assert_eq!(i.duration_secs, 5000);
    assert_eq!(i.opacity, 1000);
}

#[test]
fn new_ids_differ() {
    let a = Track::new(TrackKind::Audio, "a");
    let b = Track::new(TrackKind::Audio, "b");
    assert_ne!(a.id, b.id);
    assert_eq!(TrackKind::Image.display(), "image");
}

#[test]
fn touch_moves_modification_time_forward() {
    let mut p = Project::new("T");
    let before = p.metadata.modified_at;
    p.touch();
    assert!(p.metadata.modified_at >= before);
    assert!(p.metadata.created_at > 1_600_000_000_000);
}

#[test]
fn project_dir_name_underscores_and_lowercases() {
    assert_eq!(vedit::project::dir_name("Mi Proyecto Nuevo"), "mi_proyecto_nuevo");
    assert_eq!(vedit::project::dir_name("ABC"), "abc");
    assert_eq!(vedit::project::dir_name(""), "");
}

#[test]
fn image_clips_are_added_found_and_removed() {
    let mut track = Track::new(TrackKind::Image, "Fotos");
    let a = ImageClip::new("a", "/tmp/a.png", 0, 5000);
    let b = ImageClip::new("b", "/tmp/b.png", 5000, 3000);
    let ida = track.add_image_clip(a);
    let idb = track.add_image_clip(b);
    assert_eq!(track.image_clips.len(), 2);
    assert_eq!(track.image_clip_index(idb), Some(1));
    track.image_clip_mut(ida).unwrap().timeline_start = 1000;
    assert_eq!(track.image_clips[0].timeline_start, 1000);
    assert!(track.remove_image_clip(ida));
    assert!(!track.remove_image_clip(ida));
    assert_eq!(track.image_clips.len(), 1);
    assert_eq!(track.image_clips[0].id, idb);
    assert!(track.image_clip_mut(ida).is_none());
}
