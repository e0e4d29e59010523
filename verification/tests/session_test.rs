use vedit::cache::{user_cache_home, CacheManager};
use vedit::context::AppContext;
use vedit::numfmt::{fixed_to_string, push_short};
use vedit::project::clip::{AudioClip, ImageClip, VideoClip};
use vedit::project::track::{Track, TrackKind};
use vedit::project::Project;
use vedit::textutil::{
    join_path, millis_to_string, parse_u32, stem_or_else, trim, u64_to_string,
};
use vedit::timeline::{bar_width_for, timeline_bar, timeline_clips, timeline_order, TimelineClip};

#[test]
fn cache_paths() {
    let c = CacheManager::new("/var/cache/p");
    assert_eq!(c.proxy_dir(), "/var/cache/p/proxies");
    assert_eq!(c.temp_dir(), "/var/cache/p/tmp");
    assert_eq!(c.proxy_path("/media/toma 1.mov"), "/var/cache/p/proxies/toma 1_proxy.mp4");
    assert_eq!(c.proxy_path("/"), "/var/cache/p/proxies/clip_proxy.mp4");
    let d = CacheManager::default_for_project("/home/u/.cache", 0xabcdef);
    assert_eq!(d.dir(), "/home/u/.cache/vedit/00000000-0000-0000-0000-000000abcdef");
}

#[test]
fn session_requires_a_project() {
    let mut ctx = AppContext::new();
    assert_eq!(
        ctx.require_project().err().unwrap(),
        "No hay ningún proyecto abierto. Usa `vedit project open <path>`"
    );
    assert!(ctx.require_project_mut().is_err());
    ctx.set_project(Project::new("abierto"), "/p/abierto.vedit");
    assert_eq!(ctx.require_project().unwrap().metadata.name, "abierto");
    ctx.require_project_mut().unwrap().metadata.name = "cambiado".to_string();
    assert_eq!(ctx.project.as_ref().unwrap().metadata.name, "cambiado");
    assert_eq!(ctx.project_path.as_deref(), Some("/p/abierto.vedit"));
}

#[test]
fn timeline_lists_and_orders_clips() {
    let mut t = Track::new(TrackKind::Audio, "t");
    let mut a = AudioClip::new("late", "a.wav", 3000);
    a.source_end = Some(1000);
    t.add_audio_clip(a);
    let mut v = VideoClip::new("early", "v.mp4", 0);
    v.source_end = Some(500);
    t.add_video_clip(v);
    t.image_clips.push(ImageClip::new("also-late", "i.png", 3000, 200));
    let clips = timeline_clips(&t);
    assert_eq!(clips.len(), 3);
    assert_eq!(clips[0].end, 4000);
    assert_eq!(clips[2].end, 3200);
    assert_eq!(timeline_order(&clips), vec![1, 0, 2]);
}

#[test]
fn timeline_bar_marks_cells() {
    let clips = vec![
        TimelineClip { name: "a".to_string(), start: 0, end: 2500 },
        TimelineClip { name: "b".to_string(), start: 7500, end: 10000 },
    ];
    let bar = timeline_bar(&clips, 10000, 40);
    let filled: Vec<usize> = (0..40).filter(|&i| bar[i]).collect();
    assert_eq!(filled, (0..10).chain(30..40).collect::<Vec<usize>>());
    let short = vec![TimelineClip { name: "c".to_string(), start: 100, end: 100 }];
    let bar = timeline_bar(&short, 10000, 40);
    assert_eq!(bar.iter().filter(|&&b| b).count(), 1);
    assert_eq!(bar_width_for(10), 40);
    assert_eq!(bar_width_for(120), 116);
}

#[test]
fn text_helpers() {
    assert_eq!(join_path("/a", "b"), "/a/b");
    assert_eq!(join_path("/a/", "/b"), "/b");
    assert_eq!(stem_or_else("/x/y.tar.gz", "clip"), "y.tar");
    assert_eq!(trim("  hola \t"), "hola");
    assert_eq!(parse_u32(" 7"), None);
    assert_eq!(parse_u32("+42"), Some(42));
    assert_eq!(parse_u32("4294967296"), None);
    assert_eq!(millis_to_string(-1), "-0.001");
    assert_eq!(u64_to_string(0), "0");
}

#[test]
fn fixed_point_text() {
    assert_eq!(fixed_to_string(-1234567, 6), "-1.234567");
    assert_eq!(fixed_to_string(5, 2), "0.05");
    let mut s = String::new();
    push_short(&mut s, 29970, 3);
    assert_eq!(s, "29.97");
    let mut s = String::new();
    push_short(&mut s, -2000, 3);
    assert_eq!(s, "-2");
}

#[test]
fn user_cache_home_prefers_xdg_then_home() {
    assert_eq!(user_cache_home(Some("/x/cache"), Some("/home/u")), "/x/cache");
    assert_eq!(user_cache_home(None, Some("/home/u")), "/home/u/.cache");
    assert_eq!(user_cache_home(None, None), "/tmp/.cache");
}

#[test]
fn temp_dir_sits_beside_the_project_file() {
    let mut p = Project::new("x");
    p.path = Some(String::from("/a/b.vedit"));
    assert_eq!(vedit::render::compositor::resolve_temp_dir(&p), "/a/.vedit_cache");
    p.path = Some(String::from("b.vedit"));
    assert_eq!(vedit::render::compositor::resolve_temp_dir(&p), ".vedit_cache");
    p.path = Some(String::from("/"));
    assert_eq!(vedit::render::compositor::resolve_temp_dir(&p), "./.vedit_cache");
    p.path = None;
    assert_eq!(vedit::render::compositor::resolve_temp_dir(&p), "./.vedit_cache");
}
