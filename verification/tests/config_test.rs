use vedit::config::{
    apply_key, parse_encoder, parse_resolution, ConfigError, ConfigKey, DefaultAspectRatio,
    EnvOverrides, PreferredEncoder, VeditConfig, config_row_values, fmt_key,
};

fn no_env() -> EnvOverrides {
    EnvOverrides {
        ffmpeg_path: None,
        ffprobe_path: None,
        cache_dir: None,
        encoder: None,
        vaapi_device: None,
        max_threads: None,
        cleanup_cache: None,
        log_level: None,
    }
}

#[test]
fn default_config_is_valid() {
    let cfg = VeditConfig::default();
    assert_eq!(cfg.default_fps, 30);
    assert_eq!(cfg.max_threads, 0);
    assert!(!cfg.cleanup_cache_on_exit);
    assert_eq!(cfg.preferred_encoder, PreferredEncoder::Libx264);
}

#[test]
fn preferred_encoder_codec_names() {
    assert_eq!(PreferredEncoder::Libx264.as_ffmpeg_codec(), "libx264");
    assert_eq!(PreferredEncoder::H264Nvenc.as_ffmpeg_codec(), "h264_nvenc");
    assert_eq!(PreferredEncoder::H264Vaapi.as_ffmpeg_codec(), "h264_vaapi");
    assert_eq!(PreferredEncoder::H264Amf.as_ffmpeg_codec(), "h264_amf");
    assert_eq!(PreferredEncoder::Custom("libx265".into()).as_ffmpeg_codec(), "libx265");
}

#[test]
fn vaapi_requires_hwaccel_filter() {
    assert!(PreferredEncoder::H264Vaapi.requires_hwaccel_filter());
    assert!(!PreferredEncoder::Libx264.requires_hwaccel_filter());
    assert!(!PreferredEncoder::H264Nvenc.requires_hwaccel_filter());
}

#[test]
fn default_resolution_dimensions() {
    assert_eq!(DefaultAspectRatio::Widescreen.dimensions(), (1920, 1080));
    assert_eq!(DefaultAspectRatio::Portrait.dimensions(), (1080, 1920));
    assert_eq!(DefaultAspectRatio::Square.dimensions(), (1080, 1080));
    assert_eq!(DefaultAspectRatio::Custom { width: 3840, height: 2160 }.dimensions(), (3840, 2160));
}

#[test]
fn thread_args_zero_means_empty() {
    let mut cfg = VeditConfig::default();
    assert!(cfg.ffmpeg_thread_args().is_empty(), "0 threads → args vacíos");
    cfg.max_threads = 8;
    let args = cfg.ffmpeg_thread_args();
    assert_eq!(args, vec!["-threads", "8"]);
}

#[test]
fn cache_dir_falls_back_to_project_dir() {
    let cfg = VeditConfig::default();
    let cache = cfg.resolve_cache_dir("/tmp/mi_proyecto");
    assert_eq!(cache, "/tmp/mi_proyecto/.vedit_cache");
}

#[test]
fn cache_dir_uses_global_when_set() {
    let mut cfg = VeditConfig::default();
    cfg.cache_dir = Some("/tmp/vedit_global_cache".to_string());
    let cache = cfg.resolve_cache_dir("/cualquier/proyecto");
    assert_eq!(cache, "/tmp/vedit_global_cache");
}

#[test]
fn config_path_is_inside_home() {
    let path = VeditConfig::config_path("/home/ana");
    assert!(path.contains("vedit"));
    assert!(path.ends_with("config.json"));
    assert_eq!(path, "/home/ana/.config/vedit/config.json");
}

#[test]
fn env_override_encoder() {
    let mut env = no_env();
    env.encoder = Some("h264_nvenc".to_string());
    let mut cfg = VeditConfig::default();
    cfg.apply_env_overrides(&env);
    assert_eq!(cfg.preferred_encoder, PreferredEncoder::H264Nvenc);
}

#[test]
fn env_overrides_apply_each_variable() {
    let env = EnvOverrides {
        ffmpeg_path: Some("/opt/ff/ffmpeg".to_string()),
        ffprobe_path: Some("/opt/ff/ffprobe".to_string()),
        cache_dir: Some("/var/cache/v".to_string()),
        encoder: Some("H264_VAAPI".to_string()),
        vaapi_device: Some("/dev/dri/renderD129".to_string()),
        max_threads: Some("12".to_string()),
        cleanup_cache: Some("Yes".to_string()),
        log_level: Some("debug".to_string()),
    };
    let mut cfg = VeditConfig::default();
    cfg.apply_env_overrides(&env);
    assert_eq!(cfg.ffmpeg_binary(), "/opt/ff/ffmpeg");
    assert_eq!(cfg.ffprobe_binary(), "/opt/ff/ffprobe");
    assert_eq!(cfg.cache_dir.as_deref(), Some("/var/cache/v"));
    assert_eq!(cfg.preferred_encoder, PreferredEncoder::H264Vaapi);
    assert_eq!(cfg.vaapi_device, "/dev/dri/renderD129");
    assert_eq!(cfg.max_threads, 12);
    assert!(cfg.cleanup_cache_on_exit);
    assert_eq!(cfg.log_level, "debug");
}

#[test]
fn env_override_bad_thread_count_is_ignored() {
    let mut env = no_env();
    env.max_threads = Some("muchos".to_string());
    env.cleanup_cache = Some("nope".to_string());
    let mut cfg = VeditConfig::default();
    cfg.max_threads = 4;
    cfg.cleanup_cache_on_exit = true;
    cfg.apply_env_overrides(&env);
    assert_eq!(cfg.max_threads, 4);
    assert!(!cfg.cleanup_cache_on_exit);
}

#[test]
fn binaries_default_to_path_lookup() {
    let cfg = VeditConfig::default();
    assert_eq!(cfg.ffmpeg_binary(), "ffmpeg");
    assert_eq!(cfg.ffprobe_binary(), "ffprobe");
    assert_eq!(cfg.default_dimensions(), (1920, 1080));
}

#[test]
fn encoder_names_are_case_insensitive() {
    assert_eq!(parse_encoder("LIBX264"), PreferredEncoder::Libx264);
    assert_eq!(parse_encoder("h264_Nvenc"), PreferredEncoder::H264Nvenc);
    assert_eq!(parse_encoder("h264_amf"), PreferredEncoder::H264Amf);
    assert_eq!(parse_encoder("libsvtav1"), PreferredEncoder::Custom("libsvtav1".to_string()));
    assert_eq!(PreferredEncoder::H264Amf.display(), "h264_amf");
}

#[test]
fn resolution_presets_and_custom() {
    assert_eq!(parse_resolution("16:9").unwrap(), DefaultAspectRatio::Widescreen);
    assert_eq!(parse_resolution("9:16").unwrap(), DefaultAspectRatio::Portrait);
    assert_eq!(parse_resolution("1:1").unwrap(), DefaultAspectRatio::Square);
    assert_eq!(
        parse_resolution("3840x2160").unwrap(),
        DefaultAspectRatio::Custom { width: 3840, height: 2160 }
    );
    assert_eq!(DefaultAspectRatio::Custom { width: 640, height: 480 }.display(), "640x480");
}

#[test]
fn resolution_errors_name_the_bad_part() {
    let e = parse_resolution("abcx100").unwrap_err();
    assert!(matches!(e, ConfigError::InvalidWidth(_)));
    let e = parse_resolution("100xabc").unwrap_err();
    assert!(matches!(e, ConfigError::InvalidHeight(_)));
    assert!(matches!(parse_resolution("0x100").unwrap_err(), ConfigError::ZeroDimension));
    let e = parse_resolution("enorme").unwrap_err();
    assert!(matches!(e, ConfigError::UnknownResolution(_)));
    assert!(!e.message().is_empty());
}

#[test]
fn set_key_fps_range_is_checked() {
    let mut cfg = VeditConfig::default();
    assert!(apply_key(&mut cfg, ConfigKey::DefaultFps { value: 0 }).is_err());
    assert!(apply_key(&mut cfg, ConfigKey::DefaultFps { value: 241 }).is_err());
    assert_eq!(cfg.default_fps, 30);
    assert!(apply_key(&mut cfg, ConfigKey::DefaultFps { value: 60 }).is_ok());
    assert_eq!(cfg.default_fps, 60);
}

#[test]
fn set_key_auto_clears_paths() {
    let mut cfg = VeditConfig::default();
    apply_key(&mut cfg, ConfigKey::FfmpegPath { value: "/usr/local/bin/ffmpeg".to_string() }).unwrap();
    assert_eq!(cfg.ffmpeg_path.as_deref(), Some("/usr/local/bin/ffmpeg"));
    apply_key(&mut cfg, ConfigKey::FfmpegPath { value: "auto".to_string() }).unwrap();
    assert_eq!(cfg.ffmpeg_path, None);
}

#[test]
fn set_key_log_level_must_be_known() {
    let mut cfg = VeditConfig::default();
    assert!(apply_key(&mut cfg, ConfigKey::LogLevel { value: "loud".to_string() }).is_err());
    assert_eq!(cfg.log_level, "info");
    assert!(apply_key(&mut cfg, ConfigKey::LogLevel { value: "warn".to_string() }).is_ok());
    assert_eq!(cfg.log_level, "warn");
}

#[test]
fn set_key_resolution_and_threads() {
    let mut cfg = VeditConfig::default();
    apply_key(&mut cfg, ConfigKey::DefaultResolution { value: "9:16".to_string() }).unwrap();
    assert_eq!(cfg.default_resolution, DefaultAspectRatio::Portrait);
    apply_key(&mut cfg, ConfigKey::MaxThreads { value: 3 }).unwrap();
    assert_eq!(cfg.ffmpeg_thread_args(), vec!["-threads", "3"]);
    apply_key(&mut cfg, ConfigKey::CleanupCacheOnExit { value: true }).unwrap();
    assert!(cfg.cleanup_cache_on_exit);
    assert!(apply_key(&mut cfg, ConfigKey::DefaultResolution { value: "raro".to_string() }).is_err());
    assert_eq!(cfg.default_resolution, DefaultAspectRatio::Portrait);
}

#[test]
fn config_rows_show_every_value() {
    let mut cfg = VeditConfig::default();
    cfg.max_threads = 6;
    let rows = config_row_values(&cfg);
    assert_eq!(
        rows,
        vec![
            "auto (ffmpeg)",
            "auto (ffprobe)",
            "<por proyecto>/.vedit_cache",
            "libx264",
            "30",
            "1920x1080",
            "6 hilos",
            "false",
            "info",
        ]
    );
    let rows = config_row_values(&VeditConfig::default());
    assert_eq!(rows[6], "0 (automático)");
}

#[test]
fn keys_are_padded_for_display() {
    let k = fmt_key("cache_dir");
    assert!(k.starts_with("cache_dir"));
    assert!(k.len() >= "cache_dir".len());
}
