use vedit::ffmpeg::escape_filter_arg;
use vedit::ffmpeg::FfmpegCommand;

#[test]
fn test_ffmpeg_command_builder() {
    let mut cmd = FfmpegCommand::new();
    cmd.hide_banner()
        .overwrite()
        .ss(15250)
        .input("video.mp4")
        .video_codec("libx264")
        .to(5000)
        .output("output.mp4");

    let args = cmd.build_args();
    assert_eq!(
        args,
        vec![
            "-hide_banner", "-threads", "0", "-y",
            "-ss", "15.250",
            "-i", "video.mp4",
            "-c:v", "libx264",
            "-t", "5.000",
            "output.mp4"
        ]
    );
}

#[test]
fn simple_filters_when_no_complex_graph() {
    let mut cmd = FfmpegCommand::new();
    cmd.input("in.mp4").video_filter("scale=640:360").video_filter("hflip").audio_filter("volume=2");
    cmd.audio_codec("aac").raw_args(&["-map", "0"]).output("out.mp4");
    assert_eq!(
        cmd.build_args(),
        vec!["-i", "in.mp4", "-c:a", "aac", "-map", "0", "-vf", "scale=640:360,hflip", "-af", "volume=2", "out.mp4"]
    );
}

#[test]
fn complex_graph_replaces_simple_filters() {
    let mut cmd = FfmpegCommand::new();
    cmd.video_filter("hflip").complex_filter("[0:v]null[a]").complex_filter("[a]null[b]");
    assert_eq!(cmd.build_args(), vec!["-filter_complex", "[0:v]null[a];[a]null[b]"]);
}

#[test]
fn negative_seek_keeps_sign() {
    let mut cmd = FfmpegCommand::new();
    cmd.ss(-500);
    assert_eq!(cmd.build_args(), vec!["-ss", "-0.500"]);
}

#[test]
fn quotes_are_escaped_in_filter_arguments() {
    assert_eq!(escape_filter_arg("it's"), "it'\\''s");
    assert_eq!(escape_filter_arg("plain"), "plain");
}
