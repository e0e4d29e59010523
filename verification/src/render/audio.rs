//! Audio-only exports.
use vstd::prelude::*;
use crate::ffmpeg::command::{CommandView, FfmpegCommand};
use crate::project::clip::{AudioClip, AudioClipView};
use crate::project::track::audio_views;
use crate::project::Project;
use crate::render::compositor::{audio_inputs, clip_input, collect_clips, unmuted_audio};
use crate::render::filters::push_filter;
use crate::render::{audio_codec_for, AudioFormat};
use crate::textutil::{millis_text, owned, push_millis, push_millis_wide, views};

verus! {

fn add_audio_inputs(args: &mut Vec<String>, aus: &Vec<AudioClip>)
    ensures
        views(final(args)@) == views(old(args)@) + audio_inputs(audio_views(aus@)),
{
    let ghost cs = audio_views(aus@);
    let ghost a0 = views(args@);
    let mut i: usize = 0;
    assert(cs.take(0) =~= Seq::<AudioClipView>::empty());
    while i < aus.len()
        invariant
            0 <= i <= aus@.len(),
            cs == audio_views(aus@),
            views(args@) == a0 + audio_inputs(cs.take(i as int)),
        decreases aus.len() - i,
    {
        let c = &aus[i];
        proof {
            assert(cs[i as int] == c@);
            assert(cs.take(i + 1).drop_last() =~= cs.take(i as int));
            assert(cs.take(i + 1).last() == c@);
        }
        let ghost b = views(args@);
        push_filter(args, owned("-i"));
        push_filter(args, c.source_path.clone());
        push_filter(args, owned("-ss"));
        let mut ss = String::new();
        push_millis(&mut ss, c.source_start);
        push_filter(args, ss);
        match c.source_end {
            Some(e) => {
                push_filter(args, owned("-t"));
                let mut t = String::new();
                push_millis_wide(&mut t, e as i128 - c.source_start as i128);
                push_filter(args, t);
            },
            None => {},
        }
        assert(views(args@) =~= b + clip_input(c@.source_path, c@.source_start, c@.source_end));
        assert(views(args@) =~= a0 + audio_inputs(cs.take(i + 1)));
        i = i + 1;
    }
    assert(cs.take(aus@.len() as int) =~= cs);
}

/// The FFmpeg command that exports the audio of `project` alone into `output`
/// in `format`: every audio clip of the unmuted tracks as an input (from its
/// source start, for its known length), then the format's codec.
pub fn render_audio(project: &Project, output: &str, format: &AudioFormat) -> (r: FfmpegCommand)
    ensures
        r@ == (CommandView {
            args: audio_inputs(unmuted_audio(project@.tracks)) + seq!["-c:a"@, format.codec()],
            video_filters: Seq::empty(),
            audio_filters: Seq::empty(),
            complex_filters: Seq::empty(),
            output: Some(output@),
        }),
{
    let (_vs, _is, aus) = collect_clips(&project.tracks);
    let mut args: Vec<String> = Vec::new();
    assert(views(args@) =~= Seq::<Seq<char>>::empty());
    add_audio_inputs(&mut args, &aus);
    let ghost a1 = views(args@);
    push_filter(&mut args, owned("-c:a"));
    push_filter(&mut args, owned(audio_codec_for(format)));
    assert(views(args@) =~= audio_inputs(unmuted_audio(project@.tracks)) + seq!["-c:a"@, format.codec()]);
    let cmd = FfmpegCommand::from_parts(args, Vec::new(), Some(owned(output)));
    assert(cmd@.video_filters =~= Seq::<Seq<char>>::empty());
    assert(cmd@.audio_filters =~= Seq::<Seq<char>>::empty());
    assert(cmd@.complex_filters =~= Seq::<Seq<char>>::empty());
    cmd
}

} // verus!
