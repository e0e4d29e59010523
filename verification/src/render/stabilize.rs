//! Shake removal: the motion analysis that runs before a render, and the
//! transform filter that the render then applies from the analysis file.
use vstd::prelude::*;
use crate::ffmpeg::command::{CommandView, FfmpegCommand};
use crate::ffmpeg::escape_filter_arg;
use crate::ids::{uuid_text, uuid_to_string};
use crate::project::clip::{VideoClip, VideoClipView};
use crate::project::track::video_views;
use crate::project::Project;
use crate::render::compositor::{collect_clips, resolve_temp_dir, temp_dir_of, unmuted_videos};
use crate::render::filters::push_filter;
use crate::textutil::{
    join_path, millis_text, owned, path_join, push_millis, push_millis_wide, push_str,
    quote_escaped, views,
};

verus! {

/// The motion file of a clip in a cache directory: `<uuid>_stab.trf`.
pub open spec fn motion_file_of(temp_dir: Seq<char>, id: u128) -> Seq<char> {
    path_join(temp_dir, uuid_text(id) + "_stab.trf"@)
}

/// The file of `motion_file_of`.
pub fn motion_file_path(temp_dir: &str, id: u128) -> (r: String)
    ensures
        r@ == motion_file_of(temp_dir@, id),
{
    let mut name = uuid_to_string(id);
    push_str(&mut name, "_stab.trf");
    join_path(temp_dir, name.as_str())
}

/// The filter that removes the shake of a clip marked for it, reading the
/// motion file that the analysis wrote.
pub open spec fn stabilization_filters(c: VideoClipView, temp_dir: Seq<char>) -> Seq<Seq<char>> {
    if c.stabilize {
        seq![
            "vidstabtransform=input='"@ + quote_escaped(motion_file_of(temp_dir, c.id))
                + "':optzoom=1:zoomspeed=0.25"@,
        ]
    } else {
        Seq::empty()
    }
}

/// Appends the filters of `stabilization_filters`.
pub fn push_stabilization(v: &mut Vec<String>, c: &VideoClip, temp_dir: &str)
    ensures
        views(final(v)@) == views(old(v)@) + stabilization_filters(c@, temp_dir@),
{
    let ghost v0 = views(v@);
    if c.stabilize {
        let file = motion_file_path(temp_dir, c.id);
        let mut s = owned("vidstabtransform=input='");
        push_str(&mut s, escape_filter_arg(file.as_str()).as_str());
        push_str(&mut s, "':optzoom=1:zoomspeed=0.25");
        push_filter(v, s);
    }
    assert(views(v@) =~= v0 + stabilization_filters(c@, temp_dir@));
}

/// The clips that ask for shake removal, in order.
pub open spec fn stabilized(vs: Seq<VideoClipView>) -> Seq<VideoClipView>
    decreases vs.len(),
{
    if vs.len() == 0 {
        Seq::empty()
    } else {
        stabilized(vs.drop_last()) + (if vs.last().stabilize {
            seq![vs.last()]
        } else {
            Seq::empty()
        })
    }
}

/// The analysis of a clip: `-hide_banner -threads 0 -y -i <source>`, the
/// start when it is past 0 and the length when the end is known, `-f null`;
/// the detection filter writing the motion file; the output `-` (nothing
/// is kept but the motion file).
pub open spec fn analysis_command(c: VideoClipView, temp_dir: Seq<char>) -> CommandView {
    CommandView {
        args: seq!["-hide_banner"@, "-threads"@, "0"@, "-y"@, "-i"@, c.source_path] + (if c.source_start
            > 0 {
            seq!["-ss"@, millis_text(c.source_start as int)]
        } else {
            Seq::empty()
        }) + (match c.source_end {
            Some(e) => seq!["-t"@, millis_text(e - c.source_start)],
            None => Seq::empty(),
        }) + seq!["-f"@, "null"@],
        video_filters: seq!["vidstabdetect=result='"@ + quote_escaped(motion_file_of(temp_dir, c.id)) + "'"@],
        audio_filters: Seq::empty(),
        complex_filters: Seq::empty(),
        output: Some("-"@),
    }
}

/// The command of `analysis_command`.
pub fn build_analysis_command(clip: &VideoClip, temp_dir: &str) -> (r: FfmpegCommand)
    ensures
        r@ == analysis_command(clip@, temp_dir@),
{
    let mut cmd = FfmpegCommand::new();
    cmd.hide_banner();
    cmd.overwrite();
    cmd.input(clip.source_path.as_str());
    let ghost a0 = cmd@.args;
    if clip.source_start > 0 {
        cmd.push_arg(owned("-ss"));
        let mut t = String::new();
        push_millis(&mut t, clip.source_start);
        cmd.push_arg(t);
    }
    let ghost a1 = cmd@.args;
    match clip.source_end {
        Some(e) => {
            cmd.push_arg(owned("-t"));
            let mut t = String::new();
            push_millis_wide(&mut t, e as i128 - clip.source_start as i128);
            cmd.push_arg(t);
        },
        None => {},
    }
    let ghost a2 = cmd@.args;
    cmd.push_arg(owned("-f"));
    cmd.push_arg(owned("null"));
    let file = motion_file_path(temp_dir, clip.id);
    let mut f = owned("vidstabdetect=result='");
    push_str(&mut f, escape_filter_arg(file.as_str()).as_str());
    push_str(&mut f, "'");
    cmd.video_filter(f.as_str());
    cmd.output("-");
    proof {
        let c = clip@;
        assert(a1 =~= a0 + (if c.source_start > 0 {
            seq!["-ss"@, millis_text(c.source_start as int)]
        } else {
            Seq::empty()
        }));
        assert(a2 =~= a1 + (match c.source_end {
            Some(e) => seq!["-t"@, millis_text(e - c.source_start)],
            None => Seq::empty(),
        }));
        assert(cmd@.args =~= analysis_command(c, temp_dir@).args);
        assert(cmd@.video_filters =~= analysis_command(c, temp_dir@).video_filters);
        assert(cmd@.audio_filters =~= Seq::<Seq<char>>::empty());
        assert(cmd@.complex_filters =~= Seq::<Seq<char>>::empty());
    }
    cmd
}

/// One analysis that a render waits for: the clip's name, the motion file
/// that the analysis writes, and its command.
pub struct StabilizationJob {
    pub clip_name: String,
    pub motion_file: String,
    pub command: FfmpegCommand,
}

/// The analyses that a render of `project` needs first: one for each clip of
/// an unmuted track that asks for shake removal, in track and clip order,
/// with its motion file in the project's cache directory. One whose motion
/// file already exists need not run again.
pub fn stabilization_jobs(project: &Project) -> (r: Vec<StabilizationJob>)
    ensures
        r@.len() == stabilized(unmuted_videos(project@.tracks)).len(),
        forall|i: int|
            0 <= i < r@.len() ==> {
                let c = #[trigger] stabilized(unmuted_videos(project@.tracks))[i];
                &&& r@[i].clip_name@ == c.name
                &&& r@[i].motion_file@ == motion_file_of(temp_dir_of(project@.path), c.id)
                &&& r@[i].command@ == analysis_command(c, temp_dir_of(project@.path))
            },
{
    let (vs, _is, _aus) = collect_clips(&project.tracks);
    let temp = resolve_temp_dir(project);
    let ghost cs = video_views(vs@);
    let ghost t = temp@;
    let mut jobs: Vec<StabilizationJob> = Vec::new();
    let mut i: usize = 0;
    assert(cs.take(0) =~= Seq::<VideoClipView>::empty());
    while i < vs.len()
        invariant
            0 <= i <= vs@.len(),
            cs == video_views(vs@),
            t == temp@,
            jobs@.len() == stabilized(cs.take(i as int)).len(),
            forall|j: int|
                0 <= j < jobs@.len() ==> {
                    let c = #[trigger] stabilized(cs.take(i as int))[j];
                    &&& jobs@[j].clip_name@ == c.name
                    &&& jobs@[j].motion_file@ == motion_file_of(t, c.id)
                    &&& jobs@[j].command@ == analysis_command(c, t)
                },
        decreases vs.len() - i,
    {
        let c = &vs[i];
        proof {
            assert(cs[i as int] == c@);
            assert(cs.take(i + 1).drop_last() =~= cs.take(i as int));
            assert(cs.take(i + 1).last() == c@);
        }
        let ghost before = stabilized(cs.take(i as int));
        if c.stabilize {
            let job = StabilizationJob {
                clip_name: c.name.clone(),
                motion_file: motion_file_path(temp.as_str(), c.id),
                command: build_analysis_command(c, temp.as_str()),
            };
            jobs.push(job);
            assert(stabilized(cs.take(i + 1)) =~= before.push(c@));
        } else {
            assert(stabilized(cs.take(i + 1)) =~= before);
        }
        i = i + 1;
    }
    assert(cs.take(vs@.len() as int) =~= cs);
    jobs
}

} // verus!
