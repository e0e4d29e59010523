//! Text clips written out as SubRip (`.srt`) subtitles.
use vstd::prelude::*;
use crate::numfmt::{padded, push_padded};
use crate::project::clip::{TextClip, TextClipView};
use crate::project::track::text_views;
use crate::textutil::{decimal, push_str, push_u64};

verus! {

/// A time of `ms` milliseconds as SubRip writes it, `HH:MM:SS,mmm`: the
/// hours with at least two digits.
pub open spec fn srt_time(ms: nat) -> Seq<char> {
    let h = ms / 3_600_000;
    (if h < 10 {
        "0"@ + decimal(h)
    } else {
        decimal(h)
    }) + ":"@ + padded((ms / 60_000) % 60, 2) + ":"@ + padded((ms / 1000) % 60, 2) + ","@ + padded(
        ms % 1000,
        3,
    )
}

/// A time on the timeline, with times before 0 written as 0.
pub open spec fn from_zero(ms: int) -> nat {
    if ms < 0 {
        0
    } else {
        ms as nat
    }
}

/// The cue numbered `k` of a text clip: its number, its start and end
/// times, its text, and an empty line.
pub open spec fn srt_cue(k: nat, c: TextClipView) -> Seq<char> {
    decimal(k) + "\n"@ + srt_time(from_zero(c.timeline_start as int)) + " --> "@ + srt_time(
        from_zero(c.timeline_start + c.duration_secs),
    ) + "\n"@ + c.text + "\n\n"@
}

/// The cues of the clips in order, numbered from 1.
pub open spec fn srt_text(cs: Seq<TextClipView>) -> Seq<char>
    decreases cs.len(),
{
    if cs.len() == 0 {
        Seq::empty()
    } else {
        srt_text(cs.drop_last()) + srt_cue(cs.len(), cs.last())
    }
}

fn push_srt_time(s: &mut String, ms: u128)
    requires
        ms < 0x1_0000_0000_0000_0000,
    ensures
        final(s)@ == old(s)@ + srt_time(ms as nat),
{
    let ghost s0 = s@;
    let h = (ms / 3_600_000) as u64;
    assert(h as nat == ms as nat / 3_600_000);
    if h < 10 {
        push_str(s, "0");
    }
    push_u64(s, h);
    push_str(s, ":");
    push_padded(s, ((ms / 60_000) % 60) as u64, 2);
    push_str(s, ":");
    push_padded(s, ((ms / 1000) % 60) as u64, 2);
    push_str(s, ",");
    push_padded(s, (ms % 1000) as u64, 3);
    assert(s@ =~= s0 + srt_time(ms as nat));
}

fn from_zero_exec(ms: i128) -> (r: u128)
    requires
        ms < 0x1_0000_0000_0000_0000,
    ensures
        r == from_zero(ms as int),
        r < 0x1_0000_0000_0000_0000,
{
    if ms < 0 {
        0
    } else {
        ms as u128
    }
}

/// The SubRip text of the clips, in their order: `srt_text`.
pub fn export_srt(clips: &Vec<TextClip>) -> (r: String)
    ensures
        r@ == srt_text(text_views(clips@)),
{
    let ghost cs = text_views(clips@);
    let mut out = String::new();
    let mut i: usize = 0;
    assert(cs.take(0) =~= Seq::<TextClipView>::empty());
    while i < clips.len()
        invariant
            0 <= i <= clips@.len(),
            cs == text_views(clips@),
            out@ == srt_text(cs.take(i as int)),
        decreases clips.len() - i,
    {
        let c = &clips[i];
        proof {
            assert(cs[i as int] == c@);
            assert(cs.take(i + 1).drop_last() =~= cs.take(i as int));
            assert(cs.take(i + 1).last() == c@);
        }
        let ghost o0 = out@;
        push_u64(&mut out, (i + 1) as u64);
        push_str(&mut out, "\n");
        push_srt_time(&mut out, from_zero_exec(c.timeline_start as i128));
        push_str(&mut out, " --> ");
        push_srt_time(&mut out, from_zero_exec(c.timeline_start as i128 + c.duration_secs as i128));
        push_str(&mut out, "\n");
        push_str(&mut out, c.text.as_str());
        push_str(&mut out, "\n\n");
        assert(out@ =~= o0 + srt_cue((i + 1) as nat, c@));
        i = i + 1;
    }
    assert(cs.take(clips@.len() as int) =~= cs);
    out
}

} // verus!
