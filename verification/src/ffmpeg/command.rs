//! Fluent builder for FFmpeg command lines.
//!
//! Seek positions and durations are given in milliseconds and written as
//! seconds with three decimals (`-ss 15.250`).
use vstd::prelude::*;
use crate::textutil::{joined, millis_text, owned, push_millis, views};
use crate::textutil::join;

verus! {

/// Fluent builder for an FFmpeg invocation.
#[derive(Debug)]
pub struct FfmpegCommand {
    args: Vec<String>,
    video_filters: Vec<String>,
    audio_filters: Vec<String>,
    complex_filters: Vec<String>,
    output: Option<String>,
}

/// The state of a builder: the plain arguments in order, the three filter
/// lists, and the output path.
pub struct CommandView {
    /// Arguments given so far, in order.
    pub args: Seq<Seq<char>>,
    /// Filters for `-vf`.
    pub video_filters: Seq<Seq<char>>,
    /// Filters for `-af`.
    pub audio_filters: Seq<Seq<char>>,
    /// Filters for `-filter_complex`.
    pub complex_filters: Seq<Seq<char>>,
    /// Output path, written last.
    pub output: Option<Seq<char>>,
}

impl View for FfmpegCommand {
    type V = CommandView;

    closed spec fn view(&self) -> CommandView {
        CommandView {
            args: views(self.args@),
            video_filters: views(self.video_filters@),
            audio_filters: views(self.audio_filters@),
            complex_filters: views(self.complex_filters@),
            output: match self.output {
                Some(o) => Some(o@),
                None => None,
            },
        }
    }
}

impl CommandView {
    /// The same state with `extra` appended to the plain arguments.
    pub open spec fn with_args(self, extra: Seq<Seq<char>>) -> CommandView {
        CommandView { args: self.args + extra, ..self }
    }

    /// The full argument list: the plain arguments; then either
    /// `-filter_complex` with the complex filters joined by `;`, or else `-vf`
    /// with the video filters joined by `,` and `-af` with the audio filters
    /// joined by `,` (each only when its list is non-empty); then the output.
    pub open spec fn built(self) -> Seq<Seq<char>> {
        let filters: Seq<Seq<char>> = if self.complex_filters.len() > 0 {
            seq!["-filter_complex"@, joined(self.complex_filters, ";"@)]
        } else {
            (if self.video_filters.len() > 0 {
                seq!["-vf"@, joined(self.video_filters, ","@)]
            } else {
                Seq::empty()
            }) + (if self.audio_filters.len() > 0 {
                seq!["-af"@, joined(self.audio_filters, ","@)]
            } else {
                Seq::empty()
            })
        };
        let out: Seq<Seq<char>> = match self.output {
            Some(o) => seq![o],
            None => Seq::empty(),
        };
        self.args + filters + out
    }
}

impl FfmpegCommand {
    /// An empty command.
    pub fn new() -> (r: Self)
        ensures
            r@.args.len() == 0,
            r@.video_filters.len() == 0,
            r@.audio_filters.len() == 0,
            r@.complex_filters.len() == 0,
            r@.output is None,
    {
        FfmpegCommand {
            args: Vec::new(),
            video_filters: Vec::new(),
            audio_filters: Vec::new(),
            complex_filters: Vec::new(),
            output: None,
        }
    }

    /// A command made of the given plain arguments, complex filters and output,
    /// with no simple filters.
    pub(crate) fn from_parts(args: Vec<String>, complex: Vec<String>, output: Option<String>) -> (r: Self)
        ensures
            r@.args == views(args@),
            r@.video_filters.len() == 0,
            r@.audio_filters.len() == 0,
            r@.complex_filters == views(complex@),
            r@.output == (match output {
                Some(o) => Some(o@),
                None => None::<Seq<char>>,
            }),
    {
        let r = FfmpegCommand {
            args,
            video_filters: Vec::new(),
            audio_filters: Vec::new(),
            complex_filters: complex,
            output,
        };
        assert(r@.video_filters =~= Seq::<Seq<char>>::empty());
        assert(r@.audio_filters =~= Seq::<Seq<char>>::empty());
        r
    }

    /// Appends one plain argument.
    pub(crate) fn push_arg(&mut self, a: String)
        ensures
            final(self)@ == old(self)@.with_args(seq![a@]),
    {
        self.args.push(a);
        assert(final(self)@.args =~= old(self)@.args + seq![a@]);
    }

    /// Adds `-hide_banner` and `-threads 0` (automatic multithreading).
    pub fn hide_banner(&mut self) -> (r: &mut Self)
        ensures
            (*r)@ == old(self)@.with_args(seq!["-hide_banner"@, "-threads"@, "0"@]),
            *final(self) == *final(r),
    {
        self.push_arg(owned("-hide_banner"));
        self.push_arg(owned("-threads"));
        self.push_arg(owned("0"));
        assert(self@.args =~= old(self)@.args + seq!["-hide_banner"@, "-threads"@, "0"@]);
        self
    }

    /// Adds `-y` (overwrite the output).
    pub fn overwrite(&mut self) -> (r: &mut Self)
        ensures
            (*r)@ == old(self)@.with_args(seq!["-y"@]),
            *final(self) == *final(r),
    {
        self.push_arg(owned("-y"));
        self
    }

    /// Adds an input file: `-i <path>`.
    pub fn input(&mut self, path: &str) -> (r: &mut Self)
        ensures
            (*r)@ == old(self)@.with_args(seq!["-i"@, path@]),
            *final(self) == *final(r),
    {
        self.push_arg(owned("-i"));
        self.push_arg(owned(path));
        assert(self@.args =~= old(self)@.args + seq!["-i"@, path@]);
        self
    }

    /// Start position in the next input: `-ss <seconds>` with three decimals.
    pub fn ss(&mut self, millis: i64) -> (r: &mut Self)
        ensures
            (*r)@ == old(self)@.with_args(seq!["-ss"@, millis_text(millis as int)]),
            *final(self) == *final(r),
    {
        self.push_arg(owned("-ss"));
        let mut t = String::new();
        push_millis(&mut t, millis);
        self.push_arg(t);
        assert(self@.args =~= old(self)@.args + seq!["-ss"@, millis_text(millis as int)]);
        self
    }

    /// Segment duration: `-t <seconds>` with three decimals.
    pub fn to(&mut self, millis: i64) -> (r: &mut Self)
        ensures
            (*r)@ == old(self)@.with_args(seq!["-t"@, millis_text(millis as int)]),
            *final(self) == *final(r),
    {
        self.push_arg(owned("-t"));
        let mut t = String::new();
        push_millis(&mut t, millis);
        self.push_arg(t);
        assert(self@.args =~= old(self)@.args + seq!["-t"@, millis_text(millis as int)]);
        self
    }

    /// Video codec: `-c:v <codec>`.
    pub fn video_codec(&mut self, codec: &str) -> (r: &mut Self)
        ensures
            (*r)@ == old(self)@.with_args(seq!["-c:v"@, codec@]),
            *final(self) == *final(r),
    {
        self.push_arg(owned("-c:v"));
        self.push_arg(owned(codec));
        assert(self@.args =~= old(self)@.args + seq!["-c:v"@, codec@]);
        self
    }

    /// Audio codec: `-c:a <codec>`.
    pub fn audio_codec(&mut self, codec: &str) -> (r: &mut Self)
        ensures
            (*r)@ == old(self)@.with_args(seq!["-c:a"@, codec@]),
            *final(self) == *final(r),
    {
        self.push_arg(owned("-c:a"));
        self.push_arg(owned(codec));
        assert(self@.args =~= old(self)@.args + seq!["-c:a"@, codec@]);
        self
    }

    /// Adds a filter to the `-vf` chain.
    pub fn video_filter(&mut self, filter: &str) -> (r: &mut Self)
        ensures
            (*r)@ == (CommandView {
                video_filters: old(self)@.video_filters.push(filter@),
                ..old(self)@
            }),
            *final(self) == *final(r),
    {
        self.video_filters.push(owned(filter));
        assert(self@.video_filters =~= old(self)@.video_filters.push(filter@));
        self
    }

    /// Adds a filter to the `-af` chain.
    pub fn audio_filter(&mut self, filter: &str) -> (r: &mut Self)
        ensures
            (*r)@ == (CommandView {
                audio_filters: old(self)@.audio_filters.push(filter@),
                ..old(self)@
            }),
            *final(self) == *final(r),
    {
        self.audio_filters.push(owned(filter));
        assert(self@.audio_filters =~= old(self)@.audio_filters.push(filter@));
        self
    }

    /// Adds a graph to the `-filter_complex` list.
    pub fn complex_filter(&mut self, filter: &str) -> (r: &mut Self)
        ensures
            (*r)@ == (CommandView {
                complex_filters: old(self)@.complex_filters.push(filter@),
                ..old(self)@
            }),
            *final(self) == *final(r),
    {
        self.complex_filters.push(owned(filter));
        assert(self@.complex_filters =~= old(self)@.complex_filters.push(filter@));
        self
    }

    /// Sets the output path.
    pub fn output(&mut self, path: &str) -> (r: &mut Self)
        ensures
            (*r)@ == (CommandView { output: Some(path@), ..old(self)@ }),
            *final(self) == *final(r),
    {
        self.output = Some(owned(path));
        self
    }

    /// Adds arbitrary arguments, in order.
    pub fn raw_args(&mut self, args: &[&str]) -> (r: &mut Self)
        ensures
            (*r)@ == old(self)@.with_args(args@.map_values(|a: &str| a@)),
            *final(self) == *final(r),
    {
        let ghost extra = args@.map_values(|a: &str| a@);
        let mut i: usize = 0;
        while i < args.len()
            invariant
                0 <= i <= args@.len(),
                extra == args@.map_values(|a: &str| a@),
                self@ == old(self)@.with_args(extra.take(i as int)),
            decreases args.len() - i,
        {
            let a: &str = args[i];
            self.push_arg(owned(a));
            assert(extra.take(i + 1) =~= extra.take(i as int).push(a@));
            assert(self@.args =~= old(self)@.args + extra.take(i + 1));
            i = i + 1;
        }
        assert(extra.take(args@.len() as int) =~= extra);
        self
    }

    /// The complete argument list to hand to `ffmpeg`.
    pub fn build_args(&self) -> (r: Vec<String>)
        ensures
            views(r@) == self@.built(),
    {
        let mut args: Vec<String> = Vec::new();
        let mut i: usize = 0;
        while i < self.args.len()
            invariant
                0 <= i <= self.args@.len(),
                views(args@) == views(self.args@).take(i as int),
            decreases self.args.len() - i,
        {
            let a = self.args[i].clone();
            assert(a@ == views(self.args@)[i as int]);
            let ghost before = views(args@);
            args.push(a);
            assert(views(args@) =~= before.push(a@));
            assert(views(self.args@).take(i + 1) =~= views(self.args@).take(i as int).push(a@));
            i = i + 1;
        }
        assert(views(self.args@).take(self.args@.len() as int) =~= views(self.args@));
        let ghost base = views(args@);
        if self.complex_filters.len() > 0 {
            args.push(owned("-filter_complex"));
            args.push(join(&self.complex_filters, ";"));
            assert(views(args@) =~= base + seq!["-filter_complex"@, joined(self@.complex_filters, ";"@)]);
        } else {
            let ghost b0 = views(args@);
            if self.video_filters.len() > 0 {
                args.push(owned("-vf"));
                args.push(join(&self.video_filters, ","));
            }
            let ghost b1 = views(args@);
            assert(b1 =~= b0 + (if self@.video_filters.len() > 0 {
                seq!["-vf"@, joined(self@.video_filters, ","@)]
            } else {
                Seq::empty()
            }));
            if self.audio_filters.len() > 0 {
                args.push(owned("-af"));
                args.push(join(&self.audio_filters, ","));
            }
            assert(views(args@) =~= b1 + (if self@.audio_filters.len() > 0 {
                seq!["-af"@, joined(self@.audio_filters, ","@)]
            } else {
                Seq::empty()
            }));
        }
        let ghost mid = views(args@);
        match &self.output {
            Some(o) => {
                args.push(o.clone());
                assert(views(args@) =~= mid + seq![o@]);
            },
            None => {
                assert(views(args@) =~= mid + Seq::<Seq<char>>::empty());
            },
        }
        args
    }
}

impl Default for FfmpegCommand {
    fn default() -> (r: Self)
        ensures
            r@.args.len() == 0,
            r@.video_filters.len() == 0,
            r@.audio_filters.len() == 0,
            r@.complex_filters.len() == 0,
            r@.output is None,
    {
        FfmpegCommand::new()
    }
}

} // verus!
