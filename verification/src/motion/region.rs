//! A time range of a project to render on its own.
use vstd::prelude::*;
use crate::textutil::{millis_text, owned, push_millis, push_str};

verus! {

/// A part of the project timeline: `start_secs` and `duration_secs`, both in
/// milliseconds. `RenderRegion::new` makes sure the start is not negative and
/// the duration is positive.
#[derive(Debug, Clone, Copy, PartialEq, Eq, Structural)]
pub struct RenderRegion {
    /// Start on the timeline (ms).
    pub start_secs: i64,
    /// Length (ms).
    pub duration_secs: i64,
}

/// Why a region was refused.
#[derive(Debug, Clone, Copy, PartialEq, Eq, Structural)]
pub enum RegionError {
    /// The start (ms) is negative.
    NegativeStart(i64),
    /// The duration (ms) is zero or negative.
    NonPositiveDuration(i64),
}

impl RegionError {
    /// The message shown to the user.
    pub open spec fn text(self) -> Seq<char> {
        match self {
            RegionError::NegativeStart(s) => "El instante de inicio ("@ + millis_text(s as int)
                + "s) no puede ser negativo."@,
            RegionError::NonPositiveDuration(d) => "La duración ("@ + millis_text(d as int)
                + "s) debe ser mayor que cero."@,
        }
    }

    /// The message shown to the user.
    pub fn message(&self) -> (r: String)
        ensures
            r@ == self.text(),
    {
        match self {
            RegionError::NegativeStart(s) => {
                let mut m = owned("El instante de inicio (");
                push_millis(&mut m, *s);
                push_str(&mut m, "s) no puede ser negativo.");
                m
            },
            RegionError::NonPositiveDuration(d) => {
                let mut m = owned("La duración (");
                push_millis(&mut m, *d);
                push_str(&mut m, "s) debe ser mayor que cero.");
                m
            },
        }
    }
}

/// The region `new` makes of a start and a duration (ms), or why it refuses them.
pub open spec fn checked_region(start_secs: i64, duration_secs: i64) -> Result<RenderRegion, RegionError> {
    if start_secs < 0 {
        Err(RegionError::NegativeStart(start_secs))
    } else if duration_secs <= 0 {
        Err(RegionError::NonPositiveDuration(duration_secs))
    } else {
        Ok(RenderRegion { start_secs, duration_secs })
    }
}

impl RenderRegion {
    /// A region made by `new`: start not negative, duration positive.
    pub open spec fn valid(self) -> bool {
        self.start_secs >= 0 && self.duration_secs > 0
    }

    /// Where the region ends (ms, not included).
    pub open spec fn end(self) -> int {
        self.start_secs + self.duration_secs
    }

    /// A region starting at `start_secs` and lasting `duration_secs` (ms). A
    /// negative start is refused first, then a duration that is not positive.
    pub fn new(start_secs: i64, duration_secs: i64) -> (r: Result<Self, RegionError>)
        ensures
            start_secs < 0 ==> r == Err::<Self, RegionError>(RegionError::NegativeStart(start_secs)),
            start_secs >= 0 && duration_secs <= 0 ==> r == Err::<Self, RegionError>(
                RegionError::NonPositiveDuration(duration_secs),
            ),
            start_secs >= 0 && duration_secs > 0 ==> r == Ok::<Self, RegionError>(
                RenderRegion { start_secs, duration_secs },
            ),
            r == checked_region(start_secs, duration_secs),
    {
        if start_secs < 0 {
            return Err(RegionError::NegativeStart(start_secs));
        }
        if duration_secs <= 0 {
            return Err(RegionError::NonPositiveDuration(duration_secs));
        }
        Ok(RenderRegion { start_secs, duration_secs })
    }

    /// Where the region ends (ms, not included).
    pub fn end_secs(&self) -> (r: i128)
        ensures
            r == self.end(),
    {
        self.start_secs as i128 + self.duration_secs as i128
    }

    /// Whether the instant `t` (ms) lies in the region: from its start included
    /// to its end excluded.
    pub fn contains(&self, t: i64) -> (r: bool)
        ensures
            r == (self.start_secs <= t && t < self.end()),
    {
        t >= self.start_secs && (t as i128) < self.end_secs()
    }

    /// The FFmpeg arguments `-ss <start> -t <duration>`, seconds with three decimals.
    pub fn to_ffmpeg_args(&self) -> (r: Vec<String>)
        ensures
            r@.len() == 4,
            r@[0]@ == "-ss"@,
            r@[1]@ == millis_text(self.start_secs as int),
            r@[2]@ == "-t"@,
            r@[3]@ == millis_text(self.duration_secs as int),
    {
        let mut v: Vec<String> = Vec::new();
        v.push(owned("-ss"));
        let mut a = String::new();
        push_millis(&mut a, self.start_secs);
        v.push(a);
        v.push(owned("-t"));
        let mut b = String::new();
        push_millis(&mut b, self.duration_secs);
        v.push(b);
        assert(v@[1]@ =~= millis_text(self.start_secs as int));
        assert(v@[3]@ =~= millis_text(self.duration_secs as int));
        v
    }

    /// `<start>s – <end>s (duración: <duration>s)`, seconds with three decimals.
    pub fn display(&self) -> (r: String)
        requires
            i64::MIN <= self.end() <= i64::MAX,
        ensures
            r@ == millis_text(self.start_secs as int) + "s – "@ + millis_text(self.end()) + "s (duración: "@
                + millis_text(self.duration_secs as int) + "s)"@,
    {
        let mut m = String::new();
        push_millis(&mut m, self.start_secs);
        push_str(&mut m, "s – ");
        push_millis(&mut m, (self.start_secs as i128 + self.duration_secs as i128) as i64);
        push_str(&mut m, "s (duración: ");
        push_millis(&mut m, self.duration_secs);
        push_str(&mut m, "s)");
        assert(m@ =~= millis_text(self.start_secs as int) + "s – "@ + millis_text(self.end())
            + "s (duración: "@ + millis_text(self.duration_secs as int) + "s)"@);
        m
    }
}

} // verus!
