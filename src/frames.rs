//! Decisions of the frame synchronization layer: whether the analyzer runs
//! detached, how a detached analyzer paces itself, and how frames are counted.
use vstd::prelude::*;

verus! {

/// Nanoseconds in one second.
pub const NANOS_PER_SECOND: u32 = 1000000000;

/// The period, in nanoseconds, of an analyzer that runs `conversions_per_second`
/// times a second.
pub fn conversion_nanos(conversions_per_second: usize) -> (r: u32)
    requires
        conversions_per_second > 0,
    ensures
        r as int == NANOS_PER_SECOND as int / conversions_per_second as int,
{
    let nanos = NANOS_PER_SECOND as usize / conversions_per_second;
    nanos as u32
}

/// How long a detached analyzer sleeps after a run that took `elapsed`
/// nanoseconds out of a period of `period`: the rest of the period, or not at
/// all when the run overran it.
pub fn pacing_sleep(period: u64, elapsed: u64) -> (r: Option<u64>)
    ensures
        elapsed < period ==> r == Some((period - elapsed) as u64),
        elapsed >= period ==> r.is_none(),
{
    if elapsed < period {
        Some(period - elapsed)
    } else {
        None
    }
}

/// The rate at which the analyzer runs on a thread of its own, or `None` when
/// it runs inline once per frame.
///
/// An explicit setting wins, where zero asks for inline analysis; without
/// one, the configured rate, if any, is used.
pub fn detached_rate(requested: Option<usize>, configured: Option<usize>) -> (r: Option<usize>)
    ensures
        requested.is_some() ==> r == (if requested.unwrap() == 0 {
            None
        } else {
            requested
        }),
        requested.is_none() ==> r == configured,
{
    match requested {
        Some(num) => {
            if num != 0 {
                Some(num)
            } else {
                None
            }
        },
        None => configured,
    }
}

/// What the consumer loop does for one frame.
#[derive(Clone, Copy, Debug, PartialEq, Eq, Structural)]
pub struct FrameStep {
    /// The index of this frame.
    pub frame: usize,
    /// Whether the analyzer runs now, inline, before the frame is handed out.
    pub run_analyzer: bool,
}

/// Counts the frames handed to the consumer loop.
pub struct FrameClock {
    /// The index the next frame gets.
    pub frame: usize,
    /// Whether the analyzer runs inline, once per frame.
    pub inline: bool,
}

impl FrameClock {
    /// A clock at frame zero.
    pub fn new(inline: bool) -> (r: FrameClock)
        ensures
            r.frame == 0,
            r.inline == inline,
    {
        FrameClock { frame: 0, inline }
    }

    /// Hand out the next frame: its index is one more than the last one's.
    pub fn next(&mut self) -> (r: FrameStep)
        requires
            old(self).frame < usize::MAX,
        ensures
            r == (FrameStep { frame: old(self).frame, run_analyzer: old(self).inline }),
            final(self).frame == old(self).frame + 1,
            final(self).inline == old(self).inline,
    {
        let step = FrameStep { frame: self.frame, run_analyzer: self.inline };
        self.frame = self.frame + 1;
        step
    }
}

} // verus!
