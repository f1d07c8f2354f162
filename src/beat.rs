//! Beat detection: the builder and the trend tracking that confirms peaks and
//! valleys of the measured volume.
use crate::config::{self, Config};
use crate::fourier::FourierSettings;
use vstd::prelude::*;

verus! {

/// The sign of the change in volume between two detection cycles.
#[derive(Clone, Copy, Debug, PartialEq, Eq, Structural)]
pub enum Trend {
    /// The volume went up.
    Rising,
    /// The volume went down.
    Falling,
    /// The volume stayed exactly the same.
    Level,
    /// The change had no sign (it was not a number).
    Unordered,
}

/// What a detection cycle confirmed about the previous cycle's volume.
#[derive(Clone, Copy, Debug, PartialEq, Eq, Structural)]
pub enum Turn {
    /// The previous volume was a peak: the volume rose and now falls.
    Peak,
    /// The previous volume was a valley: the volume fell and now rises.
    Valley,
    /// Neither.
    Steady,
}

/// The turn confirmed when the remembered trend is `last` and the volume now
/// moves as `now`.
pub open spec fn turn_of(last: Trend, now: Trend) -> Turn {
    if now == Trend::Falling && last == Trend::Rising {
        Turn::Peak
    } else if now == Trend::Rising && last == Trend::Falling {
        Turn::Valley
    } else {
        Turn::Steady
    }
}

/// The trend remembered after a cycle that moved as `now`: a level cycle
/// leaves the memory as it was.
pub open spec fn remembered(last: Trend, now: Trend) -> Trend {
    if now == Trend::Level {
        last
    } else {
        now
    }
}

/// The turns confirmed by the cycles `moves`, starting from memory `last`.
pub open spec fn turns(last: Trend, moves: Seq<Trend>) -> Seq<Turn>
    decreases moves.len(),
{
    if moves.len() == 0 {
        Seq::empty()
    } else {
        seq![turn_of(last, moves[0])] + turns(remembered(last, moves[0]), moves.drop_first())
    }
}

/// Memory of the direction in which the volume last moved.
///
/// Only cycles whose volume changed overwrite the memory, so an exact
/// plateau neither confirms nor cancels a pending peak or valley.
pub struct TrendTracker {
    pub last: Trend,
}

impl TrendTracker {
    /// A tracker that has seen no movement yet.
    pub fn new() -> (r: TrendTracker)
        ensures
            r.last == Trend::Level,
    {
        TrendTracker { last: Trend::Level }
    }

    /// Record a cycle that moved as `now` and report the turn it confirms.
    pub fn observe(&mut self, now: Trend) -> (r: Turn)
        ensures
            r == turn_of(old(self).last, now),
            final(self).last == remembered(old(self).last, now),
    {
        let r = if now == Trend::Falling && self.last == Trend::Rising {
            Turn::Peak
        } else if now == Trend::Rising && self.last == Trend::Falling {
            Turn::Valley
        } else {
            Turn::Steady
        };
        if now != Trend::Level {
            self.last = now;
        }
        r
    }
}

/// A volume that only ever rises confirms no peak: starting from a fresh
/// tracker, cycles that rise after the first one never yield a peak,
/// whatever the first one did.
pub proof fn lemma_rising_volume_has_no_peak(moves: Seq<Trend>)
    requires
        forall|i: int| 1 <= i < moves.len() ==> #[trigger] moves[i] == Trend::Rising,
    ensures
        forall|i: int| 0 <= i < turns(Trend::Level, moves).len() ==>
            #[trigger] turns(Trend::Level, moves)[i] != Turn::Peak,
        turns(Trend::Level, moves).len() == moves.len(),
{
    if moves.len() > 0 {
        let rest = moves.drop_first();
        let m = remembered(Trend::Level, moves[0]);
        lemma_rising_turns(m, rest);
        assert(turn_of(Trend::Level, moves[0]) != Turn::Peak);
        let t = turns(Trend::Level, moves);
        assert forall|i: int| 0 <= i < t.len() implies #[trigger] t[i] != Turn::Peak by {
            if i > 0 {
                assert(t[i] == turns(m, rest)[i - 1]);
            }
        }
    }
}

proof fn lemma_rising_turns(last: Trend, moves: Seq<Trend>)
    requires
        forall|i: int| 0 <= i < moves.len() ==> #[trigger] moves[i] == Trend::Rising,
    ensures
        turns(last, moves).len() == moves.len(),
        forall|i: int| 0 <= i < moves.len() ==> #[trigger] turns(last, moves)[i] != Turn::Peak,
    decreases moves.len(),
{
    if moves.len() > 0 {
        let rest = moves.drop_first();
        assert forall|i: int| 0 <= i < rest.len() implies #[trigger] rest[i] == Trend::Rising by {
            assert(rest[i] == moves[i + 1]);
        }
        lemma_rising_turns(remembered(last, moves[0]), rest);
        let t = turns(last, moves);
        assert forall|i: int| 0 <= i < moves.len() implies #[trigger] t[i] != Turn::Peak by {
            if i > 0 {
                assert(t[i] == turns(remembered(last, moves[0]), rest)[i - 1]);
            }
        }
    }
}

/// Builder for a beat detector.
///
/// `S` is the type of signal strengths and frequencies. Every field left
/// `None` falls back to the configuration, then to a built-in default.
/// The latency of detection is roughly `fourier_length * downsample / rate`
/// seconds.
pub struct BeatBuilder<S> {
    /// Decay constant of the beat baseline; the lower, the sooner a quieter
    /// beat is detected again.
    pub decay: Option<S>,
    /// Fraction of the current baseline a peak must exceed to count as a beat.
    pub trigger: Option<S>,
    /// Frequency band whose mean volume is tracked.
    pub range: Option<(S, S)>,
    /// Length of the Fourier transform used for detection.
    pub fourier_length: Option<usize>,
    /// Downsampling factor of the samples read for detection.
    pub downsample: Option<usize>,
    /// Recording rate of the samples.
    pub rate: Option<usize>,
}

impl<S> BeatBuilder<S> {
    /// A builder with every field unset.
    pub fn new() -> (r: BeatBuilder<S>)
        ensures
            r.decay.is_none(),
            r.trigger.is_none(),
            r.range.is_none(),
            r.fourier_length.is_none(),
            r.downsample.is_none(),
            r.rate.is_none(),
    {
        BeatBuilder {
            decay: None,
            trigger: None,
            range: None,
            fourier_length: None,
            downsample: None,
            rate: None,
        }
    }

    /// Set the decay constant.
    pub fn decay(&mut self, decay: S) -> (r: &mut BeatBuilder<S>)
        ensures
            *r == (BeatBuilder { decay: Some(decay), ..*old(self) }),
            *final(self) == *final(r),
    {
        self.decay = Some(decay);
        self
    }

    /// Set the trigger fraction.
    pub fn trigger(&mut self, trigger: S) -> (r: &mut BeatBuilder<S>)
        ensures
            *r == (BeatBuilder { trigger: Some(trigger), ..*old(self) }),
            *final(self) == *final(r),
    {
        self.trigger = Some(trigger);
        self
    }

    /// Set the frequency band.
    pub fn range(&mut self, low: S, high: S) -> (r: &mut BeatBuilder<S>)
        ensures
            *r == (BeatBuilder { range: Some((low, high)), ..*old(self) }),
            *final(self) == *final(r),
    {
        self.range = Some((low, high));
        self
    }

    /// Set the Fourier length.
    pub fn fourier_length(&mut self, length: usize) -> (r: &mut BeatBuilder<S>)
        ensures
            *r == (BeatBuilder { fourier_length: Some(length), ..*old(self) }),
            *final(self) == *final(r),
    {
        self.fourier_length = Some(length);
        self
    }

    /// Set the downsampling factor.
    pub fn downsample(&mut self, downsample: usize) -> (r: &mut BeatBuilder<S>)
        ensures
            *r == (BeatBuilder { downsample: Some(downsample), ..*old(self) }),
            *final(self) == *final(r),
    {
        self.downsample = Some(downsample);
        self
    }

    /// Set the recording rate.
    pub fn rate(&mut self, rate: usize) -> (r: &mut BeatBuilder<S>)
        ensures
            *r == (BeatBuilder { rate: Some(rate), ..*old(self) }),
            *final(self) == *final(r),
    {
        self.rate = Some(rate);
        self
    }

    /// The shape of the detector's own Fourier analysis (which always uses a
    /// Nuttall window): what the builder set, else the configuration, else
    /// the defaults of beat detection.
    pub fn analyzer_settings(&self, config: &Config) -> (r: FourierSettings)
        ensures
            r.length == config::chosen(
                self.fourier_length,
                config.beat_fourier_length,
                config::DEFAULT_BEAT_FOURIER_LENGTH,
            ),
            r.downsample == config::chosen(
                self.downsample,
                config.beat_downsample,
                config::DEFAULT_BEAT_DOWNSAMPLE,
            ),
            r.rate == config::chosen(self.rate, config.rate, config::DEFAULT_RATE),
    {
        FourierSettings {
            length: config::pick(
                self.fourier_length,
                config.beat_fourier_length,
                config::DEFAULT_BEAT_FOURIER_LENGTH,
            ),
            downsample: config::pick(
                self.downsample,
                config.beat_downsample,
                config::DEFAULT_BEAT_DOWNSAMPLE,
            ),
            rate: config::pick(self.rate, config.rate, config::DEFAULT_RATE),
        }
    }
}

} // verus!
