use vis_core::beat::{BeatBuilder, Trend, TrendTracker, Turn};
use vis_core::config::Config;

fn trend_of(delta: f32) -> Trend {
    if delta > 0.0 {
        Trend::Rising
    } else if delta < 0.0 {
        Trend::Falling
    } else if delta == 0.0 {
        Trend::Level
    } else {
        Trend::Unordered
    }
}

fn turns_for(volumes: &[f32]) -> Vec<Turn> {
    let mut tracker = TrendTracker::new();
    let mut last = 0.0f32;
    let mut out = Vec::new();
    for &v in volumes {
        out.push(tracker.observe(trend_of(v - last)));
        last = v;
    }
    out
}

#[test]
fn rising_volume_confirms_no_peak() {
    let volumes: Vec<f32> = (1..200).map(|i| i as f32 * 0.5).collect();
    assert!(turns_for(&volumes).iter().all(|t| *t != Turn::Peak));
}

#[test]
fn peak_and_valley_are_confirmed_one_cycle_late() {
    let turns = turns_for(&[1.0, 3.0, 2.0, 1.0, 4.0]);
    assert_eq!(
        turns,
        vec![Turn::Steady, Turn::Steady, Turn::Peak, Turn::Steady, Turn::Valley]
    );
}

#[test]
fn plateau_keeps_pending_peak() {
    // Rise, hold exactly, then fall: the peak is still confirmed.
    let turns = turns_for(&[1.0, 2.0, 2.0, 2.0, 1.0]);
    assert_eq!(turns[4], Turn::Peak);
    assert!(turns[..4].iter().all(|t| *t == Turn::Steady));
}

#[test]
fn unordered_change_clears_memory() {
    let mut tracker = TrendTracker::new();
    assert_eq!(tracker.observe(Trend::Rising), Turn::Steady);
    assert_eq!(tracker.observe(Trend::Unordered), Turn::Steady);
    assert_eq!(tracker.last, Trend::Unordered);
    assert_eq!(tracker.observe(Trend::Falling), Turn::Steady);
}

#[test]
fn beat_builder_sets_fields() {
    let mut b = BeatBuilder::new();
    b.decay(2000.0f32).trigger(0.4).range(50.0, 100.0).fourier_length(16).downsample(10).rate(8000);
    assert_eq!(b.decay, Some(2000.0));
    assert_eq!(b.trigger, Some(0.4));
    assert_eq!(b.range, Some((50.0, 100.0)));
    assert_eq!(b.fourier_length, Some(16));
    assert_eq!(b.downsample, Some(10));
    assert_eq!(b.rate, Some(8000));
}

#[test]
fn beat_analyzer_settings_fall_back() {
    let b: BeatBuilder<f32> = BeatBuilder::new();
    let s = b.analyzer_settings(&Config::empty());
    assert_eq!((s.length, s.downsample, s.rate), (16, 10, 8000));

    let mut config = Config::empty();
    config.rate = Some(44100);
    config.beat_fourier_length = Some(32);
    let mut b: BeatBuilder<f32> = BeatBuilder::new();
    b.downsample(4);
    let s = b.analyzer_settings(&config);
    assert_eq!((s.length, s.downsample, s.rate), (32, 4, 44100));

    b.rate(22050).fourier_length(64);
    let s = b.analyzer_settings(&config);
    assert_eq!((s.length, s.downsample, s.rate), (64, 4, 22050));
}
