//! The figures that the settings window samples from the running layer and helper.
use std::collections::VecDeque;

use vstd::prelude::*;

verus! {

/// How often the figures are sampled.
pub const TELEMETRY_INTERVAL_MS: u32 = 200;

/// How far back the plot reaches.
pub const TELEMETRY_WINDOW_SECS: u32 = 5;

/// How many samples that is.
pub const TELEMETRY_SAMPLES: usize = 25;

/// One sample: the times published, as the bits of their numbers.
#[derive(Clone, Copy, Debug, PartialEq, Eq, Structural)]
pub struct TelemetrySample {
    pub layer_ms_bits: u32,
    pub upload_ms_bits: u32,
    pub eval_ms_bits: u32,
    pub readback_ms_bits: u32,
}

/// The samples of the last few seconds, oldest first.
#[derive(Debug)]
pub struct TelemetryHistory {
    pub samples: VecDeque<TelemetrySample>,
}

/// The frame counters as they were at the last sample.
#[derive(Clone, Copy, Debug, PartialEq, Eq, Structural)]
pub struct FrameCounters {
    pub layer: Option<u64>,
    pub helper: Option<u64>,
}

/// The last `count` of a sequence, or all of it.
pub open spec fn last_of<A>(all: Seq<A>, count: int) -> Seq<A> {
    if all.len() <= count {
        all
    } else {
        all.skip(all.len() - count)
    }
}

/// How many frames a counter has gone on by; a counter that went back counts as none.
pub open spec fn advance_of(last: Option<u64>, now: u64) -> Option<u64> {
    match last {
        Some(before) if now >= before => Some((now - before) as u64),
        Some(_) => Some(0),
        None => None,
    }
}

/// A counter that is published in two halves.
pub fn frame_counter(hi: u32, lo: u32) -> (r: u64)
    ensures
        r == hi * 0x1_0000_0000 + lo,
{
    proof {
        let (h, l) = (hi as u64, lo as u64);
        assert((h << 32u64) | l == h * 0x1_0000_0000 + l) by (bit_vector)
            requires
                h <= 0xffff_ffff,
                l <= 0xffff_ffff,
        ;
    }
    ((hi as u64) << 32u64) | (lo as u64)
}

fn frames_since(last: Option<u64>, now: u64) -> (r: Option<u64>)
    ensures
        r == advance_of(last, now),
{
    match last {
        Some(before) => if now >= before {
            Some(now - before)
        } else {
            Some(0)
        },
        None => None,
    }
}

impl FrameCounters {
    /// Before the first sample.
    pub fn new() -> (r: Self)
        ensures
            r == (FrameCounters { layer: None, helper: None }),
    {
        FrameCounters { layer: None, helper: None }
    }

    /// How many frames the layer and the helper have gone on by since the last sample, once
    /// there was one; this sample then is the last.
    pub fn sample(&mut self, layer: u64, helper: u64) -> (r: Option<(u64, u64)>)
        ensures
            *final(self) == (FrameCounters { layer: Some(layer), helper: Some(helper) }),
            r == (match (advance_of(old(self).layer, layer), advance_of(old(self).helper, helper)) {
                (Some(l), Some(h)) => Some((l, h)),
                _ => None,
            }),
    {
        let layer_frames = frames_since(self.layer, layer);
        let helper_frames = frames_since(self.helper, helper);
        self.layer = Some(layer);
        self.helper = Some(helper);
        match (layer_frames, helper_frames) {
            (Some(l), Some(h)) => Some((l, h)),
            _ => None,
        }
    }
}

impl TelemetryHistory {
    pub open spec fn wf(&self) -> bool {
        self.samples@.len() <= TELEMETRY_SAMPLES
    }

    pub fn new() -> (r: Self)
        ensures
            r.wf(),
            r.samples@ == Seq::<TelemetrySample>::empty(),
    {
        TelemetryHistory { samples: VecDeque::new() }
    }

    /// Takes one more sample; the oldest one goes once there are too many.
    pub fn record(&mut self, sample: TelemetrySample)
        requires
            old(self).wf(),
        ensures
            final(self).wf(),
            final(self).samples@ == last_of(
                old(self).samples@.push(sample),
                TELEMETRY_SAMPLES as int,
            ),
    {
        let ghost before = self.samples@;
        if self.samples.len() == TELEMETRY_SAMPLES {
            self.samples.pop_front();
        }
        self.samples.push_back(sample);
        proof {
            assert(self.samples@ =~= last_of(before.push(sample), TELEMETRY_SAMPLES as int));
        }
    }
}

/// The history after a run of samples.
pub open spec fn recorded(samples: Seq<TelemetrySample>) -> Seq<TelemetrySample>
    decreases samples.len(),
{
    if samples.len() == 0 {
        seq![]
    } else {
        last_of(recorded(samples.drop_last()).push(samples.last()), TELEMETRY_SAMPLES as int)
    }
}

/// The history is the last samples that were taken, as many as the plot shows, in order.
pub proof fn history_holds_the_latest_samples(samples: Seq<TelemetrySample>)
    ensures
        recorded(samples) == last_of(samples, TELEMETRY_SAMPLES as int),
    decreases samples.len(),
{
    if samples.len() > 0 {
        history_holds_the_latest_samples(samples.drop_last());
        assert(recorded(samples) =~= last_of(samples, TELEMETRY_SAMPLES as int));
    }
}

/// The number of samples is the window's length over their distance.
pub proof fn the_window_is_covered()
    ensures
        TELEMETRY_SAMPLES * TELEMETRY_INTERVAL_MS == TELEMETRY_WINDOW_SECS * 1000,
{
}

/// The plot shows the latest samples and no others: as many as were taken, up to five seconds'
/// worth, and the last of them is the one just taken.
pub proof fn the_plot_shows_the_latest_samples(samples: Seq<TelemetrySample>)
    ensures
        ({
            let shown = recorded(samples);
            &&& shown.len() == (if samples.len() < 25 {
                samples.len()
            } else {
                25
            })
            &&& forall|i: int|
                0 <= i < shown.len() ==> #[trigger] shown[i] == samples[samples.len()
                    - shown.len() + i]
        }),
{
    history_holds_the_latest_samples(samples);
}

/// A counter that went on counts by how much, one that stands still or starts over counts as
/// none, and there is nothing to count at the first sample.
pub proof fn counters_count_what_they_went_on_by(last: Option<u64>, now: u64)
    ensures
        advance_of(last, now) is None <==> last is None,
        last matches Some(before) ==> (advance_of(last, now) matches Some(frames) && (
        if now >= before {
            before + frames == now
        } else {
            frames == 0
        })),
{
}

} // verus!
