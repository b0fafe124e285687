//! The tick scheduler and playback state machine: the state the audio worker
//! owns, the scheduling step that fires ticks and latches configuration, and
//! the block fill that decides what every output sample must hold.

use vstd::prelude::*;

use crate::config::{
    spec_tick_interval_nanos, tick_interval_nanos, MetronomeConfig, VOLUME_SCALE,
    WHOLE_NOTE_NANOS,
};

verus! {

/// Pitch of the accented first beat of each measure, in hertz.
pub const ACCENT_FREQ_HZ: u32 = 432;

/// Pitch of every other beat, in hertz.
pub const BEAT_FREQ_HZ: u32 = 216;

/// Length of one click, in nanoseconds (50 ms).
pub const CLICK_NANOS: u64 = 50_000_000;

/// Latest instant the scheduler accepts: room is left to advance the
/// deadline one whole interval, and to time the indicator window, without
/// overflowing the nanosecond clock.
pub const MAX_INSTANT_NANOS: u64 = u64::MAX - WHOLE_NOTE_NANOS;

/// Samples in one click: the 50 ms click length times the sample rate,
/// rounded to the nearest whole sample.
pub open spec fn spec_click_samples(sample_rate: u32) -> int {
    (sample_rate + 10) / 20
}

/// Computes the click length in samples at a given sample rate.
pub fn click_samples(sample_rate: u32) -> (n: usize)
    requires
        sample_rate >= 10,
    ensures
        n == spec_click_samples(sample_rate),
        n >= 1,
{
    (((sample_rate as u64) + 10) / 20) as usize
}

/// Pitch for a beat position: the first beat of the measure is accented.
pub open spec fn spec_beat_freq(beat_index: int) -> u32 {
    if beat_index == 0 {
        ACCENT_FREQ_HZ
    } else {
        BEAT_FREQ_HZ
    }
}

/// Picks the click pitch for a beat position.
pub fn beat_freq(beat_index: usize) -> (f: u32)
    ensures
        f == spec_beat_freq(beat_index as int),
{
    if beat_index == 0 {
        ACCENT_FREQ_HZ
    } else {
        BEAT_FREQ_HZ
    }
}

/// What one output sample slot must hold: silence, or the sample
/// `sample_index` samples into a click tone at the given pitch and volume.
#[derive(Clone, Copy, Debug, PartialEq, Eq, Structural)]
pub enum SampleCmd {
    Silence,
    Tone { freq_hz: u32, sample_index: usize, volume: u32 },
}

/// The state the audio worker owns: when the next click is due, what tempo
/// and signature are in force, and where inside the current click the
/// output stands. No other thread reads or writes it.
#[derive(Clone, Copy, Debug, PartialEq, Eq, Structural)]
pub struct MetronomeState {
    /// Instant the next click starts, in nanoseconds on the monotonic clock.
    pub next_tick_nanos: u64,
    /// Tick interval in force, in nanoseconds.
    pub interval_nanos: u64,
    /// Whether a click is being rendered right now.
    pub playing_tick: bool,
    /// Position inside the current click, in samples.
    pub tick_sample_pos: usize,
    /// Zero-based beat position within the measure.
    pub beat_index: usize,
    /// Beats per measure in force.
    pub beats_per_measure: usize,
    /// Volume latched from the configuration at the last tick boundary.
    pub volume: u32,
    /// Sample rate of the output stream, in samples per second.
    pub sample_rate: u32,
    /// Samples per click at this sample rate.
    pub click_samples: usize,
    /// Instant the externally polled tick indicator turns off again.
    pub tick_active_until_nanos: u64,
}

impl MetronomeState {
    /// Well-formedness the constructor establishes and every step keeps:
    /// the beat index stays inside the measure, the interval is a whole
    /// positive number of nanoseconds no longer than the slowest beat, and
    /// an active click's position lies strictly inside the click window.
    pub open spec fn wf(self) -> bool {
        &&& 1 <= self.beats_per_measure
        &&& self.beat_index < self.beats_per_measure
        &&& 1 <= self.interval_nanos <= WHOLE_NOTE_NANOS
        &&& self.volume <= VOLUME_SCALE
        &&& self.sample_rate >= 10
        &&& self.click_samples == spec_click_samples(self.sample_rate)
        &&& 1 <= self.click_samples
        &&& (self.playing_tick ==> self.tick_sample_pos < self.click_samples)
    }
}

/// The state a stream opened at instant `now` starts from: no click active,
/// beat zero, the first click due one interval from now.
pub open spec fn spec_init(cfg: MetronomeConfig, now: u64, sample_rate: u32) -> MetronomeState {
    MetronomeState {
        next_tick_nanos: (now + spec_tick_interval_nanos(cfg)) as u64,
        interval_nanos: spec_tick_interval_nanos(cfg) as u64,
        playing_tick: false,
        tick_sample_pos: 0,
        beat_index: 0,
        beats_per_measure: cfg.time_signature.top as usize,
        volume: cfg.volume,
        sample_rate,
        click_samples: spec_click_samples(sample_rate) as usize,
        tick_active_until_nanos: 0,
    }
}

/// The state after a tick fires: the configuration is latched (interval,
/// beats per measure, volume), the beat index is clamped into the newly
/// adopted measure, a click window opens at sample zero, and the deadline
/// advances by exactly one new interval — never recomputed from the clock.
pub open spec fn spec_trigger(s: MetronomeState, cfg: MetronomeConfig) -> MetronomeState {
    MetronomeState {
        next_tick_nanos: (s.next_tick_nanos + spec_tick_interval_nanos(cfg)) as u64,
        interval_nanos: spec_tick_interval_nanos(cfg) as u64,
        playing_tick: true,
        tick_sample_pos: 0,
        beat_index: ((s.beat_index as int) % (cfg.time_signature.top as int)) as usize,
        beats_per_measure: cfg.time_signature.top as usize,
        volume: cfg.volume,
        ..s
    }
}

/// One scheduling step at instant `now`: the state after it, which is
/// changed exactly when the deadline has been reached.
pub open spec fn spec_check(s: MetronomeState, cfg: MetronomeConfig, now: u64) -> MetronomeState {
    if now >= s.next_tick_nanos {
        spec_trigger(s, cfg)
    } else {
        s
    }
}

/// Samples of the active click still to be emitted; zero when idle.
pub open spec fn spec_tone_run(s: MetronomeState) -> int {
    if s.playing_tick {
        s.click_samples - s.tick_sample_pos
    } else {
        0
    }
}

/// The commands a block of `len` samples carries when rendering starts from
/// state `s`: the remainder of the active click first, then silence.
pub open spec fn spec_render_cmds(s: MetronomeState, len: int) -> Seq<SampleCmd> {
    Seq::new(len as nat, |i: int|
        if i < spec_tone_run(s) {
            SampleCmd::Tone {
                freq_hz: spec_beat_freq(s.beat_index as int),
                sample_index: (s.tick_sample_pos + i) as usize,
                volume: s.volume,
            }
        } else {
            SampleCmd::Silence
        })
}

/// The state after rendering a block of `len` samples from state `s` at
/// instant `now`: the click position advances; if the click completes, the
/// window closes, the beat index wraps modulo the beats per measure in
/// force at that moment, and the tick indicator is timed to turn off one
/// click length later.
pub open spec fn spec_render_post(s: MetronomeState, len: int, now: u64) -> MetronomeState {
    if !s.playing_tick {
        s
    } else if spec_tone_run(s) > len {
        MetronomeState { tick_sample_pos: (s.tick_sample_pos + len) as usize, ..s }
    } else {
        MetronomeState {
            playing_tick: false,
            tick_sample_pos: s.click_samples,
            beat_index: (((s.beat_index + 1) as int) % (s.beats_per_measure as int)) as usize,
            tick_active_until_nanos: (now + CLICK_NANOS) as u64,
            ..s
        }
    }
}

/// The beat a block of `len` samples completes (and so publishes), if any.
pub open spec fn spec_render_event(s: MetronomeState, len: int) -> Option<usize> {
    if s.playing_tick && spec_tone_run(s) <= len {
        Some(s.beat_index)
    } else {
        None
    }
}

impl MetronomeState {
    /// Fresh state for a stream opened at instant `now` with the given
    /// output sample rate; the first click is due one interval from now.
    pub fn new(cfg: &MetronomeConfig, now: u64, sample_rate: u32) -> (s: Self)
        requires
            cfg.valid(),
            now <= MAX_INSTANT_NANOS,
            sample_rate >= 10,
        ensures
            s.wf(),
            s == spec_init(*cfg, now, sample_rate),
    {
        let interval = tick_interval_nanos(cfg);
        MetronomeState {
            next_tick_nanos: now + interval,
            interval_nanos: interval,
            playing_tick: false,
            tick_sample_pos: 0,
            beat_index: 0,
            beats_per_measure: cfg.time_signature.top as usize,
            volume: cfg.volume,
            sample_rate,
            click_samples: click_samples(sample_rate),
            tick_active_until_nanos: 0,
        }
    }

    /// One scheduling step: when `now` has reached the deadline, re-reads
    /// the configuration, opens a click window and advances the deadline by
    /// exactly one interval, additively. Returns whether a tick fired.
    pub fn check_and_trigger_tick(&mut self, now: u64, cfg: &MetronomeConfig) -> (ticked: bool)
        requires
            old(self).wf(),
            cfg.valid(),
            now <= MAX_INSTANT_NANOS,
        ensures
            final(self).wf(),
            ticked == (now >= old(self).next_tick_nanos),
            *final(self) == spec_check(*old(self), *cfg, now),
    {
        if now >= self.next_tick_nanos {
            let interval = tick_interval_nanos(cfg);
            self.interval_nanos = interval;
            self.beats_per_measure = cfg.time_signature.top as usize;
            self.beat_index = self.beat_index % self.beats_per_measure;
            self.volume = cfg.volume;
            self.playing_tick = true;
            self.tick_sample_pos = 0;
            self.next_tick_nanos = self.next_tick_nanos + interval;
            true
        } else {
            false
        }
    }

    /// Whether the externally polled tick indicator is on at instant `now`:
    /// during a click and for one click length after the click completes.
    pub fn tick_active(&self, now: u64) -> (b: bool)
        ensures
            b == (self.playing_tick || now < self.tick_active_until_nanos),
    {
        self.playing_tick || now < self.tick_active_until_nanos
    }

    /// Fills one audio block of `len` samples at instant `now`: runs the
    /// scheduling step once for the whole block, then emits one command per
    /// sample — the rest of the active click, then silence. Returns the
    /// commands, whether a tick fired, and the beat index of a click this
    /// block completed, if any.
    pub fn fill(&mut self, now: u64, len: usize, cfg: &MetronomeConfig)
        -> (r: (Vec<SampleCmd>, bool, Option<usize>))
        requires
            old(self).wf(),
            cfg.valid(),
            now <= MAX_INSTANT_NANOS,
        ensures
            final(self).wf(),
            r.1 == (now >= old(self).next_tick_nanos),
            ({
                let s1 = spec_check(*old(self), *cfg, now);
                &&& r.0@ == spec_render_cmds(s1, len as int)
                &&& *final(self) == spec_render_post(s1, len as int, now)
                &&& r.2 == spec_render_event(s1, len as int)
            }),
    {
        let ticked = self.check_and_trigger_tick(now, cfg);
        let ghost s1 = *self;

        let run: usize = if self.playing_tick {
            self.click_samples - self.tick_sample_pos
        } else {
            0
        };
        let tone_n: usize = if run < len {
            run
        } else {
            len
        };
        let freq = beat_freq(self.beat_index);

        let mut cmds: Vec<SampleCmd> = Vec::new();
        let mut i: usize = 0;
        while i < tone_n
            invariant
                *self == s1,
                s1.wf(),
                i <= tone_n,
                tone_n as int == if spec_tone_run(s1) < len as int { spec_tone_run(s1) } else { len as int },
                tone_n <= len,
                run as int == spec_tone_run(s1),
                freq == spec_beat_freq(s1.beat_index as int),
                cmds@.len() == i,
                forall|j: int| 0 <= j < i ==> cmds@[j] == spec_render_cmds(s1, len as int)[j],
            decreases tone_n - i,
        {
            cmds.push(SampleCmd::Tone {
                freq_hz: freq,
                sample_index: self.tick_sample_pos + i,
                volume: self.volume,
            });
            i = i + 1;
        }
        while cmds.len() < len
            invariant
                *self == s1,
                s1.wf(),
                tone_n as int == if spec_tone_run(s1) < len as int { spec_tone_run(s1) } else { len as int },
                tone_n <= cmds@.len() <= len,
                forall|j: int| 0 <= j < cmds@.len() ==> cmds@[j] == spec_render_cmds(s1, len as int)[j],
            decreases len - cmds@.len(),
        {
            cmds.push(SampleCmd::Silence);
        }
        proof {
            assert(cmds@ =~= spec_render_cmds(s1, len as int));
        }

        let mut completed: Option<usize> = None;
        if self.playing_tick {
            if run <= len {
                self.playing_tick = false;
                self.tick_sample_pos = self.click_samples;
                completed = Some(self.beat_index);
                self.beat_index = (self.beat_index + 1) % self.beats_per_measure;
                self.tick_active_until_nanos = now + CLICK_NANOS;
            } else {
                self.tick_sample_pos = self.tick_sample_pos + len;
            }
        }
        (cmds, ticked, completed)
    }
}

} // verus!
