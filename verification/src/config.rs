//! The shared configuration record: tempo, time signature and volume, with
//! the validation the scheduler relies on and the tick-interval formula.

use vstd::prelude::*;

verus! {

/// Nanoseconds in 240 seconds: the tick interval at one beat per minute with
/// a whole-note beat unit, the longest interval the scheduler can be asked
/// to hold.
pub const WHOLE_NOTE_NANOS: u64 = 240_000_000_000;

/// Full-scale volume: volumes are fractions in per-mille of this.
pub const VOLUME_SCALE: u32 = 1000;

/// A time signature: `top` beats per measure, a `bottom`-th note per beat.
#[derive(Clone, Copy, Debug, PartialEq, Eq, Structural)]
pub struct TimeSignature {
    pub top: u8,
    pub bottom: u8,
}

/// The record the control layer writes and the scheduler reads at tick
/// boundaries. Volume is in per-mille of full scale.
#[derive(Clone, Copy, Debug, PartialEq, Eq, Structural)]
pub struct MetronomeConfig {
    /// Tempo in beats per minute.
    pub bpm: u32,
    pub time_signature: TimeSignature,
    /// Output gain, in per-mille of full scale.
    pub volume: u32,
}

/// Why a configuration was rejected at the control boundary.
#[derive(Clone, Copy, Debug, PartialEq, Eq, Structural)]
pub enum ConfigError {
    /// A tempo of zero beats per minute.
    ZeroTempo,
    /// A time signature with zero beats per measure.
    ZeroBeatsPerMeasure,
    /// A time signature with a zero beat unit.
    ZeroBeatUnit,
    /// A tempo so fast the tick interval falls under one nanosecond.
    TempoTooFast,
    /// A volume above full scale.
    VolumeOutOfRange,
}

impl MetronomeConfig {
    /// A configuration the scheduler may consume: positive tempo and
    /// signature fields, a tick interval of at least one nanosecond, and a
    /// volume no louder than full scale.
    pub open spec fn valid(self) -> bool {
        &&& self.bpm >= 1
        &&& self.time_signature.top >= 1
        &&& self.time_signature.bottom >= 1
        &&& self.bpm * self.time_signature.bottom <= WHOLE_NOTE_NANOS
        &&& self.volume <= VOLUME_SCALE
    }
}

/// The tick interval in nanoseconds: `60 / bpm` seconds per quarter note,
/// scaled by `4 / bottom`, i.e. 240 seconds divided by `bpm * bottom`,
/// rounded down to a whole nanosecond.
pub open spec fn spec_tick_interval_nanos(cfg: MetronomeConfig) -> int {
    WHOLE_NOTE_NANOS as int / (cfg.bpm * cfg.time_signature.bottom)
}

/// A valid configuration's tick interval is a whole positive number of
/// nanoseconds, no longer than one beat at the slowest tempo.
pub proof fn lemma_tick_interval_bounds(cfg: MetronomeConfig)
    requires
        cfg.valid(),
    ensures
        1 <= spec_tick_interval_nanos(cfg) <= WHOLE_NOTE_NANOS,
{
    assert(cfg.bpm * cfg.time_signature.bottom >= 1) by (nonlinear_arith)
        requires
            cfg.bpm >= 1,
            cfg.time_signature.bottom >= 1,
    ;
    let denom = cfg.bpm * cfg.time_signature.bottom;
    assert(WHOLE_NOTE_NANOS as int / denom >= 1 && WHOLE_NOTE_NANOS as int / denom <= WHOLE_NOTE_NANOS)
        by (nonlinear_arith)
        requires
            1 <= denom <= WHOLE_NOTE_NANOS,
    ;
}

/// Computes the tick interval of a valid configuration.
pub fn tick_interval_nanos(cfg: &MetronomeConfig) -> (n: u64)
    requires
        cfg.valid(),
    ensures
        n == spec_tick_interval_nanos(*cfg),
        1 <= n <= WHOLE_NOTE_NANOS,
{
    proof {
        assert(cfg.bpm * cfg.time_signature.bottom >= 1) by (nonlinear_arith)
            requires
                cfg.bpm >= 1,
                cfg.time_signature.bottom >= 1,
        ;
    }
    let denom: u64 = (cfg.bpm as u64) * (cfg.time_signature.bottom as u64);
    proof {
        assert(WHOLE_NOTE_NANOS as int / denom as int >= 1
            && WHOLE_NOTE_NANOS as int / denom as int <= WHOLE_NOTE_NANOS)
            by (nonlinear_arith)
            requires
                1 <= denom <= WHOLE_NOTE_NANOS,
        ;
    }
    WHOLE_NOTE_NANOS / denom
}

/// The verdict of validation: the first violated rule, checked in the order
/// tempo, beats per measure, beat unit, interval, volume.
pub open spec fn spec_validate(cfg: MetronomeConfig) -> Result<(), ConfigError> {
    if cfg.bpm == 0 {
        Err(ConfigError::ZeroTempo)
    } else if cfg.time_signature.top == 0 {
        Err(ConfigError::ZeroBeatsPerMeasure)
    } else if cfg.time_signature.bottom == 0 {
        Err(ConfigError::ZeroBeatUnit)
    } else if cfg.bpm * cfg.time_signature.bottom > WHOLE_NOTE_NANOS {
        Err(ConfigError::TempoTooFast)
    } else if cfg.volume > VOLUME_SCALE {
        Err(ConfigError::VolumeOutOfRange)
    } else {
        Ok(())
    }
}

/// Rejects a configuration the scheduler could not consume, naming the
/// first violated rule; accepts exactly the valid configurations.
pub fn validate_config(cfg: &MetronomeConfig) -> (r: Result<(), ConfigError>)
    ensures
        r == spec_validate(*cfg),
        r is Ok <==> cfg.valid(),
{
    proof {
        assert(cfg.bpm * cfg.time_signature.bottom <= 0xFFFF_FFFF * 255) by (nonlinear_arith)
            requires
                cfg.bpm <= 0xFFFF_FFFFu32,
                cfg.time_signature.bottom <= 255u8,
        ;
    }
    let prod: u64 = (cfg.bpm as u64) * (cfg.time_signature.bottom as u64);
    if cfg.bpm == 0 {
        Err(ConfigError::ZeroTempo)
    } else if cfg.time_signature.top == 0 {
        Err(ConfigError::ZeroBeatsPerMeasure)
    } else if cfg.time_signature.bottom == 0 {
        Err(ConfigError::ZeroBeatUnit)
    } else if prod > WHOLE_NOTE_NANOS {
        Err(ConfigError::TempoTooFast)
    } else if cfg.volume > VOLUME_SCALE {
        Err(ConfigError::VolumeOutOfRange)
    } else {
        Ok(())
    }
}

/// Replaces every field of the shared configuration as one unit, after
/// validating the candidate; an invalid candidate is rejected with the
/// first violated rule and leaves the cell unchanged.
pub fn update_config(
    config: &mut MetronomeConfig,
    bpm: u32,
    time_signature: TimeSignature,
    volume: u32,
) -> (r: Result<(), ConfigError>)
    ensures
        ({
            let cand = MetronomeConfig { bpm, time_signature, volume };
            &&& r == spec_validate(cand)
            &&& (r is Ok <==> cand.valid())
            &&& (r is Ok ==> *final(config) == cand)
            &&& (r is Err ==> *final(config) == *old(config))
        }),
{
    let cand = MetronomeConfig { bpm, time_signature, volume };
    match validate_config(&cand) {
        Ok(()) => {
            *config = cand;
            Ok(())
        },
        Err(e) => Err(e),
    }
}

} // verus!
