//! The guarantees the engine is built around, stated and proved over the
//! scheduler's transition functions: additive scheduling never drifts, beat
//! indices wrap and re-clamp correctly, the first beat alone is accented, a
//! click spans exactly its sample count, and configuration writes land only
//! at tick boundaries.

use vstd::prelude::*;

use crate::config::{
    lemma_tick_interval_bounds, spec_tick_interval_nanos, MetronomeConfig,
};
use crate::engine::{
    spec_beat_freq, spec_check, spec_click_samples, spec_render_cmds, spec_render_post,
    spec_tone_run, spec_trigger, MetronomeState, SampleCmd, ACCENT_FREQ_HZ, BEAT_FREQ_HZ,
};

verus! {

/// The scheduler state after `k` further ticks fire under one constant
/// configuration, each advancing the deadline additively.
pub open spec fn spec_ticks(s: MetronomeState, cfg: MetronomeConfig, k: nat) -> MetronomeState
    decreases k,
{
    if k == 0 {
        s
    } else {
        spec_trigger(spec_ticks(s, cfg, (k - 1) as nat), cfg)
    }
}

/// Additive scheduling does not drift: after `k` ticks under a constant
/// configuration, the deadline is the starting deadline plus exactly `k`
/// whole intervals — never reconstructed from the observed clock — and the
/// interval in force is exactly the one the configuration dictates.
pub proof fn lemma_no_drift(s: MetronomeState, cfg: MetronomeConfig, k: nat)
    requires
        cfg.valid(),
        s.next_tick_nanos + k * spec_tick_interval_nanos(cfg) <= u64::MAX,
    ensures
        spec_ticks(s, cfg, k).next_tick_nanos
            == s.next_tick_nanos + k * spec_tick_interval_nanos(cfg),
        k >= 1 ==> spec_ticks(s, cfg, k).interval_nanos == spec_tick_interval_nanos(cfg),
    decreases k,
{
    lemma_tick_interval_bounds(cfg);
    let iv = spec_tick_interval_nanos(cfg);
    if k > 0 {
        assert((k - 1) * iv == k * iv - iv) by (nonlinear_arith);
        assert((k - 1) * iv <= k * iv) by (nonlinear_arith)
            requires
                iv >= 0,
                k >= 1,
        ;
        lemma_no_drift(s, cfg, (k - 1) as nat);
    } else {
        assert(k * iv == 0) by (nonlinear_arith)
            requires
                k == 0,
        ;
    }
}

/// Each completed click advances the beat index by exactly one, modulo the
/// number of beats per measure in force at the moment of the wrap, and the
/// new index lies inside the measure.
pub proof fn lemma_beat_advances(s: MetronomeState, len: int, now: u64)
    requires
        s.wf(),
        s.playing_tick,
        spec_tone_run(s) <= len,
    ensures
        spec_render_post(s, len, now).beat_index
            == ((s.beat_index + 1) as int) % (s.beats_per_measure as int),
        spec_render_post(s, len, now).beat_index < s.beats_per_measure,
        spec_render_post(s, len, now).beats_per_measure == s.beats_per_measure,
{
}

/// When a tick adopts a newly written time signature, the beat index is
/// clamped into the new measure at that very boundary: it never sits
/// outside `[0, beats_per_measure)` while a measure is in force.
pub proof fn lemma_signature_change_reclamps(s: MetronomeState, cfg: MetronomeConfig)
    requires
        cfg.valid(),
    ensures
        spec_trigger(s, cfg).beat_index
            == (s.beat_index as int) % (cfg.time_signature.top as int),
        spec_trigger(s, cfg).beat_index < cfg.time_signature.top,
        spec_trigger(s, cfg).beats_per_measure == cfg.time_signature.top,
{
}

/// Every non-silent sample of a block carries the pitch of the beat in
/// force: the accent pitch exactly on the first beat of the measure, the
/// lower beat pitch on every other beat — and the accent is the higher one.
pub proof fn lemma_accent_pitch(s: MetronomeState, len: int, i: int)
    requires
        0 <= i < len,
        spec_render_cmds(s, len)[i] is Tone,
    ensures
        spec_render_cmds(s, len)[i] matches SampleCmd::Tone { freq_hz, .. }
            && freq_hz == spec_beat_freq(s.beat_index as int)
            && (s.beat_index == 0 <==> freq_hz == ACCENT_FREQ_HZ)
            && (s.beat_index != 0 <==> freq_hz == BEAT_FREQ_HZ),
        ACCENT_FREQ_HZ > BEAT_FREQ_HZ,
{
}

/// Non-silent commands in a block.
pub open spec fn spec_tone_count(cmds: Seq<SampleCmd>) -> int
    decreases cmds.len(),
{
    if cmds.len() == 0 {
        0
    } else {
        (if cmds[0] is Silence { 0int } else { 1int }) + spec_tone_count(cmds.drop_first())
    }
}

/// A block whose non-silent commands are exactly its first `t` has tone
/// count `t`.
proof fn lemma_tone_count_prefix(cmds: Seq<SampleCmd>, t: int)
    requires
        0 <= t <= cmds.len(),
        forall|j: int| 0 <= j < cmds.len() ==> (cmds[j] is Tone <==> j < t),
    ensures
        spec_tone_count(cmds) == t,
    decreases cmds.len(),
{
    if cmds.len() > 0 {
        let rest = cmds.drop_first();
        if t > 0 {
            assert(cmds[0] is Tone);
            assert forall|j: int| 0 <= j < rest.len() implies (rest[j] is Tone <==> j < t - 1) by {
                assert(rest[j] == cmds[j + 1]);
            }
            lemma_tone_count_prefix(rest, t - 1);
        } else {
            assert(!(cmds[0] is Tone));
            assert forall|j: int| 0 <= j < rest.len() implies (rest[j] is Tone <==> j < 0) by {
                assert(rest[j] == cmds[j + 1]);
            }
            lemma_tone_count_prefix(rest, 0);
        }
    }
}

/// One block renders as many non-silent samples as the active click still
/// owes, capped by the block length.
pub proof fn lemma_block_tone_count(s: MetronomeState, len: int)
    requires
        s.wf(),
        0 <= len,
    ensures
        spec_tone_count(spec_render_cmds(s, len))
            == if spec_tone_run(s) < len { spec_tone_run(s) } else { len },
{
    let run = spec_tone_run(s);
    let t = if run < len { run } else { len };
    let cmds = spec_render_cmds(s, len);
    assert forall|j: int| 0 <= j < cmds.len() implies (cmds[j] is Tone <==> j < t) by {
        if j < run {
            assert(cmds[j] is Tone);
        } else {
            assert(cmds[j] is Silence);
        }
    }
    lemma_tone_count_prefix(cmds, t);
}

/// Rendering a block keeps the state well-formed.
pub proof fn lemma_render_post_wf(s: MetronomeState, len: int, now: u64)
    requires
        s.wf(),
        0 <= len,
    ensures
        spec_render_post(s, len, now).wf(),
{
}

/// The scheduler states across successive blocks rendered with no
/// intervening tick.
pub open spec fn spec_render_chain(s: MetronomeState, lens: Seq<usize>, now: u64) -> MetronomeState
    decreases lens.len(),
{
    if lens.len() == 0 {
        s
    } else {
        spec_render_chain(spec_render_post(s, lens[0] as int, now), lens.drop_first(), now)
    }
}

/// The non-silent samples those blocks carry in total.
pub open spec fn spec_chain_tone_total(s: MetronomeState, lens: Seq<usize>, now: u64) -> int
    decreases lens.len(),
{
    if lens.len() == 0 {
        0
    } else {
        spec_tone_count(spec_render_cmds(s, lens[0] as int))
            + spec_chain_tone_total(spec_render_post(s, lens[0] as int, now), lens.drop_first(), now)
    }
}

/// Samples those blocks span in total.
pub open spec fn spec_total_len(lens: Seq<usize>) -> int
    decreases lens.len(),
{
    if lens.len() == 0 {
        0
    } else {
        lens[0] + spec_total_len(lens.drop_first())
    }
}

/// With no click active, blocks carry only silence, however they are cut.
pub proof fn lemma_idle_renders_silence(s: MetronomeState, lens: Seq<usize>, now: u64)
    requires
        s.wf(),
        !s.playing_tick,
    ensures
        spec_chain_tone_total(s, lens, now) == 0,
        spec_render_chain(s, lens, now) == s,
    decreases lens.len(),
{
    if lens.len() > 0 {
        lemma_block_tone_count(s, lens[0] as int);
        lemma_idle_renders_silence(s, lens.drop_first(), now);
    }
}

/// An active click renders exactly the samples it still owes — however the
/// device cuts the blocks — and once those blocks span the click, the click
/// is over and only silence follows.
pub proof fn lemma_click_sample_total(s: MetronomeState, lens: Seq<usize>, now: u64)
    requires
        s.wf(),
        s.playing_tick,
        spec_total_len(lens) >= spec_tone_run(s),
    ensures
        spec_chain_tone_total(s, lens, now) == spec_tone_run(s),
        !spec_render_chain(s, lens, now).playing_tick,
    decreases lens.len(),
{
    if lens.len() == 0 {
        assert(spec_tone_run(s) >= 1);
    } else {
        let l = lens[0] as int;
        let run = spec_tone_run(s);
        lemma_block_tone_count(s, l);
        lemma_render_post_wf(s, l, now);
        let post = spec_render_post(s, l, now);
        if run <= l {
            lemma_idle_renders_silence(post, lens.drop_first(), now);
        } else {
            lemma_click_sample_total(post, lens.drop_first(), now);
        }
    }
}

/// A click rendered from its first sample produces exactly
/// `round(click seconds * sample rate)` non-silent samples before silence
/// returns: the fixed click length at the stream's sample rate.
pub proof fn lemma_full_click_count(s: MetronomeState, lens: Seq<usize>, now: u64)
    requires
        s.wf(),
        s.playing_tick,
        s.tick_sample_pos == 0,
        spec_total_len(lens) >= s.click_samples,
    ensures
        spec_chain_tone_total(s, lens, now) == spec_click_samples(s.sample_rate),
        !spec_render_chain(s, lens, now).playing_tick,
{
    lemma_click_sample_total(s, lens, now);
}

/// A configuration write is observed only at a tick boundary: while the
/// deadline has not passed, the scheduling step ignores the cell entirely,
/// so the state — and with it every rendered sample — is the same whatever
/// the cell holds. No tempo, signature or volume change lands mid-click.
pub proof fn lemma_update_waits_for_tick(
    s: MetronomeState,
    cfg1: MetronomeConfig,
    cfg2: MetronomeConfig,
    now: u64,
    len: int,
)
    requires
        now < s.next_tick_nanos,
    ensures
        spec_check(s, cfg1, now) == s,
        spec_check(s, cfg1, now) == spec_check(s, cfg2, now),
        spec_render_cmds(spec_check(s, cfg1, now), len)
            == spec_render_cmds(spec_check(s, cfg2, now), len),
{
}

} // verus!
