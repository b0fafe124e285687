use metronome::config::{tick_interval_nanos, MetronomeConfig, TimeSignature};
use metronome::engine::{click_samples, MetronomeState, SampleCmd};

const RATE: u32 = 48000;
const BLOCK: usize = 480;

fn cfg(bpm: u32, top: u8, bottom: u8, volume: u32) -> MetronomeConfig {
    MetronomeConfig {
        bpm,
        time_signature: TimeSignature { top, bottom },
        volume,
    }
}

/// Monotonic instant, in nanoseconds, of a given sample count at 48 kHz.
fn nanos_at(samples: u64) -> u64 {
    samples * 1_000_000_000 / (RATE as u64)
}

#[test]
fn interval_formula_exact_values() {
    // 120 BPM over quarter notes: 60/120 * 4/4 = 0.5 s.
    assert_eq!(tick_interval_nanos(&cfg(120, 4, 4, 0)), 500_000_000);
    // 60 BPM over eighth notes: 60/60 * 4/8 = 0.5 s.
    assert_eq!(tick_interval_nanos(&cfg(60, 3, 8, 0)), 500_000_000);
    // 100 BPM over quarter notes: 60/100 * 4/4 = 0.6 s.
    assert_eq!(tick_interval_nanos(&cfg(100, 4, 4, 0)), 600_000_000);
    // 240 BPM over half notes: 60/240 * 4/2 = 0.5 s.
    assert_eq!(tick_interval_nanos(&cfg(240, 2, 2, 0)), 500_000_000);
}

#[test]
fn click_samples_rounds_to_nearest() {
    assert_eq!(click_samples(48000), 2400);
    assert_eq!(click_samples(44100), 2205);
    // 0.05 * 22051 = 1102.55, rounded up.
    assert_eq!(click_samples(22051), 1103);
    // 0.05 * 22049 = 1102.45, rounded down.
    assert_eq!(click_samples(22049), 1102);
}

#[test]
fn scenario_120_bpm_four_four() {
    let c = cfg(120, 4, 4, 800);
    let mut st = MetronomeState::new(&c, 0, RATE);
    assert_eq!(st.interval_nanos, 500_000_000);
    assert_eq!(st.click_samples, 2400);

    let mut beats: Vec<usize> = Vec::new();
    let mut tone_counts: Vec<usize> = Vec::new();
    let mut tones_since_event: usize = 0;
    let mut total: u64 = 0;
    // Five seconds of audio in 10 ms blocks.
    for _ in 0..500 {
        let (cmds, _ticked, done) = st.fill(nanos_at(total), BLOCK, &c);
        assert_eq!(cmds.len(), BLOCK);
        for cmd in cmds.iter() {
            if !matches!(cmd, SampleCmd::Silence) {
                tones_since_event += 1;
            }
        }
        if let Some(b) = done {
            beats.push(b);
            tone_counts.push(tones_since_event);
            tones_since_event = 0;
        }
        total += BLOCK as u64;
    }
    // Two beats per second; the first click starts half a second in and
    // completes 50 ms later, so nine clicks complete within five seconds.
    assert_eq!(beats, vec![0, 1, 2, 3, 0, 1, 2, 3, 0]);
    // Every completed click carried exactly 0.05 s * 48000 = 2400 samples.
    for n in tone_counts.iter() {
        assert_eq!(*n, 2400);
    }
}

#[test]
fn first_beat_accented_others_lower() {
    let c = cfg(120, 4, 4, 700);
    let mut st = MetronomeState::new(&c, 0, RATE);
    let mut total: u64 = 0;
    let mut seen: Vec<(usize, u32)> = Vec::new();
    let mut click_freq: Option<u32> = None;
    for _ in 0..500 {
        let (cmds, _ticked, done) = st.fill(nanos_at(total), BLOCK, &c);
        for cmd in cmds.iter() {
            if let SampleCmd::Tone { freq_hz, .. } = cmd {
                match click_freq {
                    None => click_freq = Some(*freq_hz),
                    Some(f) => assert_eq!(f, *freq_hz),
                }
            }
        }
        if let Some(b) = done {
            seen.push((b, click_freq.take().unwrap()));
        }
        total += BLOCK as u64;
    }
    assert!(seen.len() >= 8);
    for (beat, freq) in seen.iter() {
        if *beat == 0 {
            assert_eq!(*freq, 432);
        } else {
            assert_eq!(*freq, 216);
        }
    }
}

#[test]
fn click_commands_carry_position_and_volume() {
    let c = cfg(120, 4, 4, 800);
    let mut st = MetronomeState::new(&c, 0, RATE);
    // Jump straight to the first deadline: the block starts with the click.
    let (cmds, ticked, done) = st.fill(500_000_000, BLOCK, &c);
    assert!(ticked);
    assert_eq!(done, None);
    for (i, cmd) in cmds.iter().enumerate() {
        assert_eq!(
            *cmd,
            SampleCmd::Tone {
                freq_hz: 432,
                sample_index: i,
                volume: 800,
            }
        );
    }
}

#[test]
fn silence_before_first_deadline() {
    let c = cfg(120, 4, 4, 800);
    let mut st = MetronomeState::new(&c, 0, RATE);
    let (cmds, ticked, done) = st.fill(0, BLOCK, &c);
    assert!(!ticked);
    assert_eq!(done, None);
    for cmd in cmds.iter() {
        assert_eq!(*cmd, SampleCmd::Silence);
    }
}

#[test]
fn volume_change_waits_for_tick_boundary() {
    let quiet = cfg(120, 4, 4, 200);
    let loud = cfg(120, 4, 4, 900);
    let mut st = MetronomeState::new(&quiet, 0, RATE);
    // First click begins: volume 200 is latched.
    let (cmds, ticked, _done) = st.fill(500_000_000, BLOCK, &quiet);
    assert!(ticked);
    assert!(matches!(cmds[0], SampleCmd::Tone { volume: 200, .. }));
    // The cell is rewritten mid-click: the rest of the click stays at 200.
    let (cmds, ticked, done) = st.fill(510_000_000, BLOCK, &loud);
    assert!(!ticked);
    assert_eq!(done, None);
    assert!(matches!(cmds[0], SampleCmd::Tone { volume: 200, .. }));
    // At the next tick boundary the new volume applies.
    let (cmds, ticked, _done) = st.fill(1_000_000_000, BLOCK, &loud);
    assert!(ticked);
    assert!(matches!(cmds[0], SampleCmd::Tone { volume: 900, .. }));
}

#[test]
fn shrinking_signature_reclamps_beat_index() {
    let four = cfg(120, 4, 4, 500);
    let two = cfg(120, 2, 4, 500);
    let mut st = MetronomeState::new(&four, 0, RATE);
    let mut total: u64 = 0;
    let mut beats: Vec<usize> = Vec::new();
    // Complete three beats in 4/4: indices 0, 1, 2.
    while beats.len() < 3 {
        let (_cmds, _ticked, done) = st.fill(nanos_at(total), BLOCK, &four);
        if let Some(b) = done {
            beats.push(b);
        }
        total += BLOCK as u64;
    }
    assert_eq!(beats, vec![0, 1, 2]);
    assert_eq!(st.beat_index, 3);
    // The signature shrinks to 2/4: the next tick clamps 3 into [0, 2).
    while beats.len() < 5 {
        let (_cmds, _ticked, done) = st.fill(nanos_at(total), BLOCK, &two);
        if let Some(b) = done {
            beats.push(b);
        }
        total += BLOCK as u64;
    }
    assert_eq!(beats, vec![0, 1, 2, 1, 0]);
    assert!(st.beat_index < 2);
}

#[test]
fn tick_indicator_window() {
    let c = cfg(120, 4, 4, 500);
    let mut st = MetronomeState::new(&c, 0, RATE);
    assert!(!st.tick_active(0));
    // The click begins: the indicator is on while it plays.
    let (_cmds, ticked, _done) = st.fill(500_000_000, BLOCK, &c);
    assert!(ticked);
    assert!(st.tick_active(505_000_000));
    // One long block completes the click (2400 samples remain of 2400).
    let (_cmds, _ticked, done) = st.fill(510_000_000, 4800, &c);
    assert_eq!(done, Some(0));
    // The indicator stays on for one click length past completion...
    assert!(st.tick_active(540_000_000));
    // ...and turns off afterwards.
    assert!(!st.tick_active(560_000_001));
}
