use audio_bridge::sine::{SineWave, SineWaveControl, SineWaveStream};
use audio_bridge::{Frame, Gen, GenState, Streamable};

fn silent_block(len: usize) -> Vec<Frame> {
    vec![Frame::silence(); len]
}

fn lefts(out: &[Frame]) -> Vec<i64> {
    out.iter().map(|f| f.left).collect()
}

fn tone(frequency_hz: u32, phase: u64) -> (SineWaveStream, SineWaveControl) {
    SineWave { frequency_hz, phase }.to_stream()
}

#[test]
fn tone_exact_first_block() {
    // 1 Hz at 8 samples per second: a quarter of the parabolic arch per sample.
    let (mut stream, _control) = tone(1, 0);
    let mut out = silent_block(4);
    let state = stream.process(8, &mut out);
    assert_eq!(state, GenState::Continue);
    assert_eq!(lefts(&out), vec![0, 805306368, 1073741824, 805306368]);
    for f in &out {
        assert_eq!(f.left, f.right);
    }
}

#[test]
fn tone_full_cycle_values() {
    let (mut stream, _control) = tone(1, 0);
    let mut out = silent_block(8);
    stream.process(8, &mut out);
    assert_eq!(
        lefts(&out),
        vec![
            0,
            805306368,
            1073741824,
            805306368,
            0,
            -805306368,
            -1073741824,
            -805306368
        ]
    );
}

#[test]
fn phase_continuity_two_blocks() {
    // Two blocks of 4 concatenate into exactly the single block of 8.
    let (mut split, _c1) = tone(1, 0);
    let mut first = silent_block(4);
    let mut second = silent_block(4);
    split.process(8, &mut first);
    split.process(8, &mut second);

    let (mut whole, _c2) = tone(1, 0);
    let mut all = silent_block(8);
    whole.process(8, &mut all);

    let mut joined = lefts(&first);
    joined.extend(lefts(&second));
    assert_eq!(joined, lefts(&all));
}

#[test]
fn phase_continuity_uneven_blocks() {
    let (mut split, _c1) = tone(3, 12345);
    let mut first = silent_block(3);
    let mut second = silent_block(5);
    split.process(8, &mut first);
    split.process(8, &mut second);

    let (mut whole, _c2) = tone(3, 12345);
    let mut all = silent_block(8);
    whole.process(8, &mut all);

    let mut joined = lefts(&first);
    joined.extend(lefts(&second));
    assert_eq!(joined, lefts(&all));
}

#[test]
fn update_latency_applies_at_next_block() {
    let (mut stream, control) = tone(1, 0);
    let mut block_k = silent_block(4);
    stream.process(8, &mut block_k);
    // The store lands between the two render calls.
    control.set_frequency(3);
    let mut block_k1 = silent_block(4);
    stream.process(8, &mut block_k1);

    // Block K is exactly what the old rate dictates.
    assert_eq!(lefts(&block_k), vec![0, 805306368, 1073741824, 805306368]);
    // Block K+1 runs at the new rate from its first sample, continuing from
    // the carried phase (half a cycle after 4 samples of 1 Hz at 8 Hz).
    assert_eq!(
        lefts(&block_k1),
        vec![0, -805306368, 1073741824, -805306368]
    );
}

#[test]
fn tone_never_finishes() {
    let (mut stream, _control) = tone(7, 0);
    for _ in 0..20 {
        let mut out = silent_block(5);
        assert_eq!(stream.process(44100, &mut out), GenState::Continue);
    }
}

#[test]
fn initial_phase_wraps_into_one_cycle() {
    // Frequency zero freezes the phase; a description phase one full cycle
    // plus five units lands on phase five.
    let (mut stream, _control) = tone(0, (1u64 << 32) + 5);
    let mut out = silent_block(3);
    stream.process(8, &mut out);
    // wave(5) = 5 * (2^31 - 5) / 2^30 = 9, on both channels.
    assert_eq!(lefts(&out), vec![9, 9, 9]);
    assert_eq!(out[0].right, 9);
}

#[test]
fn frequency_round_trip() {
    let (_stream, control) = tone(1, 0);
    assert_eq!(control.frequency(), 1);
    control.set_frequency(440);
    assert_eq!(control.frequency(), 440);
    control.set_frequency(0);
    assert_eq!(control.frequency(), 0);
}

#[test]
fn stale_control_store_is_harmless() {
    let (stream, control) = tone(5, 0);
    drop(stream);
    // The generator is gone; the handle stays valid and never faults.
    control.set_frequency(123);
    assert_eq!(control.frequency(), 123);
}

#[test]
fn tone_channel_counts() {
    let (stream, _control) = tone(1, 0);
    assert_eq!(stream.num_inputs(), 0);
    assert_eq!(stream.num_outputs(), 1);
}
