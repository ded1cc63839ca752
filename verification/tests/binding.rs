use audio_bridge::sine::{SineWave, SineWaveControl};
use audio_bridge::source::{AudioSource, AudioSourceControl};
use audio_bridge::{play_audio, Audio, AudioGraph, AudioId};

fn request(frequency_hz: u32) -> Audio<SineWave> {
    Audio::new(SineWave { frequency_hz, phase: 0 })
}

#[test]
fn attach_assigns_fresh_distinct_ids() {
    let audios = vec![request(1), request(2)];
    let mut ids: Vec<Option<AudioId>> = vec![None, None];
    let mut controls: Vec<Option<SineWaveControl>> = vec![None, None];
    let mut graph = AudioGraph::default();
    play_audio(&audios, &mut ids, &mut controls, &mut graph);
    assert_eq!(ids, vec![Some(AudioId(0)), Some(AudioId(1))]);
    assert!(controls[0].is_some());
    assert!(controls[1].is_some());
}

#[test]
fn attach_pass_is_idempotent() {
    let mut audios = vec![request(1), request(2)];
    let mut ids: Vec<Option<AudioId>> = vec![None, None];
    let mut controls: Vec<Option<SineWaveControl>> = vec![None, None];
    let mut graph = AudioGraph::default();
    play_audio(&audios, &mut ids, &mut controls, &mut graph);
    // Running the pass again must not re-attach anything.
    play_audio(&audios, &mut ids, &mut controls, &mut graph);
    assert_eq!(ids, vec![Some(AudioId(0)), Some(AudioId(1))]);

    // A request arriving later still receives the next identity: the second
    // pass issued none.
    audios.push(request(3));
    ids.push(None);
    controls.push(None);
    play_audio(&audios, &mut ids, &mut controls, &mut graph);
    assert_eq!(ids[2], Some(AudioId(2)));
}

#[test]
fn attach_skips_already_attached_requests() {
    let audios = vec![request(1), request(2)];
    let mut ids: Vec<Option<AudioId>> = vec![Some(AudioId(7)), None];
    let mut controls: Vec<Option<SineWaveControl>> = vec![None, None];
    let mut graph = AudioGraph::default();
    play_audio(&audios, &mut ids, &mut controls, &mut graph);
    assert_eq!(ids, vec![Some(AudioId(7)), Some(AudioId(0))]);
    // The already-attached request's control slot is left untouched.
    assert!(controls[0].is_none());
    assert!(controls[1].is_some());
}

#[test]
fn recorded_control_drives_the_generator_cell() {
    let audios = vec![request(440)];
    let mut ids: Vec<Option<AudioId>> = vec![None];
    let mut controls: Vec<Option<SineWaveControl>> = vec![None];
    let mut graph = AudioGraph::default();
    play_audio(&audios, &mut ids, &mut controls, &mut graph);
    let control = controls[0].take().unwrap();
    assert_eq!(control.frequency(), 440);
    control.set_frequency(220);
    assert_eq!(control.frequency(), 220);
}

#[test]
fn attach_playback_requests() {
    let source = AudioSource::from_mono(&vec![1, 2, 3]);
    let audios = vec![Audio::new(source)];
    let mut ids: Vec<Option<AudioId>> = vec![None];
    let mut controls: Vec<Option<AudioSourceControl>> = vec![None];
    let mut graph = AudioGraph::default();
    play_audio(&audios, &mut ids, &mut controls, &mut graph);
    assert_eq!(ids, vec![Some(AudioId(0))]);
    assert!(controls[0].is_some());
}
