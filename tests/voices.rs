use hacksynth::engine::{handle_event, retire, Action};
use hacksynth::midi::NoteEvent;
use hacksynth::params::{Filter, Oscillator, ParamError, ParameterStore, ADSR, MICRO};
use hacksynth::registry::{VoiceRegistry, VoiceState, MAX_VOICES};
use hacksynth::voice::{create_voice, velocity_gain};
use hacksynth::waveform::Waveform;

fn sine_store(release_us: u64) -> ParameterStore {
    let osc = Oscillator::new(Waveform::Sine, ADSR(0, 0, MICRO, release_us), 0);
    let filter = Filter { cutoff: 20_000 * MICRO, resonance: MICRO };
    ParameterStore::new(vec![osc], vec![filter]).unwrap()
}

fn two_slot_store() -> ParameterStore {
    let adsr = ADSR(110_000, 140_000, 470_000, 630_000);
    let oscs = vec![Oscillator::new(Waveform::Square, adsr, 0), Oscillator::new(Waveform::Sine, adsr, 0)];
    let filter = Filter { cutoff: 20_000 * MICRO, resonance: MICRO };
    ParameterStore::new(oscs, vec![filter, filter]).unwrap()
}

#[test]
fn gain_is_velocity_over_127_doubled() {
    let g = velocity_gain(100);
    assert_eq!((g.numerator, g.denominator), (200, 127));
    let g = velocity_gain(127);
    assert_eq!((g.numerator, g.denominator), (254, 127));
}

#[test]
fn zero_velocity_gives_zero_gain() {
    let g = velocity_gain(0);
    assert_eq!(g.numerator, 0);
    let store = sine_store(0);
    let v = create_voice(60, 0, &store);
    assert_eq!(v.gain().numerator, 0);
}

#[test]
fn scenario_a_note_on_builds_full_sine_voice() {
    let store = sine_store(0);
    let mut reg = VoiceRegistry::new();
    match handle_event(&mut reg, &store, NoteEvent::NoteOn { note: 60, velocity: 100 }) {
        Action::Start { id, voice } => {
            assert_eq!(id, 0);
            assert_eq!(voice.note(), 60);
            assert_eq!(voice.velocity(), 100);
            assert_eq!(voice.layers().len(), 1);
            let layer = voice.layers()[0];
            assert_eq!(layer.oscillator.waveform, Waveform::Sine);
            assert_eq!(layer.oscillator.adsr, ADSR(0, 0, MICRO, 0));
            assert_eq!(layer.oscillator.detune, 0);
            let g = voice.gain();
            assert_eq!((g.numerator, g.denominator), (200, 127));
        }
        _ => panic!("a note-on must start a voice"),
    }
    assert_eq!(reg.state_of(0), Some(VoiceState::Sustaining));
}

#[test]
fn scenario_b_note_off_releases_then_reclaims() {
    let store = sine_store(500_000);
    let mut reg = VoiceRegistry::new();
    handle_event(&mut reg, &store, NoteEvent::NoteOn { note: 60, velocity: 100 });
    match handle_event(&mut reg, &store, NoteEvent::NoteOff { note: 60, velocity: 0 }) {
        Action::Release { ids } => assert_eq!(ids, vec![0]),
        _ => panic!("a note-off must release"),
    }
    // still sounding its release, so nothing is reclaimed yet
    assert_eq!(reg.state_of(0), Some(VoiceState::Releasing));
    assert_eq!(retire(&mut reg, &[]), Vec::<u64>::new());
    assert_eq!(reg.live_count(), 1);
    // the envelope reports the end of the release
    assert_eq!(retire(&mut reg, &[0]), vec![0]);
    assert_eq!(reg.live_count(), 0);
    assert_eq!(reg.state_of(0), None);
}

#[test]
fn scenario_c_two_overlapping_notes() {
    let store = two_slot_store();
    let mut reg = VoiceRegistry::new();
    handle_event(&mut reg, &store, NoteEvent::NoteOn { note: 60, velocity: 100 });
    handle_event(&mut reg, &store, NoteEvent::NoteOn { note: 64, velocity: 90 });
    assert_eq!(reg.live_count(), 2);
    assert_eq!(reg.pending_len(), 2);
    let notes: Vec<u8> = reg.entries().iter().map(|e| e.note).collect();
    assert_eq!(notes, vec![60, 64]);
}

#[test]
fn scenario_d_detune_after_note_on_only_affects_next_voice() {
    let mut store = two_slot_store();
    let mut reg = VoiceRegistry::new();
    let first = match handle_event(&mut reg, &store, NoteEvent::NoteOn { note: 60, velocity: 100 }) {
        Action::Start { voice, .. } => voice,
        _ => panic!("a note-on must start a voice"),
    };
    assert_eq!(store.set_detune(0, 12_500_000), Ok(()));
    assert_eq!(first.layers()[0].oscillator.detune, 0);
    let second = match handle_event(&mut reg, &store, NoteEvent::NoteOn { note: 60, velocity: 100 }) {
        Action::Start { id, voice } => {
            assert_eq!(id, 1);
            voice
        }
        _ => panic!("a note-on must start a voice"),
    };
    assert_eq!(second.layers()[0].oscillator.detune, 12_500_000);
    assert_eq!(second.layers()[1], first.layers()[1]);
}

#[test]
fn release_all_twice_is_a_no_op_the_second_time() {
    let store = two_slot_store();
    let mut reg = VoiceRegistry::new();
    handle_event(&mut reg, &store, NoteEvent::NoteOn { note: 60, velocity: 100 });
    handle_event(&mut reg, &store, NoteEvent::NoteOn { note: 64, velocity: 100 });
    assert_eq!(reg.release_all(), vec![0, 1]);
    let states: Vec<VoiceState> = reg.entries().iter().map(|e| e.state).collect();
    assert_eq!(reg.release_all(), Vec::<u64>::new());
    let again: Vec<VoiceState> = reg.entries().iter().map(|e| e.state).collect();
    assert_eq!(states, again);
    assert_eq!(again, vec![VoiceState::Releasing, VoiceState::Releasing]);
    assert_eq!(reg.pending_len(), 0);
}

#[test]
fn note_off_releases_every_sustaining_voice_whatever_its_note() {
    let store = two_slot_store();
    let mut reg = VoiceRegistry::new();
    handle_event(&mut reg, &store, NoteEvent::NoteOn { note: 60, velocity: 100 });
    handle_event(&mut reg, &store, NoteEvent::NoteOn { note: 64, velocity: 100 });
    match handle_event(&mut reg, &store, NoteEvent::NoteOff { note: 72, velocity: 0 }) {
        Action::Release { ids } => assert_eq!(ids, vec![0, 1]),
        _ => panic!("a note-off must release"),
    }
    handle_event(&mut reg, &store, NoteEvent::NoteOn { note: 67, velocity: 100 });
    assert_eq!(reg.pending_len(), 1);
    assert_eq!(reg.release_all(), vec![2]);
}

#[test]
fn sustaining_voice_cannot_finish() {
    let mut reg = VoiceRegistry::new();
    reg.note_on(60, 100);
    assert!(!reg.finish(0));
    assert_eq!(reg.state_of(0), Some(VoiceState::Sustaining));
    assert_eq!(reg.reclaim(), Vec::<u64>::new());
    assert_eq!(reg.pending_len(), 1);
    reg.release_all();
    assert!(reg.finish(0));
    assert_eq!(reg.state_of(0), Some(VoiceState::Finished));
    assert!(!reg.finish(0));
    assert!(!reg.finish(7));
}

#[test]
fn reclaim_keeps_order_of_remaining_voices() {
    let mut reg = VoiceRegistry::new();
    reg.note_on(60, 100);
    reg.note_on(62, 100);
    reg.release_all();
    reg.note_on(64, 100);
    assert_eq!(retire(&mut reg, &[1, 2]), vec![1]);
    let ids: Vec<u64> = reg.entries().iter().map(|e| e.id).collect();
    assert_eq!(ids, vec![0, 2]);
    assert_eq!(reg.state_of(2), Some(VoiceState::Sustaining));
}

#[test]
fn other_events_are_ignored() {
    let store = sine_store(0);
    let mut reg = VoiceRegistry::new();
    assert!(matches!(handle_event(&mut reg, &store, NoteEvent::Other), Action::Ignore));
    assert_eq!(reg.live_count(), 0);
    match handle_event(&mut reg, &store, NoteEvent::NoteOff { note: 60, velocity: 0 }) {
        Action::Release { ids } => assert!(ids.is_empty()),
        _ => panic!("a note-off must release"),
    }
}

#[test]
fn ids_count_up_from_zero() {
    let mut reg = VoiceRegistry::new();
    assert_eq!(reg.note_on(60, 1), Some(0));
    assert_eq!(reg.note_on(61, 1), Some(1));
    assert_eq!(reg.note_on(62, 1), Some(2));
}

#[test]
fn store_rejects_mismatched_slots_and_zero_cutoff() {
    let osc = Oscillator::default();
    let good = Filter { cutoff: 1, resonance: 0 };
    let zero = Filter { cutoff: 0, resonance: 0 };
    assert_eq!(ParameterStore::new(vec![osc], vec![good, good]).err(), Some(ParamError::SlotCountMismatch));
    assert_eq!(ParameterStore::new(vec![osc, osc], vec![good, zero]).err(), Some(ParamError::ZeroCutoff));
    assert!(ParameterStore::new(vec![], vec![]).is_ok());
}

#[test]
fn store_setters_change_one_field_of_one_slot() {
    let mut store = two_slot_store();
    assert_eq!(store.set_waveform(1, Waveform::Sawtooth), Ok(()));
    assert_eq!(store.set_attack(1, 1), Ok(()));
    assert_eq!(store.set_decay(1, 2), Ok(()));
    assert_eq!(store.set_sustain(1, 3), Ok(()));
    assert_eq!(store.set_release(1, 4), Ok(()));
    assert_eq!(store.set_resonance(0, 5), Ok(()));
    assert_eq!(store.set_cutoff(0, 6), Ok(()));
    let o = store.oscillator(1).unwrap();
    assert_eq!(o, Oscillator::new(Waveform::Sawtooth, ADSR(1, 2, 3, 4), 0));
    assert_eq!(store.oscillator(0).unwrap().waveform, Waveform::Square);
    assert_eq!(store.filter(0), Some(Filter { cutoff: 6, resonance: 5 }));
    assert_eq!(store.filter(1), Some(Filter { cutoff: 20_000 * MICRO, resonance: MICRO }));
}

#[test]
fn store_setters_refuse_bad_writes() {
    let mut store = two_slot_store();
    assert_eq!(store.set_detune(2, 1), Err(ParamError::NoSuchSlot));
    assert_eq!(store.set_waveform(9, Waveform::Sine), Err(ParamError::NoSuchSlot));
    assert_eq!(store.set_resonance(2, 1), Err(ParamError::NoSuchSlot));
    assert_eq!(store.set_cutoff(2, 1), Err(ParamError::NoSuchSlot));
    assert_eq!(store.set_cutoff(0, 0), Err(ParamError::ZeroCutoff));
    assert_eq!(store.filter(0), Some(Filter { cutoff: 20_000 * MICRO, resonance: MICRO }));
    assert_eq!(store.oscillator(2), None);
    assert_eq!(store.filter(2), None);
    assert_eq!(store.slot_count(), 2);
}

#[test]
fn store_layers_pair_each_oscillator_with_its_filter() {
    let store = two_slot_store();
    let layers = store.layers();
    assert_eq!(layers.len(), 2);
    assert_eq!(layers[0].oscillator.waveform, Waveform::Square);
    assert_eq!(layers[1].oscillator.waveform, Waveform::Sine);
    assert_eq!(layers[1].filter, store.filter(1).unwrap());
}

#[test]
fn oscillator_default_values() {
    let o = Oscillator::default();
    assert_eq!(o.waveform, Waveform::Sine);
    assert_eq!(o.adsr, ADSR(100_000, 200_000, 400_000, 0));
    assert_eq!(o.detune, 0);
}

#[test]
fn waveform_labels_and_order() {
    let names: Vec<&str> = Waveform::ALL.iter().map(|w| w.label()).collect();
    assert_eq!(names, vec!["Sine", "Triangle", "Sawtooth", "Square"]);
    assert_eq!(Waveform::default(), Waveform::Sine);
}

#[test]
fn note_on_beyond_the_voice_limit_is_not_played() {
    let store = two_slot_store();
    let mut reg = VoiceRegistry::new();
    for i in 0..MAX_VOICES {
        assert_eq!(reg.note_on(60, 100), Some(i as u64));
    }
    assert_eq!(reg.note_on(61, 100), None);
    assert!(matches!(
        handle_event(&mut reg, &store, NoteEvent::NoteOn { note: 62, velocity: 100 }),
        Action::Ignore
    ));
    assert_eq!(reg.live_count(), MAX_VOICES);
    // once a voice has been reclaimed there is room again
    reg.release_all();
    reg.finish(0);
    assert_eq!(reg.reclaim(), vec![0]);
    assert_eq!(reg.note_on(63, 100), Some(MAX_VOICES as u64));
}
