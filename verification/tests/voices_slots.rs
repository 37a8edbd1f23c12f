use synth_host::voices::{decimate_slots, interpolate_slots, Error, Voice, Voices};

fn voice_with_slots(slots: Vec<bool>) -> Voice {
    Voice {
        name: String::new(),
        instrument_index: None,
        channel: 9,
        note: 0,
        velocity: 127,
        slots,
    }
}

#[test]
fn interpolate_decimate_slots() {
    let mut voice = voice_with_slots(vec![true, false, true, true]);
    interpolate_slots(&mut voice, 2);
    assert_eq!(
        voice.slots,
        vec![true, false, false, false, true, false, true, false]
    );
    decimate_slots(&mut voice, 2);
    assert_eq!(voice.slots, vec![true, false, true, true]);
}

#[test]
fn reindex_slots() {
    let mut voices = Voices::default();
    voices.add_voice();
    voices.add_voice();
    voices.add_voice();
    voices.set_voice_instrument(0, Some(0)).unwrap();
    voices.set_voice_instrument(1, Some(1)).unwrap();
    voices.set_voice_instrument(2, Some(2)).unwrap();

    voices.reindex_instruments(1);
    assert_eq!(voices.voices()[0].instrument_index, Some(0));
    assert_eq!(voices.voices()[1].instrument_index, None);
    assert_eq!(voices.voices()[2].instrument_index, Some(1));
}

#[test]
fn resize_round_trip_restores_patterns() {
    // 4x4 slots -> 8x4 (interleave x2) -> 4x4 (decimate /2) restores the
    // original pattern of every voice.
    let mut voices = Voices::default();
    voices.set_num_slots(16);
    voices.add_voice();
    for i in [0usize, 3, 7, 10, 15] {
        voices.set_slot(0, i, true).unwrap();
    }
    let original = voices.voices()[0].slots().clone();

    voices.set_num_slots(32);
    assert_eq!(voices.voices()[0].slots().len(), 32);
    for i in 0..16 {
        assert_eq!(voices.voices()[0].slots()[2 * i], original[i]);
        assert!(!voices.voices()[0].slots()[2 * i + 1]);
    }

    voices.set_num_slots(16);
    assert_eq!(voices.voices()[0].slots(), &original);
}

#[test]
fn non_multiple_resize_pads_and_cuts() {
    let mut voices = Voices::default();
    voices.set_num_slots(4);
    voices.add_voice();
    voices.set_slot(0, 3, true).unwrap();
    // 4 -> 7 is no multiple: slots are appended at the end.
    voices.set_num_slots(7);
    assert_eq!(
        voices.voices()[0].slots(),
        &vec![false, false, false, true, false, false, false]
    );
    // 7 -> 5 is no divisor: slots are cut at the end.
    voices.set_num_slots(5);
    assert_eq!(voices.voices()[0].slots(), &vec![false, false, false, true, false]);
}

#[test]
fn voice_index_errors() {
    let mut voices = Voices::default();
    voices.set_num_slots(4);
    voices.add_voice();
    assert_eq!(voices.remove_voice(1), Err(Error::InvalidVoiceIndex));
    assert_eq!(voices.set_voice_note(2, 60), Err(Error::InvalidVoiceIndex));
    assert_eq!(voices.set_slot(0, 4, true), Err(Error::InvalidSlotIndex));
    assert_eq!(voices.set_slot(0, 3, true), Ok(()));
}

#[test]
fn add_voice_defaults() {
    let mut voices = Voices::default();
    voices.set_num_slots(8);
    voices.add_voice();
    let v = &voices.voices()[0];
    assert_eq!(v.name, "");
    assert_eq!(v.instrument_index, None);
    assert_eq!(v.channel, 9);
    assert_eq!(v.note, 0);
    assert_eq!(v.velocity, 127);
    assert_eq!(v.slots(), &vec![false; 8]);
}

#[test]
fn set_all_to_silence_detaches_instruments() {
    let mut voices = Voices::default();
    voices.add_voice();
    voices.add_voice();
    voices.set_voice_instrument(0, Some(4)).unwrap();
    voices.set_voice_instrument(1, Some(5)).unwrap();
    voices.set_all_to_silence();
    assert_eq!(voices.voices()[0].instrument_index, None);
    assert_eq!(voices.voices()[1].instrument_index, None);
}
