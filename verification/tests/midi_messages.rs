use synth_host::midi::{ControlChangeKind, Message, MessageKind};

#[test]
fn decode_note_on() {
    let msg = Message::decode(&[0x91, 60, 100]).unwrap();
    assert_eq!(msg.channel, 1);
    assert_eq!(msg.kind, MessageKind::NoteOn { note: 60, velocity: 100 });
}

#[test]
fn decode_note_off() {
    let msg = Message::decode(&[0x83, 61, 10]).unwrap();
    assert_eq!(msg.channel, 3);
    assert_eq!(msg.kind, MessageKind::NoteOff { note: 61, velocity: 10 });
}

#[test]
fn zero_velocity_note_on_is_note_off() {
    // A note-on with velocity zero must be treated exactly like an
    // explicit note-off by everything downstream of the decoder.
    let on_zero = Message::decode(&[0x90, 60, 0]).unwrap();
    let off = Message::decode(&[0x80, 60, 0]).unwrap();
    assert_eq!(on_zero, off);
    assert_eq!(on_zero.kind, MessageKind::NoteOff { note: 60, velocity: 0 });
}

#[test]
fn decode_control_change() {
    let msg = Message::decode(&[0xB0, 7, 99]).unwrap();
    assert_eq!(
        msg.kind,
        MessageKind::ControlChange { kind: ControlChangeKind::ChannelVolumeMsb, value: 99 }
    );
}

#[test]
fn decode_program_change() {
    let msg = Message::decode(&[0xC2, 42]).unwrap();
    assert_eq!(msg.channel, 2);
    assert_eq!(msg.kind, MessageKind::ProgramChange { program: 42 });
}

#[test]
fn decode_channel_aftertouch() {
    let msg = Message::decode(&[0xD0, 77]).unwrap();
    assert_eq!(msg.kind, MessageKind::ChannelAftertouch { pressure: 77 });
}

#[test]
fn decode_polyphonic_aftertouch() {
    let msg = Message::decode(&[0xA5, 64, 33]).unwrap();
    assert_eq!(msg.channel, 5);
    assert_eq!(msg.kind, MessageKind::PolyphonicAftertouch { note: 64, pressure: 33 });
}

#[test]
fn decode_pitch_wheel() {
    // 14-bit value: low 7 bits then high 7 bits.
    let msg = Message::decode(&[0xE0, 0x00, 0x40]).unwrap();
    assert_eq!(msg.kind, MessageKind::PitchWheel { value: 8192 });
    let msg = Message::decode(&[0xE0, 0x7F, 0x7F]).unwrap();
    assert_eq!(msg.kind, MessageKind::PitchWheel { value: 16383 });
}

#[test]
fn decode_malformed_is_dropped() {
    assert_eq!(Message::decode(&[]), None);
    assert_eq!(Message::decode(&[0x90, 60]), None);
    assert_eq!(Message::decode(&[0x70, 60, 100]), None);
    // An unrecognized controller number drops the whole message.
    assert_eq!(Message::decode(&[0xB0, 128, 1]), None);
}

#[test]
fn control_change_numbers_round_trip() {
    for n in 0u8..=127 {
        let kind = ControlChangeKind::from_number(n).unwrap();
        assert_eq!(kind.as_number(), n);
    }
    assert_eq!(ControlChangeKind::from_number(128), None);
    assert_eq!(ControlChangeKind::from_number(255), None);
}

#[test]
fn message_kind_status_numbers() {
    assert_eq!(MessageKind::NoteOff { note: 0, velocity: 0 }.as_number(), 0x80);
    assert_eq!(MessageKind::NoteOn { note: 0, velocity: 1 }.as_number(), 0x90);
    assert_eq!(MessageKind::PitchWheel { value: 0 }.as_number(), 0xE0);
}

#[test]
fn pitch_wheel_signed() {
    assert_eq!(Message::get_pitch_wheel_signed(8192), 0);
    assert_eq!(Message::get_pitch_wheel_signed(0), -8192);
    assert_eq!(Message::get_pitch_wheel_signed(16383), 8191);
}

#[test]
fn validity_check() {
    assert!(Message::decode(&[0x90, 60, 100]).unwrap().is_valid());
    let bad = Message { kind: MessageKind::NoteOn { note: 200, velocity: 1 }, channel: 0 };
    assert!(!bad.is_valid());
}
