use synth_host::graph::{RenderGraph, RequestKind as GraphRequest};
use synth_host::midi::MessageKind;
use synth_host::path::VirtualPaths;
use synth_host::rhythm::Rhythm;
use synth_host::sequencer::{RequestKind, ResponseKind, Sequencer};

#[test]
fn hits_fire_on_set_slots_only() {
    let mut seq = Sequencer::new();
    seq.process_request(RequestKind::SetRhythm(Rhythm { num_beats: 2, num_divs: 2 }), 0);
    seq.process_request(RequestKind::SetTempoBpm(60), 0);
    seq.process_request(RequestKind::AddVoice, 0);
    seq.process_request(RequestKind::SetVoiceInstrument(0, Some(0)), 0);
    seq.process_request(RequestKind::SetVoiceNote(0, 36), 0);
    seq.process_request(RequestKind::SetVoiceVelocity(0, 100), 0);
    // Only slot 0 (beat 0, div 0) is set.
    assert_eq!(seq.process_request(RequestKind::SetSlot(0, 0, true), 0), ResponseKind::Okay);
    seq.process_request(RequestKind::SetEnabled(true), 0);

    // First fire lands on (0, 0): one hit as a note-on / note-off pair.
    let hits = seq.tick(0);
    assert_eq!(hits.len(), 2);
    assert_eq!(hits[0].instrument_id, 0);
    assert_eq!(hits[0].midi_msg.kind, MessageKind::NoteOn { note: 36, velocity: 100 });
    assert_eq!(hits[1].midi_msg.kind, MessageKind::NoteOn { note: 36, velocity: 0 });

    // The next position (0, 1) holds no set slot: no hits.
    let hits = seq.tick(500_000);
    assert_eq!(hits.len(), 0);
}

#[test]
fn silent_voices_emit_nothing() {
    let mut seq = Sequencer::new();
    seq.process_request(RequestKind::SetRhythm(Rhythm { num_beats: 1, num_divs: 1 }), 0);
    seq.process_request(RequestKind::AddVoice, 0);
    // The slot is set, but the voice has no target node.
    seq.process_request(RequestKind::SetSlot(0, 0, true), 0);
    seq.process_request(RequestKind::SetEnabled(true), 0);
    assert_eq!(seq.tick(0).len(), 0);
}

#[test]
fn zero_rhythm_and_zero_tempo_are_rejected() {
    let mut seq = Sequencer::new();
    assert_eq!(
        seq.process_request(RequestKind::SetRhythm(Rhythm { num_beats: 0, num_divs: 4 }), 0),
        ResponseKind::Failed
    );
    assert_eq!(seq.process_request(RequestKind::SetTempoBpm(0), 0), ResponseKind::Failed);
}

#[test]
fn rhythm_change_resizes_every_voice() {
    let mut seq = Sequencer::new();
    seq.process_request(RequestKind::SetRhythm(Rhythm { num_beats: 4, num_divs: 4 }), 0);
    seq.process_request(RequestKind::AddVoice, 0);
    assert_eq!(seq.voices.voices[0].slots().len(), 16);
    seq.process_request(RequestKind::SetRhythm(Rhythm { num_beats: 8, num_divs: 4 }), 0);
    assert_eq!(seq.voices.voices[0].slots().len(), 32);
}

#[test]
fn scheduler_hits_reach_nodes_like_midi() {
    // A zero-velocity note-on from the scheduler must arrive at the node
    // as a note-off, exactly as the byte decoder would treat it.
    let mut g = RenderGraph::new(VirtualPaths::default());
    g.register_node_kind("synth".to_string());
    g.process_request(GraphRequest::AddNode { kind: "synth".to_string() });

    let mut seq = Sequencer::new();
    seq.process_request(RequestKind::SetRhythm(Rhythm { num_beats: 1, num_divs: 1 }), 0);
    seq.process_request(RequestKind::AddVoice, 0);
    seq.process_request(RequestKind::SetVoiceInstrument(0, Some(0)), 0);
    seq.process_request(RequestKind::SetVoiceNote(0, 40), 0);
    seq.process_request(RequestKind::SetVoiceChannel(0, 9), 0);
    seq.process_request(RequestKind::SetSlot(0, 0, true), 0);
    seq.process_request(RequestKind::SetEnabled(true), 0);

    let hits = seq.tick(0);
    assert_eq!(hits.len(), 2);
    let first = g.route_control_message(&hits[0]).unwrap().unwrap();
    assert_eq!(first.kind, MessageKind::NoteOn { note: 40, velocity: 127 });
    let second = g.route_control_message(&hits[1]).unwrap().unwrap();
    assert_eq!(second.kind, MessageKind::NoteOff { note: 40, velocity: 0 });

    // A hit whose target node has gone is dropped.
    let mut stray = hits[0];
    stray.instrument_id = 9;
    assert_eq!(g.route_control_message(&stray), None);
}

#[test]
fn remove_voice_and_clear() {
    let mut seq = Sequencer::new();
    seq.process_request(RequestKind::AddVoice, 0);
    seq.process_request(RequestKind::AddVoice, 0);
    assert_eq!(seq.process_request(RequestKind::RemoveVoice(5), 0), ResponseKind::Failed);
    assert_eq!(seq.process_request(RequestKind::RemoveVoice(0), 0), ResponseKind::Okay);
    assert_eq!(seq.voices.voices.len(), 1);
    assert_eq!(seq.process_request(RequestKind::ClearVoices, 0), ResponseKind::Okay);
    assert_eq!(seq.voices.voices.len(), 0);
}
