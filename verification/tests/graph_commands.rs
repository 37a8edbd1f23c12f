use synth_host::graph::{Outcome, RenderGraph, RequestKind, ResponseKind, UpdateKind};
use synth_host::midi::{Message, MessageKind};
use synth_host::node;
use synth_host::path::VirtualPaths;
use synth_host::preset_map::{Preset, PresetMap};

fn graph_with_kind(kind: &str) -> RenderGraph {
    let mut g = RenderGraph::new(VirtualPaths::default());
    g.register_node_kind(kind.to_string());
    g
}

fn add(g: &mut RenderGraph, kind: &str) -> Outcome {
    g.process_request(RequestKind::AddNode { kind: kind.to_string() })
}

#[test]
fn add_node_of_unregistered_kind_is_rejected() {
    // AddNode with an unregistered kind returns InvalidNodeKind and the
    // graph length is unchanged.
    let mut g = graph_with_kind("synth");
    let oc = add(&mut g, "X");
    assert_eq!(oc.response, Some(ResponseKind::InvalidNodeKind));
    assert_eq!(oc.update, None);
    assert_eq!(g.nodes.len(), 0);

    let oc = add(&mut g, "synth");
    assert_eq!(oc.response, Some(ResponseKind::Okay));
    assert_eq!(oc.update, Some(UpdateKind::AddNode { id: 0, kind: "synth".to_string() }));
    assert_eq!(g.nodes.len(), 1);
    assert_eq!(g.nodes[0].0, "synth");
}

#[test]
fn removed_id_answers_invalid_id() {
    // For a valid id, RemoveNode(id) followed by any request to a
    // now-invalid id returns InvalidId.
    let mut g = graph_with_kind("synth");
    add(&mut g, "synth");
    add(&mut g, "synth");
    assert_eq!(g.nodes.len(), 2);

    let oc = g.process_request(RequestKind::RemoveNode { id: 1 });
    assert_eq!(oc.response, Some(ResponseKind::Okay));
    assert_eq!(g.nodes.len(), 1);

    let oc = g.process_request(
        RequestKind::NodeRequest { id: 1, kind: node::RequestKind::SetEnabled(false) },
    );
    assert_eq!(oc.response, Some(ResponseKind::InvalidId));
    assert_eq!(g.nodes.len(), 1);
    assert!(g.nodes[0].1.enabled);
}

#[test]
fn add_then_clone_grows_by_two_with_equal_configuration() {
    // AddNode then CloneNode(new_id) yields a graph of length +2, and the
    // clone's configuration equals the original's, with the
    // resource-loaded fields starting empty.
    let mut g = graph_with_kind("synth");
    let before = g.nodes.len();
    add(&mut g, "synth");
    let new_id = g.nodes.len() - 1;
    g.process_request(
        RequestKind::NodeRequest { id: new_id, kind: node::RequestKind::SetTransposition(7) },
    );
    g.process_request(
        RequestKind::NodeRequest {
            id: new_id,
            kind: node::RequestKind::SetName("lead".to_string()),
        },
    );

    let oc = g.process_request(RequestKind::CloneNode { id: new_id });
    assert_eq!(oc.response, Some(ResponseKind::Okay));
    assert_eq!(g.nodes.len(), before + 2);

    let original = &g.nodes[new_id].1;
    let clone = &g.nodes[g.nodes.len() - 1].1;
    assert_eq!(clone.name, original.name);
    assert_eq!(clone.enabled, original.enabled);
    assert_eq!(clone.transposition, original.transposition);
    assert_eq!(clone.gain_milli, original.gain_milli);
    assert_eq!(clone.bank, original.bank);
    assert_eq!(clone.preset, original.preset);
    assert_eq!(clone.preset_map, None);
    assert!(!clone.has_engine);
    assert!(!clone.loading);
}

#[test]
fn clone_converges_after_equal_loads() {
    let mut g = graph_with_kind("synth");
    add(&mut g, "synth");
    g.process_request(RequestKind::CloneNode { id: 0 });

    let mut pm = PresetMap::new();
    pm.add_preset(0, 3, Preset::new("patch"));
    assert_eq!(g.finish_node_load(0, Some(pm.clone())), Some(node::ResponseKind::Okay));
    assert_eq!(g.finish_node_load(1, Some(pm)), Some(node::ResponseKind::Okay));

    assert_eq!(g.nodes[0].1.preset_map, g.nodes[1].1.preset_map);
    assert_eq!(g.nodes[0].1.bank, Some(0));
    assert_eq!(g.nodes[1].1.bank, Some(0));
    assert_eq!(g.nodes[0].1.preset, Some(3));
    assert_eq!(g.nodes[1].1.preset, Some(3));
    assert!(g.nodes[0].1.has_engine && g.nodes[1].1.has_engine);
}

#[test]
fn failed_load_leaves_the_node_loadable() {
    let mut g = graph_with_kind("synth");
    add(&mut g, "synth");
    assert_eq!(g.finish_node_load(0, None), Some(node::ResponseKind::Failed));
    assert!(!g.nodes[0].1.has_engine);
    // A load finishing for a node that has left the graph is discarded.
    assert_eq!(g.finish_node_load(7, None), None);
}

#[test]
fn move_node_reorders() {
    let mut g = graph_with_kind("synth");
    add(&mut g, "synth");
    add(&mut g, "synth");
    add(&mut g, "synth");
    g.process_request(
        RequestKind::NodeRequest { id: 0, kind: node::RequestKind::SetName("a".to_string()) },
    );
    g.process_request(
        RequestKind::NodeRequest { id: 1, kind: node::RequestKind::SetName("b".to_string()) },
    );
    g.process_request(
        RequestKind::NodeRequest { id: 2, kind: node::RequestKind::SetName("c".to_string()) },
    );

    let oc = g.process_request(RequestKind::MoveNode { id: 0, new_id: 2 });
    assert_eq!(oc.response, Some(ResponseKind::Okay));
    let names: Vec<&str> = g.nodes.iter().map(|s| s.1.name.as_str()).collect();
    assert_eq!(names, vec!["b", "c", "a"]);

    let oc = g.process_request(RequestKind::MoveNode { id: 3, new_id: 0 });
    assert_eq!(oc.response, Some(ResponseKind::InvalidId));
}

#[test]
fn node_request_is_wrapped_with_its_id() {
    let mut g = graph_with_kind("synth");
    add(&mut g, "synth");
    let oc = g.process_request(
        RequestKind::NodeRequest { id: 0, kind: node::RequestKind::SetGain(500) },
    );
    assert_eq!(
        oc.response,
        Some(ResponseKind::NodeResponse { id: 0, kind: node::ResponseKind::Okay })
    );
    assert_eq!(g.nodes[0].1.gain_milli, 500);
}

#[test]
fn midi_routing_applies_gates_and_transposition() {
    let mut g = graph_with_kind("synth");
    add(&mut g, "synth");
    add(&mut g, "synth");
    // Node 0 transposes up a semitone; node 1 is disabled.
    g.process_request(
        RequestKind::NodeRequest { id: 0, kind: node::RequestKind::SetTransposition(1) },
    );
    g.process_request(
        RequestKind::NodeRequest { id: 1, kind: node::RequestKind::SetEnabled(false) },
    );

    let on = Message { kind: MessageKind::NoteOn { note: 60, velocity: 100 }, channel: 0 };
    let events = g.route_midi_message(&on);
    assert_eq!(events.len(), 2);
    assert_eq!(
        events[0],
        Some(Message { kind: MessageKind::NoteOn { note: 61, velocity: 100 }, channel: 0 })
    );
    // A disabled node starts no new notes.
    assert_eq!(events[1], None);

    // But a note-off still reaches it, transposed by its own settings.
    let off = Message { kind: MessageKind::NoteOff { note: 60, velocity: 0 }, channel: 0 };
    let events = g.route_midi_message(&off);
    assert_eq!(
        events[1],
        Some(Message { kind: MessageKind::NoteOff { note: 60, velocity: 0 }, channel: 0 })
    );
}

#[test]
fn global_transposition_reaches_every_node() {
    let mut g = graph_with_kind("synth");
    add(&mut g, "synth");
    g.set_global_transposition(12);
    let on = Message { kind: MessageKind::NoteOn { note: 60, velocity: 100 }, channel: 0 };
    let events = g.route_midi_message(&on);
    assert_eq!(
        events[0],
        Some(Message { kind: MessageKind::NoteOn { note: 72, velocity: 100 }, channel: 0 })
    );

    // A node that opts out ignores the global value.
    g.process_request(
        RequestKind::NodeRequest {
            id: 0,
            kind: node::RequestKind::SetIgnoreGlobalTransposition(true),
        },
    );
    let events = g.route_midi_message(&on);
    assert_eq!(
        events[0],
        Some(Message { kind: MessageKind::NoteOn { note: 60, velocity: 100 }, channel: 0 })
    );
}

#[test]
fn filter_update_through_the_command_path() {
    let mut g = graph_with_kind("synth");
    add(&mut g, "synth");
    // Close note 60 on node 0.
    let oc = g.process_request(
        RequestKind::NodeRequest {
            id: 0,
            kind: node::RequestKind::UpdateMidiFilter(
                synth_host::midi_filter::UpdateKind::Note(60, false),
            ),
        },
    );
    assert_eq!(
        oc.response,
        Some(ResponseKind::NodeResponse { id: 0, kind: node::ResponseKind::Okay })
    );

    let on = Message { kind: MessageKind::NoteOn { note: 60, velocity: 100 }, channel: 0 };
    assert_eq!(g.route_midi_message(&on)[0], None);
    let other = Message { kind: MessageKind::NoteOn { note: 61, velocity: 100 }, channel: 0 };
    assert!(g.route_midi_message(&other)[0].is_some());

    // An out-of-range update fails and changes nothing.
    let oc = g.process_request(
        RequestKind::NodeRequest {
            id: 0,
            kind: node::RequestKind::UpdateMidiFilter(
                synth_host::midi_filter::UpdateKind::Note(128, false),
            ),
        },
    );
    assert_eq!(
        oc.response,
        Some(ResponseKind::NodeResponse { id: 0, kind: node::ResponseKind::Failed })
    );
}

#[test]
fn velocity_mapping_reshapes_note_ons() {
    let mut g = graph_with_kind("synth");
    add(&mut g, "synth");
    g.process_request(
        RequestKind::NodeRequest {
            id: 0,
            kind: node::RequestKind::SetVelocityMapping(
                synth_host::velocity_map::Kind::Linear { min: 0, max: 1 },
            ),
        },
    );
    let soft = Message { kind: MessageKind::NoteOn { note: 60, velocity: 60 }, channel: 0 };
    let hard = Message { kind: MessageKind::NoteOn { note: 60, velocity: 70 }, channel: 0 };
    assert_eq!(
        g.route_midi_message(&soft)[0],
        Some(Message { kind: MessageKind::NoteOn { note: 60, velocity: 0 }, channel: 0 })
    );
    assert_eq!(
        g.route_midi_message(&hard)[0],
        Some(Message { kind: MessageKind::NoteOn { note: 60, velocity: 1 }, channel: 0 })
    );
}
