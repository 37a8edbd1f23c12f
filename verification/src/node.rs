//! One synthesis node of the render graph: its display name, gates,
//! transposition and velocity policy, preset bookkeeping, sequencer voices,
//! and the state of its engine slot.
//!
//! The engine itself (the DSP that turns events into samples) is an outside
//! collaborator: this type records whether one is installed and what state
//! to re-apply when a background load completes. Gain is held in
//! thousandths, so unity gain is `1000`.

use crate::midi::{Message, MessageKind};
use crate::midi_filter;
use crate::midi_filter::MidiFilter;
use crate::path::VirtualPaths;
use crate::preset_map::{resolve_preset, spec_first_or_none, spec_has_preset, PresetMap};
use crate::rhythm::Rhythm;
use crate::util::repeat_bool;
use crate::velocity_map;
use crate::voices;
use crate::voices::{VoiceView, Voices};
use vstd::prelude::*;

verus! {

pub const NUM_USER_PRESETS: usize = 16;

/// Unity gain in thousandths.
pub const UNITY_GAIN_MILLI: u32 = 1000;

/// One typed command addressed to a node.
#[derive(Debug, Clone, PartialEq)]
pub enum RequestKind {
    SetName(String),
    SetEnabled(bool),
    LoadFile(Vec<String>),
    SetGain(u32),
    SetTransposition(i8),
    SetVelocityMapping(velocity_map::Kind),
    SetIgnoreGlobalTransposition(bool),
    SetBankAndPreset(u16, u8),
    UpdateMidiFilter(midi_filter::UpdateKind),
    SetUserPreset(usize),
    SetUserPresetEnabled(usize, bool),
    AddVoice,
    RemoveVoice(usize),
    ClearVoices,
    SetVoiceName(usize, String),
    SetVoiceInstrument(usize, Option<usize>),
    SetVoiceNote(usize, u8),
    SetVoiceVelocity(usize, u8),
    SetVoiceChannel(usize, u8),
    SetSlot(usize, usize, bool),
}

/// The typed result a node hands back for one request.
#[derive(Debug, Clone, Copy, PartialEq, Eq, Structural)]
pub enum ResponseKind {
    InvalidId,
    Denied,
    Failed,
    Okay,
}

/// What processing one request decided: an immediate response, or a
/// resource load the I/O layer must run, whose requester is answered when
/// [`Node::finish_load`] is called with the outcome.
#[derive(Debug, Clone, PartialEq)]
pub enum Reply {
    Done(ResponseKind),
    LoadStarted(Vec<String>),
}

#[derive(Debug, Clone, PartialEq)]
pub struct Node {
    pub name: String,
    pub enabled: bool,
    pub midi_filter: MidiFilter,
    pub gain_milli: u32,
    pub transposition: i8,
    pub global_transposition: i8,
    pub velocity_mapping: velocity_map::Kind,
    pub ignore_global_transposition: bool,
    pub virtual_paths: VirtualPaths,
    pub sample_rate: Option<u32>,
    pub last_file: Option<Vec<String>>,
    pub bank: Option<u16>,
    pub preset: Option<u8>,
    pub preset_map: Option<PresetMap>,
    pub user_presets: Vec<bool>,
    pub has_engine: bool,
    pub loading: bool,
    pub voices: Voices,
}

/// `a` and `b` agree on everything but the MIDI filter.
pub open spec fn spec_eq_except_filter(a: Node, b: Node) -> bool {
    a == (Node { midi_filter: a.midi_filter, ..b })
}

/// `a` and `b` agree on everything but the user preset flags.
pub open spec fn spec_eq_except_user_presets(a: Node, b: Node) -> bool {
    a == (Node { user_presets: a.user_presets, ..b })
}

/// `a` and `b` agree on everything but the sequencer voices.
pub open spec fn spec_eq_except_voices_field(a: Node, b: Node) -> bool {
    a == (Node { voices: a.voices, ..b })
}

/// The combined transposition applied to a note: the node's own, plus the
/// global one unless the node opts out, saturated to the `i8` range.
pub open spec fn spec_total_transposition(n: Node) -> int {
    if n.ignore_global_transposition {
        n.transposition as int
    } else {
        let sum = n.transposition + n.global_transposition;
        if sum > 127 {
            127
        } else if sum < -128 {
            -128
        } else {
            sum
        }
    }
}

/// A note after transposition: shifted by `total` and wrapped into the
/// eight-bit note range (out-of-range results wrap rather than clamp).
pub open spec fn spec_transpose(note: u8, total: int) -> u8 {
    (((note + total) % 256 + 256) % 256) as u8
}

/// The event the engine receives for `msg`, after transposition and
/// velocity mapping; the channel passes through.
pub open spec fn spec_engine_event(n: Node, msg: Message) -> Message {
    let total = spec_total_transposition(n);
    let kind = match msg.kind {
        MessageKind::NoteOn { note, velocity } => MessageKind::NoteOn {
            note: spec_transpose(note, total),
            velocity: velocity_map::spec_map(n.velocity_mapping, velocity) as u8,
        },
        MessageKind::NoteOff { note, velocity } => MessageKind::NoteOff {
            note: spec_transpose(note, total),
            velocity,
        },
        MessageKind::PolyphonicAftertouch { note, pressure } => MessageKind::PolyphonicAftertouch {
            note: spec_transpose(note, total),
            pressure,
        },
        _ => msg.kind,
    };
    Message { kind, channel: msg.channel }
}

/// Whether the node forwards `msg` at all: the MIDI filter must pass it,
/// and a disabled node starts no new notes (but still releases old ones).
pub open spec fn spec_node_accepts(n: Node, msg: Message) -> bool {
    &&& midi_filter::spec_passes(n.midi_filter@, msg)
    &&& (msg.kind is NoteOn ==> n.enabled)
}

/// What the engine receives when `msg` arrives at the node: the reshaped
/// event, or nothing where the node gates it out.
pub open spec fn spec_deliver(n: Node, msg: Message) -> Option<Message> {
    if spec_node_accepts(n, msg) {
        Some(spec_engine_event(n, msg))
    } else {
        None
    }
}

/// Two path tables that spell the same mappings.
pub open spec fn spec_same_virtual_paths(a: VirtualPaths, b: VirtualPaths) -> bool {
    &&& a.paths@.len() == b.paths@.len()
    &&& forall|i: int|
        0 <= i < a.paths@.len() ==> (#[trigger] a.paths@[i]).0.deep_view()
            == b.paths@[i].0.deep_view() && a.paths@[i].1.deep_view() == b.paths@[i].1.deep_view()
}

/// Two optional paths that spell the same components.
pub open spec fn spec_same_opt_path(a: Option<Vec<String>>, b: Option<Vec<String>>) -> bool {
    match (a, b) {
        (Some(pa), Some(pb)) => pa.deep_view() == pb.deep_view(),
        (None, None) => true,
        _ => false,
    }
}

/// The clone's configuration equals the original's, while the fields a
/// background resource load fills start empty.
pub open spec fn spec_clone_of(orig: Node, clone: Node) -> bool {
    &&& clone.name@ == orig.name@
    &&& clone.enabled == orig.enabled
    &&& clone.midi_filter@ == orig.midi_filter@
    &&& clone.gain_milli == orig.gain_milli
    &&& clone.transposition == orig.transposition
    &&& clone.global_transposition == orig.global_transposition
    &&& clone.velocity_mapping == orig.velocity_mapping
    &&& clone.ignore_global_transposition == orig.ignore_global_transposition
    &&& spec_same_virtual_paths(clone.virtual_paths, orig.virtual_paths)
    &&& clone.sample_rate == orig.sample_rate
    &&& spec_same_opt_path(clone.last_file, orig.last_file)
    &&& clone.bank == orig.bank
    &&& clone.preset == orig.preset
    &&& clone.user_presets@ == orig.user_presets@
    &&& clone.voices.num_slots == orig.voices.num_slots
    &&& clone.voices.voices@.len() == orig.voices.voices@.len()
    &&& forall|i: int|
        0 <= i < orig.voices.voices@.len() ==> (#[trigger] clone.voices.voices@[i])@
            == orig.voices.voices@[i]@
    &&& clone.preset_map is None
    &&& !clone.has_engine
    &&& !clone.loading
}

impl Node {
    /// Flag arrays have their fixed sizes, policies are internally
    /// consistent, and any preset directory is well formed.
    pub open spec fn wf(&self) -> bool {
        &&& self.midi_filter.wf()
        &&& self.velocity_mapping.wf()
        &&& self.user_presets@.len() == NUM_USER_PRESETS
        &&& self.voices.wf()
        &&& match self.preset_map {
            Some(pm) => pm.wf(),
            None => true,
        }
        &&& self.virtual_paths.wf()
    }

    /// A fresh node: enabled, unity gain, no transposition, identity
    /// velocity mapping, an everything-passes filter, no engine and no
    /// voices.
    pub fn new(name: String) -> (r: Node)
        ensures
            r.wf(),
            r.name == name,
            r.enabled,
            midi_filter::spec_default(r.midi_filter@),
            r.gain_milli == UNITY_GAIN_MILLI,
            r.transposition == 0,
            r.global_transposition == 0,
            r.velocity_mapping is Identity,
            !r.ignore_global_transposition,
            r.sample_rate is None,
            r.last_file is None,
            r.bank is None,
            r.preset is None,
            r.preset_map is None,
            !r.has_engine,
            !r.loading,
            r.voices.voices@.len() == 0,
            forall|i: int| 0 <= i < NUM_USER_PRESETS ==> r.user_presets@[i],
    {
        Node {
            name,
            enabled: true,
            midi_filter: Default::default(),
            gain_milli: UNITY_GAIN_MILLI,
            transposition: 0,
            global_transposition: 0,
            velocity_mapping: velocity_map::Kind::Identity,
            ignore_global_transposition: false,
            virtual_paths: VirtualPaths { paths: Vec::new() },
            sample_rate: None,
            last_file: None,
            bank: None,
            preset: None,
            preset_map: None,
            user_presets: repeat_bool(true, NUM_USER_PRESETS),
            has_engine: false,
            loading: false,
            voices: Voices { num_slots: 0, voices: Vec::new() },
        }
    }

    pub fn set_sample_rate(&mut self, sample_rate: u32)
        requires
            old(self).wf(),
        ensures
            final(self).wf(),
            *final(self) == (Node { sample_rate: Some(sample_rate), ..*old(self) }),
    {
        self.sample_rate = Some(sample_rate);
    }

    pub fn set_global_transposition(&mut self, transposition: i8)
        requires
            old(self).wf(),
        ensures
            final(self).wf(),
            *final(self) == (Node { global_transposition: transposition, ..*old(self) }),
    {
        self.global_transposition = transposition;
    }

    pub fn set_virtual_paths(&mut self, vp: VirtualPaths)
        requires
            old(self).wf(),
            vp.wf(),
        ensures
            final(self).wf(),
            *final(self) == (Node { virtual_paths: vp, ..*old(self) }),
    {
        self.virtual_paths = vp;
    }

    pub fn set_rhythm(&mut self, rhythm: Rhythm)
        requires
            old(self).wf(),
        ensures
            final(self).wf(),
            spec_eq_except_voices_field(*final(self), *old(self)),
            final(self).voices.num_slots == rhythm.spec_num_slots(),
            final(self).voices.voices@.len() == old(self).voices.voices@.len(),
            forall|i: int|
                0 <= i < old(self).voices.voices@.len() ==> final(self).voices.voices@[i]@
                    == (VoiceView {
                    slots: voices::spec_resize_slots(
                        old(self).voices.voices@[i]@.slots,
                        rhythm.spec_num_slots(),
                    ),
                    ..old(self).voices.voices@[i]@
                }),
    {
        let n = rhythm.num_slots();
        self.voices.set_num_slots(n);
    }

    /// The engine-bound event for one incoming MIDI message, or `None`
    /// where the filter (or the disabled state, for note-ons) gates it.
    pub fn receive_midi_message(&self, message: &Message) -> (r: Option<Message>)
        requires
            self.wf(),
            crate::midi::spec_message_valid(*message),
        ensures
            r == spec_deliver(*self, *message),
    {
        if !self.midi_filter.does_pass(message) {
            return None;
        }
        match message.kind {
            MessageKind::NoteOn { .. } => {
                if !self.enabled {
                    return None;
                }
            },
            _ => {},
        }
        Some(self.engine_event(message))
    }

    /// Apply transposition and velocity mapping to one accepted message.
    fn engine_event(&self, message: &Message) -> (r: Message)
        requires
            self.wf(),
            crate::midi::spec_message_valid(*message),
        ensures
            r == spec_engine_event(*self, *message),
    {
        let kind = match message.kind {
            MessageKind::NoteOn { note, velocity } => MessageKind::NoteOn {
                note: self.transpose_note(note),
                velocity: velocity_map::map(self.velocity_mapping, velocity),
            },
            MessageKind::NoteOff { note, velocity } => MessageKind::NoteOff {
                note: self.transpose_note(note),
                velocity,
            },
            MessageKind::PolyphonicAftertouch { note, pressure } => {
                MessageKind::PolyphonicAftertouch { note: self.transpose_note(note), pressure }
            },
            other => other,
        };
        Message { kind, channel: message.channel }
    }

    /// The note's combined transposition, saturated to the `i8` range.
    fn get_total_transposition(&self) -> (r: i16)
        ensures
            r == spec_total_transposition(*self),
    {
        if self.ignore_global_transposition {
            self.transposition as i16
        } else {
            let sum: i16 = self.transposition as i16 + self.global_transposition as i16;
            if sum > 127 {
                127
            } else if sum < -128 {
                -128
            } else {
                sum
            }
        }
    }

    /// Shift one note and wrap it into the eight-bit range.
    fn transpose_note(&self, note: u8) -> (r: u8)
        ensures
            r == spec_transpose(note, spec_total_transposition(*self)),
    {
        let total = self.get_total_transposition();
        let shifted: i16 = note as i16 + total;
        let wrapped: i16 = (shifted + 256) % 256;
        wrapped as u8
    }

    /// Install or reject the outcome of a finished background load. On
    /// success the engine slot fills, the preset directory is replaced,
    /// and the remembered bank and program are resolved against it; on
    /// failure the node keeps whatever engine it had and stays loadable.
    pub fn finish_load(&mut self, outcome: Option<PresetMap>) -> (r: ResponseKind)
        requires
            old(self).wf(),
            match outcome {
                Some(pm) => pm.wf(),
                None => true,
            },
        ensures
            final(self).wf(),
            spec_load_finished(*old(self), *final(self), outcome, r),
    {
        self.loading = false;
        match outcome {
            Some(pm) => {
                let resolved = resolve_preset(&pm, self.bank, self.preset);
                match resolved {
                    Some((b, p)) => {
                        self.bank = Some(b);
                        self.preset = Some(p);
                    },
                    None => {
                        self.bank = None;
                        self.preset = None;
                    },
                }
                self.preset_map = Some(pm);
                self.has_engine = true;
                ResponseKind::Okay
            },
            None => ResponseKind::Failed,
        }
    }

    /// A configuration copy: the engine slot starts empty and a fresh load
    /// is the cloner's duty (see [`Node::start_pending_load`]).
    pub fn clone_node(&self) -> (r: Node)
        requires
            self.wf(),
        ensures
            r.wf(),
            spec_clone_of(*self, r),
    {
        Node {
            name: self.name.clone(),
            enabled: self.enabled,
            midi_filter: clone_filter(&self.midi_filter),
            gain_milli: self.gain_milli,
            transposition: self.transposition,
            global_transposition: self.global_transposition,
            velocity_mapping: self.velocity_mapping,
            ignore_global_transposition: self.ignore_global_transposition,
            virtual_paths: clone_virtual_paths(&self.virtual_paths),
            sample_rate: self.sample_rate,
            last_file: clone_opt_path(&self.last_file),
            bank: self.bank,
            preset: self.preset,
            preset_map: None,
            user_presets: crate::util::copy_bools(&self.user_presets),
            has_engine: false,
            loading: false,
            voices: clone_voices(&self.voices),
        }
    }

    /// Apply one typed command and decide its response. Every effect is
    /// synchronous except a file load: that one comes back as
    /// [`Reply::LoadStarted`] with the real path a worker must open, and
    /// the requester is answered through [`Node::finish_load`].
    pub fn process_request(&mut self, kind: RequestKind) -> (r: Reply)
        requires
            old(self).wf(),
        ensures
            final(self).wf(),
            spec_request_outcome(*old(self), *final(self), kind, r),
            final(self).sample_rate == old(self).sample_rate,
            final(self).global_transposition == old(self).global_transposition,
            final(self).virtual_paths == old(self).virtual_paths,
    {
        match kind {
            RequestKind::SetName(name) => {
                self.name = name;
                Reply::Done(ResponseKind::Okay)
            },
            RequestKind::SetEnabled(flag) => {
                self.enabled = flag;
                Reply::Done(ResponseKind::Okay)
            },
            RequestKind::LoadFile(path) => {
                self.last_file = Some(path);
                match self.start_pending_load() {
                    Some(real_path) => Reply::LoadStarted(real_path),
                    None => Reply::Done(ResponseKind::Failed),
                }
            },
            RequestKind::SetGain(gain_milli) => {
                self.gain_milli = gain_milli;
                Reply::Done(ResponseKind::Okay)
            },
            RequestKind::SetTransposition(transposition) => {
                self.transposition = transposition;
                Reply::Done(ResponseKind::Okay)
            },
            RequestKind::SetVelocityMapping(mapping) => {
                match mapping {
                    velocity_map::Kind::Identity => {
                        self.velocity_mapping = mapping;
                        Reply::Done(ResponseKind::Okay)
                    },
                    velocity_map::Kind::Linear { min, max } => {
                        if min <= max {
                            self.velocity_mapping = mapping;
                            Reply::Done(ResponseKind::Okay)
                        } else {
                            Reply::Done(ResponseKind::Failed)
                        }
                    },
                }
            },
            RequestKind::SetIgnoreGlobalTransposition(flag) => {
                self.ignore_global_transposition = flag;
                Reply::Done(ResponseKind::Okay)
            },
            RequestKind::SetBankAndPreset(bank, preset) => {
                self.bank = Some(bank);
                self.preset = Some(preset);
                if self.has_engine {
                    Reply::Done(ResponseKind::Okay)
                } else {
                    Reply::Done(ResponseKind::Failed)
                }
            },
            RequestKind::UpdateMidiFilter(fk) => {
                match self.midi_filter.process_update_request(fk) {
                    Ok(()) => Reply::Done(ResponseKind::Okay),
                    Err(_) => Reply::Done(ResponseKind::Failed),
                }
            },
            RequestKind::SetUserPreset(p) => {
                if p < NUM_USER_PRESETS {
                    self.enabled = self.user_presets[p];
                    Reply::Done(ResponseKind::Okay)
                } else {
                    Reply::Done(ResponseKind::Failed)
                }
            },
            RequestKind::SetUserPresetEnabled(p, flag) => {
                if p < NUM_USER_PRESETS {
                    self.user_presets.set(p, flag);
                    Reply::Done(ResponseKind::Okay)
                } else {
                    Reply::Done(ResponseKind::Failed)
                }
            },
            RequestKind::AddVoice => {
                self.voices.add_voice();
                Reply::Done(ResponseKind::Okay)
            },
            RequestKind::RemoveVoice(index) => {
                match self.voices.remove_voice(index) {
                    Ok(()) => Reply::Done(ResponseKind::Okay),
                    Err(_) => Reply::Done(ResponseKind::Failed),
                }
            },
            RequestKind::ClearVoices => {
                self.voices.clear();
                Reply::Done(ResponseKind::Okay)
            },
            RequestKind::SetVoiceName(index, name) => {
                match self.voices.set_voice_name(index, name) {
                    Ok(()) => Reply::Done(ResponseKind::Okay),
                    Err(_) => Reply::Done(ResponseKind::Failed),
                }
            },
            RequestKind::SetVoiceInstrument(index, instrument_index) => {
                match self.voices.set_voice_instrument(index, instrument_index) {
                    Ok(()) => Reply::Done(ResponseKind::Okay),
                    Err(_) => Reply::Done(ResponseKind::Failed),
                }
            },
            RequestKind::SetVoiceNote(index, note) => {
                match self.voices.set_voice_note(index, note) {
                    Ok(()) => Reply::Done(ResponseKind::Okay),
                    Err(_) => Reply::Done(ResponseKind::Failed),
                }
            },
            RequestKind::SetVoiceVelocity(index, velocity) => {
                match self.voices.set_voice_velocity(index, velocity) {
                    Ok(()) => Reply::Done(ResponseKind::Okay),
                    Err(_) => Reply::Done(ResponseKind::Failed),
                }
            },
            RequestKind::SetVoiceChannel(index, channel) => {
                match self.voices.set_voice_channel(index, channel) {
                    Ok(()) => Reply::Done(ResponseKind::Okay),
                    Err(_) => Reply::Done(ResponseKind::Failed),
                }
            },
            RequestKind::SetSlot(voice_index, slot_index, enabled) => {
                match self.voices.set_slot(voice_index, slot_index, enabled) {
                    Ok(()) => Reply::Done(ResponseKind::Okay),
                    Err(_) => Reply::Done(ResponseKind::Failed),
                }
            },
        }
    }

    /// If the node knows a file and a sample rate and the virtual path
    /// translates, mark a load in flight and hand back the real path the
    /// worker must open; otherwise nothing changes.
    pub fn start_pending_load(&mut self) -> (r: Option<Vec<String>>)
        requires
            old(self).wf(),
        ensures
            final(self).wf(),
            match r {
                Some(p) => {
                    &&& final(self).loading
                    &&& *final(self) == (Node { loading: true, ..*old(self) })
                    &&& old(self).last_file is Some
                    &&& crate::path::spec_translated(
                        old(self).virtual_paths.paths@,
                        old(self).last_file.unwrap().deep_view(),
                        p.deep_view(),
                    )
                },
                None => *final(self) == *old(self),
            },
            r is Some <==> (old(self).last_file is Some && old(self).sample_rate is Some
                && spec_translates(old(self).virtual_paths, old(self).last_file.unwrap())),
    {
        if self.sample_rate.is_none() {
            return None;
        }
        match &self.last_file {
            Some(file) => {
                match self.virtual_paths.translate(file) {
                    Some(real_path) => {
                        self.loading = true;
                        Some(real_path)
                    },
                    None => None,
                }
            },
            None => None,
        }
    }
}

/// Everything one request does: how `post` relates to `pre` and which
/// reply comes back, for every request kind.
pub open spec fn spec_request_outcome(pre: Node, post: Node, kind: RequestKind, r: Reply) -> bool {
    match kind {
        RequestKind::SetName(name) => r == Reply::Done(ResponseKind::Okay) && post
            == (Node { name, ..pre }),
        RequestKind::SetEnabled(flag) => r == Reply::Done(ResponseKind::Okay) && post == (Node { enabled: flag, ..pre }),
        RequestKind::LoadFile(path) => if pre.sample_rate is Some && spec_translates(
            pre.virtual_paths,
            path,
        ) {
            &&& r is LoadStarted
            &&& (r matches Reply::LoadStarted(p) ==> crate::path::spec_translated(
                pre.virtual_paths.paths@,
                path.deep_view(),
                p.deep_view(),
            ))
            &&& post.loading
            &&& post == (Node {
                last_file: Some(path),
                loading: true,
                ..pre
            })
        } else {
            r == Reply::Done(ResponseKind::Failed) && post == (Node {
                last_file: Some(path),
                ..pre
            })
        },
        RequestKind::SetGain(gain_milli) => r == Reply::Done(ResponseKind::Okay) && post == (Node { gain_milli, ..pre }),
        RequestKind::SetTransposition(transposition) => r == Reply::Done(
            ResponseKind::Okay,
        ) && post == (Node { transposition, ..pre }),
        RequestKind::SetVelocityMapping(mapping) => if mapping.wf() {
            r == Reply::Done(ResponseKind::Okay) && post == (Node {
                velocity_mapping: mapping,
                ..pre
            })
        } else {
            r == Reply::Done(ResponseKind::Failed) && post == pre
        },
        RequestKind::SetIgnoreGlobalTransposition(flag) => r == Reply::Done(
            ResponseKind::Okay,
        ) && post == (Node { ignore_global_transposition: flag, ..pre }),
        RequestKind::SetBankAndPreset(bank, preset) => {
            &&& post == (Node {
                bank: Some(bank),
                preset: Some(preset),
                ..pre
            })
            &&& r == Reply::Done(
                if pre.has_engine {
                    ResponseKind::Okay
                } else {
                    ResponseKind::Failed
                },
            )
        },
        RequestKind::UpdateMidiFilter(fk) => {
            &&& spec_eq_except_filter(post, pre)
            &&& if midi_filter::spec_update_ok(fk) {
                r == Reply::Done(ResponseKind::Okay) && post.midi_filter@
                    == midi_filter::spec_updated(pre.midi_filter@, fk)
            } else {
                r == Reply::Done(ResponseKind::Failed) && post == pre
            }
        },
        RequestKind::SetUserPreset(p) => if p < NUM_USER_PRESETS {
            r == Reply::Done(ResponseKind::Okay) && post == (Node {
                enabled: pre.user_presets@[p as int],
                ..pre
            })
        } else {
            r == Reply::Done(ResponseKind::Failed) && post == pre
        },
        RequestKind::SetUserPresetEnabled(p, flag) => if p < NUM_USER_PRESETS {
            &&& r == Reply::Done(ResponseKind::Okay)
            &&& spec_eq_except_user_presets(post, pre)
            &&& post.user_presets@ == pre.user_presets@.update(p as int, flag)
        } else {
            r == Reply::Done(ResponseKind::Failed) && post == pre
        },
        RequestKind::AddVoice => {
            &&& r == Reply::Done(ResponseKind::Okay)
            &&& spec_eq_except_voices_field(post, pre)
            &&& post.voices.num_slots == pre.voices.num_slots
            &&& post.voices.voices@.len() == pre.voices.voices@.len() + 1
            &&& forall|i: int|
                0 <= i < pre.voices.voices@.len() ==> post.voices.voices@[i]
                    == pre.voices.voices@[i]
            &&& post.voices.voices@.last()@ == (VoiceView {
                name: Seq::<char>::empty(),
                instrument_index: None,
                channel: 9,
                note: 0,
                velocity: 127,
                slots: Seq::new(pre.voices.num_slots as nat, |i: int| false),
            })
        },
        RequestKind::RemoveVoice(index) => {
            &&& spec_eq_except_voices_field(post, pre)
            &&& post.voices.num_slots == pre.voices.num_slots
            &&& if index < pre.voices.voices@.len() {
                r == Reply::Done(ResponseKind::Okay) && post.voices.voices@ == pre.voices.voices@.remove(index as int)
            } else {
                r == Reply::Done(ResponseKind::Failed) && post == pre
            }
        },
        RequestKind::ClearVoices => {
            &&& r == Reply::Done(ResponseKind::Okay)
            &&& spec_eq_except_voices_field(post, pre)
            &&& post.voices.num_slots == pre.voices.num_slots
            &&& post.voices.voices@.len() == 0
        },
        RequestKind::SetVoiceName(index, name) => spec_voice_field_set(
            pre,
            post,
            r,
            index,
            (VoiceView { name: name@, ..pre.voices.voices@[index as int]@ }),
        ),
        RequestKind::SetVoiceInstrument(index, instrument_index) => spec_voice_field_set(
            pre,
            post,
            r,
            index,
            (VoiceView { instrument_index, ..pre.voices.voices@[index as int]@ }),
        ),
        RequestKind::SetVoiceNote(index, note) => spec_voice_field_set(
            pre,
            post,
            r,
            index,
            (VoiceView { note, ..pre.voices.voices@[index as int]@ }),
        ),
        RequestKind::SetVoiceVelocity(index, velocity) => spec_voice_field_set(
            pre,
            post,
            r,
            index,
            (VoiceView { velocity, ..pre.voices.voices@[index as int]@ }),
        ),
        RequestKind::SetVoiceChannel(index, channel) => spec_voice_field_set(
            pre,
            post,
            r,
            index,
            (VoiceView { channel, ..pre.voices.voices@[index as int]@ }),
        ),
        RequestKind::SetSlot(voice_index, slot_index, enabled) => {
            &&& spec_eq_except_voices_field(post, pre)
            &&& post.voices.num_slots == pre.voices.num_slots
            &&& if voice_index < pre.voices.voices@.len() && slot_index < pre.voices.num_slots {
                r == Reply::Done(ResponseKind::Okay) && voices::spec_voice_replaced(
                    pre.voices.voices@,
                    post.voices.voices@,
                    voice_index as int,
                    (VoiceView {
                        slots: pre.voices.voices@[voice_index as int]@.slots.update(
                            slot_index as int,
                            enabled,
                        ),
                        ..pre.voices.voices@[voice_index as int]@
                    }),
                )
            } else {
                r == Reply::Done(ResponseKind::Failed) && post == pre
            }
        },
    }
}

/// What installing one finished load does: on success the engine slot
/// fills, the directory is replaced and the remembered bank and program
/// are resolved against it; on failure only the in-flight mark clears.
pub open spec fn spec_load_finished(
    pre: Node,
    post: Node,
    outcome: Option<PresetMap>,
    r: ResponseKind,
) -> bool {
    &&& !post.loading
    &&& match outcome {
        Some(pm) => {
            &&& r == ResponseKind::Okay
            &&& post.has_engine
            &&& post.preset_map == Some(pm)
            &&& match (pre.bank, pre.preset) {
                (Some(b), Some(p)) => if spec_has_preset(pm, b, p) {
                    post.bank == Some(b) && post.preset == Some(p)
                } else {
                    spec_resolved_first(pm, post)
                },
                _ => spec_resolved_first(pm, post),
            }
            &&& post == (Node {
                preset_map: post.preset_map,
                bank: post.bank,
                preset: post.preset,
                has_engine: true,
                loading: false,
                ..pre
            })
        },
        None => {
            &&& r == ResponseKind::Failed
            &&& post == (Node { loading: false, ..pre })
        },
    }
}

/// One voice field was set: with a valid index the response is `Okay` and
/// only that voice changed (to `v`); otherwise `Failed` and nothing did.
pub open spec fn spec_voice_field_set(
    old_node: Node,
    new_node: Node,
    r: Reply,
    index: usize,
    v: VoiceView,
) -> bool {
    &&& spec_eq_except_voices_field(new_node, old_node)
    &&& new_node.voices.num_slots == old_node.voices.num_slots
    &&& if index < old_node.voices.voices@.len() {
        r == Reply::Done(ResponseKind::Okay) && voices::spec_voice_replaced(
            old_node.voices.voices@,
            new_node.voices.voices@,
            index as int,
            v,
        )
    } else {
        r == Reply::Done(ResponseKind::Failed) && new_node == old_node
    }
}

/// Some entry of the table maps a prefix of `path`.
pub open spec fn spec_translates(vp: VirtualPaths, path: Vec<String>) -> bool {
    exists|i: int|
        0 <= i < vp.paths@.len() && crate::path::spec_is_prefix(
            (#[trigger] vp.paths@[i]).0.deep_view(),
            path.deep_view(),
        )
}

/// The node's bank and program are the first available preset of `pm`, or
/// cleared where `pm` is empty.
pub open spec fn spec_resolved_first(pm: PresetMap, n: Node) -> bool {
    match (n.bank, n.preset) {
        (Some(b), Some(p)) => spec_first_or_none(pm, Some((b, p))),
        (None, None) => pm.entries@.len() == 0,
        _ => false,
    }
}

/// An element-wise copy of a filter.
fn clone_filter(f: &MidiFilter) -> (r: MidiFilter)
    ensures
        r@ == f@,
{
    MidiFilter {
        enabled: f.enabled,
        channels: crate::util::copy_bools(&f.channels),
        notes: crate::util::copy_bools(&f.notes),
        control_commands: crate::util::copy_bools(&f.control_commands),
        program_change: f.program_change,
        channel_aftertouch: f.channel_aftertouch,
        pitch_wheel: f.pitch_wheel,
    }
}

/// An entry-wise copy of a virtual path table.
pub(crate) fn clone_virtual_paths(vp: &VirtualPaths) -> (r: VirtualPaths)
    ensures
        spec_same_virtual_paths(r, *vp),
        r.wf() <==> vp.wf(),
{
    let mut paths: Vec<(Vec<String>, Vec<String>)> = Vec::new();
    let n = vp.paths.len();
    let mut k: usize = 0;
    while k < n
        invariant
            k <= n,
            n == vp.paths@.len(),
            paths@.len() == k,
            forall|i: int|
                0 <= i < k ==> (#[trigger] paths@[i]).0.deep_view() == vp.paths@[i].0.deep_view()
                    && paths@[i].1.deep_view() == vp.paths@[i].1.deep_view(),
        decreases n - k,
    {
        let entry = &vp.paths[k];
        let c0 = crate::path::clone_components(&entry.0);
        let c1 = crate::path::clone_components(&entry.1);
        paths.push((c0, c1));
        k += 1;
    }
    let r = VirtualPaths { paths };
    proof {
        assert forall|i: int, j: int|
            0 <= i < j < r.paths@.len() && vp.wf() implies (#[trigger] r.paths@[i]).0.deep_view()
            != (#[trigger] r.paths@[j]).0.deep_view() by {
            assert(vp.paths@[i].0.deep_view() != vp.paths@[j].0.deep_view());
        }
        assert forall|i: int, j: int|
            0 <= i < j < vp.paths@.len() && r.wf() implies (#[trigger] vp.paths@[i]).0.deep_view()
            != (#[trigger] vp.paths@[j]).0.deep_view() by {
            assert(r.paths@[i].0.deep_view() != r.paths@[j].0.deep_view());
        }
    }
    r
}

/// A component-wise copy of an optional path.
fn clone_opt_path(p: &Option<Vec<String>>) -> (r: Option<Vec<String>>)
    ensures
        spec_same_opt_path(r, *p),
{
    match p {
        Some(path) => Some(crate::path::clone_components(path)),
        None => None,
    }
}

/// A row-wise copy of a voice list.
fn clone_voices(v: &Voices) -> (r: Voices)
    ensures
        r.num_slots == v.num_slots,
        r.voices@.len() == v.voices@.len(),
        forall|i: int| 0 <= i < v.voices@.len() ==> (#[trigger] r.voices@[i])@ == v.voices@[i]@,
        v.wf() ==> r.wf(),
{
    let mut rows: Vec<voices::Voice> = Vec::new();
    let n = v.voices.len();
    let mut k: usize = 0;
    while k < n
        invariant
            k <= n,
            n == v.voices@.len(),
            rows@.len() == k,
            forall|i: int| 0 <= i < k ==> (#[trigger] rows@[i])@ == v.voices@[i]@,
        decreases n - k,
    {
        let row = &v.voices[k];
        rows.push(
            voices::Voice {
                name: row.name.clone(),
                instrument_index: row.instrument_index,
                channel: row.channel,
                note: row.note,
                velocity: row.velocity,
                slots: crate::util::copy_bools(&row.slots),
            },
        );
        k += 1;
    }
    Voices { num_slots: v.num_slots, voices: rows }
}

} // verus!
