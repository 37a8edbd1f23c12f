//! The per-node MIDI gate: flag arrays over channels, notes and controller
//! numbers, plus one flag per remaining message kind.
//!
//! A disabled filter passes everything. An enabled filter checks the
//! message's channel first, then the flag that matches its kind; a note-off
//! always passes the kind check, so a sounding note can always be released.
//! Gating by channel is part of this design; revisions that drop it are not
//! modelled here.

use crate::midi::{Message, MessageKind};
use crate::util::repeat_bool;
use vstd::prelude::*;

verus! {

pub const NUM_CHANNELS: usize = 16;

pub const NUM_NOTES: usize = 128;

pub const NUM_CONTROL_COMMANDS: usize = 128;

/// One field update applied to a filter through the command protocol.
#[derive(Debug, Clone, PartialEq)]
pub enum UpdateKind {
    Enabled(bool),
    Channel(usize, bool),
    Channels(Vec<bool>),
    Note(usize, bool),
    Notes(Vec<bool>),
    ControlChange(usize, bool),
    ControlChanges(Vec<bool>),
    ProgramChange(bool),
    ChannelAftertouch(bool),
    PitchWheel(bool),
}

/// An update that named an index out of range or an array of the wrong
/// length.
pub struct InvalidUpdateRequest;

pub type UpdateResult = Result<(), InvalidUpdateRequest>;

#[derive(Debug, Clone, PartialEq)]
pub struct MidiFilter {
    pub enabled: bool,
    pub channels: Vec<bool>,
    pub notes: Vec<bool>,
    pub control_commands: Vec<bool>,
    pub program_change: bool,
    pub channel_aftertouch: bool,
    pub pitch_wheel: bool,
}

/// The mathematical content of a filter: the same fields with the flag
/// vectors as sequences.
pub ghost struct FilterView {
    pub enabled: bool,
    pub channels: Seq<bool>,
    pub notes: Seq<bool>,
    pub control_commands: Seq<bool>,
    pub program_change: bool,
    pub channel_aftertouch: bool,
    pub pitch_wheel: bool,
}

impl View for MidiFilter {
    type V = FilterView;

    open spec fn view(&self) -> FilterView {
        FilterView {
            enabled: self.enabled,
            channels: self.channels@,
            notes: self.notes@,
            control_commands: self.control_commands@,
            program_change: self.program_change,
            channel_aftertouch: self.channel_aftertouch,
            pitch_wheel: self.pitch_wheel,
        }
    }
}

/// A message the filter can be asked about without reading out of range:
/// the channel is a nibble and note indices fit their flag array.
pub open spec fn spec_message_in_range(message: Message) -> bool {
    &&& message.channel < 16
    &&& match message.kind {
        MessageKind::NoteOn { note, .. } => note < 128,
        MessageKind::PolyphonicAftertouch { note, .. } => note < 128,
        _ => true,
    }
}

/// Whether `message` clears an enabled filter `f`.
pub open spec fn spec_passes_when_enabled(f: FilterView, message: Message) -> bool {
    f.channels[message.channel as int] && match message.kind {
        MessageKind::NoteOn { note, .. } => f.notes[note as int],
        MessageKind::NoteOff { .. } => true,
        MessageKind::PolyphonicAftertouch { note, .. } => f.notes[note as int],
        MessageKind::ControlChange { kind, .. } => f.control_commands[kind.spec_as_number() as int],
        MessageKind::ProgramChange { .. } => f.program_change,
        MessageKind::ChannelAftertouch { .. } => f.channel_aftertouch,
        MessageKind::PitchWheel { .. } => f.pitch_wheel,
    }
}

/// Whether `message` reaches the node through filter `f`.
pub open spec fn spec_passes(f: FilterView, message: Message) -> bool {
    !f.enabled || spec_passes_when_enabled(f, message)
}

/// The filter a fresh node starts with: enabled, but with every flag set,
/// so everything passes until the user narrows it.
pub open spec fn spec_default(f: FilterView) -> bool {
    &&& f.enabled
    &&& f.channels.len() == 16 && (forall|i: int| 0 <= i < 16 ==> f.channels[i])
    &&& f.notes.len() == 128 && (forall|i: int| 0 <= i < 128 ==> f.notes[i])
    &&& f.control_commands.len() == 128 && (forall|i: int| 0 <= i < 128 ==> f.control_commands[i])
    &&& f.program_change
    &&& f.channel_aftertouch
    &&& f.pitch_wheel
}

/// Whether one update names an index inside its flag array, or an array of
/// exactly the right length.
pub open spec fn spec_update_ok(kind: UpdateKind) -> bool {
    match kind {
        UpdateKind::Channel(c, _) => c < 16,
        UpdateKind::Channels(channels) => channels@.len() == 16,
        UpdateKind::Note(n, _) => n < 128,
        UpdateKind::Notes(notes) => notes@.len() == 128,
        UpdateKind::ControlChange(cc, _) => cc < 128,
        UpdateKind::ControlChanges(ccs) => ccs@.len() == 128,
        _ => true,
    }
}

/// The filter after one valid update.
pub open spec fn spec_updated(f: FilterView, kind: UpdateKind) -> FilterView {
    match kind {
        UpdateKind::Enabled(flag) => FilterView { enabled: flag, ..f },
        UpdateKind::Channel(c, flag) => FilterView { channels: f.channels.update(c as int, flag), ..f },
        UpdateKind::Channels(channels) => FilterView { channels: channels@, ..f },
        UpdateKind::Note(n, flag) => FilterView { notes: f.notes.update(n as int, flag), ..f },
        UpdateKind::Notes(notes) => FilterView { notes: notes@, ..f },
        UpdateKind::ControlChange(cc, flag) => FilterView {
            control_commands: f.control_commands.update(cc as int, flag),
            ..f
        },
        UpdateKind::ControlChanges(ccs) => FilterView { control_commands: ccs@, ..f },
        UpdateKind::ProgramChange(flag) => FilterView { program_change: flag, ..f },
        UpdateKind::ChannelAftertouch(flag) => FilterView { channel_aftertouch: flag, ..f },
        UpdateKind::PitchWheel(flag) => FilterView { pitch_wheel: flag, ..f },
    }
}

impl MidiFilter {
    /// The flag arrays have their fixed sizes.
    pub open spec fn wf(&self) -> bool {
        &&& self.channels@.len() == 16
        &&& self.notes@.len() == 128
        &&& self.control_commands@.len() == 128
    }

    pub fn does_pass(&self, message: &Message) -> (r: bool)
        requires
            self.wf(),
            spec_message_in_range(*message),
        ensures
            r == spec_passes(self@, *message),
    {
        if !self.enabled {
            true
        } else {
            self.does_pass_when_enabled(message)
        }
    }

    pub fn does_pass_when_enabled(&self, message: &Message) -> (r: bool)
        requires
            self.wf(),
            spec_message_in_range(*message),
        ensures
            r == spec_passes_when_enabled(self@, *message),
    {
        if !self.channels[message.channel as usize] {
            return false;
        }
        match message.kind {
            MessageKind::NoteOn { note, .. } => self.notes[note as usize],
            MessageKind::NoteOff { .. } => true,
            MessageKind::PolyphonicAftertouch { note, .. } => self.notes[note as usize],
            MessageKind::ControlChange { kind, .. } => {
                self.control_commands[kind.as_number() as usize]
            },
            MessageKind::ProgramChange { .. } => self.program_change,
            MessageKind::ChannelAftertouch { .. } => self.channel_aftertouch,
            MessageKind::PitchWheel { .. } => self.pitch_wheel,
        }
    }

    /// Apply one update; an invalid one leaves the filter unchanged.
    pub fn process_update_request(&mut self, kind: UpdateKind) -> (r: UpdateResult)
        requires
            old(self).wf(),
        ensures
            final(self).wf(),
            spec_update_ok(kind) ==> r is Ok && final(self)@ == spec_updated(old(self)@, kind),
            !spec_update_ok(kind) ==> r is Err && *final(self) == *old(self),
    {
        match kind {
            UpdateKind::Enabled(flag) => self.enabled = flag,
            UpdateKind::Channel(c, flag) => {
                ur_set_channel(self, c, flag)?;
            },
            UpdateKind::Channels(channels) => {
                ur_set_channels(self, channels)?;
            },
            UpdateKind::Note(n, flag) => {
                ur_set_note(self, n, flag)?;
            },
            UpdateKind::Notes(notes) => {
                ur_set_notes(self, notes)?;
            },
            UpdateKind::ControlChange(cc, flag) => {
                ur_set_cc(self, cc, flag)?;
            },
            UpdateKind::ControlChanges(ccs) => {
                ur_set_ccs(self, ccs)?;
            },
            UpdateKind::ProgramChange(flag) => self.program_change = flag,
            UpdateKind::ChannelAftertouch(flag) => self.channel_aftertouch = flag,
            UpdateKind::PitchWheel(flag) => self.pitch_wheel = flag,
        }
        Ok(())
    }
}

impl Default for MidiFilter {
    /// A fresh filter is enabled but passes everything: every flag starts
    /// true.
    fn default() -> (r: MidiFilter)
        ensures
            r.wf(),
            r.enabled,
            forall|i: int| 0 <= i < 16 ==> r.channels@[i],
            forall|i: int| 0 <= i < 128 ==> r.notes@[i],
            forall|i: int| 0 <= i < 128 ==> r.control_commands@[i],
            r.program_change,
            r.channel_aftertouch,
            r.pitch_wheel,
    {
        MidiFilter {
            enabled: true,
            channels: repeat_bool(true, NUM_CHANNELS),
            notes: repeat_bool(true, NUM_NOTES),
            control_commands: repeat_bool(true, NUM_CONTROL_COMMANDS),
            program_change: true,
            channel_aftertouch: true,
            pitch_wheel: true,
        }
    }
}

pub fn ur_set_channel(filter: &mut MidiFilter, channel: usize, flag: bool) -> (r: UpdateResult)
    ensures
        if channel < old(filter)@.channels.len() {
            r is Ok && final(filter)@ == FilterView {
                channels: old(filter)@.channels.update(channel as int, flag),
                ..old(filter)@
            }
        } else {
            r is Err && *final(filter) == *old(filter)
        },
{
    if channel < filter.channels.len() {
        filter.channels.set(channel, flag);
        Ok(())
    } else {
        Err(InvalidUpdateRequest)
    }
}

pub fn ur_set_channels(filter: &mut MidiFilter, channels: Vec<bool>) -> (r: UpdateResult)
    ensures
        if channels@.len() == old(filter)@.channels.len() {
            r is Ok && final(filter)@ == FilterView { channels: channels@, ..old(filter)@ }
        } else {
            r is Err && *final(filter) == *old(filter)
        },
{
    if channels.len() == filter.channels.len() {
        filter.channels = channels;
        Ok(())
    } else {
        Err(InvalidUpdateRequest)
    }
}

pub fn ur_set_note(filter: &mut MidiFilter, note: usize, flag: bool) -> (r: UpdateResult)
    ensures
        if note < old(filter)@.notes.len() {
            r is Ok && final(filter)@ == FilterView {
                notes: old(filter)@.notes.update(note as int, flag),
                ..old(filter)@
            }
        } else {
            r is Err && *final(filter) == *old(filter)
        },
{
    if note < filter.notes.len() {
        filter.notes.set(note, flag);
        Ok(())
    } else {
        Err(InvalidUpdateRequest)
    }
}

pub fn ur_set_notes(filter: &mut MidiFilter, notes: Vec<bool>) -> (r: UpdateResult)
    ensures
        if notes@.len() == old(filter)@.notes.len() {
            r is Ok && final(filter)@ == FilterView { notes: notes@, ..old(filter)@ }
        } else {
            r is Err && *final(filter) == *old(filter)
        },
{
    if notes.len() == filter.notes.len() {
        filter.notes = notes;
        Ok(())
    } else {
        Err(InvalidUpdateRequest)
    }
}

pub fn ur_set_cc(filter: &mut MidiFilter, cc: usize, flag: bool) -> (r: UpdateResult)
    ensures
        if cc < old(filter)@.control_commands.len() {
            r is Ok && final(filter)@ == FilterView {
                control_commands: old(filter)@.control_commands.update(cc as int, flag),
                ..old(filter)@
            }
        } else {
            r is Err && *final(filter) == *old(filter)
        },
{
    if cc < filter.control_commands.len() {
        filter.control_commands.set(cc, flag);
        Ok(())
    } else {
        Err(InvalidUpdateRequest)
    }
}

pub fn ur_set_ccs(filter: &mut MidiFilter, ccs: Vec<bool>) -> (r: UpdateResult)
    ensures
        if ccs@.len() == old(filter)@.control_commands.len() {
            r is Ok && final(filter)@ == FilterView { control_commands: ccs@, ..old(filter)@ }
        } else {
            r is Err && *final(filter) == *old(filter)
        },
{
    if ccs.len() == filter.control_commands.len() {
        filter.control_commands = ccs;
        Ok(())
    } else {
        Err(InvalidUpdateRequest)
    }
}

} // verus!
