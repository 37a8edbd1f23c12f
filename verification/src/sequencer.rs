//! The step sequencer: the beat clock plus the voice rows it plays. Each
//! fired beat-tick turns the set slots of that position into synthetic note
//! events ("hits"), which travel to their target nodes through the same
//! command path remote clients use.

use crate::clock::{spec_advance, spec_period_micros, BeatClock, MAX_TIME_MICROS};
use crate::midi::{Message, MessageKind};
use crate::rhythm::Rhythm;
use crate::voices;
use crate::voices::{Voice, VoiceView, Voices};
use vstd::prelude::*;

verus! {

/// One synthetic note event addressed to the node a voice targets.
#[derive(Debug, Clone, Copy, PartialEq, Eq, Structural)]
pub struct ControlMessage {
    pub instrument_id: usize,
    pub midi_msg: Message,
}

/// One scheduler command.
#[derive(Debug, Clone, PartialEq)]
pub enum RequestKind {
    SetEnabled(bool),
    AddVoice,
    RemoveVoice(usize),
    ClearVoices,
    SetVoiceName(usize, String),
    SetVoiceInstrument(usize, Option<usize>),
    SetVoiceNote(usize, u8),
    SetVoiceVelocity(usize, u8),
    SetVoiceChannel(usize, u8),
    SetSlot(usize, usize, bool),
    SetRhythm(Rhythm),
    SetTempoBpm(u32),
    Reset,
}

/// The typed result of one scheduler command.
#[derive(Debug, Clone, Copy, PartialEq, Eq, Structural)]
pub enum ResponseKind {
    Denied,
    Failed,
    Okay,
}

/// The clock and the voice rows it drives.
#[derive(Debug, Clone, PartialEq)]
pub struct Sequencer {
    pub clock: BeatClock,
    pub voices: Voices,
}

/// The two events one set slot emits: the note-on, then the zero-velocity
/// note-on that every decoder must treat as the note-off.
pub open spec fn spec_voice_hits(v: VoiceView, slot: int) -> Seq<ControlMessage> {
    match v.instrument_index {
        Some(id) => if 0 <= slot < v.slots.len() && v.slots[slot] {
            seq![
                ControlMessage {
                    instrument_id: id,
                    midi_msg: Message {
                        kind: MessageKind::NoteOn { note: v.note, velocity: v.velocity },
                        channel: v.channel,
                    },
                },
                ControlMessage {
                    instrument_id: id,
                    midi_msg: Message {
                        kind: MessageKind::NoteOn { note: v.note, velocity: 0 },
                        channel: v.channel,
                    },
                },
            ]
        } else {
            Seq::empty()
        },
        None => Seq::empty(),
    }
}

/// The events one beat-tick emits: each voice's hits, in voice order.
pub open spec fn spec_hits(rows: Seq<Voice>, slot: int) -> Seq<ControlMessage>
    decreases rows.len(),
{
    if rows.len() == 0 {
        Seq::empty()
    } else {
        spec_hits(rows.drop_last(), slot) + spec_voice_hits(rows.last()@, slot)
    }
}

/// The slot one fired position addresses.
pub open spec fn spec_slot_index(rhythm: Rhythm, beat: u8, div: u8) -> int {
    beat * rhythm.num_divs + div
}

impl Sequencer {
    /// The clock is sound and every voice has one slot per clock position.
    pub open spec fn wf(&self) -> bool {
        &&& self.clock.wf()
        &&& self.voices.wf()
        &&& self.voices.num_slots == self.clock.rhythm.spec_num_slots()
    }

    /// A disabled sequencer with no voices, at the clock's defaults.
    pub fn new() -> (r: Sequencer)
        ensures
            r.wf(),
            !r.clock.enabled,
            r.voices.voices@.len() == 0,
    {
        let clock = BeatClock::new();
        let mut voices = Voices { num_slots: 0, voices: Vec::new() };
        voices.set_num_slots(clock.rhythm.num_slots());
        Sequencer { clock, voices }
    }

    /// Apply one scheduler command. A rhythm change cascades into every
    /// voice's slot array; a rhythm or tempo with a zero component is
    /// rejected, since no clock position or period exists under it.
    pub fn process_request(&mut self, kind: RequestKind, now_micros: i64) -> (r: ResponseKind)
        requires
            old(self).wf(),
            0 <= now_micros <= MAX_TIME_MICROS,
        ensures
            final(self).wf(),
            match kind {
                RequestKind::SetEnabled(flag) => {
                    &&& r == ResponseKind::Okay
                    &&& final(self).voices == old(self).voices
                    &&& final(self).clock.enabled == flag
                    &&& final(self).clock.rhythm == old(self).clock.rhythm
                    &&& final(self).clock.tempo_bpm == old(self).clock.tempo_bpm
                    &&& (flag && !old(self).clock.enabled ==> {
                        &&& final(self).clock.current_beat == old(self).clock.rhythm.num_beats - 1
                        &&& final(self).clock.current_div == old(self).clock.rhythm.num_divs - 1
                    })
                    &&& (!(flag && !old(self).clock.enabled) ==> final(self).clock == (BeatClock {
                        enabled: flag,
                        ..old(self).clock
                    }))
                },
                RequestKind::AddVoice => {
                    &&& r == ResponseKind::Okay
                    &&& final(self).clock == old(self).clock
                    &&& final(self).voices.voices@.len() == old(self).voices.voices@.len() + 1
                    &&& forall|i: int|
                        0 <= i < old(self).voices.voices@.len() ==> final(self).voices.voices@[i]
                            == old(self).voices.voices@[i]
                },
                RequestKind::RemoveVoice(index) => {
                    &&& final(self).clock == old(self).clock
                    &&& if index < old(self).voices.voices@.len() {
                        r == ResponseKind::Okay && final(self).voices.voices@ == old(
                            self,
                        ).voices.voices@.remove(index as int)
                    } else {
                        r == ResponseKind::Failed && *final(self) == *old(self)
                    }
                },
                RequestKind::ClearVoices => {
                    &&& r == ResponseKind::Okay
                    &&& final(self).clock == old(self).clock
                    &&& final(self).voices.voices@.len() == 0
                },
                RequestKind::SetVoiceName(index, name) => {
                    &&& final(self).clock == old(self).clock
                    &&& if index < old(self).voices.voices@.len() {
                        r == ResponseKind::Okay && voices::spec_voice_replaced(
                            old(self).voices.voices@,
                            final(self).voices.voices@,
                            index as int,
                            (VoiceView { name: name@, ..old(self).voices.voices@[index as int]@ }),
                        )
                    } else {
                        r == ResponseKind::Failed && *final(self) == *old(self)
                    }
                },
                RequestKind::SetVoiceInstrument(index, instrument_index) => {
                    &&& final(self).clock == old(self).clock
                    &&& if index < old(self).voices.voices@.len() {
                        r == ResponseKind::Okay && voices::spec_voice_replaced(
                            old(self).voices.voices@,
                            final(self).voices.voices@,
                            index as int,
                            (VoiceView {
                                instrument_index,
                                ..old(self).voices.voices@[index as int]@
                            }),
                        )
                    } else {
                        r == ResponseKind::Failed && *final(self) == *old(self)
                    }
                },
                RequestKind::SetVoiceNote(index, note) => {
                    &&& final(self).clock == old(self).clock
                    &&& if index < old(self).voices.voices@.len() {
                        r == ResponseKind::Okay && voices::spec_voice_replaced(
                            old(self).voices.voices@,
                            final(self).voices.voices@,
                            index as int,
                            (VoiceView { note, ..old(self).voices.voices@[index as int]@ }),
                        )
                    } else {
                        r == ResponseKind::Failed && *final(self) == *old(self)
                    }
                },
                RequestKind::SetVoiceVelocity(index, velocity) => {
                    &&& final(self).clock == old(self).clock
                    &&& if index < old(self).voices.voices@.len() {
                        r == ResponseKind::Okay && voices::spec_voice_replaced(
                            old(self).voices.voices@,
                            final(self).voices.voices@,
                            index as int,
                            (VoiceView { velocity, ..old(self).voices.voices@[index as int]@ }),
                        )
                    } else {
                        r == ResponseKind::Failed && *final(self) == *old(self)
                    }
                },
                RequestKind::SetVoiceChannel(index, channel) => {
                    &&& final(self).clock == old(self).clock
                    &&& if index < old(self).voices.voices@.len() {
                        r == ResponseKind::Okay && voices::spec_voice_replaced(
                            old(self).voices.voices@,
                            final(self).voices.voices@,
                            index as int,
                            (VoiceView { channel, ..old(self).voices.voices@[index as int]@ }),
                        )
                    } else {
                        r == ResponseKind::Failed && *final(self) == *old(self)
                    }
                },
                RequestKind::SetSlot(voice_index, slot_index, enabled) => {
                    &&& final(self).clock == old(self).clock
                    &&& if voice_index < old(self).voices.voices@.len() && slot_index < old(self).voices.num_slots {
                        r == ResponseKind::Okay && voices::spec_voice_replaced(
                            old(self).voices.voices@,
                            final(self).voices.voices@,
                            voice_index as int,
                            (VoiceView {
                                slots: old(self).voices.voices@[voice_index as int]@.slots.update(
                                    slot_index as int,
                                    enabled,
                                ),
                                ..old(self).voices.voices@[voice_index as int]@
                            }),
                        )
                    } else {
                        r == ResponseKind::Failed && *final(self) == *old(self)
                    }
                },
                RequestKind::SetRhythm(rhythm) => if rhythm.wf() {
                    &&& r == ResponseKind::Okay
                    &&& final(self).clock.rhythm == rhythm
                    &&& final(self).clock.tempo_bpm == old(self).clock.tempo_bpm
                    &&& final(self).clock.enabled == old(self).clock.enabled
                    &&& final(self).clock.current_beat == rhythm.num_beats - 1
                    &&& final(self).clock.current_div == rhythm.num_divs - 1
                    &&& final(self).voices.num_slots == rhythm.spec_num_slots()
                    &&& final(self).voices.voices@.len() == old(self).voices.voices@.len()
                    &&& forall|i: int|
                        0 <= i < old(self).voices.voices@.len() ==> final(self).voices.voices@[i]@ == (VoiceView {
                            slots: voices::spec_resize_slots(
                                old(self).voices.voices@[i]@.slots,
                                rhythm.spec_num_slots(),
                            ),
                            ..old(self).voices.voices@[i]@
                        })
                } else {
                    r == ResponseKind::Failed && *final(self) == *old(self)
                },
                RequestKind::SetTempoBpm(tempo_bpm) => if tempo_bpm >= 1 {
                    r == ResponseKind::Okay && final(self).voices == old(self).voices && final(self).clock == (BeatClock { tempo_bpm, ..old(self).clock })
                } else {
                    r == ResponseKind::Failed && *final(self) == *old(self)
                },
                RequestKind::Reset => {
                    &&& r == ResponseKind::Okay
                    &&& final(self).voices == old(self).voices
                    &&& final(self).clock == (BeatClock {
                        last_fire_micros: (now_micros - spec_period_micros(
                            old(self).clock.tempo_bpm,
                            old(self).clock.rhythm.num_divs,
                        )) as i64,
                        current_beat: (old(self).clock.rhythm.num_beats - 1) as u8,
                        current_div: (old(self).clock.rhythm.num_divs - 1) as u8,
                        ..old(self).clock
                    })
                },
            },
    {
        match kind {
            RequestKind::SetEnabled(flag) => {
                self.clock.set_enabled(flag, now_micros);
                ResponseKind::Okay
            },
            RequestKind::AddVoice => {
                self.voices.add_voice();
                ResponseKind::Okay
            },
            RequestKind::RemoveVoice(index) => {
                match self.voices.remove_voice(index) {
                    Ok(()) => ResponseKind::Okay,
                    Err(_) => ResponseKind::Failed,
                }
            },
            RequestKind::ClearVoices => {
                self.voices.clear();
                ResponseKind::Okay
            },
            RequestKind::SetVoiceName(index, name) => {
                match self.voices.set_voice_name(index, name) {
                    Ok(()) => ResponseKind::Okay,
                    Err(_) => ResponseKind::Failed,
                }
            },
            RequestKind::SetVoiceInstrument(index, instrument_index) => {
                match self.voices.set_voice_instrument(index, instrument_index) {
                    Ok(()) => ResponseKind::Okay,
                    Err(_) => ResponseKind::Failed,
                }
            },
            RequestKind::SetVoiceNote(index, note) => {
                match self.voices.set_voice_note(index, note) {
                    Ok(()) => ResponseKind::Okay,
                    Err(_) => ResponseKind::Failed,
                }
            },
            RequestKind::SetVoiceVelocity(index, velocity) => {
                match self.voices.set_voice_velocity(index, velocity) {
                    Ok(()) => ResponseKind::Okay,
                    Err(_) => ResponseKind::Failed,
                }
            },
            RequestKind::SetVoiceChannel(index, channel) => {
                match self.voices.set_voice_channel(index, channel) {
                    Ok(()) => ResponseKind::Okay,
                    Err(_) => ResponseKind::Failed,
                }
            },
            RequestKind::SetSlot(voice_index, slot_index, enabled) => {
                match self.voices.set_slot(voice_index, slot_index, enabled) {
                    Ok(()) => ResponseKind::Okay,
                    Err(_) => ResponseKind::Failed,
                }
            },
            RequestKind::SetRhythm(rhythm) => {
                if rhythm.num_beats >= 1 && rhythm.num_divs >= 1 {
                    self.clock.set_rhythm(rhythm, now_micros);
                    let n = rhythm.num_slots();
                    self.voices.set_num_slots(n);
                    ResponseKind::Okay
                } else {
                    ResponseKind::Failed
                }
            },
            RequestKind::SetTempoBpm(tempo_bpm) => {
                if tempo_bpm >= 1 {
                    self.clock.set_tempo_bpm(tempo_bpm);
                    ResponseKind::Okay
                } else {
                    ResponseKind::Failed
                }
            },
            RequestKind::Reset => {
                self.clock.reset(now_micros);
                ResponseKind::Okay
            },
        }
    }

    /// One cooperative poll: if the clock fires, emit the hits of the slot
    /// it fired at, in voice order; otherwise nothing happens.
    pub fn tick(&mut self, now_micros: i64) -> (r: Vec<ControlMessage>)
        requires
            old(self).wf(),
            0 <= now_micros <= MAX_TIME_MICROS,
        ensures
            final(self).wf(),
            final(self).voices == old(self).voices,
            final(self).clock.rhythm == old(self).clock.rhythm,
            final(self).clock.tempo_bpm == old(self).clock.tempo_bpm,
            final(self).clock.enabled == old(self).clock.enabled,
            ({
                let period = spec_period_micros(
                    old(self).clock.tempo_bpm,
                    old(self).clock.rhythm.num_divs,
                );
                let fires = old(self).clock.enabled && now_micros - old(self).clock.last_fire_micros >= period;
                if fires {
                    let bd = spec_advance(
                        old(self).clock.rhythm,
                        old(self).clock.current_beat,
                        old(self).clock.current_div,
                    );
                    &&& final(self).clock.current_beat == bd.0
                    &&& final(self).clock.current_div == bd.1
                    &&& final(self).clock.last_fire_micros == old(self).clock.last_fire_micros
                        + period
                    &&& r@ == spec_hits(
                        old(self).voices.voices@,
                        spec_slot_index(old(self).clock.rhythm, bd.0, bd.1),
                    )
                } else {
                    r@ == Seq::<ControlMessage>::empty() && final(self).clock == old(self).clock
                }
            }),
    {
        match self.clock.tick(now_micros) {
            Some((beat, div)) => self.beat_tick(beat, div),
            None => Vec::new(),
        }
    }

    /// The hits of one fired position, in voice order.
    pub fn beat_tick(&self, beat: u8, div: u8) -> (r: Vec<ControlMessage>)
        requires
            self.wf(),
            beat < self.clock.rhythm.num_beats,
            div < self.clock.rhythm.num_divs,
        ensures
            r@ == spec_hits(self.voices.voices@, spec_slot_index(self.clock.rhythm, beat, div)),
    {
        proof {
            assert(beat * self.clock.rhythm.num_divs + div < self.clock.rhythm.num_beats
                * self.clock.rhythm.num_divs) by (nonlinear_arith)
                requires
                    beat < self.clock.rhythm.num_beats,
                    div < self.clock.rhythm.num_divs,
            ;
            assert(self.clock.rhythm.num_beats * self.clock.rhythm.num_divs <= 65025) by (
            nonlinear_arith)
                requires
                    self.clock.rhythm.num_beats <= 255,
                    self.clock.rhythm.num_divs <= 255,
            ;
        }
        let slot_index: usize = beat as usize * self.clock.rhythm.num_divs as usize + div as usize;
        let rows = &self.voices.voices;
        let n = rows.len();
        let mut r: Vec<ControlMessage> = Vec::new();
        let mut k: usize = 0;
        while k < n
            invariant
                k <= n,
                n == rows@.len(),
                rows@ == self.voices.voices@,
                slot_index == spec_slot_index(self.clock.rhythm, beat, div),
                r@ == spec_hits(rows@.subrange(0, k as int), slot_index as int),
            decreases n - k,
        {
            let ghost prefix = rows@.subrange(0, k as int);
            proof {
                assert(rows@.subrange(0, k + 1).drop_last() =~= prefix);
                assert(rows@.subrange(0, k + 1).last() == rows@[k as int]);
            }
            let voice = &rows[k];
            match voice.instrument_index {
                Some(instrument_id) => {
                    if slot_index < voice.slots.len() {
                        if voice.slots[slot_index] {
                            r.push(
                                ControlMessage {
                                    instrument_id,
                                    midi_msg: Message {
                                        kind: MessageKind::NoteOn {
                                            note: voice.note,
                                            velocity: voice.velocity,
                                        },
                                        channel: voice.channel,
                                    },
                                },
                            );
                            r.push(
                                ControlMessage {
                                    instrument_id,
                                    midi_msg: Message {
                                        kind: MessageKind::NoteOn { note: voice.note, velocity: 0 },
                                        channel: voice.channel,
                                    },
                                },
                            );
                        }
                    }
                },
                None => {},
            }
            proof {
                assert(r@ =~= spec_hits(rows@.subrange(0, k + 1), slot_index as int));
            }
            k += 1;
        }
        proof {
            assert(rows@.subrange(0, n as int) =~= rows@);
        }
        r
    }
}

impl Default for Sequencer {
    fn default() -> (r: Sequencer)
        ensures
            r.wf(),
            !r.clock.enabled,
    {
        Sequencer::new()
    }
}

} // verus!
