//! The step sequencer's instrument rows ("voices"): each voice names a
//! target node, a note, a velocity and a channel, and owns one slot flag per
//! beat subdivision. Changing the rhythm resizes every voice's slot array,
//! preserving the pattern where the old and new sizes allow it.

use crate::util::repeat_bool;
use vstd::prelude::*;

verus! {

/// A request named a voice or a slot that does not exist.
#[derive(Debug, Clone, Copy, PartialEq, Eq, Structural)]
pub enum Error {
    InvalidVoiceIndex,
    InvalidSlotIndex,
}

/// One sequencer row.
#[derive(Debug, Clone, PartialEq)]
pub struct Voice {
    pub name: String,
    pub instrument_index: Option<usize>,
    pub channel: u8,
    pub note: u8,
    pub velocity: u8,
    pub slots: Vec<bool>,
}

/// The mathematical content of a voice.
pub ghost struct VoiceView {
    pub name: Seq<char>,
    pub instrument_index: Option<usize>,
    pub channel: u8,
    pub note: u8,
    pub velocity: u8,
    pub slots: Seq<bool>,
}

impl View for Voice {
    type V = VoiceView;

    open spec fn view(&self) -> VoiceView {
        VoiceView {
            name: self.name@,
            instrument_index: self.instrument_index,
            channel: self.channel,
            note: self.note,
            velocity: self.velocity,
            slots: self.slots@,
        }
    }
}

impl Voice {
    pub fn slots(&self) -> (r: &Vec<bool>)
        ensures
            r@ == self@.slots,
    {
        &self.slots
    }
}

/// The voice list of one sequencer, with the slot count every row keeps.
#[derive(Debug, Clone, PartialEq)]
pub struct Voices {
    pub num_slots: usize,
    pub voices: Vec<Voice>,
}

impl Default for Voices {
    fn default() -> (r: Voices)
        ensures
            r.num_slots == 0,
            r.voices@.len() == 0,
            r.wf(),
    {
        Voices { num_slots: 0, voices: Vec::new() }
    }
}

impl Voices {
    /// Every voice's slot array has exactly `num_slots` entries.
    pub open spec fn wf(&self) -> bool {
        forall|i: int|
            0 <= i < self.voices@.len() ==> (#[trigger] self.voices@[i])@.slots.len()
                == self.num_slots
    }

    pub fn voices(&self) -> (r: &Vec<Voice>)
        ensures
            r@ == self.voices@,
    {
        &self.voices
    }

    /// Append a fresh voice: unnamed, silent (no instrument), on the
    /// percussion channel, at full velocity, with every slot clear.
    pub fn add_voice(&mut self)
        requires
            old(self).wf(),
        ensures
            final(self).wf(),
            final(self).num_slots == old(self).num_slots,
            final(self).voices@.len() == old(self).voices@.len() + 1,
            forall|i: int|
                0 <= i < old(self).voices@.len() ==> final(self).voices@[i] == old(self).voices@[i],
            final(self).voices@.last()@ == (VoiceView {
                name: Seq::<char>::empty(),
                instrument_index: None,
                channel: 9,
                note: 0,
                velocity: 127,
                slots: Seq::new(old(self).num_slots as nat, |i: int| false),
            }),
    {
        let slots = repeat_bool(false, self.num_slots);
        proof {
            assert(slots@ =~= Seq::new(self.num_slots as nat, |i: int| false));
        }
        self.voices.push(
            Voice {
                name: String::new(),
                instrument_index: None,
                channel: 9,
                note: 0,
                velocity: 127,
                slots,
            },
        );
    }

    /// Remove the voice at `index`; later voices shift down by one.
    pub fn remove_voice(&mut self, index: usize) -> (r: Result<(), Error>)
        requires
            old(self).wf(),
        ensures
            final(self).wf(),
            final(self).num_slots == old(self).num_slots,
            if index < old(self).voices@.len() {
                r is Ok && final(self).voices@ == old(self).voices@.remove(index as int)
            } else {
                r == Result::<(), Error>::Err(Error::InvalidVoiceIndex) && *final(self) == *old(self)
            },
    {
        if index < self.voices.len() {
            self.voices.remove(index);
            Ok(())
        } else {
            Err(Error::InvalidVoiceIndex)
        }
    }

    /// Drop every voice.
    pub fn clear(&mut self)
        ensures
            final(self).wf(),
            final(self).num_slots == old(self).num_slots,
            final(self).voices@.len() == 0,
    {
        self.voices.clear();
    }

    pub fn set_voice_name(&mut self, voice_index: usize, name: String) -> (r: Result<(), Error>)
        requires
            old(self).wf(),
        ensures
            final(self).wf(),
            final(self).num_slots == old(self).num_slots,
            if voice_index < old(self).voices@.len() {
                r is Ok && spec_voice_replaced(
                    old(self).voices@,
                    final(self).voices@,
                    voice_index as int,
                    (VoiceView { name: name@, ..old(self).voices@[voice_index as int]@ }),
                )
            } else {
                r == Result::<(), Error>::Err(Error::InvalidVoiceIndex) && *final(self) == *old(self)
            },
    {
        if voice_index < self.voices.len() {
            self.voices[voice_index].name = name;
            Ok(())
        } else {
            Err(Error::InvalidVoiceIndex)
        }
    }

    pub fn set_voice_instrument(
        &mut self,
        voice_index: usize,
        instrument_index: Option<usize>,
    ) -> (r: Result<(), Error>)
        requires
            old(self).wf(),
        ensures
            final(self).wf(),
            final(self).num_slots == old(self).num_slots,
            if voice_index < old(self).voices@.len() {
                r is Ok && spec_voice_replaced(
                    old(self).voices@,
                    final(self).voices@,
                    voice_index as int,
                    (VoiceView { instrument_index, ..old(self).voices@[voice_index as int]@ }),
                )
            } else {
                r == Result::<(), Error>::Err(Error::InvalidVoiceIndex) && *final(self) == *old(self)
            },
    {
        if voice_index < self.voices.len() {
            self.voices[voice_index].instrument_index = instrument_index;
            Ok(())
        } else {
            Err(Error::InvalidVoiceIndex)
        }
    }

    pub fn set_voice_note(&mut self, voice_index: usize, note: u8) -> (r: Result<(), Error>)
        requires
            old(self).wf(),
        ensures
            final(self).wf(),
            final(self).num_slots == old(self).num_slots,
            if voice_index < old(self).voices@.len() {
                r is Ok && spec_voice_replaced(
                    old(self).voices@,
                    final(self).voices@,
                    voice_index as int,
                    (VoiceView { note, ..old(self).voices@[voice_index as int]@ }),
                )
            } else {
                r == Result::<(), Error>::Err(Error::InvalidVoiceIndex) && *final(self) == *old(self)
            },
    {
        if voice_index < self.voices.len() {
            self.voices[voice_index].note = note;
            Ok(())
        } else {
            Err(Error::InvalidVoiceIndex)
        }
    }

    pub fn set_voice_velocity(&mut self, voice_index: usize, velocity: u8) -> (r: Result<(), Error>)
        requires
            old(self).wf(),
        ensures
            final(self).wf(),
            final(self).num_slots == old(self).num_slots,
            if voice_index < old(self).voices@.len() {
                r is Ok && spec_voice_replaced(
                    old(self).voices@,
                    final(self).voices@,
                    voice_index as int,
                    (VoiceView { velocity, ..old(self).voices@[voice_index as int]@ }),
                )
            } else {
                r == Result::<(), Error>::Err(Error::InvalidVoiceIndex) && *final(self) == *old(self)
            },
    {
        if voice_index < self.voices.len() {
            self.voices[voice_index].velocity = velocity;
            Ok(())
        } else {
            Err(Error::InvalidVoiceIndex)
        }
    }

    pub fn set_voice_channel(&mut self, voice_index: usize, channel: u8) -> (r: Result<(), Error>)
        requires
            old(self).wf(),
        ensures
            final(self).wf(),
            final(self).num_slots == old(self).num_slots,
            if voice_index < old(self).voices@.len() {
                r is Ok && spec_voice_replaced(
                    old(self).voices@,
                    final(self).voices@,
                    voice_index as int,
                    (VoiceView { channel, ..old(self).voices@[voice_index as int]@ }),
                )
            } else {
                r == Result::<(), Error>::Err(Error::InvalidVoiceIndex) && *final(self) == *old(self)
            },
    {
        if voice_index < self.voices.len() {
            self.voices[voice_index].channel = channel;
            Ok(())
        } else {
            Err(Error::InvalidVoiceIndex)
        }
    }

    /// Set or clear one pattern slot of one voice.
    pub fn set_slot(&mut self, voice_index: usize, slot_index: usize, enabled: bool) -> (r: Result<
        (),
        Error,
    >)
        requires
            old(self).wf(),
        ensures
            final(self).wf(),
            final(self).num_slots == old(self).num_slots,
            if voice_index >= old(self).voices@.len() {
                r == Result::<(), Error>::Err(Error::InvalidVoiceIndex) && *final(self) == *old(self)
            } else if slot_index >= old(self).num_slots {
                r == Result::<(), Error>::Err(Error::InvalidSlotIndex) && *final(self) == *old(self)
            } else {
                r is Ok && spec_voice_replaced(
                    old(self).voices@,
                    final(self).voices@,
                    voice_index as int,
                    (VoiceView {
                        slots: old(self).voices@[voice_index as int]@.slots.update(
                            slot_index as int,
                            enabled,
                        ),
                        ..old(self).voices@[voice_index as int]@
                    }),
                )
            },
    {
        if voice_index < self.voices.len() {
            if slot_index < self.voices[voice_index].slots.len() {
                let voice = &mut self.voices[voice_index];
                voice.slots.set(slot_index, enabled);
                Ok(())
            } else {
                Err(Error::InvalidSlotIndex)
            }
        } else {
            Err(Error::InvalidVoiceIndex)
        }
    }

    /// Detach every voice from its instrument.
    pub fn set_all_to_silence(&mut self)
        requires
            old(self).wf(),
        ensures
            final(self).wf(),
            final(self).num_slots == old(self).num_slots,
            final(self).voices@.len() == old(self).voices@.len(),
            forall|i: int|
                0 <= i < old(self).voices@.len() ==> final(self).voices@[i]@ == (VoiceView {
                    instrument_index: None,
                    ..old(self).voices@[i]@
                }),
    {
        let n = self.voices.len();
        let mut k: usize = 0;
        while k < n
            invariant
                k <= n,
                self.num_slots == old(self).num_slots,
                self.voices@.len() == n,
                n == old(self).voices@.len(),
                forall|i: int|
                    0 <= i < k ==> self.voices@[i]@ == (VoiceView {
                        instrument_index: None,
                        ..old(self).voices@[i]@
                    }),
                forall|i: int| k <= i < n ==> self.voices@[i] == old(self).voices@[i],
            decreases n - k,
        {
            self.voices[k].instrument_index = None;
            k += 1;
        }
    }

    /// After node `removed_index` left the graph: voices aimed at it fall
    /// silent, voices aimed past it follow their node down by one.
    pub fn reindex_instruments(&mut self, removed_index: usize)
        requires
            old(self).wf(),
        ensures
            final(self).wf(),
            final(self).num_slots == old(self).num_slots,
            final(self).voices@.len() == old(self).voices@.len(),
            forall|i: int|
                0 <= i < old(self).voices@.len() ==> final(self).voices@[i]@ == (VoiceView {
                    instrument_index: spec_reindex(
                        old(self).voices@[i]@.instrument_index,
                        removed_index,
                    ),
                    ..old(self).voices@[i]@
                }),
    {
        let n = self.voices.len();
        let mut k: usize = 0;
        while k < n
            invariant
                k <= n,
                self.num_slots == old(self).num_slots,
                self.voices@.len() == n,
                n == old(self).voices@.len(),
                forall|i: int|
                    0 <= i < k ==> self.voices@[i]@ == (VoiceView {
                        instrument_index: spec_reindex(
                            old(self).voices@[i]@.instrument_index,
                            removed_index,
                        ),
                        ..old(self).voices@[i]@
                    }),
                forall|i: int| k <= i < n ==> self.voices@[i] == old(self).voices@[i],
            decreases n - k,
        {
            match self.voices[k].instrument_index {
                Some(instr_index) => {
                    if instr_index == removed_index {
                        self.voices[k].instrument_index = None;
                    } else if instr_index > removed_index {
                        self.voices[k].instrument_index = Some(instr_index - 1);
                    }
                },
                None => {},
            }
            k += 1;
        }
    }
}

/// `new` is `old` with the voice at `idx` replaced by `v` and every other
/// voice untouched.
pub open spec fn spec_voice_replaced(old: Seq<Voice>, new: Seq<Voice>, idx: int, v: VoiceView) -> bool {
    &&& new.len() == old.len()
    &&& new[idx]@ == v
    &&& forall|i: int| 0 <= i < old.len() && i != idx ==> new[i] == old[i]
}

/// How one voice's node reference reacts when node `removed` is removed.
pub open spec fn spec_reindex(instrument_index: Option<usize>, removed: usize) -> Option<usize> {
    match instrument_index {
        Some(k) => if k == removed {
            None
        } else if k > removed {
            Some((k - 1) as usize)
        } else {
            Some(k)
        },
        None => None,
    }
}

/// `s` stretched by `factor`: each old slot is followed by `factor - 1`
/// clear slots, so the pattern keeps its position on a finer grid.
pub open spec fn spec_interpolate(s: Seq<bool>, factor: int) -> Seq<bool> {
    Seq::new(
        (s.len() * factor) as nat,
        |i: int|
            if i % factor == 0 {
                s[i / factor]
            } else {
                false
            },
    )
}

/// How many slots survive when every `factor`-th slot of `len` is kept.
pub open spec fn spec_decimate_count(len: int, factor: int) -> int
    decreases len when factor >= 1
{
    if len <= 0 {
        0
    } else if len - factor <= 0 {
        1
    } else {
        1 + spec_decimate_count(len - factor, factor)
    }
}

/// Every `factor`-th slot of `s`, starting with the first.
pub open spec fn spec_decimate(s: Seq<bool>, factor: int) -> Seq<bool> {
    Seq::new(spec_decimate_count(s.len() as int, factor) as nat, |i: int| s[i * factor])
}

/// `s` cut, or padded with clear slots, to length `n`.
pub open spec fn spec_resize(s: Seq<bool>, n: int) -> Seq<bool> {
    if n <= s.len() {
        s.subrange(0, n)
    } else {
        s + Seq::new((n - s.len()) as nat, |i: int| false)
    }
}

/// The slot array a voice with `s.len()` slots gets when the sequencer
/// moves to `next` slots: interleave where `next` is a proper multiple,
/// decimate where it is a proper divisor, and otherwise cut or pad at the
/// end — a best-effort approximation that does not preserve pattern phase.
pub open spec fn spec_resize_slots(s: Seq<bool>, next: int) -> Seq<bool> {
    let p = s.len() as int;
    if p == 0 || next == 0 {
        spec_resize(s, next)
    } else if next > p {
        if next % p == 0 {
            spec_interpolate(s, next / p)
        } else {
            spec_resize(s, next)
        }
    } else if next < p {
        if p % next == 0 {
            spec_decimate(s, p / next)
        } else {
            spec_resize(s, next)
        }
    } else {
        s
    }
}

/// Stretch one voice's slot pattern by `factor`.
pub fn interpolate_slots(voice: &mut Voice, factor: usize)
    requires
        factor >= 1,
    ensures
        final(voice)@ == (VoiceView {
            slots: spec_interpolate(old(voice)@.slots, factor as int),
            ..old(voice)@
        }),
{
    let ghost s = voice.slots@;
    let ghost f = factor as int;
    let n = voice.slots.len();
    let mut interpolated: Vec<bool> = Vec::new();
    let mut i: usize = 0;
    while i < n
        invariant
            i <= n,
            n == s.len(),
            voice.slots@ == s,
            factor >= 1,
            f == factor,
            interpolated@.len() == i * f,
            forall|m: int|
                0 <= m < i * f ==> interpolated@[m] == (if m % f == 0 {
                    s[m / f]
                } else {
                    false
                }),
        decreases n - i,
    {
        proof {
            vstd::arithmetic::div_mod::lemma_mod_multiples_basic(i as int, f);
            vstd::arithmetic::div_mod::lemma_div_by_multiple(i as int, f);
        }
        interpolated.push(voice.slots[i]);
        let mut k: usize = 1;
        while k < factor
            invariant
                1 <= k <= factor,
                i < n,
                n == s.len(),
                voice.slots@ == s,
                f == factor,
                interpolated@.len() == i * f + k,
                forall|m: int|
                    0 <= m < i * f + k ==> interpolated@[m] == (if m % f == 0 {
                        s[m / f]
                    } else {
                        false
                    }),
            decreases factor - k,
        {
            proof {
                vstd::arithmetic::div_mod::lemma_mod_multiples_vanish(i as int, k as int, f);
                vstd::arithmetic::div_mod::lemma_small_mod(k as nat, f as nat);
            }
            interpolated.push(false);
            k += 1;
        }
        proof {
            assert((i + 1) * f == i * f + f) by (nonlinear_arith);
        }
        i += 1;
    }
    proof {
        assert(interpolated@ =~= spec_interpolate(s, f));
    }
    voice.slots = interpolated;
}

/// Keep every `factor`-th slot of one voice's pattern.
pub fn decimate_slots(voice: &mut Voice, factor: usize)
    requires
        factor >= 1,
    ensures
        final(voice)@ == (VoiceView {
            slots: spec_decimate(old(voice)@.slots, factor as int),
            ..old(voice)@
        }),
{
    let ghost s = voice.slots@;
    let ghost f = factor as int;
    let len = voice.slots.len();
    let mut decimated: Vec<bool> = Vec::new();
    let mut m: usize = 0;
    proof {
        assert(0int * f == 0) by (nonlinear_arith);
    }
    while m < len
        invariant
            m <= len,
            len == s.len(),
            voice.slots@ == s,
            factor >= 1,
            f == factor,
            m == decimated@.len() * f || (m == len && decimated@.len() * f >= len),
            spec_decimate_count(len - m, f) + decimated@.len() == spec_decimate_count(len as int, f),
            forall|j: int| 0 <= j < decimated@.len() ==> decimated@[j] == s[j * f],
        decreases len - m,
    {
        let ghost i = decimated@.len() as int;
        proof {
            assert(m == i * f);
            assert(spec_decimate_count(len - m, f) == 1 + spec_decimate_count(len - m - f, f));
        }
        decimated.push(voice.slots[m]);
        proof {
            assert((i + 1) * f == i * f + f) by (nonlinear_arith);
        }
        if factor >= len - m {
            m = len;
        } else {
            m += factor;
        }
    }
    proof {
        assert(spec_decimate_count(len as int, f) == decimated@.len());
        assert(decimated@ =~= spec_decimate(s, f));
    }
    voice.slots = decimated;
}

/// Cut `v`, or pad it with clear slots, to length `new_len`.
fn resize_bool_vec(v: &mut Vec<bool>, new_len: usize)
    ensures
        final(v)@ == spec_resize(old(v)@, new_len as int),
{
    if new_len <= v.len() {
        v.truncate(new_len);
    } else {
        while v.len() < new_len
            invariant
                old(v)@.len() <= v@.len() <= new_len,
                v@.subrange(0, old(v)@.len() as int) == old(v)@,
                forall|i: int| old(v)@.len() <= i < v@.len() ==> v@[i] == false,
            decreases new_len - v@.len(),
        {
            v.push(false);
        }
        proof {
            assert(v@ =~= spec_resize(old(v)@, new_len as int));
        }
    }
}

impl Voices {
    /// Change the slot count of every voice; patterns are carried over as
    /// [`spec_resize_slots`] describes.
    pub fn set_num_slots(&mut self, num_slots: usize)
        requires
            old(self).wf(),
        ensures
            final(self).wf(),
            final(self).num_slots == num_slots,
            final(self).voices@.len() == old(self).voices@.len(),
            forall|i: int|
                0 <= i < old(self).voices@.len() ==> final(self).voices@[i]@ == (VoiceView {
                    slots: spec_resize_slots(old(self).voices@[i]@.slots, num_slots as int),
                    ..old(self).voices@[i]@
                }),
    {
        let prev_num_slots = self.num_slots;
        self.num_slots = num_slots;
        self.update_slots(prev_num_slots);
    }

    /// Dispatch one rhythm change to the per-voice resize that preserves
    /// the most of each pattern.
    fn update_slots(&mut self, prev_num_slots: usize)
        requires
            forall|i: int|
                0 <= i < old(self).voices@.len() ==> (#[trigger] old(self).voices@[i])@.slots.len()
                    == prev_num_slots,
        ensures
            final(self).wf(),
            final(self).num_slots == old(self).num_slots,
            final(self).voices@.len() == old(self).voices@.len(),
            forall|i: int|
                0 <= i < old(self).voices@.len() ==> final(self).voices@[i]@ == (VoiceView {
                    slots: spec_resize_slots(
                        old(self).voices@[i]@.slots,
                        old(self).num_slots as int,
                    ),
                    ..old(self).voices@[i]@
                }),
    {
        let num_slots = self.num_slots;
        let ghost prev = prev_num_slots as int;
        let ghost next = num_slots as int;
        if prev_num_slots == 0 || num_slots == 0 {
            self.update_slots_resize(num_slots);
        } else if num_slots > prev_num_slots {
            if num_slots % prev_num_slots == 0 {
                proof {
                    vstd::arithmetic::div_mod::lemma_fundamental_div_mod(next, prev);
                    vstd::arithmetic::div_mod::lemma_div_non_zero(next, prev);
                }
                self.update_slots_interleave(num_slots / prev_num_slots);
                proof {
                    assert(next == prev * (next / prev));
                    assert forall|i: int| 0 <= i < self.voices@.len() implies (
                    #[trigger] self.voices@[i])@.slots.len() == next by {
                        assert(old(self).voices@[i]@.slots.len() == prev);
                        assert(self.voices@[i]@.slots.len() == prev * (next / prev));
                    }
                }
            } else {
                self.update_slots_append(num_slots - prev_num_slots);
            }
        } else if num_slots < prev_num_slots {
            if prev_num_slots % num_slots == 0 {
                proof {
                    vstd::arithmetic::div_mod::lemma_fundamental_div_mod(prev, next);
                    vstd::arithmetic::div_mod::lemma_div_non_zero(prev, next);
                }
                self.update_slots_decimate(prev_num_slots / num_slots);
                proof {
                    let factor = prev / next;
                    assert(prev == next * factor);
                    lemma_count_of_multiple(next, factor);
                    assert forall|i: int| 0 <= i < self.voices@.len() implies (
                    #[trigger] self.voices@[i])@.slots.len() == next by {
                        assert(old(self).voices@[i]@.slots.len() == prev);
                        assert(self.voices@[i]@.slots.len() == spec_decimate_count(prev, factor));
                        assert(spec_decimate_count(next * factor, factor) == next);
                    }
                }
            } else {
                self.update_slots_cut_out(prev_num_slots - num_slots);
            }
        }
    }

    /// Stretch every voice's pattern by `factor`.
    fn update_slots_interleave(&mut self, factor: usize)
        requires
            factor >= 1,
        ensures
            final(self).num_slots == old(self).num_slots,
            final(self).voices@.len() == old(self).voices@.len(),
            forall|i: int|
                0 <= i < old(self).voices@.len() ==> final(self).voices@[i]@ == (VoiceView {
                    slots: spec_interpolate(old(self).voices@[i]@.slots, factor as int),
                    ..old(self).voices@[i]@
                }),
    {
        let n = self.voices.len();
        let mut k: usize = 0;
        while k < n
            invariant
                k <= n,
                factor >= 1,
                self.num_slots == old(self).num_slots,
                self.voices@.len() == n,
                n == old(self).voices@.len(),
                forall|i: int|
                    0 <= i < k ==> self.voices@[i]@ == (VoiceView {
                        slots: spec_interpolate(old(self).voices@[i]@.slots, factor as int),
                        ..old(self).voices@[i]@
                    }),
                forall|i: int| k <= i < n ==> self.voices@[i] == old(self).voices@[i],
            decreases n - k,
        {
            let voice = &mut self.voices[k];
            interpolate_slots(voice, factor);
            k += 1;
        }
    }

    /// Append `number` clear slots to every voice.
    fn update_slots_append(&mut self, number: usize)
        requires
            forall|i: int|
                0 <= i < old(self).voices@.len() ==> (#[trigger] old(self).voices@[i])@.slots.len()
                    + number <= usize::MAX,
        ensures
            final(self).num_slots == old(self).num_slots,
            final(self).voices@.len() == old(self).voices@.len(),
            forall|i: int|
                0 <= i < old(self).voices@.len() ==> final(self).voices@[i]@ == (VoiceView {
                    slots: spec_resize(
                        old(self).voices@[i]@.slots,
                        old(self).voices@[i]@.slots.len() + number,
                    ),
                    ..old(self).voices@[i]@
                }),
    {
        let n = self.voices.len();
        let mut k: usize = 0;
        while k < n
            invariant
                k <= n,
                self.num_slots == old(self).num_slots,
                self.voices@.len() == n,
                n == old(self).voices@.len(),
                forall|i: int|
                    k <= i < n ==> (#[trigger] self.voices@[i])@.slots.len() + number <= usize::MAX,
                forall|i: int|
                    0 <= i < k ==> self.voices@[i]@ == (VoiceView {
                        slots: spec_resize(
                            old(self).voices@[i]@.slots,
                            old(self).voices@[i]@.slots.len() + number,
                        ),
                        ..old(self).voices@[i]@
                    }),
                forall|i: int| k <= i < n ==> self.voices@[i] == old(self).voices@[i],
            decreases n - k,
        {
            let voice = &mut self.voices[k];
            let target = voice.slots.len() + number;
            resize_bool_vec(&mut voice.slots, target);
            k += 1;
        }
    }

    /// Keep every `factor`-th slot of every voice.
    fn update_slots_decimate(&mut self, factor: usize)
        requires
            factor >= 1,
        ensures
            final(self).num_slots == old(self).num_slots,
            final(self).voices@.len() == old(self).voices@.len(),
            forall|i: int|
                0 <= i < old(self).voices@.len() ==> final(self).voices@[i]@ == (VoiceView {
                    slots: spec_decimate(old(self).voices@[i]@.slots, factor as int),
                    ..old(self).voices@[i]@
                }),
    {
        let n = self.voices.len();
        let mut k: usize = 0;
        while k < n
            invariant
                k <= n,
                factor >= 1,
                self.num_slots == old(self).num_slots,
                self.voices@.len() == n,
                n == old(self).voices@.len(),
                forall|i: int|
                    0 <= i < k ==> self.voices@[i]@ == (VoiceView {
                        slots: spec_decimate(old(self).voices@[i]@.slots, factor as int),
                        ..old(self).voices@[i]@
                    }),
                forall|i: int| k <= i < n ==> self.voices@[i] == old(self).voices@[i],
            decreases n - k,
        {
            let voice = &mut self.voices[k];
            decimate_slots(voice, factor);
            k += 1;
        }
    }

    /// Drop the last `number` slots of every voice.
    fn update_slots_cut_out(&mut self, number: usize)
        requires
            forall|i: int|
                0 <= i < old(self).voices@.len() ==> number <= (#[trigger] old(
                    self,
                ).voices@[i])@.slots.len(),
        ensures
            final(self).num_slots == old(self).num_slots,
            final(self).voices@.len() == old(self).voices@.len(),
            forall|i: int|
                0 <= i < old(self).voices@.len() ==> final(self).voices@[i]@ == (VoiceView {
                    slots: spec_resize(
                        old(self).voices@[i]@.slots,
                        old(self).voices@[i]@.slots.len() - number,
                    ),
                    ..old(self).voices@[i]@
                }),
    {
        let n = self.voices.len();
        let mut k: usize = 0;
        while k < n
            invariant
                k <= n,
                self.num_slots == old(self).num_slots,
                self.voices@.len() == n,
                n == old(self).voices@.len(),
                forall|i: int|
                    k <= i < n ==> number <= (#[trigger] self.voices@[i])@.slots.len(),
                forall|i: int|
                    0 <= i < k ==> self.voices@[i]@ == (VoiceView {
                        slots: spec_resize(
                            old(self).voices@[i]@.slots,
                            old(self).voices@[i]@.slots.len() - number,
                        ),
                        ..old(self).voices@[i]@
                    }),
                forall|i: int| k <= i < n ==> self.voices@[i] == old(self).voices@[i],
            decreases n - k,
        {
            let voice = &mut self.voices[k];
            let target = voice.slots.len() - number;
            resize_bool_vec(&mut voice.slots, target);
            k += 1;
        }
    }

    /// Cut or pad every voice's pattern to exactly `size` slots.
    fn update_slots_resize(&mut self, size: usize)
        ensures
            final(self).num_slots == old(self).num_slots,
            final(self).voices@.len() == old(self).voices@.len(),
            forall|i: int|
                0 <= i < old(self).voices@.len() ==> final(self).voices@[i]@ == (VoiceView {
                    slots: spec_resize(old(self).voices@[i]@.slots, size as int),
                    ..old(self).voices@[i]@
                }),
    {
        let n = self.voices.len();
        let mut k: usize = 0;
        while k < n
            invariant
                k <= n,
                self.num_slots == old(self).num_slots,
                self.voices@.len() == n,
                n == old(self).voices@.len(),
                forall|i: int|
                    0 <= i < k ==> self.voices@[i]@ == (VoiceView {
                        slots: spec_resize(old(self).voices@[i]@.slots, size as int),
                        ..old(self).voices@[i]@
                    }),
                forall|i: int| k <= i < n ==> self.voices@[i] == old(self).voices@[i],
            decreases n - k,
        {
            let voice = &mut self.voices[k];
            resize_bool_vec(&mut voice.slots, size);
            k += 1;
        }
    }
}

/// Keeping every `factor`-th slot of `n * factor` slots keeps `n` of them.
pub proof fn lemma_count_of_multiple(n: int, factor: int)
    requires
        n >= 0,
        factor >= 1,
    ensures
        spec_decimate_count(n * factor, factor) == n,
    decreases n,
{
    if n > 0 {
        lemma_count_of_multiple(n - 1, factor);
        assert((n - 1) * factor == n * factor - factor) by (nonlinear_arith);
        assert(n * factor > 0) by (nonlinear_arith)
            requires
                n >= 1,
                factor >= 1,
        ;
    } else {
        assert(n * factor == 0) by (nonlinear_arith)
            requires
                n == 0,
        ;
    }
}

/// Stretching a pattern by `factor` and then keeping every `factor`-th slot
/// restores the pattern exactly.
pub proof fn lemma_decimate_of_interpolate(s: Seq<bool>, factor: int)
    requires
        factor >= 1,
    ensures
        spec_decimate(spec_interpolate(s, factor), factor) =~= s,
{
    let stretched = spec_interpolate(s, factor);
    lemma_count_of_multiple(s.len() as int, factor);
    assert forall|j: int|
        0 <= j < s.len() implies spec_decimate(stretched, factor)[j] == s[j] by {
        vstd::arithmetic::div_mod::lemma_mod_multiples_basic(j, factor);
        vstd::arithmetic::div_mod::lemma_div_by_multiple(j, factor);
        assert(0 <= j * factor < s.len() * factor) by (nonlinear_arith)
            requires
                0 <= j < s.len(),
                factor >= 1,
        ;
    }
}

/// Slot-array resize round trip: when the sequencer grows from `n` slots to
/// a proper multiple `m` and then returns to `n`, every pattern of `n`
/// slots is restored exactly. In particular a rhythm of 4x4 slots taken to
/// 8x4 and back to 4x4 leaves every voice's pattern as it was.
pub proof fn lemma_resize_slots_round_trip(s: Seq<bool>, n: int, m: int)
    requires
        s.len() == n,
        1 <= n < m,
        m % n == 0,
    ensures
        spec_resize_slots(spec_resize_slots(s, m), n) =~= s,
{
    let factor = m / n;
    vstd::arithmetic::div_mod::lemma_fundamental_div_mod(m, n);
    assert(m == n * factor);
    assert(factor >= 1) by (nonlinear_arith)
        requires
            m == n * factor,
            1 <= n < m,
    ;
    let stretched = spec_interpolate(s, factor);
    assert(stretched.len() == n * factor);
    assert(spec_resize_slots(s, m) == stretched);
    lemma_decimate_of_interpolate(s, factor);
    assert(m % n == 0 && m / n == factor);
    assert(spec_resize_slots(stretched, n) == spec_decimate(stretched, factor));
}

} // verus!
