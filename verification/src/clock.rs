//! The musical clock: fires one beat-tick per period, advancing through the
//! subdivisions and beats of the rhythm, with the fire times accumulated
//! (never reset to "now") so timing errors do not drift.
//!
//! Time is integer microseconds handed in by the caller; the clock itself
//! never reads a wall clock. Whatever sequence of ticks, resets and rhythm
//! changes is applied, the current beat stays below `num_beats` and the
//! current subdivision below `num_divs` ([`BeatClock::wf`], ensured by
//! every operation).

use crate::rhythm::Rhythm;
use vstd::prelude::*;

verus! {

/// The latest point in time the clock accepts, comfortably past any
/// realistic process lifetime in microseconds.
pub const MAX_TIME_MICROS: i64 = 0x4000_0000_0000_0000;

/// One beat-tick period never exceeds a whole minute in microseconds.
pub const MAX_PERIOD_MICROS: i64 = 60_000_000;

#[derive(Debug, Clone, Copy, PartialEq)]
pub struct BeatClock {
    pub rhythm: Rhythm,
    pub tempo_bpm: u32,
    pub enabled: bool,
    pub last_fire_micros: i64,
    pub current_beat: u8,
    pub current_div: u8,
}

/// The time between two beat-ticks: `60 / (tempo * num_divs)` seconds, in
/// whole microseconds.
pub open spec fn spec_period_micros(tempo_bpm: u32, num_divs: u8) -> int {
    60_000_000int / (tempo_bpm as int * num_divs as int)
}

/// The position after one beat-tick: the subdivision steps forward and
/// wraps; on a wrap the beat steps forward and wraps too.
pub open spec fn spec_advance(rhythm: Rhythm, beat: u8, div: u8) -> (u8, u8) {
    let d = ((div as int + 1) % (rhythm.num_divs as int)) as u8;
    let b = if d == 0 {
        ((beat as int + 1) % (rhythm.num_beats as int)) as u8
    } else {
        beat
    };
    (b, d)
}

impl BeatClock {
    /// The position is inside the rhythm, the tempo is positive, and the
    /// last fire time is within one period of the representable range.
    pub open spec fn wf(&self) -> bool {
        &&& self.rhythm.wf()
        &&& self.tempo_bpm >= 1
        &&& self.current_beat < self.rhythm.num_beats
        &&& self.current_div < self.rhythm.num_divs
        &&& -MAX_PERIOD_MICROS <= self.last_fire_micros <= MAX_TIME_MICROS
    }

    /// A disabled clock at the default meter and a moderate tempo, poised
    /// to fire `(0, 0)` as soon as it is enabled.
    pub fn new() -> (r: BeatClock)
        ensures
            r.wf(),
            !r.enabled,
            r.rhythm == (Rhythm { num_beats: 4, num_divs: 4 }),
            r.tempo_bpm == 90,
    {
        let rhythm = Rhythm { num_beats: 4, num_divs: 4 };
        BeatClock {
            rhythm,
            tempo_bpm: 90,
            enabled: false,
            last_fire_micros: 0,
            current_beat: rhythm.num_beats - 1,
            current_div: rhythm.num_divs - 1,
        }
    }

    pub fn period_micros(&self) -> (p: i64)
        requires
            self.wf(),
        ensures
            p == spec_period_micros(self.tempo_bpm, self.rhythm.num_divs),
            0 <= p <= MAX_PERIOD_MICROS,
    {
        proof {
            assert(1 <= self.tempo_bpm * self.rhythm.num_divs <= 0xffff_ffff_u64 * 255) by (
            nonlinear_arith)
                requires
                    1 <= self.tempo_bpm <= 0xffff_ffff_u64,
                    1 <= self.rhythm.num_divs <= 255,
            ;
        }
        let divisor: u64 = self.tempo_bpm as u64 * self.rhythm.num_divs as u64;
        (60_000_000u64 / divisor) as i64
    }

    /// Rewind to just before `(0, 0)`: the next tick fires immediately and
    /// lands there.
    pub fn reset(&mut self, now_micros: i64)
        requires
            old(self).wf(),
            0 <= now_micros <= MAX_TIME_MICROS,
        ensures
            final(self).wf(),
            final(self).rhythm == old(self).rhythm,
            final(self).tempo_bpm == old(self).tempo_bpm,
            final(self).enabled == old(self).enabled,
            final(self).last_fire_micros == now_micros - spec_period_micros(
                old(self).tempo_bpm,
                old(self).rhythm.num_divs,
            ),
            final(self).current_beat == old(self).rhythm.num_beats - 1,
            final(self).current_div == old(self).rhythm.num_divs - 1,
    {
        let period = self.period_micros();
        self.last_fire_micros = now_micros - period;
        self.current_beat = self.rhythm.num_beats - 1;
        self.current_div = self.rhythm.num_divs - 1;
    }

    /// Enable or disable the clock; enabling rewinds it so that it fires at
    /// once.
    pub fn set_enabled(&mut self, flag: bool, now_micros: i64)
        requires
            old(self).wf(),
            0 <= now_micros <= MAX_TIME_MICROS,
        ensures
            final(self).wf(),
            final(self).enabled == flag,
            final(self).rhythm == old(self).rhythm,
            final(self).tempo_bpm == old(self).tempo_bpm,
            flag && !old(self).enabled ==> {
                &&& final(self).last_fire_micros == now_micros - spec_period_micros(
                    old(self).tempo_bpm,
                    old(self).rhythm.num_divs,
                )
                &&& final(self).current_beat == old(self).rhythm.num_beats - 1
                &&& final(self).current_div == old(self).rhythm.num_divs - 1
            },
            !(flag && !old(self).enabled) ==> {
                &&& final(self).last_fire_micros == old(self).last_fire_micros
                &&& final(self).current_beat == old(self).current_beat
                &&& final(self).current_div == old(self).current_div
            },
    {
        if flag && !self.enabled {
            self.reset(now_micros);
        }
        self.enabled = flag;
    }

    /// Change the meter; the clock rewinds so the new cycle starts cleanly
    /// at `(0, 0)`.
    pub fn set_rhythm(&mut self, rhythm: Rhythm, now_micros: i64)
        requires
            old(self).wf(),
            rhythm.wf(),
            0 <= now_micros <= MAX_TIME_MICROS,
        ensures
            final(self).wf(),
            final(self).rhythm == rhythm,
            final(self).tempo_bpm == old(self).tempo_bpm,
            final(self).enabled == old(self).enabled,
            final(self).current_beat == rhythm.num_beats - 1,
            final(self).current_div == rhythm.num_divs - 1,
            final(self).last_fire_micros == now_micros - spec_period_micros(
                old(self).tempo_bpm,
                rhythm.num_divs,
            ),
    {
        self.rhythm = rhythm;
        self.current_beat = rhythm.num_beats - 1;
        self.current_div = rhythm.num_divs - 1;
        self.reset(now_micros);
    }

    pub fn set_tempo_bpm(&mut self, tempo_bpm: u32)
        requires
            old(self).wf(),
            tempo_bpm >= 1,
        ensures
            final(self).wf(),
            *final(self) == (BeatClock { tempo_bpm, ..*old(self) }),
    {
        self.tempo_bpm = tempo_bpm;
    }

    /// One cooperative poll of the clock. If it is enabled and a full
    /// period has passed since the last fire, the clock advances one step,
    /// credits exactly one period, and reports the position it fired at;
    /// otherwise nothing changes.
    pub fn tick(&mut self, now_micros: i64) -> (r: Option<(u8, u8)>)
        requires
            old(self).wf(),
            0 <= now_micros <= MAX_TIME_MICROS,
        ensures
            final(self).wf(),
            final(self).rhythm == old(self).rhythm,
            final(self).tempo_bpm == old(self).tempo_bpm,
            final(self).enabled == old(self).enabled,
            ({
                let period = spec_period_micros(old(self).tempo_bpm, old(self).rhythm.num_divs);
                let fires = old(self).enabled && now_micros - old(self).last_fire_micros >= period;
                if fires {
                    let bd = spec_advance(
                        old(self).rhythm,
                        old(self).current_beat,
                        old(self).current_div,
                    );
                    &&& r == Some(bd)
                    &&& final(self).current_beat == bd.0
                    &&& final(self).current_div == bd.1
                    &&& final(self).last_fire_micros == old(self).last_fire_micros + period
                } else {
                    r is None && *final(self) == *old(self)
                }
            }),
    {
        if !self.enabled {
            return None;
        }
        let period = self.period_micros();
        if now_micros - self.last_fire_micros >= period {
            self.advance_div();
            self.last_fire_micros = self.last_fire_micros + period;
            Some((self.current_beat, self.current_div))
        } else {
            None
        }
    }

    fn advance_div(&mut self)
        requires
            old(self).wf(),
        ensures
            final(self).wf(),
            *final(self) == (BeatClock {
                current_beat: spec_advance(
                    old(self).rhythm,
                    old(self).current_beat,
                    old(self).current_div,
                ).0,
                current_div: spec_advance(
                    old(self).rhythm,
                    old(self).current_beat,
                    old(self).current_div,
                ).1,
                ..*old(self)
            }),
    {
        self.current_div = (self.current_div + 1) % self.rhythm.num_divs;
        if self.current_div == 0 {
            self.advance_beat();
        }
    }

    fn advance_beat(&mut self)
        requires
            old(self).wf(),
        ensures
            final(self).wf(),
            *final(self) == (BeatClock {
                current_beat: ((old(self).current_beat as int + 1) % (
                old(self).rhythm.num_beats as int)) as u8,
                ..*old(self)
            }),
    {
        self.current_beat = (self.current_beat + 1) % self.rhythm.num_beats;
    }
}

impl Default for BeatClock {
    fn default() -> (r: BeatClock)
        ensures
            r.wf(),
            !r.enabled,
    {
        BeatClock::new()
    }
}

} // verus!
