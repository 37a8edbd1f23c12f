//! The preset directory of one loaded instrument resource: which bank and
//! program numbers are available, and which notes each preset covers. Built
//! once per load; answers "is this bank/program available" and "what is the
//! first available preset".
//!
//! Entries are held sorted by bank, then by program number, so the first
//! entry is the numerically first available preset.

use crate::util::repeat_bool;
use vstd::prelude::*;

verus! {

/// One preset: its display name and a 128-entry note-coverage bitset.
#[derive(Debug, Clone, PartialEq)]
pub struct Preset {
    pub name: String,
    pub notes: Vec<bool>,
}

impl Preset {
    /// The note bitset has one flag per MIDI note.
    pub open spec fn wf(&self) -> bool {
        self.notes@.len() == 128
    }

    /// A named preset covering no notes yet.
    pub fn new(name: &str) -> (r: Preset)
        ensures
            r.wf(),
            r.name@ == name@,
            forall|i: int| 0 <= i < 128 ==> !r.notes@[i],
    {
        Preset { name: String::from_str(name), notes: repeat_bool(false, 128) }
    }

    /// Mark every note in `min..=max` as covered.
    pub fn add_note_range(&mut self, min: u8, max: u8)
        requires
            old(self).wf(),
            max < 128,
        ensures
            final(self).wf(),
            final(self).name == old(self).name,
            forall|i: int|
                0 <= i < 128 ==> final(self).notes@[i] == (old(self).notes@[i] || min <= i <= max),
    {
        let mut i: usize = min as usize;
        while i <= max as usize
            invariant
                old(self).wf(),
                self.wf(),
                min <= i,
                i <= max + 1 || i == min,
                max < 128,
                self.name == old(self).name,
                forall|j: int|
                    0 <= j < 128 ==> self.notes@[j] == (old(self).notes@[j] || min <= j < i),
            decreases max + 1 - i,
        {
            self.notes.set(i, true);
            i += 1;
        }
    }
}

/// One directory entry: a preset under its bank and program number.
#[derive(Debug, Clone, PartialEq)]
pub struct PresetEntry {
    pub bank: u16,
    pub preset_id: u8,
    pub preset: Preset,
}

/// The ordering key of an entry: banks first, programs within a bank.
pub open spec fn spec_entry_key(e: PresetEntry) -> int {
    e.bank * 256 + e.preset_id
}

/// The bank -> program -> preset directory.
#[derive(Debug, Clone, PartialEq)]
pub struct PresetMap {
    pub entries: Vec<PresetEntry>,
}

/// Whether the directory holds a preset under `bank` and `preset_id`.
pub open spec fn spec_has_preset(m: PresetMap, bank: u16, preset_id: u8) -> bool {
    exists|i: int|
        0 <= i < m.entries@.len() && (#[trigger] m.entries@[i]).bank == bank
            && m.entries@[i].preset_id == preset_id
}

impl PresetMap {
    /// Entries are strictly sorted by key, so each (bank, program) pair
    /// appears at most once.
    pub open spec fn wf(&self) -> bool {
        &&& forall|i: int, j: int|
            0 <= i < j < self.entries@.len() ==> spec_entry_key(#[trigger] self.entries@[i])
                < spec_entry_key(#[trigger] self.entries@[j])
        &&& forall|i: int|
            0 <= i < self.entries@.len() ==> (#[trigger] self.entries@[i]).preset.wf()
    }

    /// An empty directory.
    pub fn new() -> (r: PresetMap)
        ensures
            r.wf(),
            r.entries@.len() == 0,
    {
        PresetMap { entries: Vec::new() }
    }

    /// Store `preset` under `bank` and `preset_id`, replacing any preset
    /// already stored there; every other entry stays as it was.
    pub fn add_preset(&mut self, bank: u16, preset_id: u8, preset: Preset)
        requires
            old(self).wf(),
            preset.wf(),
        ensures
            final(self).wf(),
            spec_has_preset(*final(self), bank, preset_id),
            spec_preset_at(*final(self), bank, preset_id) == preset,
            forall|b: u16, p: u8|
                !(b == bank && p == preset_id) ==> (spec_has_preset(*final(self), b, p)
                    <==> spec_has_preset(*old(self), b, p)),
            forall|b: u16, p: u8|
                !(b == bank && p == preset_id) && spec_has_preset(*old(self), b, p)
                    ==> spec_preset_at(*final(self), b, p) == spec_preset_at(*old(self), b, p),
    {
        let new_entry = PresetEntry { bank, preset_id, preset };
        let ghost e = new_entry;
        let key: u32 = bank as u32 * 256 + preset_id as u32;
        let n = self.entries.len();
        let mut k: usize = 0;
        while k < n && self.entries[k].bank as u32 * 256 + (self.entries[k].preset_id as u32) < key
            invariant
                k <= n,
                n == self.entries@.len(),
                *self == *old(self),
                key == spec_entry_key(e),
                forall|i: int| 0 <= i < k ==> spec_entry_key(#[trigger] self.entries@[i]) < key,
            decreases n - k,
        {
            k += 1;
        }
        let ghost prior = self.entries@;
        if k < n && self.entries[k].bank == bank && self.entries[k].preset_id == preset_id {
            self.entries.set(k, new_entry);
            proof {
                let cur = self.entries@;
                assert(spec_entry_key(e) == spec_entry_key(prior[k as int]));
                assert forall|i: int, j: int|
                    0 <= i < j < cur.len() implies spec_entry_key(#[trigger] cur[i])
                    < spec_entry_key(#[trigger] cur[j]) by {}
                assert(self.wf());
                lemma_unique_position(*self, bank, preset_id, k as int);
                assert forall|b: u16, p: u8| !(b == bank && p == preset_id) implies (
                spec_has_preset(*self, b, p) <==> spec_has_preset(*old(self), b, p)) by {
                    if spec_has_preset(*self, b, p) {
                        let i = choose|i: int|
                            0 <= i < cur.len() && (#[trigger] cur[i]).bank == b
                                && cur[i].preset_id == p;
                        assert(i != k);
                        assert(prior[i].bank == b && prior[i].preset_id == p);
                    }
                    if spec_has_preset(*old(self), b, p) {
                        let i = choose|i: int|
                            0 <= i < prior.len() && (#[trigger] prior[i]).bank == b
                                && prior[i].preset_id == p;
                        assert(i != k);
                        assert(cur[i].bank == b && cur[i].preset_id == p);
                    }
                }
                assert forall|b: u16, p: u8|
                    !(b == bank && p == preset_id) && spec_has_preset(*old(self), b, p) implies
                    spec_preset_at(*self, b, p) == spec_preset_at(*old(self), b, p) by {
                    let i = choose|i: int|
                        0 <= i < prior.len() && (#[trigger] prior[i]).bank == b
                            && prior[i].preset_id == p;
                    assert(i != k);
                    assert(cur[i] == prior[i]);
                    lemma_unique_position(*self, b, p, i);
                    lemma_unique_position(*old(self), b, p, i);
                }
            }
        } else {
            if k < n {
                proof {
                    let ek = spec_entry_key(prior[k as int]);
                    assert(ek >= key);
                    assert(ek != key);
                }
                self.entries.insert(k, new_entry);
            } else {
                self.entries.push(new_entry);
                proof {
                    assert(self.entries@ =~= prior.insert(k as int, e));
                }
            }
            proof {
                lemma_after_insert(prior, self.entries@, e, k as int);
                let cur = self.entries@;
                assert forall|i: int| 0 <= i < cur.len() implies (
                #[trigger] cur[i]).preset.wf() by {
                    if i < k {
                        assert(cur[i] == prior[i]);
                    } else if i > k {
                        assert(cur[i] == prior[i - 1]);
                    }
                }
                assert(self.wf());
                lemma_unique_position(*self, bank, preset_id, k as int);
                assert forall|b: u16, p: u8| !(b == bank && p == preset_id) implies (
                spec_has_preset(*self, b, p) <==> spec_has_preset(*old(self), b, p)) by {
                    if spec_has_preset(*self, b, p) {
                        let i = choose|i: int|
                            0 <= i < cur.len() && (#[trigger] cur[i]).bank == b
                                && cur[i].preset_id == p;
                        assert(i != k);
                        if i < k {
                            assert(prior[i].bank == b && prior[i].preset_id == p);
                        } else {
                            assert(prior[i - 1].bank == b && prior[i - 1].preset_id == p);
                        }
                    }
                    if spec_has_preset(*old(self), b, p) {
                        let j = choose|j: int|
                            0 <= j < prior.len() && (#[trigger] prior[j]).bank == b
                                && prior[j].preset_id == p;
                        if j < k {
                            assert(cur[j].bank == b && cur[j].preset_id == p);
                        } else {
                            assert(cur[j + 1].bank == b && cur[j + 1].preset_id == p);
                        }
                    }
                }
                assert forall|b: u16, p: u8|
                    !(b == bank && p == preset_id) && spec_has_preset(*old(self), b, p) implies
                    spec_preset_at(*self, b, p) == spec_preset_at(*old(self), b, p) by {
                    let j = choose|j: int|
                        0 <= j < prior.len() && (#[trigger] prior[j]).bank == b
                            && prior[j].preset_id == p;
                    lemma_unique_position(*old(self), b, p, j);
                    if j < k {
                        assert(cur[j] == prior[j]);
                        lemma_unique_position(*self, b, p, j);
                    } else {
                        assert(cur[j + 1] == prior[j]);
                        lemma_unique_position(*self, b, p, j + 1);
                    }
                }
            }
        }
    }

    /// Whether a preset is stored under `bank` and `preset_id`.
    pub fn has_preset(&self, bank: u16, preset_id: u8) -> (r: bool)
        ensures
            r == spec_has_preset(*self, bank, preset_id),
    {
        let n = self.entries.len();
        let mut k: usize = 0;
        while k < n
            invariant
                k <= n,
                n == self.entries@.len(),
                forall|i: int|
                    0 <= i < k ==> !((#[trigger] self.entries@[i]).bank == bank
                        && self.entries@[i].preset_id == preset_id),
            decreases n - k,
        {
            if self.entries[k].bank == bank && self.entries[k].preset_id == preset_id {
                return true;
            }
            k += 1;
        }
        false
    }

    /// The preset with the smallest bank number, and within it the smallest
    /// program number; `None` exactly when the directory is empty.
    pub fn first_available_preset(&self) -> (r: Option<(u16, u8)>)
        requires
            self.wf(),
        ensures
            match r {
                Some(bp) => {
                    &&& spec_has_preset(*self, bp.0, bp.1)
                    &&& forall|b: u16, p: u8|
                        spec_has_preset(*self, b, p) ==> bp.0 * 256 + bp.1 <= b * 256 + p
                },
                None => self.entries@.len() == 0,
            },
    {
        if self.entries.len() == 0 {
            None
        } else {
            let first = &self.entries[0];
            proof {
                assert forall|b: u16, p: u8|
                    spec_has_preset(*self, b, p) implies self.entries@[0].bank * 256
                    + self.entries@[0].preset_id <= b * 256 + p by {
                    let i = choose|i: int|
                        0 <= i < self.entries@.len() && (#[trigger] self.entries@[i]).bank == b
                            && self.entries@[i].preset_id == p;
                    assert(spec_entry_key(self.entries@[0]) <= spec_entry_key(self.entries@[i]));
                }
            }
            Some((first.bank, first.preset_id))
        }
    }
}

impl Default for PresetMap {
    fn default() -> (r: PresetMap)
        ensures
            r.wf(),
            r.entries@.len() == 0,
    {
        PresetMap::new()
    }
}

/// Which preset an engine should select after a resource load: the last
/// explicitly chosen bank and program where the new resource still offers
/// them, else the first available preset, else none.
pub fn resolve_preset(map: &PresetMap, last_bank: Option<u16>, last_preset: Option<u8>) -> (r:
    Option<(u16, u8)>)
    requires
        map.wf(),
    ensures
        match (last_bank, last_preset) {
            (Some(b), Some(p)) => if spec_has_preset(*map, b, p) {
                r == Some((b, p))
            } else {
                spec_first_or_none(*map, r)
            },
            _ => spec_first_or_none(*map, r),
        },
{
    match (last_bank, last_preset) {
        (Some(b), Some(p)) => {
            if map.has_preset(b, p) {
                Some((b, p))
            } else {
                map.first_available_preset()
            }
        },
        _ => map.first_available_preset(),
    }
}

/// What inserting a fresh entry `e` at position `k` does to a sorted entry
/// list: the list stays sorted, `e` stands at `k`, and every other element
/// keeps its relative position.
proof fn lemma_after_insert(prior: Seq<PresetEntry>, cur: Seq<PresetEntry>, e: PresetEntry, k: int)
    requires
        0 <= k <= prior.len(),
        cur == prior.insert(k, e),
        forall|i: int, j: int|
            0 <= i < j < prior.len() ==> spec_entry_key(#[trigger] prior[i]) < spec_entry_key(
                #[trigger] prior[j],
            ),
        forall|i: int| 0 <= i < k ==> spec_entry_key(#[trigger] prior[i]) < spec_entry_key(e),
        k < prior.len() ==> spec_entry_key(prior[k]) > spec_entry_key(e),
    ensures
        cur.len() == prior.len() + 1,
        cur[k] == e,
        forall|i: int| 0 <= i < k ==> #[trigger] cur[i] == prior[i],
        forall|i: int| k < i < cur.len() ==> #[trigger] cur[i] == prior[i - 1],
        forall|i: int, j: int|
            0 <= i < j < cur.len() ==> spec_entry_key(#[trigger] cur[i]) < spec_entry_key(
                #[trigger] cur[j],
            ),
{
    prior.insert_ensures(k, e);
    assert forall|i: int| k < i < cur.len() implies #[trigger] cur[i] == prior[i - 1] by {
        assert(cur[(i - 1) + 1] == prior[i - 1]);
    }
    assert forall|i: int, j: int|
        0 <= i < j < cur.len() implies spec_entry_key(#[trigger] cur[i]) < spec_entry_key(
        #[trigger] cur[j],
    ) by {
        if i < k {
            assert(cur[i] == prior[i]);
        } else if i > k {
            assert(cur[i] == prior[i - 1]);
        }
        if j < k {
            assert(cur[j] == prior[j]);
        } else if j > k {
            assert(cur[j] == prior[j - 1]);
        }
    }
}

/// The preset stored under `bank` and `preset_id`; meaningful only where
/// [`spec_has_preset`] holds.
pub open spec fn spec_preset_at(m: PresetMap, bank: u16, preset_id: u8) -> Preset {
    let i = choose|i: int|
        0 <= i < m.entries@.len() && (#[trigger] m.entries@[i]).bank == bank
            && m.entries@[i].preset_id == preset_id;
    m.entries@[i].preset
}

/// In a sorted directory an index holding `(b, p)` is the index the lookup
/// spec picks: keys are strictly sorted, so the pair appears only once.
pub proof fn lemma_unique_position(m: PresetMap, b: u16, p: u8, i: int)
    requires
        m.wf(),
        0 <= i < m.entries@.len(),
        m.entries@[i].bank == b,
        m.entries@[i].preset_id == p,
    ensures
        spec_has_preset(m, b, p),
        spec_preset_at(m, b, p) == m.entries@[i].preset,
{
    assert(spec_has_preset(m, b, p));
    let j = choose|j: int|
        0 <= j < m.entries@.len() && (#[trigger] m.entries@[j]).bank == b && m.entries@[j].preset_id
            == p;
    if i != j {
        assert(spec_entry_key(m.entries@[i]) == spec_entry_key(m.entries@[j]));
        if i < j {
            assert(spec_entry_key(m.entries@[i]) < spec_entry_key(m.entries@[j]));
        } else {
            assert(spec_entry_key(m.entries@[j]) < spec_entry_key(m.entries@[i]));
        }
    }
}

/// `r` is the numerically first preset of `m`, or `None` where `m` is
/// empty.
pub open spec fn spec_first_or_none(m: PresetMap, r: Option<(u16, u8)>) -> bool {
    match r {
        Some(bp) => spec_has_preset(m, bp.0, bp.1) && forall|b: u16, p: u8|
            spec_has_preset(m, b, p) ==> bp.0 * 256 + bp.1 <= b * 256 + p,
        None => m.entries@.len() == 0,
    }
}

} // verus!
