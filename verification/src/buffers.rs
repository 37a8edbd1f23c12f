//! Buffer discipline of the audio path: the grow-only scratch buffer every
//! node renders into, and the interleaving step of the output callback.
//!
//! The sample type is a parameter: these invariants do not depend on what a
//! sample is, and the I/O layer instantiates them at its own sample format.

use vstd::prelude::*;

verus! {

/// The largest sample block the audio path ever allocates for.
pub const MAX_BUFFER_SIZE: usize = 192000;

/// An internally owned scratch buffer that only ever grows, so a render
/// call never allocates when a block no longer than an earlier one is
/// requested, and a shorter block simply uses a prefix.
#[derive(Debug, Clone, PartialEq)]
pub struct Scratch<T> {
    pub buf: Vec<T>,
}

impl<T: Copy> Scratch<T> {
    pub fn new() -> (r: Scratch<T>)
        ensures
            r.buf@.len() == 0,
    {
        Scratch { buf: Vec::new() }
    }

    /// Make the buffer at least `len` samples long. It never shrinks, the
    /// samples already present keep their values, and any new cells hold
    /// `fill`; so a request for a shorter block than the last one changes
    /// nothing and reads stay within bounds.
    pub fn prepare(&mut self, len: usize, fill: T)
        ensures
            final(self).buf@.len() >= len,
            final(self).buf@.len() >= old(self).buf@.len(),
            final(self).buf@.len() == if len >= old(self).buf@.len() {
                len as int
            } else {
                old(self).buf@.len() as int
            },
            forall|i: int|
                0 <= i < old(self).buf@.len() ==> final(self).buf@[i] == old(self).buf@[i],
            forall|i: int|
                old(self).buf@.len() <= i < final(self).buf@.len() ==> final(self).buf@[i] == fill,
    {
        while self.buf.len() < len
            invariant
                self.buf@.len() >= old(self).buf@.len(),
                self.buf@.len() <= len || self.buf@.len() == old(self).buf@.len(),
                forall|i: int|
                    0 <= i < old(self).buf@.len() ==> self.buf@[i] == old(self).buf@[i],
                forall|i: int|
                    old(self).buf@.len() <= i < self.buf@.len() ==> self.buf@[i] == fill,
            decreases len - self.buf@.len(),
        {
            self.buf.push(fill);
        }
    }

    /// The number of samples currently allocated.
    pub fn len(&self) -> (n: usize)
        ensures
            n == self.buf@.len(),
    {
        self.buf.len()
    }
}

/// One stereo frame after another: `out` holds `l[0], r[0], l[1], r[1], ...`
/// for exactly the common length of the two channels.
pub fn interleave_stereo<T: Copy>(lbuf: &Vec<T>, rbuf: &Vec<T>, out: &mut Vec<T>)
    requires
        lbuf@.len() == rbuf@.len(),
    ensures
        final(out)@.len() == 2 * lbuf@.len(),
        forall|i: int| 0 <= i < lbuf@.len() ==> final(out)@[2 * i] == lbuf@[i],
        forall|i: int| 0 <= i < lbuf@.len() ==> final(out)@[2 * i + 1] == rbuf@[i],
{
    out.clear();
    let n = lbuf.len();
    let mut k: usize = 0;
    while k < n
        invariant
            k <= n,
            n == lbuf@.len() == rbuf@.len(),
            out@.len() == 2 * k,
            forall|i: int| 0 <= i < k ==> out@[2 * i] == lbuf@[i],
            forall|i: int| 0 <= i < k ==> out@[2 * i + 1] == rbuf@[i],
        decreases n - k,
    {
        out.push(lbuf[k]);
        out.push(rbuf[k]);
        k += 1;
    }
}

} // verus!
