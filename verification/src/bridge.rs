use vstd::prelude::*;

verus! {

/// The model of one stream's lockable, optionally present buffered
/// writer: present while armed, taken exactly once at finalize, with
/// the running count of samples appended so far.
pub struct WriterSlot {
    /// A writer is present: samples can still be appended.
    pub present: bool,
    /// Samples appended so far; the count a finalized recording
    /// reports.
    pub count: u32,
}

/// `a + b` capped at the widest count a WAV recording reports.
pub open spec fn spec_sat_add(a: u32, b: u32) -> u32 {
    if a + b > u32::MAX {
        u32::MAX
    } else {
        (a + b) as u32
    }
}

impl WriterSlot {
    /// A freshly armed slot: writer present, nothing appended.
    pub fn armed() -> (s: WriterSlot)
        ensures
            s.present,
            s.count == 0,
    {
        WriterSlot { present: true, count: 0 }
    }

    /// The per-callback write step, as decided on the hardware
    /// thread. `acquired` is the outcome of the non-blocking lock
    /// attempt: when it failed, or when the writer was already taken,
    /// the whole buffer of `n` samples is dropped silently and the
    /// slot is untouched — the callback path never blocks and never
    /// fails. Only with the lock held and a writer present are the
    /// samples appended.
    pub fn write_input(&mut self, acquired: bool, n: u32)
        ensures
            !(acquired && old(self).present) ==> *final(self) == *old(self),
            acquired && old(self).present ==> final(self).present && final(self).count == spec_sat_add(
                old(self).count,
                n,
            ),
    {
        if acquired && self.present {
            if self.count <= u32::MAX - n {
                self.count = self.count + n;
            } else {
                self.count = u32::MAX;
            }
        }
    }

    /// Take the writer at finalize time, at most once: the count it
    /// emitted comes back on the first take, and `None` ever after.
    pub fn take(&mut self) -> (r: Option<u32>)
        ensures
            !final(self).present,
            final(self).count == old(self).count,
            old(self).present ==> r == Some(old(self).count),
            !old(self).present ==> r is None,
    {
        if self.present {
            self.present = false;
            Some(self.count)
        } else {
            None
        }
    }
}

} // verus!
