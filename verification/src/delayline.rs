//! A fixed-length circular register of samples.
use vstd::prelude::*;
use crate::arithmetic::{Sample, ZERO};
use crate::error::FilterError;

verus! {

/// A register of `L >= 1` slots and a cursor into them. A write stores at the
/// cursor and moves it on by one slot, so a read gives what was written `L`
/// writes ago.
pub struct DelayLine {
    buffer: Vec<Sample>,
    length: usize,
    index: usize,
}

/// The position that follows `i` on a ring of `len` slots.
pub open spec fn next_slot(i: int, len: int) -> int {
    if i + 1 == len {
        0
    } else {
        i + 1
    }
}

/// The position `k` slots after `i` on a ring of `len` slots, for `i < len` and `k <= len`.
pub open spec fn ring(i: int, k: int, len: int) -> int {
    if i + k < len {
        i + k
    } else {
        i + k - len
    }
}

/// `len` samples, all zero.
pub open spec fn zeros(len: nat) -> Seq<Sample> {
    Seq::new(len, |i: int| ZERO)
}

/// What a register that holds `history`, oldest first, holds after a write of `sample`.
pub open spec fn pushed(history: Seq<Sample>, sample: Sample) -> Seq<Sample> {
    history.subrange(1, history.len() as int).push(sample)
}

/// What a register that holds `history`, oldest first, holds after the
/// samples of `written` have been written to it in order: the last
/// `history.len()` samples of the two taken together.
pub open spec fn after_writes(history: Seq<Sample>, written: Seq<Sample>) -> Seq<Sample> {
    (history + written).subrange(written.len() as int, (written.len() + history.len()) as int)
}

/// Writes take effect one by one.
pub proof fn write_one_more(history: Seq<Sample>, written: Seq<Sample>, sample: Sample)
    requires
        history.len() >= 1,
    ensures
        after_writes(history, Seq::<Sample>::empty()) == history,
        pushed(after_writes(history, written), sample) == after_writes(
            history,
            written.push(sample),
        ),
{
    assert(after_writes(history, Seq::<Sample>::empty()) =~= history);
    assert(pushed(after_writes(history, written), sample) =~= after_writes(
        history,
        written.push(sample),
    ));
}

/// A register of `L` slots delays by `L` writes: the sample at position `i` of
/// the history is the one that was there `written.len()` positions later, or,
/// once that many samples have been written, one of them.
pub proof fn register_delays(history: Seq<Sample>, written: Seq<Sample>, i: int)
    requires
        0 <= i < history.len(),
    ensures
        after_writes(history, written).len() == history.len(),
        i + written.len() < history.len() ==> after_writes(history, written)[i] == history[i
            + written.len()],
        i + written.len() >= history.len() ==> after_writes(history, written)[i] == written[i
            + written.len() - history.len()],
{
}

impl DelayLine {
    /// The slots in their storage order.
    pub closed spec fn slots(&self) -> Seq<Sample> {
        self.buffer@
    }

    /// The index of the slot that is read and written next.
    pub closed spec fn cursor(&self) -> int {
        self.index as int
    }

    /// The invariant of the type: at least one slot, and the cursor on a slot.
    pub closed spec fn wf(&self) -> bool {
        &&& self.length == self.buffer.len()
        &&& 1 <= self.buffer.len()
        &&& self.index < self.buffer.len()
    }

    /// The number of slots.
    pub open spec fn len(&self) -> nat {
        self.slots().len()
    }

    /// The contents from the oldest sample, which is read next, to the newest.
    pub open spec fn history(&self) -> Seq<Sample> {
        Seq::new(self.len(), |k: int| self.slots()[ring(self.cursor(), k, self.len() as int)])
    }

    /// Well-formedness in terms of the slots and the cursor.
    pub proof fn lemma_wf(&self)
        requires
            self.wf(),
        ensures
            1 <= self.len(),
            0 <= self.cursor() < self.len(),
            self.history().len() == self.len(),
            self.history()[0] == self.slots()[self.cursor()],
    {
    }

    /// A register of `buffer_length` zeros with the cursor on the first slot.
    /// A length of zero is an invalid configuration.
    pub fn new(buffer_length: usize) -> (r: Result<Self, FilterError>)
        ensures
            buffer_length == 0 ==> r == Err::<Self, FilterError>(FilterError::InvalidConfiguration),
            buffer_length > 0 ==> r is Ok,
            r matches Ok(line) ==> {
                &&& line.wf()
                &&& line.slots() == zeros(buffer_length as nat)
                &&& line.cursor() == 0
                &&& line.history() == zeros(buffer_length as nat)
            },
    {
        if buffer_length == 0 {
            return Err(FilterError::InvalidConfiguration);
        }
        let mut buffer: Vec<Sample> = Vec::new();
        let mut i: usize = 0;
        while i < buffer_length
            invariant
                i <= buffer_length,
                buffer@ == zeros(i as nat),
            decreases buffer_length - i,
        {
            buffer.push(ZERO);
            i += 1;
            assert(buffer@ =~= zeros(i as nat));
        }
        let line = Self { buffer, length: buffer_length, index: 0 };
        assert(line.history() =~= zeros(buffer_length as nat));
        Ok(line)
    }

    /// The sample under the cursor, which is the oldest.
    pub fn read(&self) -> (s: Sample)
        requires
            self.wf(),
        ensures
            s == self.slots()[self.cursor()],
            s == self.history()[0],
    {
        self.buffer[self.index]
    }

    /// Stores the sample under the cursor and moves the cursor on by one slot,
    /// back to the first after the last.
    pub fn write_and_advance(&mut self, sample: &Sample)
        requires
            old(self).wf(),
        ensures
            final(self).wf(),
            final(self).len() == old(self).len(),
            final(self).slots() == old(self).slots().update(old(self).cursor(), *sample),
            final(self).cursor() == (old(self).cursor() + 1) % (old(self).len() as int),
            final(self).cursor() == next_slot(old(self).cursor(), old(self).len() as int),
            final(self).history() == pushed(old(self).history(), *sample),
    {
        self.buffer.set(self.index, *sample);
        self.index += 1;
        self.index %= self.length;
        proof {
            let len = old(self).len() as int;
            let c = old(self).cursor();
            if c + 1 == len {
                assert((c + 1) % len == 0) by (nonlinear_arith)
                    requires c + 1 == len, len > 0;
            } else {
                assert((c + 1) % len == c + 1) by (nonlinear_arith)
                    requires 0 <= c + 1 < len;
            }
            assert(self.history() =~= pushed(old(self).history(), *sample));
        }
    }

    /// Zeroes every slot and puts the cursor back on the first.
    pub fn clear(&mut self)
        requires
            old(self).wf(),
        ensures
            final(self).wf(),
            final(self).len() == old(self).len(),
            final(self).slots() == zeros(old(self).len()),
            final(self).cursor() == 0,
            final(self).history() == zeros(old(self).len()),
    {
        let mut i: usize = 0;
        while i < self.length
            invariant
                self.length == self.buffer.len(),
                self.length == old(self).buffer.len(),
                self.index == old(self).index,
                i <= self.length,
                forall|k: int| 0 <= k < i ==> self.buffer@[k] == ZERO,
            decreases self.length - i,
        {
            self.buffer.set(i, ZERO);
            i += 1;
        }
        self.index = 0;
        assert(self.buffer@ =~= zeros(old(self).len()));
        assert(self.history() =~= zeros(old(self).len()));
    }
}

} // verus!
