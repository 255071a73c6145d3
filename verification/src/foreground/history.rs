//! Bounded sparkline history of the most recent metric samples.
use std::collections::VecDeque;
use vstd::prelude::*;

verus! {

/// Number of samples a dashboard sparkline retains.
pub const HISTORY_CAPACITY: usize = 60;

/// Content of a history after one more sample: the oldest sample leaves a full history.
pub open spec fn pushed(values: Seq<u64>, value: u64) -> Seq<u64> {
    if values.len() == HISTORY_CAPACITY {
        values.drop_first().push(value)
    } else {
        values.push(value)
    }
}

/// Content of a history that started empty and received `samples` in order.
pub open spec fn history_of(samples: Seq<u64>) -> Seq<u64>
    decreases samples.len(),
{
    if samples.len() == 0 {
        Seq::empty()
    } else {
        pushed(history_of(samples.drop_last()), samples.last())
    }
}

/// The last `HISTORY_CAPACITY` samples (all of them when there are fewer).
pub open spec fn most_recent(samples: Seq<u64>) -> Seq<u64> {
    if samples.len() <= HISTORY_CAPACITY {
        samples
    } else {
        samples.subrange(samples.len() - HISTORY_CAPACITY, samples.len() as int)
    }
}

/// Bounded FIFO of the most recent samples, oldest first.
#[derive(Debug)]
pub struct History {
    values: VecDeque<u64>,
}

impl View for History {
    type V = Seq<u64>;

    closed spec fn view(&self) -> Seq<u64> {
        self.values@
    }
}

impl History {
    #[verifier::type_invariant]
    spec fn bounded(self) -> bool {
        self.values@.len() <= HISTORY_CAPACITY
    }

    /// Append one sample, dropping the oldest when the history is full.
    pub fn push(&mut self, value: u64)
        ensures
            final(self)@ == pushed(old(self)@, value),
            final(self)@.len() <= HISTORY_CAPACITY,
    {
        proof {
            use_type_invariant(&*self);
        }
        let mut values = VecDeque::new();
        std::mem::swap(&mut values, &mut self.values);
        if values.len() == HISTORY_CAPACITY {
            values.pop_front();
        }
        values.push_back(value);
        self.values = values;
    }

    /// Return the retained samples, oldest first.
    pub fn values(&self) -> (values: Vec<u64>)
        ensures
            values@ == self@,
            values@.len() <= HISTORY_CAPACITY,
    {
        proof {
            use_type_invariant(self);
        }
        let mut out: Vec<u64> = Vec::new();
        let mut i: usize = 0;
        while i < self.values.len()
            invariant
                i <= self.values@.len(),
                out@ == self.values@.subrange(0, i as int),
            decreases self.values@.len() - i,
        {
            out.push(self.values[i]);
            i = i + 1;
            proof {
                assert(out@ =~= self.values@.subrange(0, i as int));
            }
        }
        proof {
            assert(out@ =~= self.values@);
        }
        out
    }
}

impl Default for History {
    fn default() -> (history: Self)
        ensures
            history@ == Seq::<u64>::empty(),
    {
        History { values: VecDeque::new() }
    }
}

/// A history that received any sequence of samples holds exactly the most recent
/// `HISTORY_CAPACITY` of them, oldest first.
pub proof fn lemma_history_keeps_most_recent(samples: Seq<u64>)
    ensures
        history_of(samples) == most_recent(samples),
        history_of(samples).len() <= HISTORY_CAPACITY,
    decreases samples.len(),
{
    if samples.len() > 0 {
        let prefix = samples.drop_last();
        lemma_history_keeps_most_recent(prefix);
        let n = samples.len() as int;
        if prefix.len() == HISTORY_CAPACITY {
            assert(most_recent(prefix).drop_first().push(samples.last()) =~= most_recent(samples));
        } else if prefix.len() < HISTORY_CAPACITY {
            assert(prefix.push(samples.last()) =~= samples);
        } else {
            assert(most_recent(prefix).drop_first().push(samples.last()) =~= most_recent(samples));
        }
    }
}

} // verus!
