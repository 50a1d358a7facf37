use vstd::prelude::*;

use std::collections::VecDeque;

verus! {

/// How many frames the rewind history keeps (60 are about one second).
pub const REWIND_STACK_CAPACITY: usize = 300;

/// A bounded history of the last frames: once full, recording a frame forgets the oldest one.
pub struct History<T> {
    pub entries: VecDeque<T>,
    pub capacity: usize,
}

impl<T> History<T> {
    /// The history never holds more than its capacity.
    pub open spec fn wf(&self) -> bool {
        self.capacity > 0 && self.entries@.len() <= self.capacity
    }

    /// An empty history holding at most `capacity` frames.
    pub fn new(capacity: usize) -> (h: History<T>)
        requires
            capacity > 0,
        ensures
            h.wf(),
            h.entries@.len() == 0,
            h.capacity == capacity,
    {
        History { entries: VecDeque::new(), capacity }
    }

    /// The number of frames held.
    pub fn len(&self) -> (n: usize)
        ensures
            n == self.entries@.len(),
    {
        self.entries.len()
    }

    /// Records `item` as the newest frame, forgetting the oldest when the history is full.
    pub fn push(&mut self, item: T)
        requires
            old(self).wf(),
        ensures
            final(self).wf(),
            final(self).capacity == old(self).capacity,
            final(self).entries@ == if old(self).entries@.len() == old(self).capacity {
                old(self).entries@.drop_first().push(item)
            } else {
                old(self).entries@.push(item)
            },
    {
        if self.entries.len() == self.capacity {
            let _ = self.entries.pop_front();
        }
        self.entries.push_back(item);
        proof {
            assert(old(self).entries@.subrange(1, old(self).entries@.len() as int) =~= old(self).entries@.drop_first());
        }
    }

    /// Takes the newest frame back, if any.
    pub fn pop(&mut self) -> (item: Option<T>)
        requires
            old(self).wf(),
        ensures
            final(self).wf(),
            final(self).capacity == old(self).capacity,
            old(self).entries@.len() == 0 ==> item is None && final(self).entries@ == old(self).entries@,
            old(self).entries@.len() > 0 ==> item == Some(old(self).entries@.last())
                && final(self).entries@ == old(self).entries@.drop_last(),
    {
        let item = self.entries.pop_back();
        proof {
            if old(self).entries@.len() > 0 {
                assert(old(self).entries@.subrange(0, old(self).entries@.len() - 1) =~= old(self).entries@.drop_last());
            }
        }
        item
    }
}

/// Recording a frame and taking the newest one back returns that frame and, when the history
/// was not full, leaves the history as it was.
pub proof fn lemma_push_then_pop<T>(entries: Seq<T>, capacity: nat, item: T)
    requires
        entries.len() <= capacity,
        capacity > 0,
    ensures
        ({
            let pushed = if entries.len() == capacity { entries.drop_first().push(item) } else { entries.push(item) };
            &&& pushed.len() <= capacity
            &&& pushed.last() == item
            &&& entries.len() < capacity ==> pushed.drop_last() == entries
        }),
{
    let pushed = if entries.len() == capacity { entries.drop_first().push(item) } else { entries.push(item) };
    if entries.len() < capacity {
        assert(pushed.drop_last() =~= entries);
    }
}

} // verus!
