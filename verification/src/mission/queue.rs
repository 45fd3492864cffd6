//! A bounded first-in, first-out queue of missions.

use vstd::prelude::*;
use std::collections::VecDeque;
use super::mission::Mission;
use super::errors::MissionError;

verus! {

pub struct MissionQueue {
    queue: VecDeque<Mission>,
    max_size: usize,
}

impl View for MissionQueue {
    type V = Seq<Mission>;

    /// The waiting missions, oldest first.
    closed spec fn view(&self) -> Seq<Mission> {
        self.queue@
    }
}

impl MissionQueue {
    /// The queue never holds more missions than its capacity.
    #[verifier::type_invariant]
    spec fn within_capacity(&self) -> bool {
        self.queue@.len() <= self.max_size
    }

    /// How many missions the queue can hold.
    pub closed spec fn capacity(&self) -> nat {
        self.max_size as nat
    }

    pub fn new(max_size: usize) -> (res: Self)
        ensures
            res@ == Seq::<Mission>::empty(),
            res.capacity() == max_size,
    {
        MissionQueue { queue: VecDeque::new(), max_size }
    }

    /// Appends a mission at the back; refused with `QueueFull`, leaving the
    /// queue as it was, when the queue is at capacity.
    pub fn push(&mut self, mission: Mission) -> (res: Result<(), MissionError>)
        ensures
            old(self)@.len() >= old(self).capacity() <==> res is Err,
            res matches Err(e) ==> e is QueueFull,
            res is Ok ==> final(self)@ == old(self)@.push(mission),
            res is Err ==> final(self)@ == old(self)@,
            final(self).capacity() == old(self).capacity(),
            final(self)@.len() <= final(self).capacity(),
    {
        proof {
            use_type_invariant(&*self);
        }
        if self.queue.len() >= self.max_size {
            return Err(MissionError::QueueFull);
        }
        let mut q: VecDeque<Mission> = VecDeque::new();
        std::mem::swap(&mut q, &mut self.queue);
        q.push_back(mission);
        self.queue = q;
        Ok(())
    }

    /// Takes the mission at the front, if any.
    pub fn pop(&mut self) -> (res: Option<Mission>)
        ensures
            old(self)@.len() == 0 <==> res is None,
            res matches Some(m) ==> m == old(self)@[0] && final(self)@ == old(self)@.drop_first(),
            res is None ==> final(self)@ == old(self)@,
            final(self).capacity() == old(self).capacity(),
            final(self)@.len() <= final(self).capacity(),
    {
        proof {
            use_type_invariant(&*self);
        }
        let mut q: VecDeque<Mission> = VecDeque::new();
        std::mem::swap(&mut q, &mut self.queue);
        let res = q.pop_front();
        self.queue = q;
        res
    }

    /// The number of waiting missions, which never exceeds the capacity.
    pub fn len(&self) -> (res: usize)
        ensures
            res == self@.len(),
            res <= self.capacity(),
    {
        proof {
            use_type_invariant(self);
        }
        self.queue.len()
    }

    pub fn is_empty(&self) -> (res: bool)
        ensures
            res == (self@.len() == 0),
    {
        self.queue.len() == 0
    }

}

} // verus!
