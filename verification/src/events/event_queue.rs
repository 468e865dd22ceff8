use vstd::prelude::*;
use std::collections::VecDeque;
use crate::events::event_box::EventBox;

verus! {

/// The events that wait to be dispatched, oldest first.
pub struct EventQueue {
    queue: VecDeque<EventBox>,
}

impl View for EventQueue {
    type V = Seq<EventBox>;

    closed spec fn view(&self) -> Seq<EventBox> {
        self.queue@
    }
}

impl EventQueue {
    pub fn new() -> (queue: EventQueue)
        ensures
            queue@ == Seq::<EventBox>::empty(),
    {
        EventQueue { queue: VecDeque::new() }
    }

    /// Puts `value` behind the events that wait already.
    pub fn push(&mut self, value: EventBox)
        ensures
            final(self)@ == old(self)@.push(value),
    {
        self.queue.push_back(value);
    }

    /// Takes the oldest event out, if there is one.
    pub fn next(&mut self) -> (event: Option<EventBox>)
        ensures
            match event {
                Some(first) => {
                    &&& old(self)@.len() > 0
                    &&& first == old(self)@[0]
                    &&& final(self)@ == old(self)@.subrange(1, old(self)@.len() as int)
                },
                None => {
                    &&& old(self)@.len() == 0
                    &&& final(self)@ == old(self)@
                },
            },
    {
        self.queue.pop_front()
    }

    /// How many events wait.
    pub fn len(&self) -> (len: usize)
        ensures
            len == self@.len(),
    {
        self.queue.len()
    }
}

} // verus!
