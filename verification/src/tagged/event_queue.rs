use vstd::prelude::*;
use std::collections::VecDeque;
use vstd::std_specs::convert::FromSpec;
use crate::tagged::event::Event;

verus! {

/// Events as plain values, oldest first.
pub struct EventQueue {
    queue: VecDeque<Event>,
}

impl View for EventQueue {
    type V = Seq<Event>;

    closed spec fn view(&self) -> Seq<Event> {
        self.queue@
    }
}

impl EventQueue {
    pub fn new() -> (queue: EventQueue)
        ensures
            queue@ == Seq::<Event>::empty(),
    {
        EventQueue { queue: VecDeque::new() }
    }

    /// Converts `value` to an event and puts it behind those that wait.
    pub fn push_back<T>(&mut self, value: T) where Event: From<T>
        ensures
            final(self)@.len() == old(self)@.len() + 1,
            final(self)@.drop_last() == old(self)@,
            <Event as FromSpec<T>>::obeys_from_spec() ==> final(self)@.last() == <Event as FromSpec<
                T,
            >>::from_spec(value),
    {
        self.queue.push_back(Event::from(value));
        assert(self@.drop_last() =~= old(self)@);
    }

    /// Takes the oldest event out, if there is one.
    pub fn pop_front(&mut self) -> (event: Option<Event>)
        ensures
            match event {
                Some(first) => {
                    &&& old(self)@.len() > 0
                    &&& first == old(self)@[0]
                    &&& final(self)@ == old(self)@.subrange(1, old(self)@.len() as int)
                },
                None => {
                    &&& old(self)@.len() == 0
                    &&& final(self)@ == old(self)@
                },
            },
    {
        self.queue.pop_front()
    }
}

} // verus!
