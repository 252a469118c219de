//! The ordered mailbox of pending events.

use std::collections::VecDeque;
use vstd::prelude::*;

use crate::event::{Event, EventView};

verus! {

/// The models of a sequence of events, in the same order.
pub open spec fn views(events: Seq<Event>) -> Seq<EventView> {
    events.map_values(|event: Event| event@)
}

/// A first-in, first-out queue of events that grows without bound.
pub struct EventQueue {
    items: VecDeque<Event>,
}

impl View for EventQueue {
    type V = Seq<EventView>;

    closed spec fn view(&self) -> Seq<EventView> {
        views(self.items@)
    }
}

impl EventQueue {
    /// An empty queue.
    pub fn new() -> (queue: EventQueue)
        ensures
            queue@ == Seq::<EventView>::empty(),
    {
        let queue = EventQueue { items: VecDeque::new() };
        assert(queue@ =~= Seq::<EventView>::empty());
        queue
    }

    /// The number of pending events.
    pub fn len(&self) -> (n: usize)
        ensures
            n == self@.len(),
    {
        self.items.len()
    }

    /// Whether no event is pending.
    pub fn is_empty(&self) -> (empty: bool)
        ensures
            empty == (self@.len() == 0),
    {
        self.items.len() == 0
    }

    /// Appends `event` at the tail.
    pub fn push(&mut self, event: Event)
        ensures
            final(self)@ == old(self)@.push(event@),
    {
        self.items.push_back(event);
        assert(self@ =~= old(self)@.push(event@));
    }

    /// Removes and returns the head, or `None` when the queue is empty.
    pub fn pop(&mut self) -> (head: Option<Event>)
        ensures
            old(self)@.len() == 0 ==> head is None && final(self)@ == old(self)@,
            old(self)@.len() > 0 ==> head is Some && head->0@ == old(self)@[0]
                && final(self)@ == old(self)@.skip(1),
    {
        let head = self.items.pop_front();
        assert(self@ =~= if old(self)@.len() == 0 { old(self)@ } else { old(self)@.skip(1) });
        head
    }
}

/// One use of a queue: an event is appended, or the head is taken.
pub enum QueueOp {
    Push(EventView),
    Pop,
}

/// What is pending after `ops` were applied, in order, to an empty queue. A
/// `Pop` on an empty queue changes nothing.
pub open spec fn pending_after(ops: Seq<QueueOp>) -> Seq<EventView>
    decreases ops.len(),
{
    if ops.len() == 0 {
        Seq::empty()
    } else {
        let before = pending_after(ops.drop_last());
        match ops.last() {
            QueueOp::Push(event) => before.push(event),
            QueueOp::Pop => if before.len() > 0 {
                before.skip(1)
            } else {
                before
            },
        }
    }
}

/// The events that the `Pop`s among `ops` handed out, in the order they did.
pub open spec fn served_by(ops: Seq<QueueOp>) -> Seq<EventView>
    decreases ops.len(),
{
    if ops.len() == 0 {
        Seq::empty()
    } else {
        let before = pending_after(ops.drop_last());
        match ops.last() {
            QueueOp::Push(_) => served_by(ops.drop_last()),
            QueueOp::Pop => if before.len() > 0 {
                served_by(ops.drop_last()).push(before[0])
            } else {
                served_by(ops.drop_last())
            },
        }
    }
}

/// The events that the `Push`es among `ops` appended, in the order they did.
pub open spec fn offered_by(ops: Seq<QueueOp>) -> Seq<EventView>
    decreases ops.len(),
{
    if ops.len() == 0 {
        Seq::empty()
    } else {
        match ops.last() {
            QueueOp::Push(event) => offered_by(ops.drop_last()).push(event),
            QueueOp::Pop => offered_by(ops.drop_last()),
        }
    }
}

/// First in, first out: however pushes and pops interleave, the events handed
/// out so far, followed by those still pending, are the events that were pushed,
/// in the order they were pushed.
pub proof fn fifo_order(ops: Seq<QueueOp>)
    ensures
        served_by(ops) + pending_after(ops) == offered_by(ops),
    decreases ops.len(),
{
    if ops.len() > 0 {
        fifo_order(ops.drop_last());
        let before = pending_after(ops.drop_last());
        let served = served_by(ops.drop_last());
        assert(served + before == offered_by(ops.drop_last()));
        match ops.last() {
            QueueOp::Push(event) => {
                assert(served + before.push(event) =~= (served + before).push(event));
            },
            QueueOp::Pop => {
                if before.len() > 0 {
                    assert(served.push(before[0]) + before.skip(1) =~= served + before);
                }
            },
        }
    } else {
        assert(served_by(ops) + pending_after(ops) =~= offered_by(ops));
    }
}

} // verus!
