//! The closed set of events the reactor reacts to.

use vstd::prelude::*;

verus! {

/// What an [`Event`] stands for in contracts: its category and the text it carries.
pub enum EventView {
    Accept,
    Read(Seq<char>),
    Write(Seq<char>),
    Dirmon(Seq<char>),
    Quit,
}

/// A unit of work for the reactor.
#[derive(Debug, PartialEq, Eq)]
pub enum Event {
    /// A connection attempt should be tried, or tried again.
    Accept,
    /// More bytes should be read; the buffer is what an earlier attempt left.
    Read(String),
    /// The buffer should be written to the connected client.
    Write(String),
    /// A formatted description of a change in a watched directory.
    Dirmon(String),
    /// The service should end.
    Quit,
}

impl View for Event {
    type V = EventView;

    open spec fn view(&self) -> EventView {
        match *self {
            Event::Accept => EventView::Accept,
            Event::Read(buffer) => EventView::Read(buffer@),
            Event::Write(buffer) => EventView::Write(buffer@),
            Event::Dirmon(message) => EventView::Dirmon(message@),
            Event::Quit => EventView::Quit,
        }
    }
}

/// The model of an optional follow-up event.
pub open spec fn reply_view(reply: Option<Event>) -> Option<EventView> {
    match reply {
        Some(event) => Some(event@),
        None => None,
    }
}

impl Event {
    /// The follow-up that arms a read with `buffer`.
    pub fn read(buffer: String) -> (next: Option<Event>)
        ensures
            next == Some(Event::Read(buffer)),
    {
        Some(Event::Read(buffer))
    }

    /// The follow-up that arms a write of `buffer`.
    pub fn write(buffer: String) -> (next: Option<Event>)
        ensures
            next == Some(Event::Write(buffer)),
    {
        Some(Event::Write(buffer))
    }
}

} // verus!
