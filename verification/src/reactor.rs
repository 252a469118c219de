//! The dispatcher: one event at a time, each routed to the handler of its category.
//!
//! The reactor never touches the connection itself. For an event that needs the
//! endpoint it names the operation ([`Reactor::attempt`]); the caller performs it
//! and hands the [`Outcome`] to [`Reactor::dispatch`], which decides what follows.

use vstd::prelude::*;

use crate::event::{reply_view, Event, EventView};
use crate::queue::EventQueue;

verus! {

/// The endpoint operation that an event calls for.
#[derive(Debug, Clone, Copy, PartialEq, Eq)]
pub enum Attempt {
    /// None: the event is settled without the endpoint.
    Nothing,
    /// Accept a pending connection.
    Accept,
    /// Read the bytes that are available.
    Read,
    /// Write the event's buffer.
    Write,
}

/// Why an endpoint operation did not go through.
#[derive(Debug, Clone, Copy, PartialEq, Eq)]
pub enum Failure {
    /// No progress was possible for now.
    WouldBlock,
    /// Any other error.
    Other,
}

/// How an endpoint operation ended.
#[derive(Debug, PartialEq, Eq)]
pub enum Outcome {
    /// No operation was made.
    Idle,
    /// A connection was accepted: the endpoint holds its stream now.
    Accepted,
    /// A read went through and decoded this text; none means that the peer
    /// has sent nothing more.
    Received(String),
    /// A write went through and took this many bytes.
    Sent(usize),
    /// No progress was possible for now.
    WouldBlock,
    /// The operation failed for good.
    Failed,
}

/// What an [`Outcome`] stands for in contracts.
pub enum OutcomeView {
    Idle,
    Accepted,
    Received(Seq<char>),
    Sent(usize),
    WouldBlock,
    Failed,
}

impl View for Outcome {
    type V = OutcomeView;

    open spec fn view(&self) -> OutcomeView {
        match *self {
            Outcome::Idle => OutcomeView::Idle,
            Outcome::Accepted => OutcomeView::Accepted,
            Outcome::Received(text) => OutcomeView::Received(text@),
            Outcome::Sent(amount) => OutcomeView::Sent(amount),
            Outcome::WouldBlock => OutcomeView::WouldBlock,
            Outcome::Failed => OutcomeView::Failed,
        }
    }
}

impl Outcome {
    /// How an attempt to accept ended.
    pub fn of_accept(result: Result<(), Failure>) -> (outcome: Outcome)
        ensures
            outcome@ == match result {
                Ok(_) => OutcomeView::Accepted,
                Err(Failure::WouldBlock) => OutcomeView::WouldBlock,
                Err(Failure::Other) => OutcomeView::Failed,
            },
    {
        match result {
            Ok(_) => Outcome::Accepted,
            Err(Failure::WouldBlock) => Outcome::WouldBlock,
            Err(Failure::Other) => Outcome::Failed,
        }
    }

    /// How an attempt to read ended that left `text` decoded. A read of no
    /// bytes has received nothing, and text that arrived before the stream
    /// would block counts as read.
    pub fn of_read(result: Result<usize, Failure>, text: String) -> (outcome: Outcome)
        ensures
            outcome@ == match result {
                Ok(amount) => if amount > 0 {
                    OutcomeView::Received(text@)
                } else {
                    OutcomeView::Received(Seq::empty())
                },
                Err(Failure::WouldBlock) => if text@.len() > 0 {
                    OutcomeView::Received(text@)
                } else {
                    OutcomeView::WouldBlock
                },
                Err(Failure::Other) => OutcomeView::Failed,
            },
    {
        match result {
            Ok(amount) => {
                if amount > 0 {
                    Outcome::Received(text)
                } else {
                    Outcome::Received(String::new())
                }
            },
            Err(Failure::WouldBlock) => {
                if text.as_str().is_empty() {
                    Outcome::WouldBlock
                } else {
                    Outcome::Received(text)
                }
            },
            Err(Failure::Other) => Outcome::Failed,
        }
    }

    /// How an attempt to write ended.
    pub fn of_write(result: Result<usize, Failure>) -> (outcome: Outcome)
        ensures
            outcome@ == match result {
                Ok(amount) => OutcomeView::Sent(amount),
                Err(Failure::WouldBlock) => OutcomeView::WouldBlock,
                Err(Failure::Other) => OutcomeView::Failed,
            },
    {
        match result {
            Ok(amount) => Outcome::Sent(amount),
            Err(Failure::WouldBlock) => Outcome::WouldBlock,
            Err(Failure::Other) => Outcome::Failed,
        }
    }
}

/// The handler that a settled event hands over to, with the text it is given.
#[derive(Debug, PartialEq, Eq)]
pub enum Call {
    /// A connection was accepted.
    Accepted,
    /// Text arrived from the client.
    Received(String),
    /// The buffer, or a part of it, was written.
    Sent(String),
    /// A watched directory changed.
    Changed(String),
}

/// What a [`Call`] stands for in contracts.
pub enum CallView {
    Accepted,
    Received(Seq<char>),
    Sent(Seq<char>),
    Changed(Seq<char>),
}

impl View for Call {
    type V = CallView;

    open spec fn view(&self) -> CallView {
        match *self {
            Call::Accepted => CallView::Accepted,
            Call::Received(text) => CallView::Received(text@),
            Call::Sent(buffer) => CallView::Sent(buffer@),
            Call::Changed(message) => CallView::Changed(message@),
        }
    }
}

/// The model of an optional call.
pub open spec fn call_view(call: Option<Call>) -> Option<CallView> {
    match call {
        Some(c) => Some(c@),
        None => None,
    }
}

/// The dispatcher's state as contracts see it.
pub struct ReactorView {
    /// The pending events, head first.
    pub pending: Seq<EventView>,
    /// Whether the endpoint holds a stream.
    pub connected: bool,
    /// Whether a `Quit` has been dispatched.
    pub stopped: bool,
    /// Whether a handler is registered for accepted connections.
    pub accepts: bool,
    /// Whether a handler is registered for received text.
    pub reads: bool,
    /// Whether a handler is registered for written buffers.
    pub writes: bool,
    /// Whether a handler is registered for directory changes.
    pub watches: bool,
}

impl ReactorView {
    /// The endpoint operation that `event` calls for in this state.
    ///
    /// An `Accept` asks for one only while no stream is held, a `Read` or a
    /// `Write` only while one is, and each only if its category has a handler.
    pub open spec fn attempt(self, event: EventView) -> Attempt {
        if self.stopped {
            Attempt::Nothing
        } else {
            match event {
                EventView::Accept if self.accepts && !self.connected => Attempt::Accept,
                EventView::Read(_) if self.reads && self.connected => Attempt::Read,
                EventView::Write(_) if self.writes && self.connected => Attempt::Write,
                _ => Attempt::Nothing,
            }
        }
    }

    /// The event that is queued again when `event` made no progress.
    pub open spec fn rearmed(event: EventView) -> EventView {
        match event {
            EventView::Read(_) => EventView::Read(Seq::empty()),
            other => other,
        }
    }

    /// Whether `outcome` says that the operation went through and moved
    /// something: a connection, some text, or some bytes. The outcome of
    /// another operation says nothing.
    pub open spec fn advanced(attempt: Attempt, outcome: OutcomeView) -> bool {
        match (attempt, outcome) {
            (Attempt::Accept, OutcomeView::Accepted) => true,
            (Attempt::Read, OutcomeView::Received(text)) => text.len() > 0,
            (Attempt::Write, OutcomeView::Sent(amount)) => amount > 0,
            _ => false,
        }
    }

    /// The handler that `event` hands over to once `outcome` is known, if any.
    pub open spec fn call(self, event: EventView, outcome: OutcomeView) -> Option<CallView> {
        if self.stopped {
            None
        } else if !Self::advanced(self.attempt(event), outcome) {
            match event {
                EventView::Dirmon(message) if self.watches => Some(CallView::Changed(message)),
                _ => None,
            }
        } else {
            match (event, outcome) {
                (EventView::Accept, _) => Some(CallView::Accepted),
                (EventView::Read(_), OutcomeView::Received(text)) => Some(
                    CallView::Received(text),
                ),
                (EventView::Write(buffer), _) => Some(CallView::Sent(buffer)),
                _ => None,
            }
        }
    }

    /// Whether `event` is queued again: its operation was due and did not go
    /// through, or moved nothing. A failure for good ends it, except for an
    /// `Accept`, which is always tried again.
    pub open spec fn rearms(self, event: EventView, outcome: OutcomeView) -> bool {
        let attempt = self.attempt(event);
        &&& attempt != Attempt::Nothing
        &&& !Self::advanced(attempt, outcome)
        &&& outcome is Failed ==> attempt == Attempt::Accept
    }

    /// The state once `event` is settled against `outcome`, before any handler
    /// has answered.
    pub open spec fn resolved(self, event: EventView, outcome: OutcomeView) -> ReactorView {
        let attempt = self.attempt(event);
        if self.stopped {
            self
        } else if event is Quit {
            ReactorView { stopped: true, ..self }
        } else if self.rearms(event, outcome) {
            self.pushed(Self::rearmed(event))
        } else if attempt == Attempt::Accept {
            ReactorView { connected: true, ..self }
        } else if attempt != Attempt::Nothing && outcome is Failed {
            ReactorView { connected: false, ..self }
        } else {
            self
        }
    }

    /// The state once `event` is appended at the tail of the queue.
    pub open spec fn pushed(self, event: EventView) -> ReactorView {
        ReactorView { pending: self.pending.push(event), ..self }
    }

    /// Whether the head of the queue can be taken: the reactor has not stopped
    /// and an event is pending.
    pub open spec fn serves(self) -> bool {
        !self.stopped && self.pending.len() > 0
    }

    /// The state once the head of the queue is taken, where it can be.
    pub open spec fn demuxed(self) -> ReactorView {
        if self.serves() {
            ReactorView { pending: self.pending.skip(1), ..self }
        } else {
            self
        }
    }

    /// The state once a handler's answer is queued at the tail.
    pub open spec fn followed(self, reply: Option<EventView>) -> ReactorView {
        match reply {
            Some(event) => self.pushed(event),
            None => self,
        }
    }

    /// The state after a whole dispatch of `event`, where `reply` is what the
    /// handler answered if one was called.
    pub open spec fn dispatched(
        self,
        event: EventView,
        outcome: OutcomeView,
        reply: Option<EventView>,
    ) -> ReactorView {
        if self.call(event, outcome) is Some {
            self.resolved(event, outcome).followed(reply)
        } else {
            self.resolved(event, outcome)
        }
    }
}

/// The dispatcher with its queue and its registry of handlers, one per category.
///
/// A category's first registration stands; a later one for the same category is
/// ignored.
pub struct Reactor<A, R, W, D> {
    queue: EventQueue,
    connected: bool,
    stopped: bool,
    accept: Option<A>,
    read: Option<R>,
    write: Option<W>,
    dir: Option<D>,
}

impl<A, R, W, D> View for Reactor<A, R, W, D> {
    type V = ReactorView;

    closed spec fn view(&self) -> ReactorView {
        ReactorView {
            pending: self.queue@,
            connected: self.connected,
            stopped: self.stopped,
            accepts: self.accept is Some,
            reads: self.read is Some,
            writes: self.write is Some,
            watches: self.dir is Some,
        }
    }
}

impl<A, R, W, D> Reactor<A, R, W, D> where
    A: Fn() -> Option<Event>,
    R: Fn(String) -> Option<Event>,
    W: Fn(String) -> Option<Event>,
    D: Fn(String) -> Option<Event>,
 {
    /// The handler for accepted connections.
    pub closed spec fn accept_handler(&self) -> Option<A> {
        self.accept
    }

    /// The handler for received text.
    pub closed spec fn read_handler(&self) -> Option<R> {
        self.read
    }

    /// The handler for written buffers.
    pub closed spec fn write_handler(&self) -> Option<W> {
        self.write
    }

    /// The handler for directory changes.
    pub closed spec fn dir_handler(&self) -> Option<D> {
        self.dir
    }

    /// Every registered handler can be called on every input, and the model
    /// tells which categories have one.
    pub open spec fn wf(&self) -> bool {
        &&& self@.accepts == (self.accept_handler() is Some)
        &&& self@.reads == (self.read_handler() is Some)
        &&& self@.writes == (self.write_handler() is Some)
        &&& self@.watches == (self.dir_handler() is Some)
        &&& self.accept_handler() is Some ==> call_requires(self.accept_handler()->0, ())
        &&& self.read_handler() is Some ==> forall|text: String|
            call_requires(self.read_handler()->0, (text,))
        &&& self.write_handler() is Some ==> forall|text: String|
            call_requires(self.write_handler()->0, (text,))
        &&& self.dir_handler() is Some ==> forall|text: String|
            call_requires(self.dir_handler()->0, (text,))
    }

    /// Whether the two reactors hold the same handlers.
    pub open spec fn same_handlers(&self, other: &Self) -> bool {
        &&& self.accept_handler() == other.accept_handler()
        &&& self.read_handler() == other.read_handler()
        &&& self.write_handler() == other.write_handler()
        &&& self.dir_handler() == other.dir_handler()
    }

    /// Whether `reply` is a possible answer of the registered handler to `call`;
    /// without a call, or without a handler, the only answer is `None`.
    pub open spec fn answers(&self, call: Option<Call>, reply: Option<Event>) -> bool {
        match call {
            Some(Call::Accepted) if self.accept_handler() is Some => call_ensures(
                self.accept_handler()->0,
                (),
                reply,
            ),
            Some(Call::Received(text)) if self.read_handler() is Some => call_ensures(
                self.read_handler()->0,
                (text,),
                reply,
            ),
            Some(Call::Sent(buffer)) if self.write_handler() is Some => call_ensures(
                self.write_handler()->0,
                (buffer,),
                reply,
            ),
            Some(Call::Changed(message)) if self.dir_handler() is Some => call_ensures(
                self.dir_handler()->0,
                (message,),
                reply,
            ),
            _ => reply is None,
        }
    }

    /// A reactor with an empty queue, no stream, and no handler.
    pub fn new() -> (reactor: Self)
        ensures
            reactor.wf(),
            reactor@ == (ReactorView {
                pending: Seq::empty(),
                connected: false,
                stopped: false,
                accepts: false,
                reads: false,
                writes: false,
                watches: false,
            }),
    {
        Reactor {
            queue: EventQueue::new(),
            connected: false,
            stopped: false,
            accept: None,
            read: None,
            write: None,
            dir: None,
        }
    }

    /// Registers the handler for accepted connections, unless one is registered.
    pub fn on_accept(&mut self, handler: A)
        requires
            old(self).wf(),
            call_requires(handler, ()),
        ensures
            final(self).wf(),
            final(self).accept_handler() == if old(self).accept_handler() is Some {
                old(self).accept_handler()
            } else {
                Some(handler)
            },
            final(self).read_handler() == old(self).read_handler(),
            final(self).write_handler() == old(self).write_handler(),
            final(self).dir_handler() == old(self).dir_handler(),
            final(self)@ == (ReactorView { accepts: true, ..old(self)@ }),
    {
        if self.accept.is_none() {
            self.accept = Some(handler);
        }
    }

    /// Registers the handler for received text, unless one is registered.
    pub fn on_read(&mut self, handler: R)
        requires
            old(self).wf(),
            forall|text: String| call_requires(handler, (text,)),
        ensures
            final(self).wf(),
            final(self).read_handler() == if old(self).read_handler() is Some {
                old(self).read_handler()
            } else {
                Some(handler)
            },
            final(self).accept_handler() == old(self).accept_handler(),
            final(self).write_handler() == old(self).write_handler(),
            final(self).dir_handler() == old(self).dir_handler(),
            final(self)@ == (ReactorView { reads: true, ..old(self)@ }),
    {
        if self.read.is_none() {
            self.read = Some(handler);
        }
    }

    /// Registers the handler for written buffers, unless one is registered.
    pub fn on_write(&mut self, handler: W)
        requires
            old(self).wf(),
            forall|text: String| call_requires(handler, (text,)),
        ensures
            final(self).wf(),
            final(self).write_handler() == if old(self).write_handler() is Some {
                old(self).write_handler()
            } else {
                Some(handler)
            },
            final(self).accept_handler() == old(self).accept_handler(),
            final(self).read_handler() == old(self).read_handler(),
            final(self).dir_handler() == old(self).dir_handler(),
            final(self)@ == (ReactorView { writes: true, ..old(self)@ }),
    {
        if self.write.is_none() {
            self.write = Some(handler);
        }
    }

    /// Registers the handler for directory changes, unless one is registered.
    pub fn on_dir(&mut self, handler: D)
        requires
            old(self).wf(),
            forall|text: String| call_requires(handler, (text,)),
        ensures
            final(self).wf(),
            final(self).dir_handler() == if old(self).dir_handler() is Some {
                old(self).dir_handler()
            } else {
                Some(handler)
            },
            final(self).accept_handler() == old(self).accept_handler(),
            final(self).read_handler() == old(self).read_handler(),
            final(self).write_handler() == old(self).write_handler(),
            final(self)@ == (ReactorView { watches: true, ..old(self)@ }),
    {
        if self.dir.is_none() {
            self.dir = Some(handler);
        }
    }

    /// Whether the endpoint holds a stream, as far as the outcomes told.
    pub fn is_connected(&self) -> (connected: bool)
        ensures
            connected == self@.connected,
    {
        self.connected
    }

    /// Whether a `Quit` has been dispatched.
    pub fn is_stopped(&self) -> (stopped: bool)
        ensures
            stopped == self@.stopped,
    {
        self.stopped
    }

    /// The number of pending events.
    pub fn pending(&self) -> (n: usize)
        ensures
            n == self@.pending.len(),
    {
        self.queue.len()
    }

    /// Appends `event` at the tail of the queue.
    pub fn push(&mut self, event: Event)
        requires
            old(self).wf(),
        ensures
            final(self).wf(),
            final(self).same_handlers(old(self)),
            final(self)@ == old(self)@.pushed(event@),
    {
        self.queue.push(event);
    }

    /// Starts the service: queues the first `Accept`, unless no handler at all
    /// is registered.
    pub fn run(&mut self)
        requires
            old(self).wf(),
        ensures
            final(self).wf(),
            final(self).same_handlers(old(self)),
            final(self)@ == if old(self)@.accepts || old(self)@.reads || old(self)@.writes
                || old(self)@.watches {
                old(self)@.pushed(EventView::Accept)
            } else {
                old(self)@
            },
    {
        if self.accept.is_none() && self.read.is_none() && self.write.is_none()
            && self.dir.is_none() {
            return ;
        }
        self.queue.push(Event::Accept);
    }

    /// Takes the next event off the head of the queue. `None` means that the
    /// queue is empty for now, or that the reactor has stopped for good.
    pub fn demux(&mut self) -> (next: Option<Event>)
        requires
            old(self).wf(),
        ensures
            final(self).wf(),
            final(self).same_handlers(old(self)),
            final(self)@ == old(self)@.demuxed(),
            reply_view(next) == if old(self)@.serves() {
                Some(old(self)@.pending[0])
            } else {
                None
            },
    {
        if self.stopped {
            return None;
        }
        self.queue.pop()
    }

    /// The endpoint operation to make before `event` is dispatched.
    pub fn attempt(&self, event: &Event) -> (attempt: Attempt)
        requires
            self.wf(),
        ensures
            attempt == self@.attempt(event@),
    {
        if self.stopped {
            return Attempt::Nothing;
        }
        match event {
            Event::Accept => {
                if self.accept.is_some() && !self.connected {
                    Attempt::Accept
                } else {
                    Attempt::Nothing
                }
            },
            Event::Read(_) => {
                if self.read.is_some() && self.connected {
                    Attempt::Read
                } else {
                    Attempt::Nothing
                }
            },
            Event::Write(_) => {
                if self.write.is_some() && self.connected {
                    Attempt::Write
                } else {
                    Attempt::Nothing
                }
            },
            _ => Attempt::Nothing,
        }
    }

    /// Settles `event` against the outcome of its operation: stops on `Quit`,
    /// queues the event again where no progress was made, notes a connection
    /// gained or lost, and returns the handler to call, if any.
    pub fn resolve(&mut self, event: Event, outcome: Outcome) -> (call: Option<Call>)
        requires
            old(self).wf(),
        ensures
            final(self).wf(),
            final(self).same_handlers(old(self)),
            final(self)@ == old(self)@.resolved(event@, outcome@),
            call_view(call) == old(self)@.call(event@, outcome@),
            match call {
                Some(Call::Received(text)) => outcome == Outcome::Received(text),
                Some(Call::Sent(buffer)) => event == Event::Write(buffer),
                Some(Call::Changed(message)) => event == Event::Dirmon(message),
                _ => true,
            },
    {
        let attempt = self.attempt(&event);
        if self.stopped {
            return None;
        }
        match (event, attempt, outcome) {
            (Event::Quit, _, _) => {
                self.stopped = true;
                None
            },
            (Event::Dirmon(message), _, _) => {
                if self.dir.is_some() {
                    Some(Call::Changed(message))
                } else {
                    None
                }
            },
            (_, Attempt::Nothing, _) => None,
            (Event::Accept, _, Outcome::Accepted) => {
                self.connected = true;
                Some(Call::Accepted)
            },
            (Event::Accept, _, _) => {
                self.queue.push(Event::Accept);
                None
            },
            (_, _, Outcome::Failed) => {
                self.connected = false;
                None
            },
            (Event::Read(_), _, Outcome::Received(text)) => {
                if text.as_str().is_empty() {
                    self.queue.push(Event::Read(String::new()));
                    None
                } else {
                    Some(Call::Received(text))
                }
            },
            (Event::Read(_), _, _) => {
                self.queue.push(Event::Read(String::new()));
                None
            },
            (Event::Write(buffer), _, Outcome::Sent(amount)) => {
                if amount == 0 {
                    self.queue.push(Event::Write(buffer));
                    None
                } else {
                    Some(Call::Sent(buffer))
                }
            },
            (Event::Write(buffer), _, _) => {
                self.queue.push(Event::Write(buffer));
                None
            },
        }
    }

    /// Calls the handler that `call` names and returns its answer; `None` where
    /// no handler is registered for it.
    pub fn invoke(&self, call: Call) -> (reply: Option<Event>)
        requires
            self.wf(),
        ensures
            self.answers(Some(call), reply),
    {
        match call {
            Call::Accepted => match &self.accept {
                Some(handler) => handler(),
                None => None,
            },
            Call::Received(text) => match &self.read {
                Some(handler) => handler(text),
                None => None,
            },
            Call::Sent(buffer) => match &self.write {
                Some(handler) => handler(buffer),
                None => None,
            },
            Call::Changed(message) => match &self.dir {
                Some(handler) => handler(message),
                None => None,
            },
        }
    }

    /// Queues a handler's answer at the tail, never at the head.
    pub fn follow_up(&mut self, reply: Option<Event>)
        requires
            old(self).wf(),
        ensures
            final(self).wf(),
            final(self).same_handlers(old(self)),
            final(self)@ == old(self)@.followed(reply_view(reply)),
    {
        match reply {
            Some(event) => self.queue.push(event),
            None => {},
        }
    }

    /// Dispatches one event, given the outcome of the operation that
    /// [`Reactor::attempt`] named for it (`Outcome::Idle` where it named none).
    ///
    /// The event is settled as [`Reactor::resolve`] says; where that names a
    /// handler, the handler is called and its answer is queued at the tail.
    pub fn dispatch(&mut self, event: Event, outcome: Outcome)
        requires
            old(self).wf(),
        ensures
            final(self).wf(),
            final(self).same_handlers(old(self)),
            exists|call: Option<Call>, reply: Option<Event>|
                {
                    &&& call_view(call) == old(self)@.call(event@, outcome@)
                    &&& match call {
                        Some(Call::Received(text)) => outcome == Outcome::Received(text),
                        Some(Call::Sent(buffer)) => event == Event::Write(buffer),
                        Some(Call::Changed(message)) => event == Event::Dirmon(message),
                        _ => true,
                    }
                    &&& #[trigger] old(self).answers(call, reply)
                    &&& final(self)@ == old(self)@.dispatched(
                        event@,
                        outcome@,
                        reply_view(reply),
                    )
                },
    {
        match self.resolve(event, outcome) {
            Some(call) => {
                let reply = self.invoke(call);
                self.follow_up(reply);
                assert(old(self).answers(Some(call), reply));
            },
            None => {
                assert(old(self).answers(None, None));
            },
        }
    }
}

/// An operation that would block leaves exactly one event behind, at the tail of
/// the queue, and nothing else changes. Retried against the same outcome, that
/// event calls for the same operation and leaves itself behind again. It is the
/// event that was dispatched, except that a read is armed with an empty buffer.
pub proof fn would_block_rearms_the_same_event(
    state: ReactorView,
    event: EventView,
    reply: Option<EventView>,
)
    requires
        state.attempt(event) != Attempt::Nothing,
    ensures
        ({
            let again = ReactorView::rearmed(event);
            let next = state.dispatched(event, OutcomeView::WouldBlock, reply);
            &&& next == (ReactorView { pending: state.pending.push(again), ..state })
            &&& next.attempt(again) == state.attempt(event)
            &&& next.dispatched(again, OutcomeView::WouldBlock, reply) == (ReactorView {
                pending: next.pending.push(again),
                ..next
            })
            &&& event is Read ==> again == EventView::Read(Seq::empty())
            &&& !(event is Read) ==> again == event
        }),
{
}

/// While no stream is held, a directory change is dispatched without the
/// endpoint, whatever its handler answers; and a write, such as that answer may
/// be, is then dropped: no operation is asked for, no handler is called, and the
/// state stays as it is.
pub proof fn no_stream_no_write(
    state: ReactorView,
    message: Seq<char>,
    outcome: OutcomeView,
    reply: Option<EventView>,
    buffer: Seq<char>,
    later: OutcomeView,
    answer: Option<EventView>,
)
    requires
        !state.connected,
    ensures
        state.attempt(EventView::Dirmon(message)) == Attempt::Nothing,
        ({
            let next = state.dispatched(EventView::Dirmon(message), outcome, reply);
            &&& !next.connected
            &&& next.attempt(EventView::Write(buffer)) == Attempt::Nothing
            &&& next.call(EventView::Write(buffer), later) is None
            &&& next.dispatched(EventView::Write(buffer), later, answer) == next
        }),
{
}

/// A dispatched `Quit` stops the reactor and queues nothing. From then on every
/// event is dropped: no operation is asked for, no handler is called, and the
/// state stays as it is.
pub proof fn quit_is_final(
    state: ReactorView,
    outcome: OutcomeView,
    reply: Option<EventView>,
    event: EventView,
    later: OutcomeView,
    answer: Option<EventView>,
)
    ensures
        ({
            let halted = state.dispatched(EventView::Quit, outcome, reply);
            &&& halted == (ReactorView { stopped: true, ..state })
            &&& halted.attempt(event) == Attempt::Nothing
            &&& halted.call(event, later) is None
            &&& halted.dispatched(event, later, answer) == halted
        }),
{
}

/// A dispatch never touches the events that wait: it leaves the queue as it is,
/// or appends one event at its tail.
pub proof fn dispatch_only_appends(
    state: ReactorView,
    event: EventView,
    outcome: OutcomeView,
    reply: Option<EventView>,
)
    ensures
        ({
            let next = state.dispatched(event, outcome, reply);
            ||| next.pending == state.pending
            ||| exists|added: EventView| next.pending == state.pending.push(added)
        }),
{
    let next = state.dispatched(event, outcome, reply);
    if next.pending != state.pending {
        if state.call(event, outcome) is Some {
            assert(next.pending == state.pending.push(reply->0));
        } else {
            assert(next.pending == state.pending.push(ReactorView::rearmed(event)));
        }
    }
}

/// A stream comes to be held only by an `Accept` whose operation went through
/// while none was held, and no operation is asked for that would bring a second.
pub proof fn a_stream_comes_only_from_an_accept(
    state: ReactorView,
    event: EventView,
    outcome: OutcomeView,
    reply: Option<EventView>,
)
    ensures
        state.connected ==> state.attempt(event) != Attempt::Accept,
        !state.connected && state.dispatched(event, outcome, reply).connected ==> event is Accept
            && outcome is Accepted,
{
}

/// One move of the service: an event arrives from outside, or the dispatcher
/// takes its turn.
pub enum Move {
    /// The event is pushed onto the queue.
    Arrive(EventView),
    /// The head of the queue is taken, if it can be, and dispatched against
    /// this outcome; the handler, if one is called, gives this answer.
    Turn(OutcomeView, Option<EventView>),
}

/// The state that `moves`, made in order, lead to from `start`.
pub open spec fn state_after(start: ReactorView, moves: Seq<Move>) -> ReactorView
    decreases moves.len(),
{
    if moves.len() == 0 {
        start
    } else {
        let before = state_after(start, moves.drop_last());
        match moves.last() {
            Move::Arrive(event) => before.pushed(event),
            Move::Turn(outcome, reply) => if before.serves() {
                before.demuxed().dispatched(before.pending[0], outcome, reply)
            } else {
                before
            },
        }
    }
}

/// The events that were dispatched in the course of `moves`, in the order
/// they were.
pub open spec fn dispatched_in(start: ReactorView, moves: Seq<Move>) -> Seq<EventView>
    decreases moves.len(),
{
    if moves.len() == 0 {
        Seq::empty()
    } else {
        let before = state_after(start, moves.drop_last());
        let earlier = dispatched_in(start, moves.drop_last());
        match moves.last() {
            Move::Arrive(_) => earlier,
            Move::Turn(_, _) => if before.serves() {
                earlier.push(before.pending[0])
            } else {
                earlier
            },
        }
    }
}

/// The events that came onto the queue in the course of `moves`, in the order
/// they came: those that arrived, those that were armed again, and those that
/// handlers answered with.
pub open spec fn enqueued_in(start: ReactorView, moves: Seq<Move>) -> Seq<EventView>
    decreases moves.len(),
{
    if moves.len() == 0 {
        Seq::empty()
    } else {
        let before = state_after(start, moves.drop_last());
        let earlier = enqueued_in(start, moves.drop_last());
        match moves.last() {
            Move::Arrive(event) => earlier.push(event),
            Move::Turn(outcome, reply) => if before.serves() {
                let taken = before.demuxed();
                earlier + taken.dispatched(before.pending[0], outcome, reply).pending.skip(
                    taken.pending.len() as int,
                )
            } else {
                earlier
            },
        }
    }
}

/// Fairness: however arrivals and the dispatcher's turns interleave, the events
/// are dispatched in the order in which they came onto the queue. What has been
/// dispatched, followed by what is pending, is what the queue held at the start
/// followed by all that came onto it since.
pub proof fn dispatch_follows_arrival(start: ReactorView, moves: Seq<Move>)
    ensures
        dispatched_in(start, moves) + state_after(start, moves).pending == start.pending
            + enqueued_in(start, moves),
    decreases moves.len(),
{
    if moves.len() == 0 {
        assert(dispatched_in(start, moves) + start.pending =~= start.pending + enqueued_in(
            start,
            moves,
        ));
    } else {
        dispatch_follows_arrival(start, moves.drop_last());
        let before = state_after(start, moves.drop_last());
        let earlier = dispatched_in(start, moves.drop_last());
        let came = enqueued_in(start, moves.drop_last());
        assert(earlier + before.pending == start.pending + came);
        match moves.last() {
            Move::Arrive(event) => {
                assert(earlier + before.pending.push(event) =~= (earlier + before.pending).push(
                    event,
                ));
                assert(start.pending + came.push(event) =~= (start.pending + came).push(event));
            },
            Move::Turn(outcome, reply) => {
                if before.serves() {
                    let taken = before.demuxed();
                    let next = taken.dispatched(before.pending[0], outcome, reply);
                    dispatch_only_appends(taken, before.pending[0], outcome, reply);
                    let added = next.pending.skip(taken.pending.len() as int);
                    assert(next.pending =~= taken.pending + added);
                    assert(earlier.push(before.pending[0]) + (taken.pending + added) =~= (earlier
                        + before.pending) + added);
                    assert((start.pending + came) + added =~= start.pending + (came + added));
                }
            },
        }
    }
}

} // verus!
