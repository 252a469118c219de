use dirmon::event::Event;
use dirmon::reactor::{Attempt, Call, Failure, Outcome, Reactor};
use dirmon::session::{announce, greet, listen, respond};
use dirmon::watch::{describe, Change};

type OnAccept = fn() -> Option<Event>;
type OnText = fn(String) -> Option<Event>;
type Plain = Reactor<OnAccept, OnText, OnText, OnText>;

fn text(s: &str) -> String {
    String::from(s)
}

fn received(s: &str) -> Outcome {
    Outcome::Received(text(s))
}

fn service() -> Plain {
    let mut reactor: Plain = Reactor::new();
    reactor.on_accept(greet);
    reactor.on_read(respond);
    reactor.on_write(listen);
    reactor.on_dir(announce);
    reactor
}

fn connected() -> Plain {
    let mut reactor = service();
    reactor.dispatch(Event::Accept, Outcome::Accepted);
    assert!(reactor.is_connected());
    assert_eq!(reactor.demux(), Some(Event::Write(text("SERVICE: Ready\r\n"))));
    assert_eq!(reactor.pending(), 0);
    reactor
}

fn drain(reactor: &mut Plain) -> Vec<Event> {
    let mut events = Vec::new();
    while let Some(event) = reactor.demux() {
        events.push(event);
    }
    events
}

fn silent(_text: String) -> Option<Event> {
    None
}

fn shout(_text: String) -> Option<Event> {
    Some(Event::Write(text("first")))
}

fn whisper(_text: String) -> Option<Event> {
    Some(Event::Write(text("second")))
}

#[test]
fn a_new_reactor_is_idle() {
    let mut reactor: Plain = Reactor::new();
    assert!(!reactor.is_connected());
    assert!(!reactor.is_stopped());
    assert_eq!(reactor.pending(), 0);
    assert_eq!(reactor.demux(), None);
}

#[test]
fn run_without_handlers_queues_nothing() {
    let mut reactor: Plain = Reactor::new();
    reactor.run();
    assert_eq!(reactor.pending(), 0);
}

#[test]
fn run_with_a_handler_queues_the_first_accept() {
    let mut reactor: Plain = Reactor::new();
    reactor.on_dir(announce);
    reactor.run();
    assert_eq!(drain(&mut reactor), vec![Event::Accept]);
    let mut reactor = service();
    reactor.run();
    assert_eq!(drain(&mut reactor), vec![Event::Accept]);
}

#[test]
fn the_first_registration_stands() {
    let mut reactor: Plain = Reactor::new();
    reactor.on_dir(shout);
    reactor.on_dir(whisper);
    reactor.dispatch(Event::Dirmon(text("x")), Outcome::Idle);
    assert_eq!(drain(&mut reactor), vec![Event::Write(text("first"))]);
}

#[test]
fn the_operation_follows_the_event_and_the_state() {
    let reactor = service();
    assert_eq!(reactor.attempt(&Event::Accept), Attempt::Accept);
    assert_eq!(reactor.attempt(&Event::Read(text(""))), Attempt::Nothing);
    assert_eq!(reactor.attempt(&Event::Write(text("x"))), Attempt::Nothing);
    assert_eq!(reactor.attempt(&Event::Dirmon(text("x"))), Attempt::Nothing);
    assert_eq!(reactor.attempt(&Event::Quit), Attempt::Nothing);
    let reactor = connected();
    assert_eq!(reactor.attempt(&Event::Accept), Attempt::Nothing);
    assert_eq!(reactor.attempt(&Event::Read(text(""))), Attempt::Read);
    assert_eq!(reactor.attempt(&Event::Write(text("x"))), Attempt::Write);
    assert_eq!(reactor.attempt(&Event::Dirmon(text("x"))), Attempt::Nothing);
    assert_eq!(reactor.attempt(&Event::Quit), Attempt::Nothing);
}

#[test]
fn no_operation_without_a_handler() {
    let mut reactor: Plain = Reactor::new();
    reactor.on_dir(announce);
    assert_eq!(reactor.attempt(&Event::Accept), Attempt::Nothing);
    reactor.dispatch(Event::Accept, Outcome::Accepted);
    assert!(!reactor.is_connected());
    assert_eq!(reactor.pending(), 0);
    let mut reactor: Plain = Reactor::new();
    reactor.on_accept(greet);
    reactor.dispatch(Event::Accept, Outcome::Accepted);
    assert!(reactor.is_connected());
    assert_eq!(reactor.demux(), Some(Event::Write(text("SERVICE: Ready\r\n"))));
    assert_eq!(reactor.attempt(&Event::Read(text(""))), Attempt::Nothing);
    assert_eq!(reactor.attempt(&Event::Write(text("x"))), Attempt::Nothing);
    reactor.dispatch(Event::Write(text("x")), Outcome::Sent(1));
    reactor.dispatch(Event::Read(text("")), received("QUIT"));
    reactor.dispatch(Event::Dirmon(text("x")), Outcome::Idle);
    assert_eq!(reactor.pending(), 0);
    assert!(!reactor.is_stopped());
}

#[test]
fn an_accepted_connection_is_greeted() {
    let mut reactor = service();
    reactor.run();
    let event = reactor.demux().unwrap();
    assert_eq!(reactor.attempt(&event), Attempt::Accept);
    reactor.dispatch(event, Outcome::Accepted);
    assert!(reactor.is_connected());
    assert_eq!(drain(&mut reactor), vec![Event::Write(text("SERVICE: Ready\r\n"))]);
}

#[test]
fn an_accept_that_would_block_is_tried_again() {
    let mut reactor = service();
    reactor.dispatch(Event::Accept, Outcome::WouldBlock);
    assert!(!reactor.is_connected());
    let event = reactor.demux().unwrap();
    assert_eq!(event, Event::Accept);
    reactor.dispatch(event, Outcome::WouldBlock);
    assert_eq!(drain(&mut reactor), vec![Event::Accept]);
}

#[test]
fn an_accept_that_failed_is_tried_again() {
    let mut reactor = service();
    reactor.dispatch(Event::Accept, Outcome::Failed);
    assert!(!reactor.is_connected());
    assert_eq!(drain(&mut reactor), vec![Event::Accept]);
}

#[test]
fn an_accept_while_connected_is_dropped() {
    let mut reactor = connected();
    reactor.dispatch(Event::Accept, Outcome::Accepted);
    assert!(reactor.is_connected());
    assert_eq!(reactor.pending(), 0);
}

#[test]
fn a_read_that_would_block_is_armed_again_with_an_empty_buffer() {
    let mut reactor = connected();
    reactor.dispatch(Event::Read(text("left over")), Outcome::WouldBlock);
    let event = reactor.demux().unwrap();
    assert_eq!(event, Event::Read(text("")));
    reactor.dispatch(event, Outcome::WouldBlock);
    assert_eq!(drain(&mut reactor), vec![Event::Read(text(""))]);
    assert!(reactor.is_connected());
}

#[test]
fn a_read_of_no_bytes_is_armed_again() {
    let mut reactor = connected();
    reactor.dispatch(Event::Read(text("left over")), received(""));
    assert_eq!(drain(&mut reactor), vec![Event::Read(text(""))]);
}

#[test]
fn received_text_is_echoed() {
    let mut reactor = connected();
    reactor.dispatch(Event::Read(text("")), received("hello"));
    assert_eq!(drain(&mut reactor), vec![Event::Write(text("hello"))]);
}

#[test]
fn a_failed_read_drops_the_connection() {
    let mut reactor = connected();
    reactor.dispatch(Event::Read(text("")), Outcome::Failed);
    assert!(!reactor.is_connected());
    assert_eq!(reactor.pending(), 0);
    assert_eq!(reactor.attempt(&Event::Accept), Attempt::Accept);
}

#[test]
fn a_write_that_would_block_is_armed_again_unchanged() {
    let mut reactor = connected();
    reactor.dispatch(Event::Write(text("line\n")), Outcome::WouldBlock);
    let event = reactor.demux().unwrap();
    assert_eq!(event, Event::Write(text("line\n")));
    reactor.dispatch(event, Outcome::WouldBlock);
    assert_eq!(drain(&mut reactor), vec![Event::Write(text("line\n"))]);
}

#[test]
fn a_write_of_no_bytes_is_armed_again_unchanged() {
    let mut reactor = connected();
    reactor.dispatch(Event::Write(text("line\n")), Outcome::Sent(0));
    assert_eq!(drain(&mut reactor), vec![Event::Write(text("line\n"))]);
}

#[test]
fn a_write_that_went_through_arms_a_read() {
    let mut reactor = connected();
    reactor.dispatch(Event::Write(text("line\n")), Outcome::Sent(5));
    assert_eq!(drain(&mut reactor), vec![Event::Read(text("line\n"))]);
}

#[test]
fn a_failed_write_drops_the_connection() {
    let mut reactor = connected();
    reactor.dispatch(Event::Write(text("line\n")), Outcome::Failed);
    assert!(!reactor.is_connected());
    assert_eq!(reactor.pending(), 0);
}

#[test]
fn an_operation_that_was_not_made_leaves_the_event_armed() {
    let mut reactor = connected();
    reactor.dispatch(Event::Write(text("line\n")), Outcome::Idle);
    reactor.dispatch(Event::Read(text("x")), Outcome::Idle);
    assert_eq!(drain(&mut reactor), vec![Event::Write(text("line\n")), Event::Read(text(""))]);
}

#[test]
fn a_change_before_any_client_is_harmless() {
    let mut reactor = service();
    reactor.push(Event::Dirmon(text("Created FILE: D/a.txt")));
    let event = reactor.demux().unwrap();
    assert_eq!(reactor.attempt(&event), Attempt::Nothing);
    reactor.dispatch(event, Outcome::Idle);
    let event = reactor.demux().unwrap();
    assert_eq!(event, Event::Write(text("Created FILE: D/a.txt\n")));
    assert_eq!(reactor.attempt(&event), Attempt::Nothing);
    reactor.dispatch(event, Outcome::Sent(22));
    assert_eq!(reactor.pending(), 0);
    assert!(!reactor.is_connected());
    assert!(!reactor.is_stopped());
}

#[test]
fn a_silent_handler_leaves_no_follow_up() {
    let mut reactor: Plain = Reactor::new();
    reactor.on_dir(silent);
    reactor.dispatch(Event::Dirmon(text("x")), Outcome::Idle);
    assert_eq!(reactor.pending(), 0);
}

#[test]
fn a_created_file_reaches_the_client_as_one_line() {
    let mut reactor = connected();
    let change = describe(Change::CreatedFile, "D/a.txt").unwrap();
    assert_eq!(change, Event::Dirmon(text("Created FILE: D/a.txt")));
    reactor.push(change);
    assert_eq!(reactor.pending(), 1);
    let event = reactor.demux().unwrap();
    reactor.dispatch(event, Outcome::Idle);
    assert_eq!(reactor.pending(), 1);
    let event = reactor.demux().unwrap();
    assert_eq!(event, Event::Write(text("Created FILE: D/a.txt\n")));
    assert_eq!(reactor.attempt(&event), Attempt::Write);
    reactor.dispatch(event, Outcome::Sent(22));
    assert_eq!(drain(&mut reactor), vec![Event::Read(text("Created FILE: D/a.txt\n"))]);
}

#[test]
fn a_quit_from_the_client_ends_the_service() {
    let mut reactor = connected();
    reactor.push(Event::Read(text("")));
    let event = reactor.demux().unwrap();
    assert_eq!(reactor.attempt(&event), Attempt::Read);
    reactor.dispatch(event, received("QUIT\n"));
    assert_eq!(reactor.pending(), 1);
    let event = reactor.demux().unwrap();
    assert_eq!(event, Event::Quit);
    assert_eq!(reactor.attempt(&event), Attempt::Nothing);
    reactor.dispatch(event, Outcome::Idle);
    assert!(reactor.is_stopped());
    assert_eq!(reactor.pending(), 0);
    assert_eq!(reactor.demux(), None);
}

#[test]
fn nothing_is_processed_after_quit() {
    let mut reactor = connected();
    reactor.push(Event::Dirmon(text("late")));
    reactor.dispatch(Event::Quit, Outcome::Idle);
    assert!(reactor.is_stopped());
    assert_eq!(reactor.pending(), 1);
    assert_eq!(reactor.demux(), None);
    assert_eq!(reactor.attempt(&Event::Write(text("x"))), Attempt::Nothing);
    reactor.dispatch(Event::Dirmon(text("x")), Outcome::Idle);
    reactor.dispatch(Event::Write(text("x")), Outcome::Sent(1));
    reactor.dispatch(Event::Read(text("")), received("y"));
    reactor.dispatch(Event::Accept, Outcome::Accepted);
    reactor.run();
    assert_eq!(reactor.pending(), 2);
    assert_eq!(reactor.demux(), None);
    assert!(reactor.is_connected());
}

#[test]
fn changes_and_rearmed_events_keep_their_order() {
    let mut reactor = connected();
    reactor.push(Event::Dirmon(text("one")));
    reactor.push(Event::Read(text("")));
    reactor.push(Event::Dirmon(text("two")));
    let event = reactor.demux().unwrap();
    reactor.dispatch(event, Outcome::Idle);
    let event = reactor.demux().unwrap();
    reactor.dispatch(event, Outcome::WouldBlock);
    reactor.push(Event::Dirmon(text("three")));
    let event = reactor.demux().unwrap();
    reactor.dispatch(event, Outcome::Idle);
    assert_eq!(
        drain(&mut reactor),
        vec![
            Event::Write(text("one\n")),
            Event::Read(text("")),
            Event::Dirmon(text("three")),
            Event::Write(text("two\n")),
        ]
    );
}

#[test]
fn the_steps_of_a_dispatch() {
    let mut reactor = connected();
    let call = reactor.resolve(Event::Read(text("")), received("hi"));
    assert_eq!(call, Some(Call::Received(text("hi"))));
    assert_eq!(reactor.pending(), 0);
    let reply = reactor.invoke(call.unwrap());
    assert_eq!(reply, Some(Event::Write(text("hi"))));
    assert_eq!(reactor.pending(), 0);
    reactor.follow_up(reply);
    reactor.follow_up(None);
    assert_eq!(drain(&mut reactor), vec![Event::Write(text("hi"))]);
    assert_eq!(reactor.resolve(Event::Write(text("w")), Outcome::Sent(1)), Some(Call::Sent(text("w"))));
    assert_eq!(reactor.resolve(Event::Dirmon(text("d")), Outcome::Idle), Some(Call::Changed(text("d"))));
    assert_eq!(reactor.resolve(Event::Write(text("w")), Outcome::WouldBlock), None);
    assert_eq!(reactor.resolve(Event::Quit, Outcome::Idle), None);
    assert_eq!(reactor.invoke(Call::Accepted), Some(Event::Write(text("SERVICE: Ready\r\n"))));
}

#[test]
fn the_stock_handlers() {
    assert_eq!(greet(), Some(Event::Write(text("SERVICE: Ready\r\n"))));
    assert_eq!(respond(text("hello")), Some(Event::Write(text("hello"))));
    assert_eq!(respond(text("please QUIT now")), Some(Event::Quit));
    assert_eq!(listen(text("abc")), Some(Event::Read(text("abc"))));
    assert_eq!(announce(text("Removed: D/a.txt")), Some(Event::Write(text("Removed: D/a.txt\n"))));
}

#[test]
fn the_outcome_of_another_operation_leaves_the_event_armed() {
    let mut reactor = connected();
    reactor.dispatch(Event::Write(text("w")), received("text"));
    reactor.dispatch(Event::Write(text("w")), Outcome::Accepted);
    reactor.dispatch(Event::Read(text("r")), Outcome::Sent(3));
    reactor.dispatch(Event::Read(text("r")), Outcome::Accepted);
    assert_eq!(
        drain(&mut reactor),
        vec![
            Event::Write(text("w")),
            Event::Write(text("w")),
            Event::Read(text("")),
            Event::Read(text("")),
        ]
    );
    let mut reactor = service();
    reactor.dispatch(Event::Accept, received("text"));
    reactor.dispatch(Event::Accept, Outcome::Sent(3));
    assert!(!reactor.is_connected());
    assert_eq!(drain(&mut reactor), vec![Event::Accept, Event::Accept]);
}

#[test]
fn outcomes_of_an_accept() {
    assert_eq!(Outcome::of_accept(Ok(())), Outcome::Accepted);
    assert_eq!(Outcome::of_accept(Err(Failure::WouldBlock)), Outcome::WouldBlock);
    assert_eq!(Outcome::of_accept(Err(Failure::Other)), Outcome::Failed);
}

#[test]
fn outcomes_of_a_read() {
    assert_eq!(Outcome::of_read(Ok(5), text("hello")), received("hello"));
    assert_eq!(Outcome::of_read(Ok(0), text("")), received(""));
    assert_eq!(Outcome::of_read(Ok(0), text("stale")), received(""));
    assert_eq!(Outcome::of_read(Err(Failure::WouldBlock), text("")), Outcome::WouldBlock);
    assert_eq!(Outcome::of_read(Err(Failure::WouldBlock), text("part")), received("part"));
    assert_eq!(Outcome::of_read(Err(Failure::Other), text("part")), Outcome::Failed);
    assert_eq!(Outcome::of_read(Err(Failure::Other), text("")), Outcome::Failed);
}

#[test]
fn outcomes_of_a_write() {
    assert_eq!(Outcome::of_write(Ok(7)), Outcome::Sent(7));
    assert_eq!(Outcome::of_write(Ok(0)), Outcome::Sent(0));
    assert_eq!(Outcome::of_write(Err(Failure::WouldBlock)), Outcome::WouldBlock);
    assert_eq!(Outcome::of_write(Err(Failure::Other)), Outcome::Failed);
}
