//! The handlers of the stock service: greet the client, echo what it sends,
//! end on the quit command, and pass directory changes on.

use vstd::prelude::*;
use vstd::string::StringExecFns;

use crate::command::{occurs, parse_command, quit_token};
use crate::event::{reply_view, Event, EventView};

verus! {

/// The line that greets a client.
pub open spec fn greeting() -> Seq<char> {
    "SERVICE: Ready\r\n"@
}

/// For an accepted connection: arms a write of the greeting.
pub fn greet() -> (next: Option<Event>)
    ensures
        reply_view(next) == Some(EventView::Write(greeting())),
{
    Event::write(String::from_str("SERVICE: Ready\r\n"))
}

/// For received text: `Quit` if it holds the quit command, otherwise a write
/// that echoes the text.
pub fn respond(text: String) -> (next: Option<Event>)
    ensures
        reply_view(next) == if occurs(text@, quit_token()) {
            Some(EventView::Quit)
        } else {
            Some(EventView::Write(text@))
        },
{
    match parse_command(text.as_str()) {
        Ok(command) => Some(command),
        Err(_) => Event::write(text),
    }
}

/// For a written buffer: arms the next read, with the same buffer.
pub fn listen(buffer: String) -> (next: Option<Event>)
    ensures
        reply_view(next) == Some(EventView::Read(buffer@)),
{
    Event::read(buffer)
}

/// For a directory change: arms a write of the message as one line, ended by a
/// newline.
pub fn announce(message: String) -> (next: Option<Event>)
    ensures
        reply_view(next) == Some(EventView::Write(message@.push('\n'))),
{
    proof {
        reveal_strlit("\n");
        assert(message@ + "\n"@ =~= message@.push('\n'));
    }
    Event::write(message.concat("\n"))
}

} // verus!
