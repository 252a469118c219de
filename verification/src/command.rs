//! The command protocol: the one place where text from the client is read as control.

use vstd::prelude::*;
use vstd::std_specs::iter::IteratorSpec;

use crate::event::Event;

verus! {

/// The token that asks the service to end.
pub open spec fn quit_token() -> Seq<char> {
    seq!['Q', 'U', 'I', 'T']
}

/// Whether `token` stands in `text` at position `at`.
pub open spec fn occurs_at(text: Seq<char>, token: Seq<char>, at: int) -> bool {
    &&& 0 <= at
    &&& at + token.len() <= text.len()
    &&& text.subrange(at, at + token.len()) == token
}

/// Whether `token` stands somewhere in `text`, letter for letter.
pub open spec fn occurs(text: Seq<char>, token: Seq<char>) -> bool {
    exists|at: int| occurs_at(text, token, at)
}

/// The characters of `text`, in order.
fn chars_of(text: &str) -> (chars: Vec<char>)
    ensures
        chars@ == text@,
{
    broadcast use vstd::string::group_string_axioms;

    let mut chars: Vec<char> = Vec::new();
    let mut rest = text.chars();
    loop
        invariant
            chars@ + rest.remaining() == text@,
            rest.decrease() is Some,
        decreases rest.decrease()->0,
    {
        let ghost before = rest.remaining();
        match rest.next() {
            Some(c) => {
                assert(chars@.push(c) + rest.remaining() =~= chars@ + before);
                chars.push(c);
            },
            None => {
                assert(chars@ =~= text@);
                return chars;
            },
        }
    }
}

/// Whether `token` stands in `text` at position `at`, which leaves room for it.
fn matches_at(text: &Vec<char>, token: &Vec<char>, at: usize) -> (found: bool)
    requires
        at + token@.len() <= text@.len(),
    ensures
        found == occurs_at(text@, token@, at as int),
{
    let width: usize = token.len();
    let room: usize = text.len();
    let mut k: usize = 0;
    while k < width
        invariant
            k <= width,
            width == token@.len(),
            room == text@.len(),
            at + width <= room,
            forall|j: int| 0 <= j < k ==> text@[at + j] == token@[j],
        decreases width - k,
    {
        if text[at + k] != token[k] {
            assert(text@.subrange(at as int, at + width)[k as int] == text@[at + k]);
            return false;
        }
        k += 1;
    }
    assert(text@.subrange(at as int, at + width) =~= token@);
    true
}

/// Whether `token` stands somewhere in `text`.
pub fn contains(text: &str, token: &str) -> (found: bool)
    ensures
        found == occurs(text@, token@),
{
    let hay = chars_of(text);
    let needle = chars_of(token);
    if needle.len() > hay.len() {
        return false;
    }
    let last: usize = hay.len() - needle.len();
    let mut at: usize = 0;
    loop
        invariant
            hay@ == text@,
            needle@ == token@,
            last == hay@.len() - needle@.len(),
            at <= last,
            forall|i: int| 0 <= i < at ==> !occurs_at(hay@, needle@, i),
        decreases last - at,
    {
        if matches_at(&hay, &needle, at) {
            assert(occurs_at(text@, token@, at as int));
            return true;
        }
        if at == last {
            return false;
        }
        at += 1;
    }
}

/// Reads `string` as a command: `Quit` if the token `QUIT` stands anywhere in
/// it, in these capitals; otherwise the text holds no command.
pub fn parse_command(string: &str) -> (command: Result<Event, ()>)
    ensures
        occurs(string@, quit_token()) ==> command == Ok::<Event, ()>(Event::Quit),
        !occurs(string@, quit_token()) ==> command is Err,
{
    proof {
        reveal_strlit("QUIT");
        assert("QUIT"@ =~= quit_token());
    }
    if contains(string, "QUIT") {
        Ok(Event::Quit)
    } else {
        Err(())
    }
}

} // verus!
