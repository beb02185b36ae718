//! What a session does with the text units it reads and the events it relays.
use vstd::prelude::*;
use crate::broadcast::{observed, Cursor, EventSlot};
use crate::request::tap_name;
use crate::text::{chars_of, push_char};

verus! {

pub open spec fn is_line_break(c: char) -> bool {
    c == '\r' || c == '\n'
}

/// `s` without its line-break characters.
pub open spec fn strip_breaks(s: Seq<char>) -> Seq<char>
    decreases s.len(),
{
    if s.len() == 0 {
        Seq::empty()
    } else if is_line_break(s.last()) {
        strip_breaks(s.drop_last())
    } else {
        strip_breaks(s.drop_last()).push(s.last())
    }
}

/// `s` without its line-break characters.
pub fn strip_line_breaks(s: &str) -> (r: String)
    ensures
        r@ == strip_breaks(s@),
{
    let cs = chars_of(s);
    let mut r = String::new();
    let mut i: usize = 0;
    while i < cs.len()
        invariant
            i <= cs.len(),
            cs@ == s@,
            r@ == strip_breaks(cs@.take(i as int)),
        decreases cs.len() - i,
    {
        assert(cs@.take(i + 1).drop_last() == cs@.take(i as int));
        let c = cs[i];
        if c != '\r' && c != '\n' {
            push_char(&mut r, c);
        }
        i += 1;
    }
    assert(cs@.take(cs.len() as int) == cs@);
    r
}

/// A unit of text read from a connection, made into a request line: `None`
/// where nothing but line breaks was read, which ends the session's input.
pub fn request_line(unit: &str) -> (r: Option<String>)
    ensures
        r is None <==> strip_breaks(unit@).len() == 0,
        r is Some ==> r->0@ == strip_breaks(unit@),
{
    let line = strip_line_breaks(unit);
    if line.as_str().is_empty() {
        None
    } else {
        Some(line)
    }
}

/// The notice that the subscriber at `c` sends to its connection now, if any:
/// the name of the latest tap event, where one was published since it last
/// looked.
pub fn next_notice(slot: &EventSlot, c: &mut Cursor) -> (r: Option<String>)
    ensures
        r is Some == observed(*slot, *old(c)) is Some,
        r is Some ==> r->0@ == tap_name(observed(*slot, *old(c))->0),
        final(c).seen == slot.version,
{
    match slot.take(c) {
        Some(k) => Some(k.name()),
        None => None,
    }
}

} // verus!
