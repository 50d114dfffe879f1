//! Events of a user interface, each with its own payload.

use crate::text::{append_i64, append_u64, decimal, push_char, signed_decimal};
use vstd::prelude::*;
use vstd::string::StringExecFns;

verus! {

/// Something the user did.
#[derive(Debug, Clone, Copy, PartialEq, Eq)]
pub enum Event {
    Click { x: i32, y: i32 },
    Key(char),
    Resize(u32, u32),
    Quit,
}

/// The words for an event.
pub open spec fn wording(ev: Event) -> Seq<char> {
    match ev {
        Event::Click { x, y } => "Click at ("@ + signed_decimal(x as int) + ","@ + signed_decimal(
            y as int,
        ) + ")"@,
        Event::Key(k) => if k == 'q' {
            "Quit key"@
        } else if k == 'c' {
            "Key c"@
        } else {
            "Other key: "@.push(k)
        },
        Event::Resize(w, h) => "Resized to "@ + decimal(w as nat) + "x"@ + decimal(h as nat),
        Event::Quit => "Program ended"@,
    }
}

/// Words an event.
pub fn process(ev: Event) -> (text: String)
    ensures
        text@ == wording(ev),
{
    match ev {
        Event::Click { x, y } => {
            let mut text = String::from_str("Click at (");
            append_i64(&mut text, x as i64);
            text.append(",");
            append_i64(&mut text, y as i64);
            text.append(")");
            text
        },
        Event::Key(k) => {
            if k == 'q' {
                String::from_str("Quit key")
            } else if k == 'c' {
                String::from_str("Key c")
            } else {
                let mut text = String::from_str("Other key: ");
                push_char(&mut text, k);
                text
            }
        },
        Event::Resize(w, h) => {
            let mut text = String::from_str("Resized to ");
            append_u64(&mut text, w as u64);
            text.append("x");
            append_u64(&mut text, h as u64);
            text
        },
        Event::Quit => String::from_str("Program ended"),
    }
}

/// The place of a click, or nothing for any other event.
pub fn only_click(ev: &Event) -> (place: Option<(i32, i32)>)
    ensures
        place == match *ev {
            Event::Click { x, y } => Some((x, y)),
            _ => None,
        },
{
    let Event::Click { x, y } = ev else {
        return None;
    };
    Some((*x, *y))
}

/// The places of the clicks among `events`, in order.
pub open spec fn clicks(events: Seq<Event>) -> Seq<(i32, i32)>
    decreases events.len(),
{
    if events.len() == 0 {
        Seq::empty()
    } else {
        let earlier = clicks(events.drop_last());
        match events.last() {
            Event::Click { x, y } => earlier.push((x, y)),
            _ => earlier,
        }
    }
}

/// The places of the clicks among `events`, in order.
pub fn filter_clicks(events: Vec<Event>) -> (result: Vec<(i32, i32)>)
    ensures
        result@ == clicks(events@),
{
    let mut result: Vec<(i32, i32)> = Vec::new();
    let mut i: usize = 0;
    while i < events.len()
        invariant
            i <= events@.len(),
            result@ == clicks(events@.subrange(0, i as int)),
        decreases events@.len() - i,
    {
        proof {
            let through = events@.subrange(0, i + 1);
            assert(through.drop_last() =~= events@.subrange(0, i as int));
            assert(through.last() == events@[i as int]);
        }
        if let Event::Click { x, y } = events[i] {
            result.push((x, y));
        }
        i += 1;
    }
    assert(events@.subrange(0, i as int) =~= events@);
    result
}

/// The line that reports a key: the key that was pressed, or that the event
/// is no key.
pub fn dispatch(ev: Event) -> (line: String)
    ensures
        line@ == match ev {
            Event::Key(c) => "Pressed key: "@.push(c),
            _ => "not a key"@,
        },
{
    let Event::Key(c) = ev else {
        return String::from_str("not a key");
    };
    let mut line = String::from_str("Pressed key: ");
    push_char(&mut line, c);
    line
}

} // verus!
