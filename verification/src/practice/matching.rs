//! Matching on nested patterns, literals and guards.

use crate::text::{append_i64, append_u64, decimal, signed_decimal};
use vstd::prelude::*;
use vstd::string::StringExecFns;

verus! {

/// A message to a drawing program.
#[derive(Debug, PartialEq, Eq)]
pub enum Message {
    Quit,
    Move { x: i32, y: i32 },
    Write(String),
    ChangeColor(u8, u8, u8),
}

/// The answer to a message.
pub open spec fn reply(msg: Message) -> Seq<char> {
    match msg {
        Message::Quit => "Bye"@,
        Message::Move { x, y } => if x == 0 && y == 0 {
            "No movement"@
        } else {
            "Moving to ("@ + signed_decimal(x as int) + ","@ + signed_decimal(y as int) + ")"@
        },
        Message::Write(s) => if s@.len() == 0 {
            "Empty"@
        } else {
            "Text: "@ + s@
        },
        Message::ChangeColor(r, g, b) => if r <= 20 && g <= 20 && b <= 20 {
            "Dark color"@
        } else {
            "Color RGB("@ + decimal(r as nat) + ","@ + decimal(g as nat) + ","@ + decimal(
                b as nat,
            ) + ")"@
        },
    }
}

/// Answers a message.
pub fn handle(msg: Message) -> (text: String)
    ensures
        text@ == reply(msg),
{
    match msg {
        Message::Quit => String::from_str("Bye"),
        Message::Move { x: 0, y: 0 } => String::from_str("No movement"),
        Message::Move { x, y } => {
            let mut text = String::from_str("Moving to (");
            append_i64(&mut text, x as i64);
            text.append(",");
            append_i64(&mut text, y as i64);
            text.append(")");
            text
        },
        Message::Write(s) => {
            if s.as_str().is_empty() {
                String::from_str("Empty")
            } else {
                let mut text = String::from_str("Text: ");
                text.append(s.as_str());
                text
            }
        },
        Message::ChangeColor(r, g, b) => {
            if r <= 20 && g <= 20 && b <= 20 {
                String::from_str("Dark color")
            } else {
                let mut text = String::from_str("Color RGB(");
                append_u64(&mut text, r as u64);
                text.append(",");
                append_u64(&mut text, g as u64);
                text.append(",");
                append_u64(&mut text, b as u64);
                text.append(")");
                text
            }
        },
    }
}

/// A rectangle.
#[derive(Debug, Clone, Copy, PartialEq, Eq)]
pub struct Rectangle {
    pub width: u32,
    pub height: u32,
}

/// The area of a rectangle, which must fit `u32`.
pub fn area(rectangle: Rectangle) -> (area: u32)
    requires
        rectangle.width * rectangle.height <= u32::MAX,
    ensures
        area == rectangle.width * rectangle.height,
{
    let Rectangle { width, height } = rectangle;
    width * height
}

/// An event of the mouse or the keyboard.
#[derive(Debug, Clone, Copy, PartialEq, Eq)]
pub enum Event {
    Click { x: i32, y: i32 },
    Key(char),
}

/// Where an event came from.
#[derive(Debug, Clone, Copy, PartialEq, Eq)]
pub enum Action {
    Mouse(Event),
    Keyboard(Event),
}

/// The place of a click of the mouse, or nothing for any other action.
pub fn extract_click(act: Action) -> (place: Option<(i32, i32)>)
    ensures
        place == match act {
            Action::Mouse(Event::Click { x, y }) => Some((x, y)),
            _ => None,
        },
{
    if let Action::Mouse(Event::Click { x, y }) = act {
        Some((x, y))
    } else {
        None
    }
}

} // verus!
