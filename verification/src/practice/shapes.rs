//! Ranges, guards and nested destructuring.

use vstd::prelude::*;
use vstd::string::StringExecFns;

verus! {

/// The class of a number.
pub open spec fn class_of(n: i32) -> Seq<char> {
    if n < 0 {
        "negative"@
    } else if n == 0 {
        "zero"@
    } else if n <= 10 {
        "small"@
    } else if n % 2 == 0 {
        "big even"@
    } else {
        "big odd"@
    }
}

/// Names the class of a number: negative, zero, small up to ten, and big
/// beyond, even or odd.
pub fn classify(n: i32) -> (class: &'static str)
    ensures
        class@ == class_of(n),
{
    if n <= -1 {
        "negative"
    } else if n == 0 {
        "zero"
    } else if n <= 10 {
        "small"
    } else if n % 2 == 0 {
        "big even"
    } else {
        "big odd"
    }
}

/// What a user may do.
#[derive(Debug, Clone, Copy, PartialEq, Eq)]
pub enum Role {
    Admin { level: u8 },
    User,
}

/// A user comes or goes.
#[derive(Debug, PartialEq, Eq)]
pub enum Event {
    Login { name: String, role: Role },
    Logout(String),
}

/// The words for an event.
pub open spec fn wording(ev: Event) -> Seq<char> {
    match ev {
        Event::Login { name, role: Role::Admin { level } } => if level <= 4 {
            "Admin login: "@ + name@ + " (low)"@
        } else {
            "Admin login: "@ + name@ + " (high)"@
        },
        Event::Login { name, role: Role::User } => "User login: "@ + name@,
        Event::Logout(name) => "Goodbye "@ + name@,
    }
}

/// Words an event.
pub fn describe(ev: Event) -> (text: String)
    ensures
        text@ == wording(ev),
{
    match ev {
        Event::Login { name, role: Role::Admin { level } } => {
            let mut text = String::from_str("Admin login: ");
            text.append(name.as_str());
            if level <= 4 {
                text.append(" (low)");
            } else {
                text.append(" (high)");
            }
            text
        },
        Event::Login { name, role: Role::User } => {
            let mut text = String::from_str("User login: ");
            text.append(name.as_str());
            text
        },
        Event::Logout(name) => {
            let mut text = String::from_str("Goodbye ");
            text.append(name.as_str());
            text
        },
    }
}

/// A point.
#[derive(Debug, Clone, Copy, PartialEq, Eq)]
pub struct Point {
    pub x: i32,
    pub y: i32,
}

/// A circle or a rectangle.
#[derive(Debug, Clone, Copy, PartialEq, Eq)]
pub enum Shape {
    Circle(Point, u32),
    Rect { top_left: Point, bottom_right: Point },
}

/// The distance between two coordinates.
pub open spec fn span(a: i32, b: i32) -> int {
    if b - a < 0 {
        a - b
    } else {
        b - a
    }
}

/// The area of a shape; a circle's is taken as three times the square of
/// its radius.
pub open spec fn area_of(shape: Shape) -> int {
    match shape {
        Shape::Circle(_, r) => 3 * r * r,
        Shape::Rect { top_left, bottom_right } => span(top_left.x, bottom_right.x) * span(
            top_left.y,
            bottom_right.y,
        ),
    }
}

/// Whether the area of a shape can be computed in 32 bits: the sides of a
/// rectangle must fit `i32`, and every product on the way `u32`.
pub open spec fn measurable(shape: Shape) -> bool {
    match shape {
        Shape::Circle(_, r) => 3 * r * r <= u32::MAX,
        Shape::Rect { top_left, bottom_right } => {
            &&& span(top_left.x, bottom_right.x) <= i32::MAX
            &&& span(top_left.y, bottom_right.y) <= i32::MAX
            &&& area_of(shape) <= u32::MAX
        },
    }
}

/// The area of a shape.
pub fn area(shape: Shape) -> (area: u32)
    requires
        measurable(shape),
    ensures
        area == area_of(shape),
{
    match shape {
        Shape::Circle(Point { x: _, y: _ }, r) => {
            assert(3 * r <= u32::MAX) by (nonlinear_arith)
                requires
                    3 * r * r <= u32::MAX,
                    r >= 0,
            ;
            3 * r * r
        },
        Shape::Rect { top_left: Point { x: x1, y: y1 }, bottom_right: Point { x: x2, y: y2 } } => {
            let dx: i32 = x2 - x1;
            let dy: i32 = y2 - y1;
            let width: u32 = (if dx < 0 {
                -dx
            } else {
                dx
            }) as u32;
            let height: u32 = (if dy < 0 {
                -dy
            } else {
                dy
            }) as u32;
            width * height
        },
    }
}

} // verus!
