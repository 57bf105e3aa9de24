//! Hover tracking: whether the pointer sits over a widget's bounds, and the
//! enter/leave changes that wrapped content is told about. Coordinates are
//! whole pixels.

use vstd::prelude::*;

verus! {

/// Whether the pointer entered or left the bounds.
#[derive(Debug, Clone, Copy, PartialEq, Eq, Structural)]
pub enum Cursor {
    Entered,
    Left,
}

/// An event of the hover component: a pointer change, or a message of the
/// wrapped content passed through.
#[derive(Debug, Clone, Copy, PartialEq)]
pub enum Event<M> {
    Change(Cursor),
    Message(M),
}

/// A point in window coordinates.
#[derive(Debug, Clone, Copy, PartialEq, Eq, Structural)]
pub struct Point {
    pub x: i32,
    pub y: i32,
}

/// An axis-aligned rectangle: its top-left corner and its extent.
#[derive(Debug, Clone, Copy, PartialEq, Eq, Structural)]
pub struct Rectangle {
    pub x: i32,
    pub y: i32,
    pub width: u32,
    pub height: u32,
}

impl Rectangle {
    /// Whether `p` lies inside: the top and left edges count, the bottom and
    /// right edges do not.
    pub open spec fn spec_contains(&self, p: Point) -> bool {
        &&& self.x <= p.x
        &&& (p.x as int) < (self.x as int) + (self.width as int)
        &&& self.y <= p.y
        &&& (p.y as int) < (self.y as int) + (self.height as int)
    }

    /// Whether `p` lies inside the rectangle.
    pub fn contains(&self, p: Point) -> (r: bool)
        ensures
            r == self.spec_contains(p),
    {
        (self.x as i64) <= (p.x as i64) && (p.x as i64) < (self.x as i64) + (self.width as i64)
            && (self.y as i64) <= (p.y as i64) && (p.y as i64) < (self.y as i64) + (
        self.height as i64)
    }
}

/// The hover component: whether the pointer is over the content right now.
#[derive(Debug, Clone, Copy, PartialEq, Eq, Structural)]
pub struct Hover {
    pub hovered: bool,
}

impl Hover {
    /// Starts not hovered, like a widget the pointer has not visited.
    pub fn new() -> (h: Hover)
        ensures
            !h.hovered,
    {
        Hover { hovered: false }
    }

    /// Applies one component event: a pointer change sets the flag, a
    /// message of the wrapped content is handed back unchanged.
    pub fn update<M>(&mut self, event: Event<M>) -> (out: Option<M>)
        ensures
            event matches Event::Change(Cursor::Entered) ==> final(self).hovered && out is None,
            event matches Event::Change(Cursor::Left) ==> !final(self).hovered && out is None,
            event matches Event::Message(m) ==> *final(self) == *old(self) && out == Some(m),
    {
        match event {
            Event::Change(change) => {
                match change {
                    Cursor::Entered => {
                        self.hovered = true;
                    }
                    Cursor::Left => {
                        self.hovered = false;
                    }
                }
                None
            }
            Event::Message(message) => Some(message),
        }
    }

    /// One pointer move over the widget: the flag follows the cursor
    /// position, and crossing the bounds reports the change — entering when
    /// the cursor comes in, leaving when it goes out, nothing otherwise.
    pub fn on_event(&mut self, bounds: &Rectangle, cursor: Point) -> (change: Option<Cursor>)
        ensures
            final(self).hovered == bounds.spec_contains(cursor),
            change == if !old(self).hovered && bounds.spec_contains(cursor) {
                Some(Cursor::Entered)
            } else if old(self).hovered && !bounds.spec_contains(cursor) {
                Some(Cursor::Left)
            } else {
                None::<Cursor>
            },
    {
        let prev_hovered = self.hovered;
        self.hovered = bounds.contains(cursor);
        if prev_hovered && !self.hovered {
            Some(Cursor::Left)
        } else if !prev_hovered && self.hovered {
            Some(Cursor::Entered)
        } else {
            None
        }
    }
}

} // verus!
