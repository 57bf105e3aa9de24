//! A list of counter rows: each row holds a count that can be raised,
//! lowered (never below zero), or deleted from the list.

use vstd::prelude::*;

verus! {

/// A message delivered to one counter row.
#[derive(Debug, Clone, Copy)]
pub enum Message {
    Increment,
    Decrement,
    Delete,
}

/// An event a row hands back to the list that owns it.
#[derive(Debug, Clone, Copy, PartialEq, Eq, Structural)]
pub enum Event {
    Delete,
}

/// One counter row.
#[derive(Debug, Clone, Copy, PartialEq, Eq, Structural)]
pub struct Thing {
    pub count: u64,
}

impl Default for Thing {
    /// A fresh row starts at zero.
    fn default() -> (t: Self)
        ensures
            t.count == 0,
    {
        Thing { count: 0 }
    }
}

impl Thing {
    /// Applies one message to the row: `Increment` raises the count by one,
    /// `Decrement` lowers it but saturates at zero, and `Delete` leaves the
    /// count alone and asks the owner to drop the row.
    pub fn update(&mut self, message: Message) -> (event: Option<Event>)
        requires
            message is Increment ==> old(self).count < u64::MAX,
        ensures
            message is Increment ==> final(self).count == old(self).count + 1 && event is None,
            message is Decrement ==> final(self).count == if old(self).count > 0 {
                (old(self).count - 1) as u64
            } else {
                0u64
            } && event is None,
            message is Delete ==> *final(self) == *old(self) && event == Some(Event::Delete),
    {
        match message {
            Message::Increment => {
                self.count = self.count + 1;
                None
            }
            Message::Decrement => {
                self.count = self.count.saturating_sub(1);
                None
            }
            Message::Delete => Some(Event::Delete),
        }
    }
}

/// Routes one message to the row at `index`: out-of-range messages are
/// ignored, a `Delete` removes the row, anything else updates it in place.
pub fn update_things(things: &mut Vec<Thing>, index: usize, message: Message)
    requires
        index < old(things).len() && message is Increment ==> old(things)[index as int].count
            < u64::MAX,
    ensures
        index >= old(things).len() ==> final(things)@ == old(things)@,
        index < old(things).len() && message is Delete ==> final(things)@ == old(
            things,
        )@.remove(index as int),
        index < old(things).len() && message is Increment ==> final(things)@ == old(
            things,
        )@.update(
            index as int,
            Thing { count: (old(things)[index as int].count + 1) as u64 },
        ),
        index < old(things).len() && message is Decrement ==> final(things)@ == old(
            things,
        )@.update(
            index as int,
            Thing {
                count: if old(things)[index as int].count > 0 {
                    (old(things)[index as int].count - 1) as u64
                } else {
                    0u64
                },
            },
        ),
{
    if index < things.len() {
        let thing = &mut things[index];
        let event = thing.update(message);
        if let Some(Event::Delete) = event {
            proof {
                assert(things@ =~= old(things)@);
            }
            things.remove(index);
        }
    }
}

} // verus!
