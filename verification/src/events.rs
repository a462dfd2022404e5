//! Picking the key events out of everything the input layer reports.

use vstd::prelude::*;
use crate::key::KeyEvent;

verus! {

/// One event of the input layer. Only key events carry what this crate
/// reads; of the others the tag is kept.
#[derive(Clone, Copy, Debug, PartialEq, Eq, Structural)]
pub enum Event {
    FocusGained,
    FocusLost,
    Key(KeyEvent),
    Mouse,
    Paste,
    /// The terminal's new size, as columns and rows.
    Resize(u16, u16),
}

/// The reader of key events.
///
/// Waiting for input is the caller's part: it reads from the input layer,
/// hands each outcome to [`Events::read`], and reads again for as long as
/// the answer is `None`.
pub struct Events;

impl Events {
    /// What a read that came back with `outcome` amounts to: the key event
    /// or the failure that ends the wait, or nothing where the event was of
    /// another kind and is to be passed over.
    pub open spec fn settle<E>(outcome: Result<Event, E>) -> Option<Result<KeyEvent, E>> {
        match outcome {
            Ok(Event::Key(key)) => Some(Ok(key)),
            Ok(_) => None,
            Err(e) => Some(Err(e)),
        }
    }

    /// Decides what to do with the outcome of one read of the input layer.
    ///
    /// A key event ends the wait and is returned as it came. A failure of
    /// the read ends it too and is handed on. Any other event is dropped:
    /// the answer is `None`, and the caller reads again.
    pub fn read<E>(outcome: Result<Event, E>) -> (next: Option<Result<KeyEvent, E>>)
        ensures
            next == Events::settle(outcome),
            next is None <==> outcome is Ok && !(outcome->Ok_0 is Key),
    {
        match outcome {
            Ok(Event::Key(key)) => Some(Ok(key)),
            Ok(_) => None,
            Err(e) => Some(Err(e)),
        }
    }
}

} // verus!
