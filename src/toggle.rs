//! The connection toggle's level.
//!
//! The toggle is a boolean level: `true` lets acceptors dial the backend,
//! `false` parks them. Setting the level to the value it already has changes
//! nothing and wakes nobody; setting it to the other value asks for every
//! waiter parked on that value to be woken. The blocking side of the toggle
//! lives with the program's task runtime; it follows `set`'s answer.
use vstd::prelude::*;

verus! {

/// A boolean level that reports each change of value.
#[derive(Debug)]
pub struct Toggle {
    state: bool,
}

impl Toggle {
    /// The current level.
    pub closed spec fn level(&self) -> bool {
        self.state
    }

    /// A toggle at level `state`.
    pub fn new(state: bool) -> (r: Toggle)
        ensures
            r.level() == state,
    {
        Toggle { state }
    }

    /// Sets the level to `state`. Returns whether the level changed, that is
    /// whether the waiters parked on `state` are to be woken.
    pub fn set(&mut self, state: bool) -> (changed: bool)
        ensures
            final(self).level() == state,
            changed == (old(self).level() != state),
    {
        if self.state == state {
            false
        } else {
            self.state = state;
            true
        }
    }

    /// The current level.
    pub fn get(&self) -> (r: bool)
        ensures
            r == self.level(),
    {
        self.state
    }
}

} // verus!
