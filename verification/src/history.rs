//! The ordered log of executed actions.  Owned by the board that played
//! them, and only ever appended to.

use vstd::prelude::*;

use crate::actions::Actions;

verus! {

/// An append-only sequence of executed actions, oldest first.
#[derive(Debug)]
pub struct History(pub Vec<Actions>);

impl History {
    /// Appends one executed action; everything already logged stays put.
    pub fn add(&mut self, action: Actions)
        ensures
            final(self).0@ == old(self).0@.push(action),
    {
        self.0.push(action);
    }
}

impl Default for History {
    fn default() -> (r: Self)
        ensures
            r.0@.len() == 0,
    {
        History(Vec::new())
    }
}

} // verus!
