//! The node's own turn flag and its sync state.

use vstd::prelude::*;

verus! {

/// Whether this node may propose, and how many rounds it still waits.
#[derive(Debug, Clone, Copy, PartialEq, Eq, Structural)]
pub struct Turn {
    pub shift: bool,
    pub waiting: u16,
}

impl Turn {
    /// A fresh turn: not eligible, nothing to wait for yet.
    pub fn new() -> (t: Self)
        ensures
            t == (Turn { shift: false, waiting: 0 }),
    {
        Turn { shift: false, waiting: 0 }
    }

    /// The node becomes eligible to propose.
    pub fn on(&mut self)
        ensures
            *final(self) == (Turn { shift: true, waiting: 0 }),
    {
        self.shift = true;
        self.waiting = 0;
    }

    /// The node steps back and waits `waiting` rounds.
    pub fn off(&mut self, waiting: u16)
        ensures
            *final(self) == (Turn { shift: false, waiting }),
    {
        self.shift = false;
        self.waiting = waiting;
    }

    /// What one elapsed round makes of a turn: the wait shrinks by one,
    /// and a wait that reaches zero makes the node eligible.
    pub open spec fn spec_elapsed(self) -> Turn {
        if self.waiting == 0 {
            self
        } else if self.waiting == 1 {
            Turn { shift: true, waiting: 0 }
        } else {
            Turn { shift: self.shift, waiting: (self.waiting - 1) as u16 }
        }
    }

    /// One round has elapsed.
    pub fn waiting_update(&mut self)
        ensures
            *final(self) == old(self).spec_elapsed(),
    {
        if self.waiting > 0 {
            self.waiting = self.waiting - 1;
            if self.waiting == 0 {
                self.shift = true;
            }
        }
    }
}

/// Whether the node has caught up with the network.
#[derive(Debug, Clone, Copy, PartialEq, Eq, Structural)]
pub enum Sync {
    Synced,
    NotSynced,
}

impl Sync {
    /// A fresh node starts out of sync.
    pub fn new() -> (s: Self)
        ensures
            s == Sync::NotSynced,
    {
        Sync::NotSynced
    }

    /// Marks the node as caught up; there is no way back.
    pub fn synced(&mut self)
        ensures
            *final(self) == Sync::Synced,
    {
        *self = Sync::Synced;
    }
}

} // verus!
