//! Sequence numbers for the messages that a port sends.

use vstd::prelude::*;

verus! {

/// The sequence number that follows `id`: the next one, and zero after the
/// last.
pub open spec fn following(id: u16) -> u16 {
    if id == u16::MAX {
        0
    } else {
        (id + 1) as u16
    }
}

/// A counter that hands out sequence numbers one after another.
#[derive(Clone, Copy, Debug, Default, PartialEq, Eq, Structural, Hash)]
pub struct SequenceIdGenerator {
    /// The number that is handed out next.
    pub current: u16,
}

impl SequenceIdGenerator {
    /// The counter after it has handed out one number.
    pub open spec fn advanced(self) -> SequenceIdGenerator {
        SequenceIdGenerator { current: following(self.current) }
    }

    pub fn new() -> (r: SequenceIdGenerator)
        ensures
            r.current == 0,
    {
        SequenceIdGenerator { current: 0 }
    }

    /// Hands out the current number and moves on to the next.
    pub fn generate(&mut self) -> (id: u16)
        ensures
            id == old(self).current,
            *final(self) == old(self).advanced(),
    {
        let id = self.current;
        self.current = self.current.wrapping_add(1);
        id
    }
}

/// Two numbers handed out one after the other differ.
pub proof fn lemma_following_differs(id: u16)
    ensures
        following(id) != id,
{
}

} // verus!
