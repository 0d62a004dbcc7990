//! Noticing that a value has moved.

use vstd::prelude::*;

verus! {

/// Remembers the address at which a value was first seen.
#[derive(Clone, Copy, Debug, PartialEq, Eq, Structural)]
pub struct AddrTracker(pub Option<usize>);

impl Default for AddrTracker {
    fn default() -> (t: Self)
        ensures
            t.0 is None,
    {
        AddrTracker(None)
    }
}

impl AddrTracker {
    /// Takes in the address at which the tracked value lies now. The first
    /// address is remembered. The result says whether the value is where it
    /// was first seen.
    pub fn check_for_move(&mut self, current_addr: usize) -> (unmoved: bool)
        ensures
            final(self).0 == Some(
                match old(self).0 {
                    Some(prev_addr) => prev_addr,
                    None => current_addr,
                },
            ),
            unmoved == match old(self).0 {
                Some(prev_addr) => prev_addr == current_addr,
                None => true,
            },
    {
        match self.0 {
            None => {
                self.0 = Some(current_addr);
                true
            },
            Some(prev_addr) => prev_addr == current_addr,
        }
    }
}

} // verus!
