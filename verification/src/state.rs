//! Lifecycle states of a fiber.

use vstd::prelude::*;

verus! {

/// Where a fiber stands in its lifecycle.
///
/// A fiber starts out `Available`, becomes `Ready` when a body is spawned
/// onto it, alternates between `Running` and `Ready` while the body makes
/// progress, and is `Available` again once the body has returned.
#[derive(Clone, Copy, Debug, PartialEq, Eq, Structural)]
pub enum State {
    /// The fiber holds no body and may be claimed by a spawn.
    Available,
    /// The fiber is the one executing.
    Running,
    /// The fiber holds a body that is waiting for its turn.
    Ready,
}

} // verus!
