//! A task written as a state machine: two requests, one after the other,
//! with a buffer that lives across both wait points.
//!
//! The machine holds no child task. Whoever drives it creates the child for
//! each path the machine asks for, polls the child, and hands the outcome
//! back.

use vstd::prelude::*;
use vstd::string::StringExecFns;
use crate::future::PollState;

verus! {

/// Where the machine stands.
#[derive(Clone, Copy, Debug, PartialEq, Eq, Structural)]
pub enum Stage {
    /// Nothing has happened yet.
    Start,
    /// The first request is under way.
    Wait1,
    /// The second request is under way.
    Wait2,
    /// Both responses are in. The machine must not be resumed again.
    Resolved,
}

/// What the machine needs next.
pub enum Resume {
    /// Create a child task that gets this path, poll it, and hand the
    /// outcome to `on_child`; do the same on every later poll until the
    /// child is done.
    Await(String),
    /// End the poll; the machine is not done.
    NotReady,
    /// End the poll; the machine is done and this is what it collected.
    Ready(String),
}

/// The heading that the collected text begins with.
pub open spec fn heading() -> Seq<char> {
    "\nBUFFER:\n----\n"@
}

/// A line: the text followed by a line feed.
pub open spec fn line(text: Seq<char>) -> Seq<char> {
    text + "\n"@
}

/// The state of the machine.
pub struct Coroutine {
    /// Where the machine stands.
    pub stage: Stage,
    /// The text collected so far.
    pub buffer: String,
    /// The path of the first request.
    pub first: String,
    /// The path of the second request.
    pub second: String,
}

impl Coroutine {
    /// A machine that will get `first` and then `second`.
    pub fn new(first: &str, second: &str) -> (c: Self)
        ensures
            c.stage == Stage::Start,
            c.buffer@ == Seq::<char>::empty(),
            c.first@ == first@,
            c.second@ == second@,
    {
        Coroutine {
            stage: Stage::Start,
            buffer: String::new(),
            first: String::from_str(first),
            second: String::from_str(second),
        }
    }

    /// Begins the run. The buffer gets its heading, and the result is the
    /// path of the first request, for which the caller creates a child.
    pub fn start(&mut self) -> (path: String)
        requires
            old(self).stage == Stage::Start,
        ensures
            final(self).stage == Stage::Wait1,
            final(self).buffer@ == heading(),
            final(self).first@ == old(self).first@,
            final(self).second@ == old(self).second@,
            path@ == old(self).first@,
    {
        self.buffer = String::from_str("\nBUFFER:\n----\n");
        self.stage = Stage::Wait1;
        String::from_str(self.first.as_str())
    }

    /// Takes in the outcome of a poll of the child that is under way. As
    /// long as the child is not done, the machine is not done either. The
    /// response of a child is added to the buffer as a line. After the
    /// first response the second request is asked for; after the second
    /// the machine is done and hands out the buffer.
    pub fn on_child(&mut self, found: PollState<String>) -> (next: Resume)
        requires
            old(self).stage == Stage::Wait1 || old(self).stage == Stage::Wait2,
        ensures
            final(self).first@ == old(self).first@,
            final(self).second@ == old(self).second@,
            match found {
                PollState::NotReady => {
                    &&& next is NotReady
                    &&& final(self).stage == old(self).stage
                    &&& final(self).buffer@ == old(self).buffer@
                },
                PollState::Ready(text) => if old(self).stage == Stage::Wait1 {
                    &&& final(self).stage == Stage::Wait2
                    &&& final(self).buffer@ == old(self).buffer@ + line(text@)
                    &&& next matches Resume::Await(path)
                    &&& path@ == old(self).second@
                } else {
                    &&& final(self).stage == Stage::Resolved
                    &&& final(self).buffer@ == Seq::<char>::empty()
                    &&& next matches Resume::Ready(collected)
                    &&& collected@ == old(self).buffer@ + line(text@)
                },
            },
    {
        match found {
            PollState::NotReady => Resume::NotReady,
            PollState::Ready(text) => {
                let mut collected = String::from_str(self.buffer.as_str());
                collected.append(text.as_str());
                collected.append("\n");
                assert(collected@ =~= old(self).buffer@ + line(text@));
                if self.stage == Stage::Wait1 {
                    self.buffer = collected;
                    self.stage = Stage::Wait2;
                    Resume::Await(String::from_str(self.second.as_str()))
                } else {
                    self.buffer = String::new();
                    self.stage = Stage::Resolved;
                    Resume::Ready(collected)
                }
            },
        }
    }
}

} // verus!
