//! Book-keeping of one relay: two copies, one in each direction, that end as
//! a unit.
//!
//! The copies themselves are I/O and run outside. Here stands the rule for
//! their end: an error of one direction is logged and nothing more, and the
//! two connections are closed once both directions have ended.

use vstd::prelude::*;

verus! {

/// One of the two directions of a relay.
#[derive(Clone, Copy, Debug, PartialEq, Eq, Structural)]
pub enum Direction {
    /// From the first connection to the second.
    Forward,
    /// From the second connection to the first.
    Backward,
}

/// Which directions of a relay have ended.
#[derive(Clone, Copy, Debug, PartialEq, Eq, Structural)]
pub struct Relay {
    pub forward_done: bool,
    pub backward_done: bool,
}

/// What to do when a direction has ended.
#[derive(Clone, Copy, Debug, PartialEq, Eq, Structural)]
pub struct RelayStep {
    /// The direction ended with an error, which is to be logged.
    pub log_error: bool,
    /// Both directions have ended: close both connections.
    pub close: bool,
}

/// Whether both directions have ended.
pub open spec fn complete(relay: Relay) -> bool {
    relay.forward_done && relay.backward_done
}

/// The relay after `direction` has ended.
pub open spec fn ended(relay: Relay, direction: Direction) -> Relay {
    match direction {
        Direction::Forward => Relay { forward_done: true, ..relay },
        Direction::Backward => Relay { backward_done: true, ..relay },
    }
}

impl Relay {
    /// A relay whose two directions are both running.
    pub fn new() -> (relay: Relay)
        ensures
            relay == (Relay { forward_done: false, backward_done: false }),
    {
        Relay { forward_done: false, backward_done: false }
    }

    /// Whether both directions have ended.
    pub fn is_complete(&self) -> (done: bool)
        ensures
            done == complete(*self),
    {
        self.forward_done && self.backward_done
    }

    /// Takes note that `direction` has ended, with an error or without.
    pub fn finish(&mut self, direction: Direction, failed: bool) -> (step: RelayStep)
        ensures
            *final(self) == ended(*old(self), direction),
            step.log_error == failed,
            step.close == complete(*final(self)),
    {
        match direction {
            Direction::Forward => {
                self.forward_done = true;
            },
            Direction::Backward => {
                self.backward_done = true;
            },
        }
        RelayStep { log_error: failed, close: self.forward_done && self.backward_done }
    }
}

/// A relay is complete exactly when both directions have ended, in whichever
/// order and however each of them ended; the end of one direction alone never
/// completes a relay that was running in both.
pub proof fn lemma_relay_ends_as_a_unit(first: Direction, second: Direction)
    ensures
        !complete(ended(Relay { forward_done: false, backward_done: false }, first)),
        complete(
            ended(ended(Relay { forward_done: false, backward_done: false }, first), second),
        ) == (first != second),
{
}

/// A direction that has ended stays ended, and a complete relay stays
/// complete.
pub proof fn lemma_relay_is_monotonic(relay: Relay, direction: Direction)
    ensures
        relay.forward_done ==> ended(relay, direction).forward_done,
        relay.backward_done ==> ended(relay, direction).backward_done,
        complete(relay) ==> complete(ended(relay, direction)),
{
}

} // verus!
