//! Time-driven units of work and the registry that drives them.
//!
//! A [`Sequence`] is advanced once per tick and reports an [`Outcome`].
//! Sequences compose with [`then::Then`]; a [`chain::Chain`] binds one
//! composition to a subject, and the [`sequencer::Sequencer`] drives all
//! chains that are active.

use vstd::prelude::*;

pub mod chain;
pub mod sequencer;
pub mod then;

verus! {

/// Whether a unit that needs another tick keeps pace with the clock.
#[derive(Clone, Copy, Debug, PartialEq, Eq, Structural)]
pub enum Running {
    /// The common case: the unit is where the clock expects it to be.
    NotLagging,
    /// Real time has run ahead of the unit's own progress.
    Lagging,
}

/// How a finished unit hands over to whatever follows it.
#[derive(Clone, Copy, Debug, PartialEq, Eq, Structural)]
pub enum Done {
    /// The successor starts no earlier than the following tick.
    Normal,
    /// The successor must get its chance within the same tick.
    AdvanceNow,
}

/// What one update of a unit reports.
#[derive(Clone, Copy, Debug, PartialEq, Eq, Structural)]
pub enum Outcome {
    /// The unit needs another tick.
    Running(Running),
    /// The unit is finished and must not be updated again.
    Done(Done),
}

impl Outcome {
    /// True of the outcomes after which a unit must never be updated again.
    pub open spec fn is_terminal(self) -> bool {
        self is Done
    }
}

/// A unit of work that is advanced once per tick against a world `W`.
///
/// An implementation names its transition as the spec function `step`: from
/// the unit, the tick and the world before an update to the unit and the
/// world after it and the outcome reported. `update` is bound to perform
/// exactly that transition, which is what lets the combinators state what
/// they do in terms of the units they are built from.
///
/// An implementation that is not verified may leave `step` as it is.
/// Nothing is then known of its transition, and what the combinators state
/// of it they state of that unknown.
pub trait Sequence<W>: Sized {
    /// The transition that one update performs. Left as it is, it stands for
    /// a transition of which nothing is known.
    open spec fn step(self, time: u64, world: W) -> (Self, W, Outcome) {
        arbitrary()
    }

    /// Advances the unit by one tick.
    fn update(&mut self, time: u64, world: &mut W) -> (r: Outcome)
        ensures
            (*final(self), *final(world), r) == old(self).step(time, *old(world)),
    ;
}

} // verus!
