//! Sources of the raw 32-bit values that session tokens are derived from.

use vstd::prelude::*;

pub mod counter;
pub mod linear_congruential_generator;

verus! {

/// The Generator generates random numbers for the session manager.
///
/// A generator is a stateful source of 32-bit values. `None` means that the
/// source is exhausted; a source that is meant to be endless never returns it.
pub trait Generator: Sized {
    /// The invariant that every operation of the generator preserves.
    spec fn wf(&self) -> bool;

    /// Whether a call of `next` in this state may hand out `value` and leave
    /// the generator as `after`. A generator that draws at random admits
    /// more than one outcome.
    spec fn yields(&self, value: Option<u32>, after: Self) -> bool;

    /// Create a new Generator with random values.
    fn new_random() -> (generator: Self)
        ensures
            generator.wf(),
    ;

    /// Produce the next value and move the state on.
    fn next(&mut self) -> (value: Option<u32>)
        requires
            old(self).wf(),
        ensures
            final(self).wf(),
            old(self).yields(value, *final(self)),
    ;
}

} // verus!
