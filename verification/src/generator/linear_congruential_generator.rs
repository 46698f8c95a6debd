//! A linear congruential generator that draws new parameters before its
//! sequence can cycle.

use crate::generator::Generator;
use rand::Rng;
use vstd::prelude::*;

verus! {

/// A linear congruential generator is a simple algorithm that generates a
/// sequence of pseudo-random numbers: each state follows from the one before
/// as `(multiplier * state + increment) mod modulus`.
///
/// `counter` counts the values handed out under the current parameters. When
/// it reaches `modulus`, all parameters are drawn anew, so that the generator
/// never runs a whole cycle on one set of them.
#[derive(Copy, Clone)]
pub struct NotRepeatableLinearCongruentialGenerator {
    pub state: u32,
    pub increment: u32,
    pub multiplier: u32,
    pub modulus: u32,
    pub counter: u32,
}

/// The state that follows `state` under the given parameters.
pub open spec fn successor(multiplier: u32, state: u32, increment: u32, modulus: u32) -> u32
    recommends
        modulus > 0,
{
    ((multiplier as int * state as int + increment as int) % (modulus as int)) as u32
}

/// The multiplier that a draw from `0 ..= u32::MAX - 1` stands for when
/// `previous` is excluded: the draws below `previous` stand for themselves,
/// the others for the value one above.
pub open spec fn skipping(previous: u32, draw: u32) -> u32
    recommends
        draw < u32::MAX,
{
    if draw < previous {
        draw
    } else {
        (draw + 1) as u32
    }
}

/// Calls `rand::thread_rng()` and `Rng::gen_range` on the inclusive range
/// `low ..= high`. `gen_range` panics on an empty range, which `requires`
/// leaves out, and returns a value of the range; which one is not determined.
#[verifier::external_body]
fn random_in(low: u32, high: u32) -> (value: u32)
    requires
        low <= high,
    ensures
        low <= value <= high,
{
    rand::thread_rng().gen_range(low..=high)
}

/// Turns a draw from `0 ..= u32::MAX - 1` into a multiplier other than
/// `previous`. Every other multiplier is the image of exactly one draw.
pub fn distinct_multiplier(previous: u32, draw: u32) -> (multiplier: u32)
    requires
        draw < u32::MAX,
    ensures
        multiplier == skipping(previous, draw),
        multiplier != previous,
{
    if draw < previous {
        draw
    } else {
        draw + 1
    }
}

impl NotRepeatableLinearCongruentialGenerator {
    /// The generator after one value was handed out without a reseed.
    pub open spec fn advanced(self) -> Self {
        Self {
            state: successor(self.multiplier, self.state, self.increment, self.modulus),
            counter: (self.counter + 1) as u32,
            ..self
        }
    }

    /// The generator after `steps` values were handed out without a reseed.
    pub open spec fn advanced_by(self, steps: nat) -> Self
        decreases steps,
    {
        if steps == 0 {
            self
        } else {
            self.advanced().advanced_by((steps - 1) as nat)
        }
    }

    /// Whether `self` may be what `randomize` leaves of `before`: the counter
    /// is back at zero, the multiplier has changed, and the modulus is usable.
    pub open spec fn reseeded_from(self, before: Self) -> bool {
        &&& self.counter == 0
        &&& self.modulus > 0
        &&& self.multiplier != before.multiplier
    }

    /// The state that follows the current one.
    pub fn next_state(&self) -> (state: u32)
        requires
            self.modulus > 0,
        ensures
            state == successor(self.multiplier, self.state, self.increment, self.modulus),
            state < self.modulus,
    {
        let multiplier: u64 = self.multiplier as u64;
        let state: u64 = self.state as u64;
        assert(multiplier * state <= 0xFFFF_FFFF * 0xFFFF_FFFF) by (nonlinear_arith)
            requires
                multiplier <= 0xFFFF_FFFF,
                state <= 0xFFFF_FFFF,
        ;
        let sum: u64 = multiplier * state + self.increment as u64;
        (sum % self.modulus as u64) as u32
    }

    /// Installs freshly drawn parameters and starts the count anew. The
    /// multiplier is given as a draw from `0 ..= u32::MAX - 1`, which stands
    /// for one of the multipliers other than the present one.
    pub fn reseed(&mut self, state: u32, increment: u32, multiplier_draw: u32, modulus: u32)
        requires
            multiplier_draw < u32::MAX,
            modulus > 0,
        ensures
            *final(self) == (Self {
                state,
                increment,
                multiplier: skipping(old(self).multiplier, multiplier_draw),
                modulus,
                counter: 0,
            }),
            final(self).reseeded_from(*old(self)),
            final(self).wf(),
    {
        self.state = state;
        self.increment = increment;
        // Make sure the multiplier is different from the previous one
        self.multiplier = distinct_multiplier(self.multiplier, multiplier_draw);
        self.modulus = modulus;
        self.counter = 0;
    }

    /// Draws all parameters anew. State and increment are drawn from all of
    /// `u32`, the modulus from `1 ..= u32::MAX`, and the multiplier from the
    /// values other than the present one.
    pub fn randomize(&mut self)
        ensures
            final(self).reseeded_from(*old(self)),
            final(self).wf(),
    {
        let state: u32 = random_in(0, u32::MAX);
        let increment: u32 = random_in(0, u32::MAX);
        let multiplier_draw: u32 = random_in(0, u32::MAX - 1);
        let modulus: u32 = random_in(1, u32::MAX);
        self.reseed(state, increment, multiplier_draw, modulus);
    }
}

/// While fewer values than the modulus have been handed out under the
/// current parameters, the parameters stay and the counter counts the values.
pub proof fn lemma_advanced_by(generator: NotRepeatableLinearCongruentialGenerator, steps: nat)
    requires
        generator.wf(),
        steps < generator.modulus - generator.counter,
    ensures
        generator.advanced_by(steps).wf(),
        generator.advanced_by(steps).counter == generator.counter + steps,
        generator.advanced_by(steps).modulus == generator.modulus,
        generator.advanced_by(steps).multiplier == generator.multiplier,
        generator.advanced_by(steps).increment == generator.increment,
    decreases steps,
{
    if steps > 0 {
        lemma_advanced_by(generator.advanced(), (steps - 1) as nat);
    }
}

/// No set of parameters is used for more values than its modulus: once a
/// generator has advanced through all but the last of the `modulus - counter`
/// values that are left under its parameters, whatever `next` does then is a
/// reseed, with another multiplier and the counter at zero.
pub proof fn lemma_reseed_is_due(
    generator: NotRepeatableLinearCongruentialGenerator,
    value: Option<u32>,
    after: NotRepeatableLinearCongruentialGenerator,
)
    requires
        generator.wf(),
        generator.advanced_by((generator.modulus - generator.counter - 1) as nat).yields(
            value,
            after,
        ),
    ensures
        after.reseeded_from(generator),
        after.wf(),
{
    lemma_advanced_by(generator, (generator.modulus - generator.counter - 1) as nat);
}

impl Generator for NotRepeatableLinearCongruentialGenerator {
    /// The modulus is not zero, and fewer values than the modulus were handed
    /// out since the parameters were drawn.
    open spec fn wf(&self) -> bool {
        self.modulus > 0 && self.counter < self.modulus
    }

    /// The current state is handed out, always. Short of the last value due
    /// under the current parameters the generator advances; at the last one
    /// it is reseeded, and its state has already moved on from the drawn one.
    open spec fn yields(&self, value: Option<u32>, after: Self) -> bool {
        &&& value == Some(self.state)
        &&& if self.counter + 1 != self.modulus {
            after == self.advanced()
        } else {
            &&& after.reseeded_from(*self)
            &&& exists|drawn: u32|
                after.state == #[trigger] successor(
                    after.multiplier,
                    drawn,
                    after.increment,
                    after.modulus,
                )
        }
    }

    /// A generator with drawn parameters. Its multiplier is not zero.
    fn new_random() -> (generator: Self)
        ensures
            generator.counter == 0,
            generator.multiplier != 0,
    {
        let mut generator = Self { state: 0, increment: 0, multiplier: 0, modulus: 0, counter: 0 };

        generator.randomize();

        generator
    }

    /// Hands out the current state, always. If this was the last value due
    /// under the current parameters, all of them are drawn anew first; then
    /// the state moves on under the parameters in force.
    fn next(&mut self) -> (value: Option<u32>)
        ensures
            value == Some(old(self).state),
    {
        let output: u32 = self.state;

        // If the counter reaches the modulus, create a new state
        if self.counter + 1 == self.modulus {
            self.randomize();
        } else {
            self.counter += 1;
        }
        let ghost drawn: u32 = self.state;
        self.state = self.next_state();
        assert(self.state == successor(self.multiplier, drawn, self.increment, self.modulus));

        Some(output)
    }
}

} // verus!
