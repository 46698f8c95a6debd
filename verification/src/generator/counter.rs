//! A generator that counts, for exercising the paths that a random source
//! reaches only by accident.

use crate::generator::Generator;
use vstd::prelude::*;

verus! {

/// Emits `count`, `count + 1`, ... up to `modulus - 1`, and is exhausted after.
#[derive(Copy, Clone)]
pub struct Counter {
    pub count: u32,
    pub modulus: u32,
}

impl Generator for Counter {
    /// The count has not passed the modulus.
    open spec fn wf(&self) -> bool {
        self.count <= self.modulus
    }

    /// The current count is handed out and grows by one; once it has reached
    /// the modulus, nothing is handed out and nothing changes.
    open spec fn yields(&self, value: Option<u32>, after: Self) -> bool {
        if self.count == self.modulus {
            value.is_none() && after == *self
        } else {
            value == Some(self.count) && after == (Counter {
                count: (self.count + 1) as u32,
                modulus: self.modulus,
            })
        }
    }

    /// A counter that emits `0` and `1` and is exhausted after.
    fn new_random() -> (generator: Self)
        ensures
            generator == (Counter { count: 0, modulus: 2 }),
    {
        Self { count: 0, modulus: 2 }
    }

    /// The current count, which then grows by one; `None`, with the state
    /// unchanged, once the count has reached the modulus.
    fn next(&mut self) -> (value: Option<u32>)
        ensures
            value.is_some() <==> old(self).count < old(self).modulus,
    {
        if self.count == self.modulus {
            return None;
        }
        let output: u32 = self.count;

        self.count += 1;

        Some(output)
    }
}

} // verus!
