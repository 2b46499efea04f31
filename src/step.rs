use vstd::prelude::*;

verus! {

/// A hardware component that a scheduler advances in step with the CPU.
pub trait Step {
    /// Advance the component by the given number of CPU cycles.
    fn step(&mut self, cycles: u8);
}

} // verus!
