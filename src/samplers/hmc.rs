//! Hamiltonian Monte Carlo.
use vstd::prelude::*;

verus! {

/// The Hamiltonian Monte Carlo sampler, a gradient-based sampler whose moves
/// follow the model's gradient. It holds no state, and this library gives it
/// no sampling routine.
#[derive(Clone, Copy, Debug)]
pub struct HMC {}

} // verus!
