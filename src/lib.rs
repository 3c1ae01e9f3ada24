//! Bayesian inference by Markov-chain Monte Carlo: observations handed to a
//! model, and a Metropolis-within-Gibbs sampler that runs one or more chains.
pub mod numeric;
pub mod samplers;
pub mod utils;
