//! Samplers: one sweep, one chain of sweeps, and several chains at once.
use crate::numeric::Real;
use vstd::prelude::*;

pub mod gibbs;
pub mod hmc;

pub use gibbs::Gibbs;
pub use hmc::HMC;

verus! {

/// A model may be evaluated on every parameter vector and every data value.
pub open spec fn is_total_model<V, S, F: Fn(&[V], &S) -> V>(f: &F) -> bool {
    forall|p: &[V], d: &S| #[trigger] f.requires((p, d))
}

/// Model `f` with `data` as a relation: `model_of(f, data)(p, ld)` holds when
/// evaluating `f` on a vector `p` may return the log-density `ld`.
pub open spec fn model_of<V, S, F: Fn(&[V], &S) -> V>(f: &F, data: &S) -> spec_fn(Seq<V>, V) -> bool {
    |p: Seq<V>, ld: V| exists|q: &[V]| q@ == p && #[trigger] f.ensures((q, data), ld)
}

/// `chain` holds `n_samples` samples, each a parameter vector of length `dims`.
pub open spec fn is_chain<V>(chain: Seq<Vec<V>>, n_samples: nat, dims: nat) -> bool {
    &&& chain.len() == n_samples
    &&& forall|k: int| 0 <= k < chain.len() ==> (#[trigger] chain[k])@.len() == dims
}

/// `chains` holds `n_chains` chains of `n_samples` samples of length `dims`.
pub open spec fn is_chain_set<V>(
    chains: Seq<Vec<Vec<V>>>,
    n_chains: nat,
    n_samples: nat,
    dims: nat,
) -> bool {
    &&& chains.len() == n_chains
    &&& forall|c: int| 0 <= c < chains.len() ==> is_chain((#[trigger] chains[c])@, n_samples, dims)
}

/// A chain read coordinate by coordinate: entry `i` of the result is the trace
/// of coordinate `i`, its value in each sample in order.
pub fn traces<V: Copy>(chain: &Vec<Vec<V>>, dims: usize) -> (r: Vec<Vec<V>>)
    requires
        is_chain(chain@, chain@.len(), dims as nat),
    ensures
        r@.len() == dims,
        forall|i: int| 0 <= i < dims ==> (#[trigger] r@[i])@.len() == chain@.len(),
        forall|i: int, k: int|
            0 <= i < dims && 0 <= k < chain@.len() ==> #[trigger] r@[i]@[k] == chain@[k]@[i],
{
    let mut r: Vec<Vec<V>> = Vec::with_capacity(dims);
    let mut i: usize = 0;
    while i < dims
        invariant
            is_chain(chain@, chain@.len(), dims as nat),
            i <= dims,
            r@.len() == i,
            forall|i2: int| 0 <= i2 < i ==> (#[trigger] r@[i2])@.len() == chain@.len(),
            forall|i2: int, k: int|
                0 <= i2 < i && 0 <= k < chain@.len() ==> #[trigger] r@[i2]@[k] == chain@[k]@[i2],
        decreases dims - i,
    {
        let mut trace: Vec<V> = Vec::with_capacity(chain.len());
        let mut k: usize = 0;
        while k < chain.len()
            invariant
                is_chain(chain@, chain@.len(), dims as nat),
                i < dims,
                k <= chain@.len(),
                trace@.len() == k,
                forall|k2: int| 0 <= k2 < k ==> trace@[k2] == chain@[k2]@[i as int],
            decreases chain@.len() - k,
        {
            assert(chain@[k as int]@.len() == dims);
            trace.push(chain[k][i]);
            k = k + 1;
        }
        r.push(trace);
        i = i + 1;
    }
    r
}

/// A Markov-chain Monte Carlo sampler over parameter vectors of values of `R`.
///
/// A model maps a parameter vector and the data to the unnormalised
/// log-posterior density at that vector. A parameter vector must have one
/// entry per coordinate: the caller fails the run otherwise.
pub trait Sampler<R: Real> {
    /// The number of coordinates of the parameter vectors that it samples.
    spec fn dimension(&self) -> nat;

    /// `to` is a possible result of one sweep from `from` under `model`, a
    /// model as a relation (see `model_of`).
    spec fn is_sweep(
        &self,
        model: spec_fn(Seq<R::Value>, R::Value) -> bool,
        from: Seq<R::Value>,
        to: Seq<R::Value>,
    ) -> bool;

    /// One sweep from `params`.
    fn step<F, S>(&self, f: &F, params: &[R::Value], data: &S) -> (r: Vec<R::Value>) where
        F: Fn(&[R::Value], &S) -> R::Value,

        requires
            is_total_model(f),
            params@.len() == self.dimension(),
        ensures
            r@.len() == params@.len(),
            self.is_sweep(model_of(f, data), params@, r@),
    ;

    /// One chain of `n_samples` sweeps from `inits`: the vector after each
    /// sweep, in order, each sweep starting where the one before ended.
    fn sample<F, S>(&self, f: &F, inits: &[R::Value], data: &S, n_samples: usize) -> (r: Vec<
        Vec<R::Value>,
    >) where F: Fn(&[R::Value], &S) -> R::Value
        requires
            is_total_model(f),
            inits@.len() == self.dimension(),
        ensures
            is_chain(r@, n_samples as nat, inits@.len()),
            r@.len() > 0 ==> self.is_sweep(model_of(f, data), inits@, r@[0]@),
            forall|j: int, k: int|
                #![trigger r@[j], r@[k]]
                0 <= j && k == j + 1 && k < r@.len() ==> self.is_sweep(
                    model_of(f, data),
                    r@[j]@,
                    r@[k]@,
                ),
    ;

    /// `n_chains` independent chains of `n_samples` sweeps from `inits`, run
    /// in parallel.
    fn sample_par<F, S>(
        &self,
        f: &F,
        inits: &[R::Value],
        data: &S,
        n_samples: usize,
        n_chains: usize,
    ) -> (r: Vec<Vec<Vec<R::Value>>>) where
        F: Fn(&[R::Value], &S) -> R::Value + Sync,
        S: Sync,
        R::Value: Send + Sync,

        requires
            is_total_model(f),
            inits@.len() == self.dimension(),
        ensures
            is_chain_set(r@, n_chains as nat, n_samples as nat, inits@.len()),
            forall|c: int|
                0 <= c < r@.len() && (#[trigger] r@[c])@.len() > 0 ==> self.is_sweep(
                    model_of(f, data),
                    inits@,
                    r@[c]@[0]@,
                ),
            forall|c: int, j: int, k: int|
                #![trigger r@[c]@[j], r@[c]@[k]]
                0 <= c < r@.len() && 0 <= j && k == j + 1 && k < r@[c]@.len() ==> self.is_sweep(
                    model_of(f, data),
                    r@[c]@[j]@,
                    r@[c]@[k]@,
                ),
    ;
}

} // verus!
