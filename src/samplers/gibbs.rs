//! Metropolis-within-Gibbs: a random-walk Metropolis update of each
//! coordinate in turn.
use crate::numeric::{positive, Draws, Real};
use crate::samplers::{
    is_chain, is_chain_set, is_total_model, model_of, Sampler,
};
use rayon::iter::{IntoParallelIterator, ParallelIterator};
use vstd::prelude::*;
use vstd::slice::slice_to_vec;

verus! {

/// What the Metropolis rule decides for one coordinate from where the two
/// log-densities stand relative to negative infinity.
#[derive(PartialEq, Eq, Structural, Clone, Copy, Debug)]
pub enum Verdict {
    /// Take the proposal.
    Accept,
    /// Keep the current value.
    Reject,
    /// Both log-densities are finite: take the proposal when a uniform draw
    /// falls below `min(exp(proposed - current), 1)`.
    Compare,
}

/// The verdict for a current point and a proposal, given whether each lies
/// outside the support (log-density negative infinity). A chain that stands
/// outside the support moves to any proposal; a proposal outside the support
/// of a point inside it is refused.
pub open spec fn verdict_of(current_outside: bool, proposal_outside: bool) -> Verdict {
    if current_outside {
        Verdict::Accept
    } else if proposal_outside {
        Verdict::Reject
    } else {
        Verdict::Compare
    }
}

/// The Metropolis rule's decision before any draw. Where the current
/// log-density is negative infinity and the proposed one is not, the proposal
/// is taken whatever a draw would give.
pub fn metropolis_verdict(current_outside: bool, proposal_outside: bool) -> (r: Verdict)
    ensures
        r == verdict_of(current_outside, proposal_outside),
        current_outside && !proposal_outside ==> r == Verdict::Accept,
{
    if current_outside {
        Verdict::Accept
    } else if proposal_outside {
        Verdict::Reject
    } else {
        Verdict::Compare
    }
}

/// The proposal for coordinate `i` of `from` with normal step `z`: `from`
/// with `from[i] + z` at coordinate `i`.
pub open spec fn proposal<R: Real>(from: Seq<R::Value>, i: int, z: R::Value) -> Seq<R::Value> {
    from.update(i, R::add_spec(from[i], z))
}

/// The Metropolis rule with uniform draw `u`, for current log-density `ld_c`
/// and proposed log-density `ld_p`: a point outside the support (log-density
/// negative infinity) takes any proposal; a proposal outside the support is
/// refused from a point inside it; otherwise the proposal is taken when
/// `u < min(exp(ld_p - ld_c), 1)`.
pub open spec fn accepts<R: Real>(ld_c: R::Value, ld_p: R::Value, u: R::Value) -> bool {
    ||| R::neg_inf(ld_c)
    ||| !R::neg_inf(ld_p) && R::lt_spec(
        u,
        R::min_spec(R::exp_spec(R::sub_spec(ld_p, ld_c)), R::one_spec()),
    )
}

/// `to` is the Metropolis update of coordinate `i` of `from` under `model`
/// with normal step `z` and uniform draw `u`: the model gives `ld_c` at
/// `from` and `ld_p` at the proposal, and `to` is the proposal if the rule
/// accepts it, else `from`.
pub open spec fn metropolis_step<R: Real>(
    model: spec_fn(Seq<R::Value>, R::Value) -> bool,
    i: int,
    from: Seq<R::Value>,
    z: R::Value,
    u: R::Value,
    to: Seq<R::Value>,
) -> bool {
    exists|ld_c: R::Value, ld_p: R::Value|
        #![trigger model(from, ld_c), model(proposal::<R>(from, i, z), ld_p)]
        {
            &&& model(from, ld_c)
            &&& model(proposal::<R>(from, i, z), ld_p)
            &&& to == if accepts::<R>(ld_c, ld_p, u) {
                proposal::<R>(from, i, z)
            } else {
                from
            }
        }
}

/// `to` follows from `from` by the Metropolis update of coordinate `i`
/// under `model`, for some normal step and some uniform draw.
pub open spec fn coordinate_move<R: Real>(
    model: spec_fn(Seq<R::Value>, R::Value) -> bool,
    i: int,
    from: Seq<R::Value>,
    to: Seq<R::Value>,
) -> bool {
    &&& 0 <= i < from.len()
    &&& exists|z: R::Value, u: R::Value| #[trigger] metropolis_step::<R>(model, i, from, z, u, to)
}

/// `states` leads from `from` to `to` by the Metropolis updates of
/// coordinates `0..dims` in increasing order.
pub open spec fn sweep_path<R: Real>(
    model: spec_fn(Seq<R::Value>, R::Value) -> bool,
    dims: nat,
    from: Seq<R::Value>,
    to: Seq<R::Value>,
    states: Seq<Seq<R::Value>>,
) -> bool {
    &&& states.len() == dims + 1
    &&& states[0] == from
    &&& states[dims as int] == to
    &&& forall|i: int|
        0 <= i < dims ==> #[trigger] coordinate_move::<R>(model, i, states[i], states[i + 1])
}

/// `chain` is a run of `g` from `inits` under `model`: its first sample is
/// one sweep from `inits`, and each later sample one sweep from the sample
/// before it.
pub open spec fn is_run<R: Draws>(
    g: &Gibbs<R>,
    model: spec_fn(Seq<R::Value>, R::Value) -> bool,
    inits: Seq<R::Value>,
    chain: Seq<Vec<R::Value>>,
) -> bool {
    &&& chain.len() > 0 ==> g.is_sweep(model, inits, chain[0]@)
    &&& forall|j: int, k: int|
        #![trigger chain[j], chain[k]]
        0 <= j && k == j + 1 && k < chain.len() ==> g.is_sweep(model, chain[j]@, chain[k]@)
}

/// `model` gives at most one log-density to each vector, as a pure model does.
pub open spec fn is_function<V>(model: spec_fn(Seq<V>, V) -> bool) -> bool {
    forall|p: Seq<V>, a: V, b: V| #![trigger model(p, a), model(p, b)] model(p, a) && model(p, b) ==> a == b
}

/// No log-density that `model` gives to `p` is negative infinity: `p` lies
/// inside the support.
pub open spec fn inside_support<R: Real>(model: spec_fn(Seq<R::Value>, R::Value) -> bool, p: Seq<R::Value>) -> bool {
    forall|ld: R::Value| #[trigger] model(p, ld) ==> !R::neg_inf(ld)
}

proof fn lemma_move_stays_inside<R: Real>(
    model: spec_fn(Seq<R::Value>, R::Value) -> bool,
    i: int,
    from: Seq<R::Value>,
    to: Seq<R::Value>,
)
    requires
        coordinate_move::<R>(model, i, from, to),
        is_function(model),
        inside_support::<R>(model, from),
    ensures
        inside_support::<R>(model, to),
{
}

proof fn lemma_path_stays_inside<R: Real>(
    model: spec_fn(Seq<R::Value>, R::Value) -> bool,
    dims: nat,
    from: Seq<R::Value>,
    to: Seq<R::Value>,
    states: Seq<Seq<R::Value>>,
    n: nat,
)
    requires
        sweep_path::<R>(model, dims, from, to, states),
        n <= dims,
        is_function(model),
        inside_support::<R>(model, from),
    ensures
        inside_support::<R>(model, states[n as int]),
    decreases n,
{
    if n > 0 {
        lemma_path_stays_inside::<R>(model, dims, from, to, states, (n - 1) as nat);
        let k = n - 1;
        lemma_move_stays_inside::<R>(model, k, states[k], states[k + 1]);
    }
}

/// A sweep that starts inside the support of a pure model ends inside it: a
/// proposal outside the support is never taken from a point inside it.
pub proof fn lemma_sweep_stays_in_support<R: Draws>(
    g: &Gibbs<R>,
    model: spec_fn(Seq<R::Value>, R::Value) -> bool,
    from: Seq<R::Value>,
    to: Seq<R::Value>,
)
    requires
        g.is_sweep(model, from, to),
        is_function(model),
        inside_support::<R>(model, from),
    ensures
        inside_support::<R>(model, to),
{
    let states = choose|states: Seq<Seq<R::Value>>|
        #[trigger] sweep_path::<R>(model, g@.len(), from, to, states);
    lemma_path_stays_inside::<R>(model, g@.len(), from, to, states, g@.len());
}

/// A Metropolis-within-Gibbs sampler: each sweep visits the coordinates in
/// order, proposes a normal random-walk step of that coordinate's step size,
/// and accepts or rejects it by the Metropolis rule.
pub struct Gibbs<R: Real> {
    stepsizes: Vec<R::Value>,
}

impl<R: Real> View for Gibbs<R> {
    type V = Seq<R::Value>;

    /// The step sizes, one per coordinate.
    closed spec fn view(&self) -> Seq<R::Value> {
        self.stepsizes@
    }
}

impl<R: Real> Gibbs<R> {
    /// Every step size is positive.
    #[verifier::type_invariant]
    spec fn positive_steps(&self) -> bool {
        forall|k: int| 0 <= k < self.stepsizes@.len() ==> positive::<R>(#[trigger] self.stepsizes@[k])
    }

    /// A sampler with one random-walk step size (a positive standard
    /// deviation) per coordinate.
    pub fn new(stepsizes: &[R::Value]) -> (r: Self)
        requires
            forall|k: int| 0 <= k < stepsizes@.len() ==> positive::<R>(#[trigger] stepsizes@[k]),
        ensures
            r@ == stepsizes@,
    {
        Gibbs { stepsizes: slice_to_vec(stepsizes) }
    }

    /// The number of coordinates.
    pub fn dims(&self) -> (r: usize)
        ensures
            r == self@.len(),
    {
        self.stepsizes.len()
    }

    /// The Metropolis update of coordinate `i` of `running` with normal step
    /// `z` and uniform draw `u`: the proposal `running` with `running[i] + z`
    /// at coordinate `i` is taken if the Metropolis rule accepts it, else
    /// `running` is kept. Each of the two vectors is evaluated once by `f`.
    pub fn update_with<F, S>(
        &self,
        f: &F,
        running: Vec<R::Value>,
        i: usize,
        data: &S,
        z: R::Value,
        u: R::Value,
    ) -> (r: Vec<R::Value>) where F: Fn(&[R::Value], &S) -> R::Value
        requires
            is_total_model(f),
            i < running@.len(),
        ensures
            metropolis_step::<R>(model_of(f, data), i as int, running@, z, u, r@),
    {
        let mut proposed = slice_to_vec(running.as_slice());
        let moved = R::add(running[i], z);
        proposed.set(i, moved);
        let q = running.as_slice();
        let ld_current = f(q, data);
        let p = proposed.as_slice();
        let ld_proposed = f(p, data);
        assert(p@ == proposal::<R>(running@, i as int, z));
        assert(model_of(f, data)(running@, ld_current));
        assert(model_of(f, data)(proposal::<R>(running@, i as int, z), ld_proposed));
        let accept = match metropolis_verdict(
            R::is_neg_infinity(ld_current),
            R::is_neg_infinity(ld_proposed),
        ) {
            Verdict::Accept => true,
            Verdict::Reject => false,
            Verdict::Compare => {
                let p_accept = R::min(R::exp(R::sub(ld_proposed, ld_current)), R::one());
                R::lt(u, p_accept)
            },
        };
        assert(accept == accepts::<R>(ld_current, ld_proposed, u));
        if accept {
            proposed
        } else {
            running
        }
    }
}

impl<R: Draws> Gibbs<R> {
    /// The Metropolis update of coordinate `i` of `running`, with a normal
    /// step of that coordinate's step size and a uniform draw.
    fn update_coordinate<F, S>(&self, f: &F, running: Vec<R::Value>, i: usize, data: &S) -> (r: Vec<
        R::Value,
    >) where F: Fn(&[R::Value], &S) -> R::Value
        requires
            is_total_model(f),
            i < running@.len(),
            running@.len() == self@.len(),
        ensures
            coordinate_move::<R>(model_of(f, data), i as int, running@, r@),
    {
        proof {
            use_type_invariant(self);
        }
        let z = R::normal(R::zero(), self.stepsizes[i]);
        let u = R::uniform();
        self.update_with(f, running, i, data, z, u)
    }

    /// One sweep from a vector of the right length: coordinates are updated
    /// in increasing order, each seeing the updates made before it.
    fn sweep<F, S>(&self, f: &F, params: &[R::Value], data: &S) -> (r: Vec<R::Value>) where
        F: Fn(&[R::Value], &S) -> R::Value,

        requires
            is_total_model(f),
            params@.len() == self@.len(),
        ensures
            r@.len() == params@.len(),
            self.is_sweep(model_of(f, data), params@, r@),
    {
        let mut running = slice_to_vec(params);
        let ghost mut states: Seq<Seq<R::Value>> = seq![params@];
        let mut i: usize = 0;
        while i < self.stepsizes.len()
            invariant
                is_total_model(f),
                i <= self@.len(),
                running@.len() == self@.len(),
                params@.len() == self@.len(),
                states.len() == i + 1,
                states[0] == params@,
                states[i as int] == running@,
                forall|j: int|
                    0 <= j < i ==> #[trigger] coordinate_move::<R>(
                        model_of(f, data),
                        j,
                        states[j],
                        states[j + 1],
                    ),
            decreases self@.len() - i,
        {
            running = self.update_coordinate(f, running, i, data);
            proof {
                states = states.push(running@);
            }
            i = i + 1;
        }
        assert(sweep_path::<R>(model_of(f, data), self@.len(), params@, running@, states));
        running
    }

    /// One chain of `n_samples` sweeps from a vector of the right length.
    fn chain<F, S>(&self, f: &F, inits: &[R::Value], data: &S, n_samples: usize) -> (r: Vec<
        Vec<R::Value>,
    >) where F: Fn(&[R::Value], &S) -> R::Value
        requires
            is_total_model(f),
            inits@.len() == self@.len(),
        ensures
            is_chain(r@, n_samples as nat, inits@.len()),
            is_run(self, model_of(f, data), inits@, r@),
    {
        let mut samples: Vec<Vec<R::Value>> = Vec::with_capacity(n_samples);
        let mut running = slice_to_vec(inits);
        let mut k: usize = 0;
        while k < n_samples
            invariant
                is_total_model(f),
                inits@.len() == self@.len(),
                running@.len() == inits@.len(),
                k <= n_samples,
                is_chain(samples@, k as nat, inits@.len()),
                is_run(self, model_of(f, data), inits@, samples@),
                k == 0 ==> running@ == inits@,
                k > 0 ==> running@ == samples@[k - 1]@,
            decreases n_samples - k,
        {
            let ghost before = samples@;
            running = self.sweep(f, running.as_slice(), data);
            samples.push(slice_to_vec(running.as_slice()));
            assert(samples@ == before.push(samples@[k as int]));
            k = k + 1;
        }
        samples
    }
}

/// Relies on rayon's `into_par_iter` on a `Range<usize>`, `map` and
/// `ParallelIterator::collect` into a `Vec`: the range is an indexed parallel
/// iterator, and collecting it gives one result per index, in index order.
/// Each result is a chain built by `Gibbs::chain`, whose contract gives its
/// shape.
#[verifier::external_body]
fn chains_in_parallel<R, F, S>(
    sampler: &Gibbs<R>,
    f: &F,
    inits: &[R::Value],
    data: &S,
    n_samples: usize,
    n_chains: usize,
) -> (r: Vec<Vec<Vec<R::Value>>>) where
    R: Draws,
    F: Fn(&[R::Value], &S) -> R::Value + Sync,
    S: Sync,
    R::Value: Send + Sync,

    requires
        is_total_model(f),
        inits@.len() == sampler@.len(),
    ensures
        is_chain_set(r@, n_chains as nat, n_samples as nat, inits@.len()),
        forall|c: int|
            0 <= c < r@.len() ==> is_run(sampler, model_of(f, data), inits@, (#[trigger] r@[c])@),
{
    (0..n_chains).into_par_iter().map(|_| sampler.chain(f, inits, data, n_samples)).collect()
}

impl<R: Draws> Sampler<R> for Gibbs<R> {
    open spec fn dimension(&self) -> nat {
        self@.len()
    }

    /// There are `d + 1` vectors from `from` to `to`, each following from the
    /// one before by the Metropolis update of the next coordinate, in order.
    open spec fn is_sweep(
        &self,
        model: spec_fn(Seq<R::Value>, R::Value) -> bool,
        from: Seq<R::Value>,
        to: Seq<R::Value>,
    ) -> bool {
        exists|states: Seq<Seq<R::Value>>| #[trigger] sweep_path::<R>(model, self@.len(), from, to, states)
    }

    fn step<F, S>(&self, f: &F, params: &[R::Value], data: &S) -> (r: Vec<R::Value>) where
        F: Fn(&[R::Value], &S) -> R::Value,
     {
        self.sweep(f, params, data)
    }

    fn sample<F, S>(&self, f: &F, inits: &[R::Value], data: &S, n_samples: usize) -> (r: Vec<
        Vec<R::Value>,
    >) where F: Fn(&[R::Value], &S) -> R::Value
    {
        self.chain(f, inits, data, n_samples)
    }

    fn sample_par<F, S>(
        &self,
        f: &F,
        inits: &[R::Value],
        data: &S,
        n_samples: usize,
        n_chains: usize,
    ) -> (r: Vec<Vec<Vec<R::Value>>>) where
        F: Fn(&[R::Value], &S) -> R::Value + Sync,
        S: Sync,
        R::Value: Send + Sync,
    {
        chains_in_parallel(self, f, inits, data, n_samples, n_chains)
    }
}

} // verus!
