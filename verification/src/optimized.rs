//! The optimized MATTR engine. It computes the same score as the reference
//! engine, but projects every token to a fixed-width hash surrogate once up
//! front and reuses one pre-sized scratch set across all windows, clearing and
//! refilling it per window instead of allocating anew.
//!
//! The surrogate substitution is a documented accuracy trade-off: two unequal
//! tokens may hash alike, in which case a window's distinct count is
//! undercounted. The contract is therefore stated over the surrogate
//! sequence; `crate::laws::lemma_engines_agree` shows that on a
//! collision-free input the score equals the reference engine's.

use crate::model::{
    distinct_count, distinct_sum, mattr_den, mattr_num, valid_inputs, window_at, windows_count,
    MattrError, Ratio, SMALL_SAMPLE_LIMIT,
};
use vstd::prelude::*;
use vstd::slice::slice_subrange;

verus! {

/// The value `fxhash::hash` gives to a token with this text: a fixed,
/// deterministic projection, a function of the text alone.
pub uninterp spec fn fx_hash_of(token: Seq<char>) -> usize;

/// The sequence of hash surrogates of a token sequence.
pub open spec fn surrogates_of(tokens: Seq<Seq<char>>) -> Seq<usize> {
    tokens.map_values(|t: Seq<char>| fx_hash_of(t))
}

/// No two unequal tokens of the sequence share a hash surrogate. On such an
/// input, hash equality coincides with token equality, so the surrogate
/// substitution loses nothing.
pub open spec fn collision_free(tokens: Seq<Seq<char>>) -> bool {
    forall|i: int, j: int|
        0 <= i < tokens.len() && 0 <= j < tokens.len() && #[trigger] fx_hash_of(tokens[i])
            == #[trigger] fx_hash_of(tokens[j]) ==> tokens[i] == tokens[j]
}

/// Relies on fxhash::hash: a seedless hash whose result is a function of the
/// hashed bytes alone, so equal token text always gives one surrogate.
#[verifier::external_body]
fn hash_token(token: &String) -> (r: usize)
    ensures
        r == fx_hash_of(token@),
{
    fxhash::hash(token.as_str())
}

/// The scratch set of hash surrogates: one `hashbrown::HashSet` allocation,
/// cleared and refilled for each window.
#[verifier::external_body]
pub struct TypeSet {
    set: hashbrown::HashSet<usize>,
}

/// The surrogates a [`TypeSet`] currently holds.
pub uninterp spec fn type_set_contents(s: TypeSet) -> Set<usize>;

impl TypeSet {
    /// Relies on hashbrown::HashSet::with_capacity: a freshly created set is
    /// empty (the capacity only pre-sizes the allocation).
    #[verifier::external_body]
    fn with_capacity(capacity: usize) -> (s: TypeSet)
        ensures
            type_set_contents(s) == Set::<usize>::empty(),
    {
        TypeSet { set: hashbrown::HashSet::with_capacity(capacity) }
    }

    /// Relies on hashbrown::HashSet::clear: removes every element, so the set
    /// is empty afterwards.
    #[verifier::external_body]
    fn clear(&mut self)
        ensures
            type_set_contents(*final(self)) == Set::<usize>::empty(),
    {
        self.set.clear();
    }

    /// Relies on hashbrown::HashSet::insert: afterwards the set holds the
    /// given value and everything it held before.
    #[verifier::external_body]
    fn insert(&mut self, value: usize)
        ensures
            type_set_contents(*final(self)) == type_set_contents(*old(self)).insert(value),
    {
        self.set.insert(value);
    }

    /// Relies on hashbrown::HashSet::len: the number of elements held.
    #[verifier::external_body]
    fn len(&self) -> (n: usize)
        ensures
            n == type_set_contents(*self).len(),
    {
        self.set.len()
    }
}

/// Type-token ratio of one window of surrogates. The caller's scratch set is
/// cleared and then populated with exactly the window's surrogates before the
/// ratio is read off; this mutation is part of the contract, not a hidden
/// effect.
fn get_ttr(inlist: &[usize], set: &mut TypeSet) -> (r: Ratio)
    requires
        inlist@.len() > 0,
    ensures
        r.num == distinct_count(inlist@),
        r.den == inlist@.len(),
        1 <= r.num <= r.den,
        type_set_contents(*final(set)) == inlist@.to_set(),
{
    broadcast use vstd::seq_lib::seq_to_set_is_finite;

    let ghost vals = inlist@;
    set.clear();
    let n = inlist.len();
    let mut i: usize = 0;
    proof {
        assert(vals.subrange(0, 0) =~= Seq::<usize>::empty());
        assert(Seq::<usize>::empty().to_set() =~= Set::<usize>::empty());
    }
    while i < n
        invariant
            i <= n,
            n == vals.len(),
            vals == inlist@,
            type_set_contents(*set) == vals.subrange(0, i as int).to_set(),
        decreases n - i,
    {
        set.insert(inlist[i]);
        proof {
            let prefix = vals.subrange(0, i as int);
            assert(vals.subrange(0, i as int + 1) =~= prefix.push(vals[i as int]));
            prefix.lemma_push_to_set_commute(vals[i as int]);
            assert(prefix.push(vals[i as int]).to_set() =~= prefix.to_set().insert(
                vals[i as int],
            ));
        }
        i += 1;
    }
    proof {
        assert(vals.subrange(0, n as int) =~= vals);
        crate::laws::lemma_ttr_bounds(vals);
    }
    let n_types = set.len();
    Ratio { num: n_types as u128, den: n as u128 }
}

/// Moving-average type-token ratio of `in_vector` with windows of length
/// `window_span`, computed on hash surrogates, as an exact rational.
///
/// The score is the one the reference engine would give to the surrogate
/// sequence: identical to the reference engine's score on `in_vector` unless
/// two unequal tokens collide, in which case distinct types are undercounted
/// — an accepted, bounded-probability approximation. Inputs are validated
/// exactly as in the reference engine.
pub fn get_mattr(in_vector: &[String], window_span: usize) -> (r: Result<Ratio, MattrError>)
    ensures
        r is Ok <==> valid_inputs(in_vector.deep_view().len() as int, window_span as int),
        in_vector.deep_view().len() == 0 ==> r == Err::<Ratio, MattrError>(MattrError::EmptyInput),
        in_vector.deep_view().len() > 0 && !valid_inputs(
            in_vector.deep_view().len() as int,
            window_span as int,
        ) ==> r == Err::<Ratio, MattrError>(MattrError::InvalidWindowSpan),
        r matches Ok(q) ==> {
            &&& q.num == mattr_num(surrogates_of(in_vector.deep_view()), window_span as int)
            &&& q.den == mattr_den(surrogates_of(in_vector.deep_view()), window_span as int)
            &&& 1 <= q.num <= q.den
        },
{
    let ghost toks = in_vector.deep_view();
    let ghost surr = surrogates_of(toks);
    let n = in_vector.len();
    if n == 0 {
        return Err(MattrError::EmptyInput);
    }
    if window_span == 0 || window_span > n {
        return Err(MattrError::InvalidWindowSpan);
    }
    let mut in_vector_hashed: Vec<usize> = Vec::new();
    let mut k: usize = 0;
    while k < n
        invariant
            k <= n,
            n == toks.len(),
            n == in_vector@.len(),
            toks == in_vector.deep_view(),
            surr == surrogates_of(toks),
            in_vector_hashed@.len() == k,
            forall|m: int| 0 <= m < k ==> in_vector_hashed@[m] == surr[m],
        decreases n - k,
    {
        let token = vstd::slice::slice_index_get(in_vector, k);
        in_vector_hashed.push(hash_token(token));
        k += 1;
    }
    proof {
        assert(in_vector_hashed@ =~= surr);
    }
    let mut set = TypeSet::with_capacity(window_span);
    if n <= SMALL_SAMPLE_LIMIT {
        return Ok(get_ttr(in_vector_hashed.as_slice(), &mut set));
    }
    let n_window = n - window_span + 1;
    let ghost w = window_span as int;
    let mut numerator: u128 = 0;
    let mut i: usize = 0;
    while i < n_window
        invariant
            i <= n_window,
            w == window_span as int,
            n_window == windows_count(n as int, w),
            1 <= w <= n,
            n == surr.len(),
            in_vector_hashed@ == surr,
            numerator == distinct_sum(surr, w, i as int),
            i <= numerator <= i as int * w,
        decreases n_window - i,
    {
        let window = slice_subrange(in_vector_hashed.as_slice(), i, i + window_span);
        proof {
            assert(window@ =~= window_at(surr, w, i as int));
        }
        let t = get_ttr(window, &mut set);
        proof {
            assert(usize::MAX <= u64::MAX);
            assert((i as int + 1) * w == i as int * w + w) by (nonlinear_arith);
            assert((i as int + 1) * w <= n_window as int * w) by (nonlinear_arith)
                requires
                    i as int + 1 <= n_window as int,
                    w >= 1,
            ;
            assert(n_window as int * w <= u64::MAX as int * u64::MAX as int) by (nonlinear_arith)
                requires
                    0 <= n_window as int <= u64::MAX as int,
                    0 <= w <= u64::MAX as int,
            ;
            assert((u64::MAX as int) * (u64::MAX as int) < (u128::MAX as int));
        }
        numerator = numerator + t.num;
        i += 1;
    }
    proof {
        assert(usize::MAX <= u64::MAX);
        assert(n_window as int * w <= u64::MAX as int * u64::MAX as int) by (nonlinear_arith)
            requires
                0 <= n_window as int <= u64::MAX as int,
                0 <= w <= u64::MAX as int,
        ;
        assert((u64::MAX as int) * (u64::MAX as int) < (u128::MAX as int));
        assert(numerator >= n_window >= 1);
    }
    let denominator = (window_span as u128) * (n_window as u128);
    Ok(Ratio { num: numerator, den: denominator })
}

} // verus!
