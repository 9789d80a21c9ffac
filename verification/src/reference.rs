//! The reference MATTR engine: the simplest correct statement of the metric,
//! computed directly on the token values.
//!
//! The distinct-token count of each window is found by a first-occurrence
//! scan, so the engine depends on nothing but token equality.

use crate::model::{
    distinct_count, distinct_sum, mattr_den, mattr_num, valid_inputs, window_at, windows_count,
    MattrError, Ratio, SMALL_SAMPLE_LIMIT,
};
use vstd::prelude::*;
use vstd::slice::slice_subrange;

verus! {

/// The prefix of length `i + 1` holds one more distinct token than the prefix
/// of length `i` exactly when `s[i]` does not occur earlier.
proof fn lemma_distinct_count_step<A>(s: Seq<A>, i: int)
    requires
        0 <= i < s.len(),
    ensures
        (exists|k: int| 0 <= k < i && s[k] == s[i]) ==> distinct_count(s.subrange(0, i + 1))
            == distinct_count(s.subrange(0, i)),
        !(exists|k: int| 0 <= k < i && s[k] == s[i]) ==> distinct_count(s.subrange(0, i + 1))
            == distinct_count(s.subrange(0, i)) + 1,
{
    broadcast use vstd::seq_lib::seq_to_set_is_finite;

    let prefix = s.subrange(0, i);
    assert(s.subrange(0, i + 1) =~= prefix.push(s[i]));
    prefix.lemma_push_to_set_commute(s[i]);
    assert(prefix.push(s[i]).to_set() =~= prefix.to_set().insert(s[i]));
    if exists|k: int| 0 <= k < i && s[k] == s[i] {
        let k = choose|k: int| 0 <= k < i && s[k] == s[i];
        assert(prefix[k] == s[i]);
        assert(prefix.to_set().contains(s[i]));
        assert(prefix.to_set().insert(s[i]) =~= prefix.to_set());
    } else {
        assert(forall|k: int| 0 <= k < i ==> s[k] != s[i]);
        assert(!prefix.contains(s[i]));
        assert(!prefix.to_set().contains(s[i]));
    }
}

/// Counts the distinct token values in `window`: the "types" of the
/// type-token ratio, found by counting each token's first occurrence.
fn count_distinct(window: &[String]) -> (count: usize)
    ensures
        count == distinct_count(window.deep_view()),
        count <= window.deep_view().len(),
{
    let ghost toks = window.deep_view();
    let n = window.len();
    let mut count: usize = 0;
    let mut i: usize = 0;
    proof {
        assert(toks.subrange(0, 0) =~= Seq::<Seq<char>>::empty());
        assert(Seq::<Seq<char>>::empty().to_set() =~= Set::<Seq<char>>::empty());
    }
    while i < n
        invariant
            i <= n,
            n == toks.len(),
            toks == window.deep_view(),
            count == distinct_count(toks.subrange(0, i as int)),
            count <= i,
        decreases n - i,
    {
        let mut seen = false;
        let mut j: usize = 0;
        while j < i
            invariant
                j <= i,
                i < n,
                n == toks.len(),
                toks == window.deep_view(),
                seen <==> exists|k: int| 0 <= k < j && toks[k] == toks[i as int],
            decreases i - j,
        {
            if window[j] == window[i] {
                proof {
                    assert(toks[j as int] == toks[i as int]);
                }
                seen = true;
            }
            j += 1;
        }
        proof {
            lemma_distinct_count_step(toks, i as int);
        }
        if !seen {
            count += 1;
        }
        i += 1;
    }
    proof {
        assert(toks.subrange(0, n as int) =~= toks);
    }
    count
}

/// Type-token ratio of one window: the distinct-token count over the total
/// token count, as an exact rational.
fn get_ttr(window: &[String]) -> (r: Ratio)
    requires
        window.deep_view().len() > 0,
    ensures
        r.num == distinct_count(window.deep_view()),
        r.den == window.deep_view().len(),
        1 <= r.num <= r.den,
{
    let ghost toks = window.deep_view();
    let count = count_distinct(window);
    proof {
        crate::laws::lemma_ttr_bounds(toks);
    }
    Ratio { num: count as u128, den: window.len() as u128 }
}

/// Moving-average type-token ratio of `in_vector` with windows of length
/// `window_span`, as an exact rational.
///
/// A sequence of at most [`SMALL_SAMPLE_LIMIT`] tokens is scored as a single
/// window; otherwise the score is the mean of the type-token ratios of all
/// sliding windows. An empty sequence and a window span of zero or more than
/// the sequence length are rejected before any computation.
pub fn get_mattr(in_vector: &[String], window_span: usize) -> (r: Result<Ratio, MattrError>)
    ensures
        r is Ok <==> valid_inputs(in_vector.deep_view().len() as int, window_span as int),
        in_vector.deep_view().len() == 0 ==> r == Err::<Ratio, MattrError>(MattrError::EmptyInput),
        in_vector.deep_view().len() > 0 && !valid_inputs(
            in_vector.deep_view().len() as int,
            window_span as int,
        ) ==> r == Err::<Ratio, MattrError>(MattrError::InvalidWindowSpan),
        r matches Ok(q) ==> {
            &&& q.num == mattr_num(in_vector.deep_view(), window_span as int)
            &&& q.den == mattr_den(in_vector.deep_view(), window_span as int)
            &&& 1 <= q.num <= q.den
        },
{
    let ghost toks = in_vector.deep_view();
    let n = in_vector.len();
    if n == 0 {
        return Err(MattrError::EmptyInput);
    }
    if window_span == 0 || window_span > n {
        return Err(MattrError::InvalidWindowSpan);
    }
    if n <= SMALL_SAMPLE_LIMIT {
        return Ok(get_ttr(in_vector));
    }
    let n_window = n - window_span + 1;
    let ghost w = window_span as int;
    let mut numerator: u128 = 0;
    let mut i: usize = 0;
    while i < n_window
        invariant
            i <= n_window,
            w == window_span as int,
            n_window == windows_count(n as int, w),
            1 <= w <= n,
            n == toks.len(),
            n == in_vector@.len(),
            toks == in_vector.deep_view(),
            numerator == distinct_sum(toks, w, i as int),
            i <= numerator <= i as int * w,
        decreases n_window - i,
    {
        let window = slice_subrange(in_vector, i, i + window_span);
        proof {
            assert(window.deep_view() =~= window_at(toks, w, i as int));
        }
        let t = get_ttr(window);
        proof {
            assert(usize::MAX <= u64::MAX);
            assert((i as int + 1) * w == i as int * w + w) by (nonlinear_arith);
            assert((i as int + 1) * w <= n_window as int * w) by (nonlinear_arith)
                requires
                    i as int + 1 <= n_window as int,
                    w >= 1,
            ;
            assert(n_window as int * w <= u64::MAX as int * u64::MAX as int) by (nonlinear_arith)
                requires
                    0 <= n_window as int <= u64::MAX as int,
                    0 <= w <= u64::MAX as int,
            ;
            assert((u64::MAX as int) * (u64::MAX as int) < (u128::MAX as int));
        }
        numerator = numerator + t.num;
        i += 1;
    }
    proof {
        assert(usize::MAX <= u64::MAX);
        assert(n_window as int * w <= u64::MAX as int * u64::MAX as int) by (nonlinear_arith)
            requires
                0 <= n_window as int <= u64::MAX as int,
                0 <= w <= u64::MAX as int,
        ;
        assert((u64::MAX as int) * (u64::MAX as int) < (u128::MAX as int));
        assert(numerator >= n_window >= 1);
    }
    let denominator = (window_span as u128) * (n_window as u128);
    Ok(Ratio { num: numerator, den: denominator })
}

} // verus!
