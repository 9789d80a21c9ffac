//! Laws of the metric, stated over the model and proved once for every input.
//!
//! They are generic in the token type where the law does not mention hashing,
//! so each applies to the reference engine's token text and to the optimized
//! engine's hash surrogates alike.

use crate::model::{
    distinct_count, distinct_sum, mattr_den, mattr_num, window_at, windows_count, Ratio,
    SMALL_SAMPLE_LIMIT,
};
use crate::optimized::{collision_free, fx_hash_of, surrogates_of};
use vstd::prelude::*;
use vstd::relations::injective_on;

verus! {

/// Mapping a finite set through a function that is injective on it keeps its
/// cardinality.
proof fn lemma_injective_map_preserves_len<A, B>(s: Set<A>, f: spec_fn(A) -> B)
    requires
        s.finite(),
        injective_on(f, s),
    ensures
        s.map(f).finite(),
        s.map(f).len() == s.len(),
    decreases s.len(),
{
    s.lemma_map_finite(f);
    if s.len() == 0 {
        s.lemma_len0_is_empty();
        assert forall|b: B| !(#[trigger] s.map(f).contains(b)) by {
            if s.map(f).contains(b) {
                let a = choose|a: A| s.contains(a) && b == f(a);
            }
        }
        assert(s.map(f) =~= Set::<B>::empty());
    } else {
        let x = s.choose();
        assert(s.contains(x));
        let rest = s.remove(x);
        assert(injective_on(f, rest)) by {
            assert(forall|a: A| rest.contains(a) ==> s.contains(a));
        }
        lemma_injective_map_preserves_len(rest, f);
        assert(s.map(f) =~= rest.map(f).insert(f(x))) by {
            assert forall|b: B| #[trigger] s.map(f).contains(b) implies rest.map(f).insert(
                f(x),
            ).contains(b) by {
                let a = choose|a: A| s.contains(a) && b == f(a);
                if a != x {
                    assert(rest.contains(a));
                    assert(rest.map(f).contains(b));
                }
            }
            assert forall|b: B| rest.map(f).insert(f(x)).contains(b) implies #[trigger] s.map(
                f,
            ).contains(b) by {
                if b == f(x) {
                    assert(s.contains(x) && b == f(x));
                } else {
                    let a = choose|a: A| rest.contains(a) && b == f(a);
                    assert(s.contains(a));
                }
            }
        }
        assert(!rest.map(f).contains(f(x))) by {
            if rest.map(f).contains(f(x)) {
                let a = choose|a: A| rest.contains(a) && f(x) == f(a);
                assert(s.contains(a));
                assert(f(a) == f(x));
            }
        }
    }
}

/// A non-empty span has a type-token ratio in `(0, 1]`: at least one distinct
/// token, and no more distinct tokens than tokens.
pub proof fn lemma_ttr_bounds<A>(s: Seq<A>)
    requires
        s.len() > 0,
    ensures
        1 <= distinct_count(s) <= s.len(),
{
    s.lemma_cardinality_of_set();
    s.lemma_cardinality_of_empty_set_is_0();
}

/// When all tokens are pairwise distinct, the type-token ratio is exactly one:
/// the distinct count equals the length.
pub proof fn lemma_ttr_all_distinct<A>(s: Seq<A>)
    requires
        s.no_duplicates(),
    ensures
        distinct_count(s) == s.len(),
{
    s.unique_seq_to_set();
}

/// When all tokens are one value, the type-token ratio is exactly `1/n`: the
/// distinct count is one.
pub proof fn lemma_ttr_all_identical<A>(s: Seq<A>)
    requires
        s.len() > 0,
        forall|i: int| 0 <= i < s.len() ==> #[trigger] s[i] == s[0],
    ensures
        distinct_count(s) == 1,
{
    broadcast use vstd::seq_lib::seq_to_set_is_finite;

    assert(s.to_set() =~= Set::<A>::empty().insert(s[0]));
    assert(!Set::<A>::empty().contains(s[0]));
}

/// Small samples: for at most [`SMALL_SAMPLE_LIMIT`] tokens the score is the
/// whole-sequence type-token ratio, whatever the window span.
pub proof fn lemma_small_sample_mattr_is_ttr<A>(s: Seq<A>, window_span: int)
    requires
        0 < s.len() <= SMALL_SAMPLE_LIMIT,
        0 < window_span <= s.len(),
    ensures
        mattr_num(s, window_span) == distinct_count(s),
        mattr_den(s, window_span) == s.len(),
{
}

/// A window span equal to the sequence length gives one window, so the score
/// is again the whole-sequence type-token ratio.
pub proof fn lemma_full_window_mattr_is_ttr<A>(s: Seq<A>)
    requires
        s.len() > 0,
    ensures
        mattr_num(s, s.len() as int) == distinct_count(s),
        mattr_den(s, s.len() as int) == s.len(),
{
    let n = s.len() as int;
    if s.len() > SMALL_SAMPLE_LIMIT {
        assert(windows_count(n, n) == 1);
        assert(window_at(s, n, 0) =~= s);
        assert(distinct_sum(s, n, 1) == distinct_sum(s, n, 0) + distinct_count(window_at(s, n, 0)));
    }
}

/// On a collision-free span, counting distinct surrogates counts distinct
/// tokens: the hash is injective there, so the projection keeps cardinality.
proof fn lemma_distinct_count_surrogates(tokens: Seq<Seq<char>>)
    requires
        collision_free(tokens),
    ensures
        distinct_count(surrogates_of(tokens)) == distinct_count(tokens),
{
    broadcast use vstd::seq_lib::seq_to_set_is_finite;

    let f = |t: Seq<char>| fx_hash_of(t);
    assert(surrogates_of(tokens) =~= tokens.map_values(f));
    Seq::lemma_to_set_map_commutes(tokens, f);
    assert(injective_on(f, tokens.to_set())) by {
        assert forall|x1: Seq<char>, x2: Seq<char>|
            tokens.to_set().contains(x1) && tokens.to_set().contains(x2) && #[trigger] f(x1)
                == #[trigger] f(x2) implies x1 == x2 by {
            let i = choose|i: int| 0 <= i < tokens.len() && tokens[i] == x1;
            let j = choose|j: int| 0 <= j < tokens.len() && tokens[j] == x2;
            assert(fx_hash_of(tokens[i]) == fx_hash_of(tokens[j]));
        }
    }
    lemma_injective_map_preserves_len(tokens.to_set(), f);
}

/// Every window of a collision-free sequence is collision-free.
proof fn lemma_collision_free_window(tokens: Seq<Seq<char>>, window_span: int, start: int)
    requires
        collision_free(tokens),
        0 <= start,
        0 <= window_span,
        start + window_span <= tokens.len(),
    ensures
        collision_free(window_at(tokens, window_span, start)),
{
    let win = window_at(tokens, window_span, start);
    assert forall|i: int, j: int|
        0 <= i < win.len() && 0 <= j < win.len() && #[trigger] fx_hash_of(win[i])
            == #[trigger] fx_hash_of(win[j]) implies win[i] == win[j] by {
        assert(win[i] == tokens[start + i]);
        assert(win[j] == tokens[start + j]);
        assert(fx_hash_of(tokens[start + i]) == fx_hash_of(tokens[start + j]));
    }
}

/// The first `k` windows contribute the same distinct-count sum whether they
/// are read off the tokens or off their surrogates, on a collision-free input.
proof fn lemma_distinct_sum_surrogates(tokens: Seq<Seq<char>>, window_span: int, k: int)
    requires
        collision_free(tokens),
        1 <= window_span,
        0 <= k,
        k - 1 + window_span <= tokens.len(),
    ensures
        distinct_sum(surrogates_of(tokens), window_span, k) == distinct_sum(
            tokens,
            window_span,
            k,
        ),
    decreases k,
{
    if k > 0 {
        lemma_distinct_sum_surrogates(tokens, window_span, k - 1);
        let win = window_at(tokens, window_span, k - 1);
        assert(window_at(surrogates_of(tokens), window_span, k - 1) =~= surrogates_of(win));
        lemma_collision_free_window(tokens, window_span, k - 1);
        lemma_distinct_count_surrogates(win);
    }
}

/// The two engines agree: on a collision-free input, the optimized engine's
/// score over hash surrogates has the same numerator and denominator as the
/// reference engine's score over the tokens themselves.
pub proof fn lemma_engines_agree(tokens: Seq<Seq<char>>, window_span: int)
    requires
        0 < tokens.len(),
        0 < window_span <= tokens.len(),
        collision_free(tokens),
    ensures
        mattr_num(surrogates_of(tokens), window_span) == mattr_num(tokens, window_span),
        mattr_den(surrogates_of(tokens), window_span) == mattr_den(tokens, window_span),
{
    let surr = surrogates_of(tokens);
    assert(surr.len() == tokens.len());
    if tokens.len() <= SMALL_SAMPLE_LIMIT {
        lemma_distinct_count_surrogates(tokens);
    } else {
        let k = windows_count(tokens.len() as int, window_span);
        lemma_distinct_sum_surrogates(tokens, window_span, k);
    }
}

/// The engines' contracts are deterministic: any two scores that both satisfy
/// the score clauses for one sequence and span are equal, so repeating a call
/// on the same input yields the same result.
pub proof fn lemma_mattr_deterministic<A>(s: Seq<A>, window_span: int, r1: Ratio, r2: Ratio)
    requires
        r1.num == mattr_num(s, window_span),
        r1.den == mattr_den(s, window_span),
        r2.num == mattr_num(s, window_span),
        r2.den == mattr_den(s, window_span),
    ensures
        r1 == r2,
{
}

} // verus!
