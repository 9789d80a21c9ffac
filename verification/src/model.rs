//! The mathematical model of the metric: what a window is, how many distinct
//! tokens it holds, and what the MATTR score's numerator and denominator are.
//!
//! Both engines' contracts are stated against these functions, so the model is
//! generic in the token type: the reference engine instantiates it with token
//! text (`Seq<char>`), the optimized engine with hash surrogates (`usize`).

use vstd::prelude::*;

verus! {

/// Sequences of at most this many tokens are scored as a single window:
/// the type-token ratio is unstable on short samples, so no averaging is done.
pub const SMALL_SAMPLE_LIMIT: usize = 50;

/// An exact rational score. Every window's type-token ratio has the window
/// length as denominator, so the mean over windows is again a ratio of
/// integers and no precision is lost by keeping it this way.
#[derive(Clone, Copy, Debug, PartialEq, Eq, Structural)]
pub struct Ratio {
    /// Numerator; for a valid input this is at least 1.
    pub num: u128,
    /// Denominator; for a valid input this is at least `num`.
    pub den: u128,
}

/// Why a computation was refused. Both conditions are caller errors, detected
/// before any computation begins.
#[derive(Clone, Copy, Debug, PartialEq, Eq, Structural)]
pub enum MattrError {
    /// The token sequence is empty; the metric is undefined on it.
    EmptyInput,
    /// The window span is zero or exceeds the sequence length.
    InvalidWindowSpan,
}

/// The inputs on which the metric is defined: a non-empty sequence and a
/// window span between 1 and the sequence length.
pub open spec fn valid_inputs(n: int, window_span: int) -> bool {
    0 < n && 0 < window_span <= n
}

/// The number of distinct token values in a sequence: the "types" of the
/// type-token ratio.
pub open spec fn distinct_count<A>(s: Seq<A>) -> nat {
    s.to_set().len()
}

/// The window of length `window_span` starting at `start`.
pub open spec fn window_at<A>(s: Seq<A>, window_span: int, start: int) -> Seq<A> {
    s.subrange(start, start + window_span)
}

/// How many windows of length `window_span` fit in a sequence of length `n`.
pub open spec fn windows_count(n: int, window_span: int) -> int {
    n - window_span + 1
}

/// The sum of the distinct-token counts of the first `k` windows.
pub open spec fn distinct_sum<A>(s: Seq<A>, window_span: int, k: int) -> int
    decreases k,
{
    if k <= 0 {
        0
    } else {
        distinct_sum(s, window_span, k - 1) + distinct_count(window_at(s, window_span, k - 1))
    }
}

/// Numerator of the MATTR score. A short sequence is one window, scored by
/// its own type-token ratio; otherwise the per-window ratios share the
/// denominator `window_span`, so their mean has the window type counts' sum
/// as numerator.
pub open spec fn mattr_num<A>(s: Seq<A>, window_span: int) -> int {
    if s.len() <= SMALL_SAMPLE_LIMIT {
        distinct_count(s) as int
    } else {
        distinct_sum(s, window_span, windows_count(s.len() as int, window_span))
    }
}

/// Denominator of the MATTR score: the sequence length for a short sequence,
/// else `window_span` times the number of windows.
pub open spec fn mattr_den<A>(s: Seq<A>, window_span: int) -> int {
    if s.len() <= SMALL_SAMPLE_LIMIT {
        s.len() as int
    } else {
        window_span * windows_count(s.len() as int, window_span)
    }
}

} // verus!
