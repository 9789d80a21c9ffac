//! Moving-Average Type-Token Ratio (MATTR), a lexical-diversity metric over a
//! token sequence, with two interchangeable engines:
//!
//! - [`reference`] computes the metric directly on the token values;
//! - [`optimized`] first projects every token to a fixed-width hash surrogate
//!   and reuses one scratch set across all windows.
//!
//! Every window's type-token ratio has the window length as its denominator,
//! so each engine returns the score as an exact rational [`model::Ratio`]
//! instead of rounding to floating point; callers divide when they want a
//! float.

pub mod laws;
pub mod model;
pub mod optimized;
pub mod reference;
