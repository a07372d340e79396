//! A clip-and-fold signal shaper: the parameter sets of its two engines and
//! the per-sample decisions of their transfer curves.
//!
//! Samples and parameters are IEEE 754 binary32 values. The library holds
//! each one as its bit pattern, and everything it decides about a value
//! (its order against a threshold, a clamp, a change of sign) it decides on
//! that pattern with integer logic. The arithmetic that rounds, which is the
//! division and multiplication of a curve, is left to the caller and is
//! described to it as a [`curve::Segment`].
use vstd::prelude::*;

pub mod binary32;
pub mod curve;
pub mod params;

verus! {

} // verus!
