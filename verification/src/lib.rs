//! An electrical (gap-junction) synapse model for a tick-driven simulation
//! host. The component keeps six scalar state fields, absorbs string-keyed
//! configuration and input values, and recomputes its output current once per
//! tick from the Ohmic gap-junction law
//! `current = g_us * ((scale * pre_v + offset) - post_v)`.
//!
//! All scalars are exact rationals, so the update rule and its algebraic
//! consequences (linearity, zero-difference, conductance scaling) are proved
//! rather than approximated.

use vstd::prelude::*;

pub mod laws;
pub mod rational;
pub mod synapse;

verus! {

} // verus!
