//! The interrupt controller's flags.
use vstd::prelude::*;

verus! {

/// Interrupt request and enable bits; the same set as the CPU sees at $FF0F and $FFFF.
pub type Ints = crate::gebeh_core::interrupts::Interrupts;

} // verus!
