//! Witness-variable and copy-constraint core for a PLONK-style circuit.
//!
//! Gadgets allocate private values into the witness grid as variables and
//! assert equality between witness cells through the permutation argument.
//! The circuit-construction substrate (region placement, cell assignment,
//! equality registration) is modelled by [`synthesis::Synthesizer`], so the
//! operations built on it are verified against an explicit account of the
//! grid, the region list and the equality-constraint set.

pub mod synthesis;
pub mod utilities;
