//! The interactive debugger: stepping through an execution and what-if
//! re-simulation.

pub mod stepping;
pub mod whatif;
