//! Move engine of a 3x3x3 twisty cube: lattice model, move queue, slice
//! rotation state machine, drag-gesture inference and scrambling.
pub mod lattice;
pub mod moving;
pub mod laws;
pub mod cube;
