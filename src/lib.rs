//! Swept axis-aligned rectangle collision on an integer grid, with exact
//! rational times of impact, plus a memoised Fibonacci helper.
pub mod fibonacci;
pub mod vector;
pub mod ratio;
pub mod side;
pub mod slab;
pub mod rect;
pub mod laws;
pub mod frame;
