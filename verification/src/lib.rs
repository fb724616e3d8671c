//! Battery pack composition: cells and modules arranged in series and
//! parallel, the cell-level topology of a pack, and the tables of
//! chemistry-dependent ratings.
//!
//! Every quantity is an integer. Voltages are held in millivolts and the
//! packing efficiency in percent, so the tables are exact.

pub mod arith;
pub mod electrical;
pub mod io;
pub mod mechanical;
pub mod submodule;
pub mod topology;
