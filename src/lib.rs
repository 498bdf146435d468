//! Unit-tagged physical quantities with exact conversion factors, and the
//! bookkeeping around a small gravity simulation.

pub mod ratio;
pub mod units;
pub mod bodies;
pub mod quantities;
pub mod scene;
