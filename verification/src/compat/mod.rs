//! The compatibility rewrites that emulate what a dialect lacks.

pub mod adapt;
pub mod cte;
pub mod laws;
pub mod merge;
pub mod model;
