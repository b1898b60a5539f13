//! The compilers: one shared renderer that every dialect drives.

pub mod binding;
pub mod compile;
pub mod compose;
pub mod grouping;
pub mod independence;
pub mod induction;
pub mod laws;
pub mod literal;
pub mod model;
pub mod refusal;
pub mod render;
pub mod syntax;
pub mod visit;
pub mod writer;
