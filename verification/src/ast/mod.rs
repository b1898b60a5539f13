//! The abstract syntax tree of a query.

pub mod algebra;
pub mod builder;
pub mod calendar;
pub mod copy;
pub mod model;
pub mod node;
pub mod statement;
pub mod value;
pub mod view;
