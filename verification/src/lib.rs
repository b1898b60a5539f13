//! A portable SQL query builder: an abstract syntax tree for statements and
//! dialect-specific compilers that turn it into parameterized SQL text plus
//! the ordered list of bound values.

pub mod ast;
pub mod compat;
pub mod databases;
pub mod dialect;
pub mod error;
pub mod prelude;
pub mod text;
pub mod visitors;
