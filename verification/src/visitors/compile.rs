//! Compiling a query: the rewrite for the dialect, then the rendering.

use vstd::prelude::*;
use crate::ast::model::QueryView;
use crate::ast::node::Query;
use crate::ast::value::{value_views, Value};
use crate::compat::adapt::compatibility_modifications;
use crate::compat::model::adapted;
use crate::dialect::Dialect;
use crate::error::{Error, Fault};
use crate::visitors::model::{params_of, pieces_of, text_of, Outcome, Piece};
use crate::visitors::syntax::render_query;
use crate::visitors::writer::Writer;

verus! {

/// What a query compiles to for a dialect: the pieces of the rewritten
/// query in the order in which they are written, or the reason why the
/// query cannot be compiled.
pub open spec fn compiled(d: Dialect, q: QueryView) -> Outcome {
    match adapted(d, q) {
        Err(f) => Err(f),
        Ok(rewritten) => pieces_of(render_query(d, rewritten)),
    }
}

/// True where `text` and `values` are the outcome of compiling `q` for
/// `d`: the text of the pieces with every placeholder at its position,
/// and the bound values in the order of their placeholders.
pub open spec fn is_compiled(d: Dialect, q: QueryView, text: Seq<char>, values: Seq<Value>) -> bool {
    compiled(d, q) matches Ok(pieces) && text == text_of(d, pieces) && value_views(values)
        == params_of(pieces)
}

/// True where the error reports why `q` cannot be compiled for `d`.
pub open spec fn is_refused(d: Dialect, q: QueryView, e: Error) -> bool {
    compiled(d, q) matches Err(f) && e.reports(f, d)
}

/// Compiles a query for a dialect into its text and its bound values, or
/// tells why it cannot be compiled.
pub fn compile(d: Dialect, query: Query) -> (r: Result<(String, Vec<Value>), Fault>)
    ensures
        match r {
            Ok((text, values)) => is_compiled(d, query@, text@, values@),
            Err(f) => compiled(d, query@) == Err::<Seq<Piece>, Fault>(f),
        },
{
    let rewritten = compatibility_modifications(d, query)?;
    let mut writer = Writer::new(d);
    writer.visit_query(&rewritten)?;
    Ok((writer.query, writer.parameters))
}

/// Compiles a query for a dialect into its text and its bound values.
///
/// It fails with `UnsupportedOperation` where the dialect lacks a feature
/// that the query asks for, and with `ConversionError` where a value or
/// an insert cannot be represented for the dialect.
pub fn build(d: Dialect, query: Query) -> (r: Result<(String, Vec<Value>), Error>)
    ensures
        match r {
            Ok((text, values)) => is_compiled(d, query@, text@, values@),
            Err(e) => is_refused(d, query@, e),
        },
{
    match compile(d, query) {
        Ok(out) => Ok(out),
        Err(f) => Err(Error::of_fault(f, d)),
    }
}

/// A visitor to generate queries for the PostgreSQL database.
pub struct Postgres {}

impl Postgres {
    /// Compiles a query into its text, with placeholders `$1`, `$2`, ..,
    /// and its bound values.
    pub fn build(query: Query) -> (r: Result<(String, Vec<Value>), Error>)
        ensures
            match r {
                Ok((text, values)) => is_compiled(Dialect::Postgres, query@, text@, values@),
                Err(e) => is_refused(Dialect::Postgres, query@, e),
            },
    {
        build(Dialect::Postgres, query)
    }
}

/// A visitor to generate queries for the MySQL database.
pub struct Mysql {}

impl Mysql {
    /// Compiles a query into its text, with placeholders `?`, and its
    /// bound values.
    pub fn build(query: Query) -> (r: Result<(String, Vec<Value>), Error>)
        ensures
            match r {
                Ok((text, values)) => is_compiled(Dialect::Mysql, query@, text@, values@),
                Err(e) => is_refused(Dialect::Mysql, query@, e),
            },
    {
        build(Dialect::Mysql, query)
    }
}

/// A visitor to generate queries for the SQLite database.
pub struct Sqlite {}

impl Sqlite {
    /// Compiles a query into its text, with placeholders `?`, and its
    /// bound values.
    pub fn build(query: Query) -> (r: Result<(String, Vec<Value>), Error>)
        ensures
            match r {
                Ok((text, values)) => is_compiled(Dialect::Sqlite, query@, text@, values@),
                Err(e) => is_refused(Dialect::Sqlite, query@, e),
            },
    {
        build(Dialect::Sqlite, query)
    }
}

/// A visitor to generate queries for the SQL Server database.
pub struct Mssql {}

impl Mssql {
    /// Compiles a query into its text, with placeholders `@P1`, `@P2`,
    /// .., and its bound values.
    pub fn build(query: Query) -> (r: Result<(String, Vec<Value>), Error>)
        ensures
            match r {
                Ok((text, values)) => is_compiled(Dialect::Mssql, query@, text@, values@),
                Err(e) => is_refused(Dialect::Mssql, query@, e),
            },
    {
        build(Dialect::Mssql, query)
    }
}

} // verus!
