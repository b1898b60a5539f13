//! What entity descriptions are made of: the options of a column, and
//! the traits that tie an entity to its table and a dialect to its
//! visitor.

use vstd::prelude::*;
use crate::ast::model::{ColumnView, ExpressionView, TableView};
use crate::ast::node::{Column, DefaultValue, Expression, Order, OrderDefinition, Table};
use crate::ast::value::{Double, Float, Raw, Value, ValueView};
use crate::ast::view::column_views;
use crate::dialect::Dialect;
use crate::visitors::compile::{Mssql, Mysql, Postgres, Sqlite};
use crate::visitors::model::Piece;
use crate::visitors::writer::Writer;

verus! {

/// Converts the value into a state to skip parameterization.
///
/// Must be used carefully to avoid SQL injections.
pub trait IntoRaw {
    /// The value that is written as a literal.
    spec fn raw_view(self) -> ValueView;

    fn raw(self) -> (r: Raw)
        ensures
            r.value@ == self.raw_view(),
    ;
}

impl IntoRaw for Value {
    open spec fn raw_view(self) -> ValueView {
        self@
    }

    fn raw(self) -> (r: Raw) {
        Raw { value: self }
    }
}

impl Value {
    /// Creates a new float value from its bit pattern and the literal
    /// that denotes it.
    pub fn float(bits: u32, literal: &str) -> (v: Value)
        ensures
            v@ == ValueView::Float(Some((bits, literal@))),
    {
        Value::Float(Some(Float { bits, literal: String::from_str(literal) }))
    }

    /// Creates a new double value from its bit pattern and the literal
    /// that denotes it.
    pub fn double(bits: u64, literal: &str) -> (v: Value)
        ensures
            v@ == ValueView::Double(Some((bits, literal@))),
    {
        Value::Double(Some(Double { bits, literal: String::from_str(literal) }))
    }
}

/// An entity: a record of a table.
pub trait Entity {
    /// The name of the table.
    spec fn table_name() -> Seq<char>;

    fn tablename() -> (name: &'static str)
        ensures
            name@ == Self::table_name(),
    ;

    /// The columns of the entity, in order.
    spec fn column_list() -> Seq<ColumnView>;

    fn columns() -> (cs: Vec<Column>)
        ensures
            column_views(cs@) == Self::column_list(),
    ;

    fn table() -> (t: Table)
        ensures
            t@ == TableView::named(Self::table_name()),
    ;
}

/// The table under whose name the rows of a merge are supplied.
#[derive(Clone, Copy, Debug)]
pub struct Dual {
    pub id: i32,
}

impl Entity for Dual {
    open spec fn table_name() -> Seq<char> {
        "dual"@
    }

    fn tablename() -> (name: &'static str) {
        "dual"
    }

    open spec fn column_list() -> Seq<ColumnView> {
        Seq::empty()
    }

    fn columns() -> (cs: Vec<Column>) {
        let cs: Vec<Column> = Vec::new();
        assert(column_views(cs@) =~= Seq::empty());
        cs
    }

    fn table() -> (t: Table) {
        Table::new("dual")
    }
}

/// A dialect that has a visitor.
pub trait HasVisitor {
    /// The dialect that the visitor writes.
    spec fn dialect() -> Dialect;

    fn visitor() -> (w: Writer)
        ensures
            w.wf(),
            w.dialect == Self::dialect(),
            w.trace@ == Seq::<Piece>::empty(),
    ;
}

impl HasVisitor for Postgres {
    open spec fn dialect() -> Dialect {
        Dialect::Postgres
    }

    fn visitor() -> (w: Writer) {
        Writer::new(Dialect::Postgres)
    }
}

impl HasVisitor for Mysql {
    open spec fn dialect() -> Dialect {
        Dialect::Mysql
    }

    fn visitor() -> (w: Writer) {
        Writer::new(Dialect::Mysql)
    }
}

impl HasVisitor for Sqlite {
    open spec fn dialect() -> Dialect {
        Dialect::Sqlite
    }

    fn visitor() -> (w: Writer) {
        Writer::new(Dialect::Sqlite)
    }
}

impl HasVisitor for Mssql {
    open spec fn dialect() -> Dialect {
        Dialect::Mssql
    }

    fn visitor() -> (w: Writer) {
        Writer::new(Dialect::Mssql)
    }
}

/// The description of a column of an entity.
#[derive(Debug)]
pub struct ColumnOptions {
    pub name: &'static str,
    pub tablename: &'static str,
    /// Set up "auto increment" semantics for an integer primary key column.
    pub primary_key: bool,
    pub autoincrement: bool,
    /// Optional string that will render an SQL comment on table creation.
    pub comment: Option<&'static str>,
    pub unique: bool,
    pub foreign_key: Option<&'static str>,
    pub length: Option<usize>,
    pub quote: bool,
    /// The value of the column where an insert names none.
    pub default: Option<DefaultValue>,
}

impl ColumnOptions {
    pub fn new(
        name: &'static str,
        tablename: &'static str,
        primary_key: bool,
        autoincrement: bool,
        foreign_key: Option<&'static str>,
        comment: Option<&'static str>,
        unique: bool,
        length: Option<usize>,
        quote: bool,
        default: Option<DefaultValue>,
    ) -> (o: ColumnOptions)
        ensures
            o == (ColumnOptions {
                name,
                tablename,
                primary_key,
                autoincrement,
                comment,
                unique,
                foreign_key,
                length,
                quote,
                default,
            }),
    {
        ColumnOptions {
            name,
            tablename,
            primary_key,
            autoincrement,
            comment,
            unique,
            foreign_key,
            length,
            quote,
            default,
        }
    }

    /// The column that the options describe, in its table.
    pub open spec fn column_view(self) -> ColumnView {
        ColumnView::named(self.name@).of_table(TableView::named(self.tablename@))
    }

    /// The column that the options describe, in its table.
    pub fn column(&self) -> (c: Column)
        ensures
            c@ == self.column_view(),
    {
        Column::new(self.name).table(self.table())
    }

    /// The table of the column.
    pub fn table(&self) -> (t: Table)
        ensures
            t@ == TableView::named(self.tablename@),
    {
        Table::new(self.tablename)
    }

    /// The column that the options describe, in its table.
    pub fn c(&self) -> (c: Column)
        ensures
            c@ == self.column_view(),
    {
        self.column()
    }

    /// The table of the column.
    pub fn t(&self) -> (t: Table)
        ensures
            t@ == TableView::named(self.tablename@),
    {
        self.table()
    }

    /// The column as an expression.
    pub fn expression(&self) -> (e: Expression)
        ensures
            e@ == ExpressionView::column(self.column_view()),
    {
        Expression::column(self.column())
    }

    /// The column under an alias.
    pub fn alias(&self, alias: &str) -> (c: Column)
        ensures
            c@ == self.column_view().aliased(alias@),
    {
        self.column().alias(alias)
    }

    /// The column in an ordering without a direction.
    pub fn into_order_definition(&self) -> (o: OrderDefinition)
        ensures
            o@ == ExpressionView::column(self.column_view()).ordered(None),
    {
        self.column().order(None)
    }

    /// The column in an ordering.
    pub fn order(&self, order: Option<Order>) -> (o: OrderDefinition)
        ensures
            o@ == ExpressionView::column(self.column_view()).ordered(order),
    {
        self.column().order(order)
    }
}

} // verus!
