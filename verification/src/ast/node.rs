//! The nodes of the abstract syntax tree.

use vstd::prelude::*;
use crate::ast::value::Raw;
use crate::ast::value::Value;

verus! {

/// The direction of an ordering.
#[derive(Clone, Copy, Debug, PartialEq, Eq, Structural)]
pub enum Order {
    Asc,
    Desc,
}

/// An arithmetic operator.
#[derive(Clone, Copy, Debug, PartialEq, Eq, Structural)]
pub enum Operator {
    Add,
    Sub,
    Mul,
    Div,
    Rem,
}

/// A comparison between two expressions.
#[derive(Clone, Copy, Debug, PartialEq, Eq, Structural)]
pub enum Comparison {
    Equals,
    NotEquals,
    LessThan,
    LessThanOrEquals,
    GreaterThan,
    GreaterThanOrEquals,
    In,
    NotIn,
}

/// A comparison of an expression with a text pattern.
#[derive(Clone, Copy, Debug, PartialEq, Eq, Structural)]
pub enum Pattern {
    Like,
    NotLike,
    BeginsWith,
    NotBeginsWith,
    EndsInto,
    NotEndsInto,
}

/// A test on a JSON array.
#[derive(Clone, Copy, Debug, PartialEq, Eq, Structural)]
pub enum JsonArrayTest {
    Contains,
    BeginsWith,
    EndsInto,
}

/// The type of a JSON value.
#[derive(Clone, Copy, Debug, PartialEq, Eq, Structural)]
pub enum JsonType {
    Array,
    Boolean,
    Number,
    Object,
    String,
    Null,
}

/// How two selects are united.
#[derive(Clone, Copy, Debug, PartialEq, Eq, Structural)]
pub enum UnionType {
    All,
    Distinct,
}

/// What an insert does with a row that conflicts with an existing one.
#[derive(Clone, Copy, Debug, PartialEq, Eq, Structural)]
pub enum OnConflict {
    DoNothing,
}

/// The declared length of a text or binary column.
#[derive(Clone, Copy, Debug, PartialEq, Eq)]
pub enum TypeDataLength {
    Constant(u16),
    Maximum,
}

/// The type family of a column, for casts and table variables.
#[derive(Clone, Copy, Debug, PartialEq, Eq)]
pub enum TypeFamily {
    Text(Option<TypeDataLength>),
    Int,
    Float,
    Double,
    Boolean,
    Uuid,
    DateTime,
    Decimal(Option<(u8, u8)>),
    Bytes(Option<TypeDataLength>),
}

/// The value a column takes when an insert does not name it.
#[derive(Debug, PartialEq)]
pub enum DefaultValue {
    /// A static value.
    Provided(Value),
    /// A value that the database generates.
    Generated,
}

/// A column of a table.
#[derive(Debug, PartialEq)]
pub struct Column {
    pub name: String,
    pub table: Option<Table>,
    pub alias: Option<String>,
    pub default: Option<DefaultValue>,
    pub type_family: Option<TypeFamily>,
}

/// A unique index of a table.
#[derive(Debug, PartialEq)]
pub enum IndexDefinition {
    Single(Box<Column>),
    Compound(Vec<Column>),
}

/// What a table is made of.
#[derive(Debug, PartialEq)]
pub enum TableType {
    Table(String),
    JoinedTable(String, Vec<Join>),
    Query(Box<Select>),
    Values(Values),
}

/// A table, a derived table or an in-memory table of values.
#[derive(Debug, PartialEq)]
pub struct Table {
    pub typ: TableType,
    pub alias: Option<String>,
    pub database: Option<String>,
    pub index_definitions: Vec<IndexDefinition>,
}

/// The table of a join and the condition it is joined on.
#[derive(Debug, PartialEq)]
pub struct JoinData {
    pub table: Table,
    pub conditions: ConditionTree,
}

/// A join of a table.
#[derive(Debug, PartialEq)]
pub enum Join {
    Inner(JoinData),
    Left(JoinData),
    Right(JoinData),
    Full(JoinData),
}

/// A tuple of expressions.
#[derive(Debug, PartialEq)]
pub struct Row {
    pub values: Vec<Expression>,
}

/// An in-memory table of rows.
#[derive(Debug, PartialEq)]
pub struct Values {
    pub rows: Vec<Row>,
}

/// An expression to order by, with an optional direction.
#[derive(Debug, PartialEq)]
pub struct OrderDefinition {
    pub expression: Expression,
    pub order: Option<Order>,
}

/// The window of a window function.
#[derive(Debug, PartialEq)]
pub struct Over {
    pub ordering: Vec<OrderDefinition>,
    pub partitioning: Vec<Column>,
}

/// A path into a JSON document.
#[derive(Debug, PartialEq)]
pub enum JsonPath {
    /// A JSON path in string notation.
    String(String),
    /// A path as a list of keys.
    Array(Vec<String>),
}

/// The extraction of a part of a JSON document.
#[derive(Debug, PartialEq)]
pub struct JsonExtract {
    pub column: Box<Expression>,
    pub path: JsonPath,
    pub extract_as_string: bool,
}

/// The `ROW_TO_JSON` function.
#[derive(Debug, PartialEq)]
pub struct RowToJson {
    pub expr: Table,
    pub pretty_print: bool,
}

/// The columns on which to perform a full-text search.
#[derive(Debug, PartialEq)]
pub struct TextSearch {
    pub columns: Vec<Column>,
}

/// The kinds of database functions.
#[derive(Debug, PartialEq)]
pub enum FunctionType {
    RowToJson(RowToJson),
    RowNumber(Over),
    Count(Vec<Expression>),
    AggregateToString(Box<Expression>),
    Average(Column),
    Sum(Box<Expression>),
    Lower(Box<Expression>),
    Upper(Box<Expression>),
    Minimum(Column),
    Maximum(Column),
    Coalesce(Vec<Expression>),
    JsonExtract(JsonExtract),
    TextSearch(TextSearch),
}

/// A database function call.
#[derive(Debug, PartialEq)]
pub struct Function {
    pub typ_: FunctionType,
    pub alias: Option<String>,
}

/// A predicate that compares expressions.
#[derive(Debug, PartialEq)]
pub enum Compare {
    /// `left <comparison> right`
    Binary(Box<Expression>, Comparison, Box<Expression>),
    /// `left [NOT] LIKE pattern`
    Pattern(Box<Expression>, Pattern, String),
    /// `expression IS NULL`
    Null(Box<Expression>),
    /// `expression IS NOT NULL`
    NotNull(Box<Expression>),
    /// `value BETWEEN low AND high`
    Between(Box<Expression>, Box<Expression>, Box<Expression>),
    /// `value NOT BETWEEN low AND high`
    NotBetween(Box<Expression>, Box<Expression>, Box<Expression>),
    /// `left <comparator> right` with a comparator given as text
    Raw(Box<Expression>, String, Box<Expression>),
    /// A test on a JSON array; the flag negates it.
    JsonArray(Box<Expression>, JsonArrayTest, bool, Box<Expression>),
    /// A test of the type of a JSON value.
    JsonType(Box<Expression>, JsonType),
    /// A full-text search match; the flag negates it.
    Matches(Box<Expression>, String, bool),
}

/// A boolean predicate tree.
#[derive(Debug, PartialEq)]
pub enum ConditionTree {
    And(Vec<Expression>),
    Or(Vec<Expression>),
    Not(Box<Expression>),
    Single(Box<Expression>),
    /// A condition that always holds.
    NoCondition,
    /// A condition that never holds.
    NegativeCondition,
}

/// A select or a union of selects.
#[derive(Debug, PartialEq)]
pub enum SelectQuery {
    Select(Box<Select>),
    Union(Box<Union>),
}

/// The kinds of expressions.
#[derive(Debug, PartialEq)]
pub enum ExpressionKind {
    /// A value bound as a parameter.
    Parameterized(Value),
    /// A value written as a literal.
    RawValue(Raw),
    Column(Box<Column>),
    Row(Row),
    Selection(SelectQuery),
    Function(Box<Function>),
    /// `*` or `table.*`
    Asterisk(Option<Box<Table>>),
    Op(Box<Expression>, Operator, Box<Expression>),
    Values(Box<Values>),
    ConditionTree(ConditionTree),
    Compare(Compare),
    Value(Box<Expression>),
    /// The keyword `DEFAULT`.
    Default,
}

/// The node through which projections, predicates and assignments flow.
#[derive(Debug, PartialEq)]
pub struct Expression {
    pub kind: ExpressionKind,
    pub alias: Option<String>,
}

/// A named sub-query of a `WITH` clause.
#[derive(Debug, PartialEq)]
pub struct CommonTableExpression {
    pub identifier: String,
    pub columns: Vec<String>,
    pub selection: SelectQuery,
}

/// A `SELECT` statement.
#[derive(Debug, PartialEq)]
pub struct Select {
    pub distinct: bool,
    pub tables: Vec<Table>,
    pub columns: Vec<Expression>,
    pub conditions: Option<ConditionTree>,
    pub ordering: Vec<OrderDefinition>,
    pub grouping: Vec<Expression>,
    pub having: Option<ConditionTree>,
    pub limit: Option<Value>,
    pub offset: Option<Value>,
    pub joins: Vec<Join>,
    pub ctes: Vec<CommonTableExpression>,
}

/// A `UNION` of selects. The type at position `i` unites the selects at
/// positions `i` and `i + 1`.
#[derive(Debug, PartialEq)]
pub struct Union {
    pub selects: Vec<Select>,
    pub types: Vec<UnionType>,
    pub ctes: Vec<CommonTableExpression>,
}

/// An `INSERT` statement.
#[derive(Debug, PartialEq)]
pub struct Insert {
    pub table: Option<Table>,
    pub columns: Vec<Column>,
    pub values: Expression,
    pub on_conflict: Option<OnConflict>,
    pub returning: Option<Vec<Column>>,
}

/// An insert of one row, under construction.
#[derive(Debug, PartialEq)]
pub struct SingleRowInsert {
    pub table: Option<Table>,
    pub columns: Vec<Column>,
    pub values: Row,
}

/// An insert of several rows, under construction.
#[derive(Debug, PartialEq)]
pub struct MultiRowInsert {
    pub table: Option<Table>,
    pub columns: Vec<Column>,
    pub values: Vec<Row>,
}

/// A builder for an `UPDATE` statement.
#[derive(Debug, PartialEq)]
pub struct Update {
    pub table: Table,
    pub columns: Vec<Column>,
    pub values: Vec<Expression>,
    pub conditions: Option<ConditionTree>,
}

/// A `DELETE` statement.
#[derive(Debug, PartialEq)]
pub struct Delete {
    pub table: Table,
    pub conditions: Option<ConditionTree>,
}

/// The source of a merge: a query under a table name, the columns it
/// exposes and the predicate that joins it to the target.
#[derive(Debug, PartialEq)]
pub struct Using {
    pub base_query: Query,
    pub columns: Vec<Column>,
    pub as_table: Table,
    pub on_conditions: ConditionTree,
}

/// A builder for SQL `MERGE` queries.
///
/// Not complete: it exists to emulate an insert that skips conflicts.
#[derive(Debug, PartialEq)]
pub struct Merge {
    pub table: Table,
    pub using: Using,
    pub when_not_matched: Option<Query>,
    pub returning: Option<Vec<Column>>,
}

/// A statement.
#[derive(Debug, PartialEq)]
pub enum Query {
    Select(Box<Select>),
    Insert(Box<Insert>),
    Update(Box<Update>),
    Delete(Box<Delete>),
    Union(Box<Union>),
    Merge(Box<Merge>),
    Raw(String),
}

} // verus!
