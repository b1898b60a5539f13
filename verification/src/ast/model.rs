//! The mathematical model of the abstract syntax tree: every node with
//! sequences in place of vectors and strings.

use vstd::prelude::*;
use crate::ast::node::Comparison;
use crate::ast::node::JsonArrayTest;
use crate::ast::node::JsonType;
use crate::ast::node::OnConflict;
use crate::ast::node::Operator;
use crate::ast::node::Order;
use crate::ast::node::Pattern;
use crate::ast::node::TypeFamily;
use crate::ast::node::UnionType;
use crate::ast::value::ValueView;

verus! {

/// The model of [`DefaultValue`](crate::ast::node::DefaultValue).
pub ghost enum DefaultValueView {
    Provided(ValueView),
    Generated,
}

/// The model of [`Column`](crate::ast::node::Column).
pub ghost struct ColumnView {
    pub name: Seq<char>,
    pub table: Option<TableView>,
    pub alias: Option<Seq<char>>,
    pub default: Option<DefaultValueView>,
    pub type_family: Option<TypeFamily>,
}

/// The model of [`IndexDefinition`](crate::ast::node::IndexDefinition).
pub ghost enum IndexDefinitionView {
    Single(Box<ColumnView>),
    Compound(Seq<ColumnView>),
}

/// The model of [`TableType`](crate::ast::node::TableType).
pub ghost enum TableTypeView {
    Table(Seq<char>),
    JoinedTable(Seq<char>, Seq<JoinView>),
    Query(Box<SelectView>),
    Values(ValuesView),
}

/// The model of [`Table`](crate::ast::node::Table).
pub ghost struct TableView {
    pub typ: TableTypeView,
    pub alias: Option<Seq<char>>,
    pub database: Option<Seq<char>>,
    pub index_definitions: Seq<IndexDefinitionView>,
}

/// The model of [`JoinData`](crate::ast::node::JoinData).
pub ghost struct JoinDataView {
    pub table: TableView,
    pub conditions: ConditionTreeView,
}

/// The model of [`Join`](crate::ast::node::Join).
pub ghost enum JoinView {
    Inner(JoinDataView),
    Left(JoinDataView),
    Right(JoinDataView),
    Full(JoinDataView),
}

/// The model of [`Row`](crate::ast::node::Row).
pub ghost struct RowView {
    pub values: Seq<ExpressionView>,
}

/// The model of [`Values`](crate::ast::node::Values).
pub ghost struct ValuesView {
    pub rows: Seq<RowView>,
}

/// The model of [`OrderDefinition`](crate::ast::node::OrderDefinition).
pub ghost struct OrderDefinitionView {
    pub expression: ExpressionView,
    pub order: Option<Order>,
}

/// The model of [`Over`](crate::ast::node::Over).
pub ghost struct OverView {
    pub ordering: Seq<OrderDefinitionView>,
    pub partitioning: Seq<ColumnView>,
}

/// The model of [`JsonPath`](crate::ast::node::JsonPath).
pub ghost enum JsonPathView {
    String(Seq<char>),
    Array(Seq<Seq<char>>),
}

/// The model of [`JsonExtract`](crate::ast::node::JsonExtract).
pub ghost struct JsonExtractView {
    pub column: Box<ExpressionView>,
    pub path: JsonPathView,
    pub extract_as_string: bool,
}

/// The model of [`RowToJson`](crate::ast::node::RowToJson).
pub ghost struct RowToJsonView {
    pub expr: TableView,
    pub pretty_print: bool,
}

/// The model of [`TextSearch`](crate::ast::node::TextSearch).
pub ghost struct TextSearchView {
    pub columns: Seq<ColumnView>,
}

/// The model of [`FunctionType`](crate::ast::node::FunctionType).
pub ghost enum FunctionTypeView {
    RowToJson(RowToJsonView),
    RowNumber(OverView),
    Count(Seq<ExpressionView>),
    AggregateToString(Box<ExpressionView>),
    Average(ColumnView),
    Sum(Box<ExpressionView>),
    Lower(Box<ExpressionView>),
    Upper(Box<ExpressionView>),
    Minimum(ColumnView),
    Maximum(ColumnView),
    Coalesce(Seq<ExpressionView>),
    JsonExtract(JsonExtractView),
    TextSearch(TextSearchView),
}

/// The model of [`Function`](crate::ast::node::Function).
pub ghost struct FunctionView {
    pub typ_: FunctionTypeView,
    pub alias: Option<Seq<char>>,
}

/// The model of [`Compare`](crate::ast::node::Compare).
pub ghost enum CompareView {
    Binary(Box<ExpressionView>, Comparison, Box<ExpressionView>),
    Pattern(Box<ExpressionView>, Pattern, Seq<char>),
    Null(Box<ExpressionView>),
    NotNull(Box<ExpressionView>),
    Between(Box<ExpressionView>, Box<ExpressionView>, Box<ExpressionView>),
    NotBetween(Box<ExpressionView>, Box<ExpressionView>, Box<ExpressionView>),
    Raw(Box<ExpressionView>, Seq<char>, Box<ExpressionView>),
    JsonArray(Box<ExpressionView>, JsonArrayTest, bool, Box<ExpressionView>),
    JsonType(Box<ExpressionView>, JsonType),
    Matches(Box<ExpressionView>, Seq<char>, bool),
}

/// The model of [`ConditionTree`](crate::ast::node::ConditionTree).
pub ghost enum ConditionTreeView {
    And(Seq<ExpressionView>),
    Or(Seq<ExpressionView>),
    Not(Box<ExpressionView>),
    Single(Box<ExpressionView>),
    NoCondition,
    NegativeCondition,
}

/// The model of [`SelectQuery`](crate::ast::node::SelectQuery).
pub ghost enum SelectQueryView {
    Select(Box<SelectView>),
    Union(Box<UnionView>),
}

/// The model of [`ExpressionKind`](crate::ast::node::ExpressionKind).
pub ghost enum ExpressionKindView {
    Parameterized(ValueView),
    RawValue(ValueView),
    Column(Box<ColumnView>),
    Row(RowView),
    Selection(SelectQueryView),
    Function(Box<FunctionView>),
    Asterisk(Option<Box<TableView>>),
    Op(Box<ExpressionView>, Operator, Box<ExpressionView>),
    Values(Box<ValuesView>),
    ConditionTree(ConditionTreeView),
    Compare(CompareView),
    Value(Box<ExpressionView>),
    Default,
}

/// The model of [`Expression`](crate::ast::node::Expression).
pub ghost struct ExpressionView {
    pub kind: ExpressionKindView,
    pub alias: Option<Seq<char>>,
}

/// The model of [`CommonTableExpression`](crate::ast::node::CommonTableExpression).
pub ghost struct CommonTableExpressionView {
    pub identifier: Seq<char>,
    pub columns: Seq<Seq<char>>,
    pub selection: SelectQueryView,
}

/// The model of [`Select`](crate::ast::node::Select).
pub ghost struct SelectView {
    pub distinct: bool,
    pub tables: Seq<TableView>,
    pub columns: Seq<ExpressionView>,
    pub conditions: Option<ConditionTreeView>,
    pub ordering: Seq<OrderDefinitionView>,
    pub grouping: Seq<ExpressionView>,
    pub having: Option<ConditionTreeView>,
    pub limit: Option<ValueView>,
    pub offset: Option<ValueView>,
    pub joins: Seq<JoinView>,
    pub ctes: Seq<CommonTableExpressionView>,
}

/// The model of [`Union`](crate::ast::node::Union).
pub ghost struct UnionView {
    pub selects: Seq<SelectView>,
    pub types: Seq<UnionType>,
    pub ctes: Seq<CommonTableExpressionView>,
}

/// The model of [`Insert`](crate::ast::node::Insert).
pub ghost struct InsertView {
    pub table: Option<TableView>,
    pub columns: Seq<ColumnView>,
    pub values: ExpressionView,
    pub on_conflict: Option<OnConflict>,
    pub returning: Option<Seq<ColumnView>>,
}

/// The model of [`SingleRowInsert`](crate::ast::node::SingleRowInsert).
pub ghost struct SingleRowInsertView {
    pub table: Option<TableView>,
    pub columns: Seq<ColumnView>,
    pub values: RowView,
}

/// The model of [`MultiRowInsert`](crate::ast::node::MultiRowInsert).
pub ghost struct MultiRowInsertView {
    pub table: Option<TableView>,
    pub columns: Seq<ColumnView>,
    pub values: Seq<RowView>,
}

/// The model of [`Update`](crate::ast::node::Update).
pub ghost struct UpdateView {
    pub table: TableView,
    pub columns: Seq<ColumnView>,
    pub values: Seq<ExpressionView>,
    pub conditions: Option<ConditionTreeView>,
}

/// The model of [`Delete`](crate::ast::node::Delete).
pub ghost struct DeleteView {
    pub table: TableView,
    pub conditions: Option<ConditionTreeView>,
}

/// The model of [`Using`](crate::ast::node::Using).
pub ghost struct UsingView {
    pub base_query: QueryView,
    pub columns: Seq<ColumnView>,
    pub as_table: TableView,
    pub on_conditions: ConditionTreeView,
}

/// The model of [`Merge`](crate::ast::node::Merge).
pub ghost struct MergeView {
    pub table: TableView,
    pub using: UsingView,
    pub when_not_matched: Option<QueryView>,
    pub returning: Option<Seq<ColumnView>>,
}

/// The model of [`Query`](crate::ast::node::Query).
pub ghost enum QueryView {
    Select(Box<SelectView>),
    Insert(Box<InsertView>),
    Update(Box<UpdateView>),
    Delete(Box<DeleteView>),
    Union(Box<UnionView>),
    Merge(Box<MergeView>),
    Raw(Seq<char>),
}

} // verus!
