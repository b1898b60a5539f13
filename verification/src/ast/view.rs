//! The view of every node: the mathematical value it stands for.

use vstd::prelude::*;
use crate::ast::model::{
    ColumnView,
    CommonTableExpressionView,
    CompareView,
    ConditionTreeView,
    DefaultValueView,
    DeleteView,
    ExpressionKindView,
    ExpressionView,
    FunctionTypeView,
    FunctionView,
    IndexDefinitionView,
    InsertView,
    JoinDataView,
    JoinView,
    JsonExtractView,
    JsonPathView,
    MergeView,
    MultiRowInsertView,
    OrderDefinitionView,
    OverView,
    QueryView,
    RowToJsonView,
    RowView,
    SelectQueryView,
    SelectView,
    SingleRowInsertView,
    TableTypeView,
    TableView,
    TextSearchView,
    UnionView,
    UpdateView,
    UsingView,
    ValuesView,
};
use crate::ast::node::{
    Column,
    CommonTableExpression,
    Compare,
    ConditionTree,
    DefaultValue,
    Delete,
    Expression,
    ExpressionKind,
    Function,
    FunctionType,
    IndexDefinition,
    Insert,
    Join,
    JoinData,
    JsonExtract,
    JsonPath,
    Merge,
    MultiRowInsert,
    OrderDefinition,
    Over,
    Query,
    Row,
    RowToJson,
    Select,
    SelectQuery,
    SingleRowInsert,
    Table,
    TableType,
    TextSearch,
    Union,
    UnionType,
    Update,
    Using,
    Values,
};
use crate::ast::value::text_view;

verus! {

broadcast use {vstd::seq::group_seq_axioms, vstd::std_specs::vec::group_vec_axioms};

/// The views of a sequence of nodes, in order.
pub open spec fn column_views(v: Seq<Column>) -> Seq<ColumnView>
    decreases v,
{
    Seq::new(v.len(), |i: int| if 0 <= i < v.len() { v[i]@ } else { arbitrary() })
}

/// The views of a sequence of nodes, in order.
pub open spec fn common_table_expression_views(v: Seq<CommonTableExpression>) -> Seq<CommonTableExpressionView>
    decreases v,
{
    Seq::new(v.len(), |i: int| if 0 <= i < v.len() { v[i]@ } else { arbitrary() })
}

/// The views of a sequence of nodes, in order.
pub open spec fn expression_views(v: Seq<Expression>) -> Seq<ExpressionView>
    decreases v,
{
    Seq::new(v.len(), |i: int| if 0 <= i < v.len() { v[i]@ } else { arbitrary() })
}

/// The views of a sequence of nodes, in order.
pub open spec fn index_definition_views(v: Seq<IndexDefinition>) -> Seq<IndexDefinitionView>
    decreases v,
{
    Seq::new(v.len(), |i: int| if 0 <= i < v.len() { v[i]@ } else { arbitrary() })
}

/// The views of a sequence of nodes, in order.
pub open spec fn join_views(v: Seq<Join>) -> Seq<JoinView>
    decreases v,
{
    Seq::new(v.len(), |i: int| if 0 <= i < v.len() { v[i]@ } else { arbitrary() })
}

/// The views of a sequence of nodes, in order.
pub open spec fn order_definition_views(v: Seq<OrderDefinition>) -> Seq<OrderDefinitionView>
    decreases v,
{
    Seq::new(v.len(), |i: int| if 0 <= i < v.len() { v[i]@ } else { arbitrary() })
}

/// The views of a sequence of nodes, in order.
pub open spec fn row_views(v: Seq<Row>) -> Seq<RowView>
    decreases v,
{
    Seq::new(v.len(), |i: int| if 0 <= i < v.len() { v[i]@ } else { arbitrary() })
}

/// The views of a sequence of nodes, in order.
pub open spec fn select_views(v: Seq<Select>) -> Seq<SelectView>
    decreases v,
{
    Seq::new(v.len(), |i: int| if 0 <= i < v.len() { v[i]@ } else { arbitrary() })
}

/// The views of a sequence of strings, in order.
pub open spec fn string_views(v: Seq<String>) -> Seq<Seq<char>> {
    Seq::new(v.len(), |i: int| v[i]@)
}

/// The views of a sequence of nodes, in order.
pub open spec fn table_views(v: Seq<Table>) -> Seq<TableView>
    decreases v,
{
    Seq::new(v.len(), |i: int| if 0 <= i < v.len() { v[i]@ } else { arbitrary() })
}

/// The same sequence.
pub open spec fn union_type_views(v: Seq<UnionType>) -> Seq<UnionType> {
    v
}

impl DefaultValue {
    pub open spec fn view(&self) -> DefaultValueView
        decreases self,
    {
        match self {
            DefaultValue::Provided(a0) => DefaultValueView::Provided(
                a0@,
            ),
            DefaultValue::Generated => DefaultValueView::Generated,
        }
    }
}

impl Column {
    pub open spec fn view(&self) -> ColumnView
        decreases self,
    {
        ColumnView {
            name: self.name@,
            table: match self.table {
                Some(x) => Some(x@),
                None => None,
            },
            alias: text_view(self.alias),
            default: match self.default {
                Some(x) => Some(x@),
                None => None,
            },
            type_family: self.type_family,
        }
    }
}

impl IndexDefinition {
    pub open spec fn view(&self) -> IndexDefinitionView
        decreases self,
    {
        match self {
            IndexDefinition::Single(a0) => IndexDefinitionView::Single(
                Box::new(a0@),
            ),
            IndexDefinition::Compound(a0) => IndexDefinitionView::Compound(
                column_views(a0@),
            ),
        }
    }
}

impl TableType {
    pub open spec fn view(&self) -> TableTypeView
        decreases self,
    {
        match self {
            TableType::Table(a0) => TableTypeView::Table(
                a0@,
            ),
            TableType::JoinedTable(a0, a1) => TableTypeView::JoinedTable(
                a0@,
                join_views(a1@),
            ),
            TableType::Query(a0) => TableTypeView::Query(
                Box::new(a0@),
            ),
            TableType::Values(a0) => TableTypeView::Values(
                a0@,
            ),
        }
    }
}

impl Table {
    pub open spec fn view(&self) -> TableView
        decreases self,
    {
        TableView {
            typ: self.typ@,
            alias: text_view(self.alias),
            database: text_view(self.database),
            index_definitions: index_definition_views(self.index_definitions@),
        }
    }
}

impl JoinData {
    pub open spec fn view(&self) -> JoinDataView
        decreases self,
    {
        JoinDataView {
            table: self.table@,
            conditions: self.conditions@,
        }
    }
}

impl Join {
    pub open spec fn view(&self) -> JoinView
        decreases self,
    {
        match self {
            Join::Inner(a0) => JoinView::Inner(
                a0@,
            ),
            Join::Left(a0) => JoinView::Left(
                a0@,
            ),
            Join::Right(a0) => JoinView::Right(
                a0@,
            ),
            Join::Full(a0) => JoinView::Full(
                a0@,
            ),
        }
    }
}

impl Row {
    pub open spec fn view(&self) -> RowView
        decreases self,
    {
        RowView {
            values: expression_views(self.values@),
        }
    }
}

impl Values {
    pub open spec fn view(&self) -> ValuesView
        decreases self,
    {
        ValuesView {
            rows: row_views(self.rows@),
        }
    }
}

impl OrderDefinition {
    pub open spec fn view(&self) -> OrderDefinitionView
        decreases self,
    {
        OrderDefinitionView {
            expression: self.expression@,
            order: self.order,
        }
    }
}

impl Over {
    pub open spec fn view(&self) -> OverView
        decreases self,
    {
        OverView {
            ordering: order_definition_views(self.ordering@),
            partitioning: column_views(self.partitioning@),
        }
    }
}

impl JsonPath {
    pub open spec fn view(&self) -> JsonPathView
        decreases self,
    {
        match self {
            JsonPath::String(a0) => JsonPathView::String(
                a0@,
            ),
            JsonPath::Array(a0) => JsonPathView::Array(
                string_views(a0@),
            ),
        }
    }
}

impl JsonExtract {
    pub open spec fn view(&self) -> JsonExtractView
        decreases self,
    {
        JsonExtractView {
            column: Box::new(self.column@),
            path: self.path@,
            extract_as_string: self.extract_as_string,
        }
    }
}

impl RowToJson {
    pub open spec fn view(&self) -> RowToJsonView
        decreases self,
    {
        RowToJsonView {
            expr: self.expr@,
            pretty_print: self.pretty_print,
        }
    }
}

impl TextSearch {
    pub open spec fn view(&self) -> TextSearchView
        decreases self,
    {
        TextSearchView {
            columns: column_views(self.columns@),
        }
    }
}

impl FunctionType {
    pub open spec fn view(&self) -> FunctionTypeView
        decreases self,
    {
        match self {
            FunctionType::RowToJson(a0) => FunctionTypeView::RowToJson(
                a0@,
            ),
            FunctionType::RowNumber(a0) => FunctionTypeView::RowNumber(
                a0@,
            ),
            FunctionType::Count(a0) => FunctionTypeView::Count(
                expression_views(a0@),
            ),
            FunctionType::AggregateToString(a0) => FunctionTypeView::AggregateToString(
                Box::new(a0@),
            ),
            FunctionType::Average(a0) => FunctionTypeView::Average(
                a0@,
            ),
            FunctionType::Sum(a0) => FunctionTypeView::Sum(
                Box::new(a0@),
            ),
            FunctionType::Lower(a0) => FunctionTypeView::Lower(
                Box::new(a0@),
            ),
            FunctionType::Upper(a0) => FunctionTypeView::Upper(
                Box::new(a0@),
            ),
            FunctionType::Minimum(a0) => FunctionTypeView::Minimum(
                a0@,
            ),
            FunctionType::Maximum(a0) => FunctionTypeView::Maximum(
                a0@,
            ),
            FunctionType::Coalesce(a0) => FunctionTypeView::Coalesce(
                expression_views(a0@),
            ),
            FunctionType::JsonExtract(a0) => FunctionTypeView::JsonExtract(
                a0@,
            ),
            FunctionType::TextSearch(a0) => FunctionTypeView::TextSearch(
                a0@,
            ),
        }
    }
}

impl Function {
    pub open spec fn view(&self) -> FunctionView
        decreases self,
    {
        FunctionView {
            typ_: self.typ_@,
            alias: text_view(self.alias),
        }
    }
}

impl Compare {
    pub open spec fn view(&self) -> CompareView
        decreases self,
    {
        match self {
            Compare::Binary(a0, a1, a2) => CompareView::Binary(
                Box::new(a0@),
                *a1,
                Box::new(a2@),
            ),
            Compare::Pattern(a0, a1, a2) => CompareView::Pattern(
                Box::new(a0@),
                *a1,
                a2@,
            ),
            Compare::Null(a0) => CompareView::Null(
                Box::new(a0@),
            ),
            Compare::NotNull(a0) => CompareView::NotNull(
                Box::new(a0@),
            ),
            Compare::Between(a0, a1, a2) => CompareView::Between(
                Box::new(a0@),
                Box::new(a1@),
                Box::new(a2@),
            ),
            Compare::NotBetween(a0, a1, a2) => CompareView::NotBetween(
                Box::new(a0@),
                Box::new(a1@),
                Box::new(a2@),
            ),
            Compare::Raw(a0, a1, a2) => CompareView::Raw(
                Box::new(a0@),
                a1@,
                Box::new(a2@),
            ),
            Compare::JsonArray(a0, a1, a2, a3) => CompareView::JsonArray(
                Box::new(a0@),
                *a1,
                *a2,
                Box::new(a3@),
            ),
            Compare::JsonType(a0, a1) => CompareView::JsonType(
                Box::new(a0@),
                *a1,
            ),
            Compare::Matches(a0, a1, a2) => CompareView::Matches(
                Box::new(a0@),
                a1@,
                *a2,
            ),
        }
    }
}

impl ConditionTree {
    pub open spec fn view(&self) -> ConditionTreeView
        decreases self,
    {
        match self {
            ConditionTree::And(a0) => ConditionTreeView::And(
                expression_views(a0@),
            ),
            ConditionTree::Or(a0) => ConditionTreeView::Or(
                expression_views(a0@),
            ),
            ConditionTree::Not(a0) => ConditionTreeView::Not(
                Box::new(a0@),
            ),
            ConditionTree::Single(a0) => ConditionTreeView::Single(
                Box::new(a0@),
            ),
            ConditionTree::NoCondition => ConditionTreeView::NoCondition,
            ConditionTree::NegativeCondition => ConditionTreeView::NegativeCondition,
        }
    }
}

impl SelectQuery {
    pub open spec fn view(&self) -> SelectQueryView
        decreases self,
    {
        match self {
            SelectQuery::Select(a0) => SelectQueryView::Select(
                Box::new(a0@),
            ),
            SelectQuery::Union(a0) => SelectQueryView::Union(
                Box::new(a0@),
            ),
        }
    }
}

impl ExpressionKind {
    pub open spec fn view(&self) -> ExpressionKindView
        decreases self,
    {
        match self {
            ExpressionKind::Parameterized(a0) => ExpressionKindView::Parameterized(
                a0@,
            ),
            ExpressionKind::RawValue(a0) => ExpressionKindView::RawValue(
                a0.value@,
            ),
            ExpressionKind::Column(a0) => ExpressionKindView::Column(
                Box::new(a0@),
            ),
            ExpressionKind::Row(a0) => ExpressionKindView::Row(
                a0@,
            ),
            ExpressionKind::Selection(a0) => ExpressionKindView::Selection(
                a0@,
            ),
            ExpressionKind::Function(a0) => ExpressionKindView::Function(
                Box::new(a0@),
            ),
            ExpressionKind::Asterisk(a0) => ExpressionKindView::Asterisk(
                match a0 {
                    Some(x) => Some(Box::new(x@)),
                    None => None,
                },
            ),
            ExpressionKind::Op(a0, a1, a2) => ExpressionKindView::Op(
                Box::new(a0@),
                *a1,
                Box::new(a2@),
            ),
            ExpressionKind::Values(a0) => ExpressionKindView::Values(
                Box::new(a0@),
            ),
            ExpressionKind::ConditionTree(a0) => ExpressionKindView::ConditionTree(
                a0@,
            ),
            ExpressionKind::Compare(a0) => ExpressionKindView::Compare(
                a0@,
            ),
            ExpressionKind::Value(a0) => ExpressionKindView::Value(
                Box::new(a0@),
            ),
            ExpressionKind::Default => ExpressionKindView::Default,
        }
    }
}

impl Expression {
    pub open spec fn view(&self) -> ExpressionView
        decreases self,
    {
        ExpressionView {
            kind: self.kind@,
            alias: text_view(self.alias),
        }
    }
}

impl CommonTableExpression {
    pub open spec fn view(&self) -> CommonTableExpressionView
        decreases self,
    {
        CommonTableExpressionView {
            identifier: self.identifier@,
            columns: string_views(self.columns@),
            selection: self.selection@,
        }
    }
}

impl Select {
    pub open spec fn view(&self) -> SelectView
        decreases self,
    {
        SelectView {
            distinct: self.distinct,
            tables: table_views(self.tables@),
            columns: expression_views(self.columns@),
            conditions: match self.conditions {
                Some(x) => Some(x@),
                None => None,
            },
            ordering: order_definition_views(self.ordering@),
            grouping: expression_views(self.grouping@),
            having: match self.having {
                Some(x) => Some(x@),
                None => None,
            },
            limit: match self.limit {
                Some(x) => Some(x@),
                None => None,
            },
            offset: match self.offset {
                Some(x) => Some(x@),
                None => None,
            },
            joins: join_views(self.joins@),
            ctes: common_table_expression_views(self.ctes@),
        }
    }
}

impl Union {
    pub open spec fn view(&self) -> UnionView
        decreases self,
    {
        UnionView {
            selects: select_views(self.selects@),
            types: union_type_views(self.types@),
            ctes: common_table_expression_views(self.ctes@),
        }
    }
}

impl Insert {
    pub open spec fn view(&self) -> InsertView
        decreases self,
    {
        InsertView {
            table: match self.table {
                Some(x) => Some(x@),
                None => None,
            },
            columns: column_views(self.columns@),
            values: self.values@,
            on_conflict: self.on_conflict,
            returning: match self.returning {
                Some(x) => Some(column_views(x@)),
                None => None,
            },
        }
    }
}

impl SingleRowInsert {
    pub open spec fn view(&self) -> SingleRowInsertView
        decreases self,
    {
        SingleRowInsertView {
            table: match self.table {
                Some(x) => Some(x@),
                None => None,
            },
            columns: column_views(self.columns@),
            values: self.values@,
        }
    }
}

impl MultiRowInsert {
    pub open spec fn view(&self) -> MultiRowInsertView
        decreases self,
    {
        MultiRowInsertView {
            table: match self.table {
                Some(x) => Some(x@),
                None => None,
            },
            columns: column_views(self.columns@),
            values: row_views(self.values@),
        }
    }
}

impl Update {
    pub open spec fn view(&self) -> UpdateView
        decreases self,
    {
        UpdateView {
            table: self.table@,
            columns: column_views(self.columns@),
            values: expression_views(self.values@),
            conditions: match self.conditions {
                Some(x) => Some(x@),
                None => None,
            },
        }
    }
}

impl Delete {
    pub open spec fn view(&self) -> DeleteView
        decreases self,
    {
        DeleteView {
            table: self.table@,
            conditions: match self.conditions {
                Some(x) => Some(x@),
                None => None,
            },
        }
    }
}

impl Using {
    pub open spec fn view(&self) -> UsingView
        decreases self,
    {
        UsingView {
            base_query: self.base_query@,
            columns: column_views(self.columns@),
            as_table: self.as_table@,
            on_conditions: self.on_conditions@,
        }
    }
}

impl Merge {
    pub open spec fn view(&self) -> MergeView
        decreases self,
    {
        MergeView {
            table: self.table@,
            using: self.using@,
            when_not_matched: match self.when_not_matched {
                Some(x) => Some(x@),
                None => None,
            },
            returning: match self.returning {
                Some(x) => Some(column_views(x@)),
                None => None,
            },
        }
    }
}

impl Query {
    pub open spec fn view(&self) -> QueryView
        decreases self,
    {
        match self {
            Query::Select(a0) => QueryView::Select(
                Box::new(a0@),
            ),
            Query::Insert(a0) => QueryView::Insert(
                Box::new(a0@),
            ),
            Query::Update(a0) => QueryView::Update(
                Box::new(a0@),
            ),
            Query::Delete(a0) => QueryView::Delete(
                Box::new(a0@),
            ),
            Query::Union(a0) => QueryView::Union(
                Box::new(a0@),
            ),
            Query::Merge(a0) => QueryView::Merge(
                Box::new(a0@),
            ),
            Query::Raw(a0) => QueryView::Raw(
                a0@,
            ),
        }
    }
}

} // verus!
