//! What the builders make, stated on the model: every builder of the
//! syntax tree has its mathematical counterpart here.

use vstd::prelude::*;
use crate::ast::model::{
    ColumnView,
    CommonTableExpressionView,
    CompareView,
    ConditionTreeView,
    DefaultValueView,
    DeleteView,
    ExpressionKindView,
    ExpressionView,
    FunctionTypeView,
    FunctionView,
    IndexDefinitionView,
    InsertView,
    JoinDataView,
    JoinView,
    MergeView,
    MultiRowInsertView,
    OrderDefinitionView,
    QueryView,
    RowView,
    SelectQueryView,
    SelectView,
    SingleRowInsertView,
    TableTypeView,
    TableView,
    UnionView,
    UpdateView,
    UsingView,
    ValuesView,
};
use crate::ast::node::{Comparison, OnConflict, Order, Pattern, TypeFamily, UnionType};
use crate::ast::value::ValueView;

verus! {

impl TableView {
    /// The table of the given name.
    pub open spec fn named(name: Seq<char>) -> TableView {
        TableView {
            typ: TableTypeView::Table(name),
            alias: None,
            database: None,
            index_definitions: Seq::empty(),
        }
    }

    /// The table derived from a select.
    pub open spec fn of_select(select: SelectView) -> TableView {
        TableView {
            typ: TableTypeView::Query(Box::new(select)),
            alias: None,
            database: None,
            index_definitions: Seq::empty(),
        }
    }

    /// The in-memory table of the values.
    pub open spec fn of_values(values: ValuesView) -> TableView {
        TableView {
            typ: TableTypeView::Values(values),
            alias: None,
            database: None,
            index_definitions: Seq::empty(),
        }
    }

    /// The table under an alias.
    pub open spec fn aliased(self, alias: Seq<char>) -> TableView {
        TableView { alias: Some(alias), ..self }
    }

    /// The table in a database.
    pub open spec fn in_database(self, database: Seq<char>) -> TableView {
        TableView { database: Some(database), ..self }
    }

    /// The table with one more unique index, whose columns belong to the
    /// table as it was before.
    pub open spec fn with_unique_index(self, index: IndexDefinitionView) -> TableView {
        TableView { index_definitions: self.index_definitions.push(index.of_table(self)), ..self }
    }

    /// True for a table that can be joined: a named table, with or without
    /// joins.
    pub open spec fn joinable(self) -> bool {
        self.typ is Table || self.typ is JoinedTable
    }

    /// The table with one more join.
    pub open spec fn joined(self, join: JoinView) -> TableView
        recommends
            self.joinable(),
    {
        TableView {
            typ: match self.typ {
                TableTypeView::Table(name) => TableTypeView::JoinedTable(name, seq![join]),
                TableTypeView::JoinedTable(name, joins) => TableTypeView::JoinedTable(
                    name,
                    joins.push(join),
                ),
                other => other,
            },
            ..self
        }
    }

    /// The table joined on a condition.
    pub open spec fn on(self, conditions: ConditionTreeView) -> JoinDataView {
        JoinDataView { table: self, conditions }
    }

    /// True where two tables are the same for the purpose of telling
    /// columns apart: named tables of one name in one database.
    pub open spec fn same(self, other: TableView) -> bool {
        &&& self.database == other.database
        &&& match (self.typ, other.typ) {
            (TableTypeView::Table(a), TableTypeView::Table(b)) => a == b,
            (TableTypeView::JoinedTable(a, _), TableTypeView::JoinedTable(b, _)) => a == b,
            _ => false,
        }
    }
}

impl JoinDataView {
    /// The join with one more condition: the first one stands alone, the
    /// following ones are joined by `AND`.
    pub open spec fn on(self, conditions: ConditionTreeView) -> JoinDataView {
        JoinDataView {
            table: self.table,
            conditions: match self.conditions {
                ConditionTreeView::NoCondition => conditions,
                previous => previous.and(conditions.into_expression()),
            },
        }
    }
}

impl ColumnView {
    /// The column of the given name, without a table.
    pub open spec fn named(name: Seq<char>) -> ColumnView {
        ColumnView { name, table: None, alias: None, default: None, type_family: None }
    }

    /// The column with nothing but its name.
    pub open spec fn bare(self) -> ColumnView {
        ColumnView::named(self.name)
    }

    /// The column in a table.
    pub open spec fn of_table(self, table: TableView) -> ColumnView {
        ColumnView { table: Some(table), ..self }
    }

    /// The column under an alias.
    pub open spec fn aliased(self, alias: Seq<char>) -> ColumnView {
        ColumnView { alias: Some(alias), ..self }
    }

    /// The column with a default value.
    pub open spec fn with_default(self, default: DefaultValueView) -> ColumnView {
        ColumnView { default: Some(default), ..self }
    }

    /// The column with a type family.
    pub open spec fn with_type_family(self, type_family: TypeFamily) -> ColumnView {
        ColumnView { type_family: Some(type_family), ..self }
    }

    /// True where two columns are the same: one name, and both without a
    /// table or in the same table.
    pub open spec fn same(self, other: ColumnView) -> bool {
        &&& self.name == other.name
        &&& match (self.table, other.table) {
            (None, None) => true,
            (Some(a), Some(b)) => a.same(b),
            _ => false,
        }
    }

    /// True where one of the columns is the same as this one.
    pub open spec fn among(self, columns: Seq<ColumnView>) -> bool {
        exists|i: int| 0 <= i < columns.len() && self.same(#[trigger] columns[i])
    }
}

impl IndexDefinitionView {
    /// The index with its columns in the table.
    pub open spec fn of_table(self, table: TableView) -> IndexDefinitionView {
        match self {
            IndexDefinitionView::Single(c) => IndexDefinitionView::Single(
                Box::new(c.of_table(table)),
            ),
            IndexDefinitionView::Compound(cs) => IndexDefinitionView::Compound(
                Seq::new(cs.len(), |i: int| cs[i].of_table(table)),
            ),
        }
    }
}

impl ExpressionView {
    /// The expression of a kind, without an alias.
    pub open spec fn of(kind: ExpressionKindView) -> ExpressionView {
        ExpressionView { kind, alias: None }
    }

    /// A value bound as a parameter.
    pub open spec fn value(v: ValueView) -> ExpressionView {
        ExpressionView::of(ExpressionKindView::Parameterized(v))
    }

    /// A value written as a literal.
    pub open spec fn raw(v: ValueView) -> ExpressionView {
        ExpressionView::of(ExpressionKindView::RawValue(v))
    }

    /// A column.
    pub open spec fn column(c: ColumnView) -> ExpressionView {
        ExpressionView::of(ExpressionKindView::Column(Box::new(c)))
    }

    /// A tuple.
    pub open spec fn row(r: RowView) -> ExpressionView {
        ExpressionView::of(ExpressionKindView::Row(r))
    }

    /// An in-memory table of rows.
    pub open spec fn values(v: ValuesView) -> ExpressionView {
        ExpressionView::of(ExpressionKindView::Values(Box::new(v)))
    }

    /// A sub-select.
    pub open spec fn select(s: SelectView) -> ExpressionView {
        ExpressionView::of(ExpressionKindView::Selection(SelectQueryView::Select(Box::new(s))))
    }

    /// A sub-query.
    pub open spec fn selection(s: SelectQueryView) -> ExpressionView {
        ExpressionView::of(ExpressionKindView::Selection(s))
    }

    /// A function call.
    pub open spec fn function(f: FunctionView) -> ExpressionView {
        ExpressionView::of(ExpressionKindView::Function(Box::new(f)))
    }

    /// A comparison.
    pub open spec fn comparison(c: CompareView) -> ExpressionView {
        ExpressionView::of(ExpressionKindView::Compare(c))
    }

    /// A condition tree.
    pub open spec fn tree(t: ConditionTreeView) -> ExpressionView {
        ExpressionView::of(ExpressionKindView::ConditionTree(t))
    }

    /// The expression under an alias.
    pub open spec fn aliased(self, alias: Seq<char>) -> ExpressionView {
        ExpressionView { alias: Some(alias), ..self }
    }

    /// The comparison of this expression with another one.
    pub open spec fn compared(self, comparison: Comparison, other: ExpressionView) -> CompareView {
        CompareView::Binary(Box::new(self), comparison, Box::new(other))
    }

    /// The comparison of this expression with a pattern.
    pub open spec fn matching(self, pattern: Pattern, text: Seq<char>) -> CompareView {
        CompareView::Pattern(Box::new(self), pattern, text)
    }

    /// This expression and another one, joined by `AND`.
    pub open spec fn and(self, other: ExpressionView) -> ConditionTreeView {
        ConditionTreeView::And(seq![self, other])
    }

    /// This expression and another one, joined by `OR`.
    pub open spec fn or(self, other: ExpressionView) -> ConditionTreeView {
        ConditionTreeView::Or(seq![self, other])
    }

    /// The negation of this expression.
    pub open spec fn not(self) -> ConditionTreeView {
        ConditionTreeView::Not(Box::new(self))
    }

    /// This expression as the only condition.
    pub open spec fn single(self) -> ConditionTreeView {
        ConditionTreeView::Single(Box::new(self))
    }

    /// The expression in an ordering.
    pub open spec fn ordered(self, order: Option<Order>) -> OrderDefinitionView {
        OrderDefinitionView { expression: self, order }
    }
}

impl CompareView {
    /// The comparison as an expression.
    pub open spec fn into_expression(self) -> ExpressionView {
        ExpressionView::comparison(self)
    }

    /// The comparison as the only condition of a tree.
    pub open spec fn into_tree(self) -> ConditionTreeView {
        self.into_expression().single()
    }
}

impl ConditionTreeView {
    /// The tree as an expression.
    pub open spec fn into_expression(self) -> ExpressionView {
        ExpressionView::tree(self)
    }

    /// The tree with one more condition joined by `AND`: an `AND` gains an
    /// item, a single condition becomes an `AND` of two, and any other
    /// tree becomes the first item of a new `AND`.
    pub open spec fn and(self, other: ExpressionView) -> ConditionTreeView {
        match self {
            ConditionTreeView::And(items) => ConditionTreeView::And(items.push(other)),
            ConditionTreeView::Single(e) => ConditionTreeView::And(seq![*e, other]),
            _ => ConditionTreeView::And(seq![self.into_expression(), other]),
        }
    }

    /// The tree with one more condition joined by `OR`: an `OR` gains an
    /// item, a single condition becomes an `OR` of two, and any other tree
    /// becomes the first item of a new `OR`.
    pub open spec fn or(self, other: ExpressionView) -> ConditionTreeView {
        match self {
            ConditionTreeView::Or(items) => ConditionTreeView::Or(items.push(other)),
            ConditionTreeView::Single(e) => ConditionTreeView::Or(seq![*e, other]),
            _ => ConditionTreeView::Or(seq![self.into_expression(), other]),
        }
    }
}

impl RowView {
    /// The tuple of the columns.
    pub open spec fn of_columns(columns: Seq<ColumnView>) -> RowView {
        RowView { values: Seq::new(columns.len(), |i: int| ExpressionView::column(columns[i])) }
    }

    /// The tuple with one more item.
    pub open spec fn with(self, e: ExpressionView) -> RowView {
        RowView { values: self.values.push(e) }
    }
}

impl ValuesView {
    /// The table with one more row.
    pub open spec fn with(self, row: RowView) -> ValuesView {
        ValuesView { rows: self.rows.push(row) }
    }

    /// True where all rows have as many items as the first.
    pub open spec fn uniform(self) -> bool {
        forall|i: int|
            0 <= i < self.rows.len() ==> (#[trigger] self.rows[i]).values.len()
                == self.rows[0].values.len()
    }

    /// The last item of every row, where every row has one.
    pub open spec fn flattened(self) -> Option<RowView> {
        if forall|i: int| 0 <= i < self.rows.len() ==> (#[trigger] self.rows[i]).values.len() > 0 {
            Some(RowView { values: Seq::new(self.rows.len(), |i: int| self.rows[i].values.last()) })
        } else {
            None
        }
    }
}

impl SelectView {
    /// The select of nothing from nowhere.
    pub open spec fn empty() -> SelectView {
        SelectView {
            distinct: false,
            tables: Seq::empty(),
            columns: Seq::empty(),
            conditions: None,
            ordering: Seq::empty(),
            grouping: Seq::empty(),
            having: None,
            limit: None,
            offset: None,
            joins: Seq::empty(),
            ctes: Seq::empty(),
        }
    }

    /// The select from a table.
    pub open spec fn from_table(table: TableView) -> SelectView {
        SelectView { tables: seq![table], ..SelectView::empty() }
    }

    /// The select from one more table.
    pub open spec fn and_from(self, table: TableView) -> SelectView {
        SelectView { tables: self.tables.push(table), ..self }
    }

    /// The select of one more expression.
    pub open spec fn value(self, e: ExpressionView) -> SelectView {
        SelectView { columns: self.columns.push(e), ..self }
    }

    /// The select of one more column.
    pub open spec fn column(self, c: ColumnView) -> SelectView {
        self.value(ExpressionView::column(c))
    }

    /// The select of the given columns only.
    pub open spec fn columns(self, cs: Seq<ColumnView>) -> SelectView {
        SelectView { columns: RowView::of_columns(cs).values, ..self }
    }

    /// The select of distinct rows.
    pub open spec fn distinct(self) -> SelectView {
        SelectView { distinct: true, ..self }
    }

    /// The select with the given condition.
    pub open spec fn so_that(self, conditions: ConditionTreeView) -> SelectView {
        SelectView { conditions: Some(conditions), ..self }
    }

    /// The select with one more condition joined by `AND`.
    pub open spec fn and_where(self, conditions: ConditionTreeView) -> SelectView {
        match self.conditions {
            Some(previous) => self.so_that(previous.and(conditions.into_expression())),
            None => self.so_that(conditions),
        }
    }

    /// The select with one more condition joined by `OR`.
    pub open spec fn or_where(self, conditions: ConditionTreeView) -> SelectView {
        match self.conditions {
            Some(previous) => self.so_that(previous.or(conditions.into_expression())),
            None => self.so_that(conditions),
        }
    }

    /// The select with one more join.
    pub open spec fn join(self, join: JoinView) -> SelectView {
        SelectView { joins: self.joins.push(join), ..self }
    }

    /// The select with one more ordering.
    pub open spec fn order_by(self, definition: OrderDefinitionView) -> SelectView {
        SelectView { ordering: self.ordering.push(definition), ..self }
    }

    /// The select with one more grouping.
    pub open spec fn group_by(self, e: ExpressionView) -> SelectView {
        SelectView { grouping: self.grouping.push(e), ..self }
    }

    /// The select with the given condition on its groups.
    pub open spec fn having(self, conditions: ConditionTreeView) -> SelectView {
        SelectView { having: Some(conditions), ..self }
    }

    /// The select of at most `limit` rows.
    pub open spec fn limit(self, limit: int) -> SelectView {
        SelectView { limit: Some(ValueView::I64(Some(limit as i64))), ..self }
    }

    /// The select without its first `offset` rows.
    pub open spec fn offset(self, offset: int) -> SelectView {
        SelectView { offset: Some(ValueView::I64(Some(offset as i64))), ..self }
    }

    /// The select with one more common table expression.
    pub open spec fn with(self, cte: CommonTableExpressionView) -> SelectView {
        SelectView { ctes: self.ctes.push(cte), ..self }
    }

    /// The select as a common table expression.
    pub open spec fn into_cte(self, identifier: Seq<char>) -> CommonTableExpressionView {
        CommonTableExpressionView {
            identifier,
            columns: Seq::empty(),
            selection: SelectQueryView::Select(Box::new(self)),
        }
    }
}

impl SelectQueryView {
    /// The selection as a common table expression.
    pub open spec fn into_cte(self, identifier: Seq<char>) -> CommonTableExpressionView {
        CommonTableExpressionView { identifier, columns: Seq::empty(), selection: self }
    }

    /// The selection as a statement.
    pub open spec fn into_query(self) -> QueryView {
        match self {
            SelectQueryView::Select(s) => QueryView::Select(s),
            SelectQueryView::Union(u) => QueryView::Union(u),
        }
    }
}

impl UnionView {
    /// The union of one select.
    pub open spec fn of(select: SelectView) -> UnionView {
        UnionView { selects: seq![select], types: Seq::empty(), ctes: Seq::empty() }
    }

    /// The union with one more select.
    pub open spec fn united(self, how: UnionType, select: SelectView) -> UnionView {
        UnionView { selects: self.selects.push(select), types: self.types.push(how), ..self }
    }
}

impl SingleRowInsertView {
    /// The insert of one empty row.
    pub open spec fn into(table: Option<TableView>) -> SingleRowInsertView {
        SingleRowInsertView {
            table,
            columns: Seq::empty(),
            values: RowView { values: Seq::empty() },
        }
    }

    /// The insert with one more column and its value.
    pub open spec fn value(self, column: ColumnView, e: ExpressionView) -> SingleRowInsertView {
        SingleRowInsertView {
            columns: self.columns.push(column),
            values: self.values.with(e),
            ..self
        }
    }

    /// The insert statement.
    pub open spec fn build(self) -> InsertView {
        InsertView {
            table: self.table,
            columns: self.columns,
            values: ExpressionView::row(self.values),
            on_conflict: None,
            returning: None,
        }
    }
}

impl MultiRowInsertView {
    /// The insert of no rows yet.
    pub open spec fn into(table: Option<TableView>, columns: Seq<ColumnView>) -> MultiRowInsertView {
        MultiRowInsertView { table, columns, values: Seq::empty() }
    }

    /// The insert with one more row.
    pub open spec fn values(self, row: RowView) -> MultiRowInsertView {
        MultiRowInsertView { values: self.values.push(row), ..self }
    }

    /// The insert statement.
    pub open spec fn build(self) -> InsertView {
        InsertView {
            table: self.table,
            columns: self.columns,
            values: ExpressionView::values(ValuesView { rows: self.values }),
            on_conflict: None,
            returning: None,
        }
    }
}

impl InsertView {
    /// The insert of what an expression yields.
    pub open spec fn expression_into(
        table: TableView,
        columns: Seq<ColumnView>,
        e: ExpressionView,
    ) -> InsertView {
        InsertView { table: Some(table), columns, values: e, on_conflict: None, returning: None }
    }

    /// The insert with a conflict policy.
    pub open spec fn on_conflict(self, policy: OnConflict) -> InsertView {
        InsertView { on_conflict: Some(policy), ..self }
    }

    /// The insert that returns columns.
    pub open spec fn returning(self, columns: Seq<ColumnView>) -> InsertView {
        InsertView { returning: Some(columns), ..self }
    }
}

impl UpdateView {
    /// The update of a table, without assignments.
    pub open spec fn table(table: TableView) -> UpdateView {
        UpdateView { table, columns: Seq::empty(), values: Seq::empty(), conditions: None }
    }

    /// The update with one more assignment.
    pub open spec fn set(self, column: ColumnView, e: ExpressionView) -> UpdateView {
        UpdateView { columns: self.columns.push(column), values: self.values.push(e), ..self }
    }

    /// The update with the given condition.
    pub open spec fn so_that(self, conditions: ConditionTreeView) -> UpdateView {
        UpdateView { conditions: Some(conditions), ..self }
    }
}

impl DeleteView {
    /// The deletion of all rows of a table.
    pub open spec fn from_table(table: TableView) -> DeleteView {
        DeleteView { table, conditions: None }
    }

    /// The deletion with the given condition.
    pub open spec fn so_that(self, conditions: ConditionTreeView) -> DeleteView {
        DeleteView { conditions: Some(conditions), ..self }
    }
}

impl UsingView {
    /// The source of a merge, not yet joined to its target.
    pub open spec fn of(base_query: QueryView, as_table: TableView, columns: Seq<ColumnView>) -> UsingView {
        UsingView { base_query, columns, as_table, on_conditions: ConditionTreeView::NoCondition }
    }

    /// The source joined to its target on a condition.
    pub open spec fn on(self, conditions: ConditionTreeView) -> UsingView {
        UsingView { on_conditions: conditions, ..self }
    }
}

impl MergeView {
    /// The merge into a table from a source.
    pub open spec fn of(table: TableView, using: UsingView) -> MergeView {
        MergeView { table, using, when_not_matched: None, returning: None }
    }

    /// The merge that runs a query for what does not match.
    pub open spec fn when_not_matched(self, query: QueryView) -> MergeView {
        MergeView { when_not_matched: Some(query), ..self }
    }

    /// The merge that returns columns.
    pub open spec fn returning(self, columns: Seq<ColumnView>) -> MergeView {
        MergeView { returning: Some(columns), ..self }
    }
}

impl FunctionView {
    /// The function call of a type, without an alias.
    pub open spec fn of(typ_: FunctionTypeView) -> FunctionView {
        FunctionView { typ_, alias: None }
    }

    /// The function call under an alias.
    pub open spec fn aliased(self, alias: Seq<char>) -> FunctionView {
        FunctionView { alias: Some(alias), ..self }
    }
}

} // verus!

verus! {

impl SelectView {
    /// The select as a statement.
    pub open spec fn into_statement(self) -> QueryView {
        QueryView::Select(Box::new(self))
    }
}

impl InsertView {
    /// The insert as a statement.
    pub open spec fn into_statement(self) -> QueryView {
        QueryView::Insert(Box::new(self))
    }
}

impl UpdateView {
    /// The update as a statement.
    pub open spec fn into_statement(self) -> QueryView {
        QueryView::Update(Box::new(self))
    }
}

impl DeleteView {
    /// The deletion as a statement.
    pub open spec fn into_statement(self) -> QueryView {
        QueryView::Delete(Box::new(self))
    }
}

} // verus!
