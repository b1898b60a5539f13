//! The builders of statements and functions.

use vstd::prelude::*;
use crate::ast::model::{
    ColumnView,
    CommonTableExpressionView,
    CompareView,
    ConditionTreeView,
    DefaultValueView,
    DeleteView,
    ExpressionKindView,
    ExpressionView,
    FunctionTypeView,
    FunctionView,
    IndexDefinitionView,
    InsertView,
    JoinDataView,
    JoinView,
    JsonExtractView,
    JsonPathView,
    MergeView,
    MultiRowInsertView,
    OrderDefinitionView,
    OverView,
    QueryView,
    RowToJsonView,
    RowView,
    SelectQueryView,
    SelectView,
    SingleRowInsertView,
    TableTypeView,
    TableView,
    TextSearchView,
    UnionView,
    UpdateView,
    UsingView,
    ValuesView,
};
use crate::ast::node::{
    Column,
    CommonTableExpression,
    Compare,
    Comparison,
    ConditionTree,
    DefaultValue,
    Delete,
    Expression,
    ExpressionKind,
    Function,
    FunctionType,
    IndexDefinition,
    Insert,
    Join,
    JoinData,
    JsonArrayTest,
    JsonExtract,
    JsonPath,
    JsonType,
    Merge,
    MultiRowInsert,
    OnConflict,
    Operator,
    Order,
    OrderDefinition,
    Over,
    Pattern,
    Query,
    Row,
    RowToJson,
    Select,
    SelectQuery,
    SingleRowInsert,
    Table,
    TableType,
    TextSearch,
    TypeFamily,
    Union,
    UnionType,
    Update,
    Using,
    Values,
};
use crate::ast::builder::{
    expressions_of_columns,
    push_column,
    push_common_table_expression,
    push_expression,
    push_join,
    push_order_definition,
    push_row,
    push_select,
    push_table,
};
use crate::ast::value::{Value, ValueView};
use crate::ast::view::{
    column_views,
    common_table_expression_views,
    expression_views,
    index_definition_views,
    join_views,
    order_definition_views,
    row_views,
    select_views,
    string_views,
    table_views,
};

verus! {

broadcast use {vstd::seq::group_seq_axioms, vstd::std_specs::vec::group_vec_axioms};

impl Select {
    /// The select of nothing from nowhere.
    pub fn default() -> (s: Select)
        ensures
            s@ == SelectView::empty(),
    {
        let s = Select {
            distinct: false,
            tables: Vec::new(),
            columns: Vec::new(),
            conditions: None,
            ordering: Vec::new(),
            grouping: Vec::new(),
            having: None,
            limit: None,
            offset: None,
            joins: Vec::new(),
            ctes: Vec::new(),
        };
        assert(table_views(s.tables@) =~= Seq::empty());
        assert(expression_views(s.columns@) =~= Seq::empty());
        assert(order_definition_views(s.ordering@) =~= Seq::empty());
        assert(expression_views(s.grouping@) =~= Seq::empty());
        assert(join_views(s.joins@) =~= Seq::empty());
        assert(common_table_expression_views(s.ctes@) =~= Seq::empty());
        s
    }

    /// The select from a table.
    pub fn from_table(table: Table) -> (s: Select)
        ensures
            s@ == SelectView::from_table(table@),
    {
        let mut s = Select::default();
        push_table(&mut s.tables, table);
        assert(s@.tables =~= seq![table@]);
        s
    }

    /// Adds a table to select from.
    pub fn and_from(self, table: Table) -> (s: Select)
        ensures
            s@ == self@.and_from(table@),
    {
        let mut s = self;
        push_table(&mut s.tables, table);
        s
    }

    /// Adds an expression to the projection.
    pub fn value(self, e: Expression) -> (s: Select)
        ensures
            s@ == self@.value(e@),
    {
        let mut s = self;
        push_expression(&mut s.columns, e);
        s
    }

    /// Adds a column to the projection.
    pub fn column(self, c: Column) -> (s: Select)
        ensures
            s@ == self@.column(c@),
    {
        self.value(Expression::column(c))
    }

    /// Makes the projection the given columns.
    pub fn columns(self, cs: Vec<Column>) -> (s: Select)
        ensures
            s@ == self@.columns(column_views(cs@)),
    {
        let mut s = self;
        s.columns = expressions_of_columns(cs);
        s
    }

    /// Selects distinct rows only.
    pub fn distinct(self) -> (s: Select)
        ensures
            s@ == self@.distinct(),
    {
        let mut s = self;
        s.distinct = true;
        s
    }

    /// Sets the `WHERE` condition.
    pub fn so_that(self, conditions: ConditionTree) -> (s: Select)
        ensures
            s@ == self@.so_that(conditions@),
    {
        let mut s = self;
        s.conditions = Some(conditions);
        s
    }

    /// Adds a `WHERE` condition joined by `AND`.
    pub fn and_where(self, conditions: ConditionTree) -> (s: Select)
        ensures
            s@ == self@.and_where(conditions@),
    {
        let mut s = self;
        let previous = s.conditions.take();
        assert(s@ == (SelectView { conditions: None, ..self@ }));
        match previous {
            Some(previous) => {
                s.conditions = Some(previous.and(Expression::tree(conditions)));
            },
            None => {
                s.conditions = Some(conditions);
            },
        }
        s
    }

    /// Adds a `WHERE` condition joined by `OR`.
    pub fn or_where(self, conditions: ConditionTree) -> (s: Select)
        ensures
            s@ == self@.or_where(conditions@),
    {
        let mut s = self;
        let previous = s.conditions.take();
        assert(s@ == (SelectView { conditions: None, ..self@ }));
        match previous {
            Some(previous) => {
                s.conditions = Some(previous.or(Expression::tree(conditions)));
            },
            None => {
                s.conditions = Some(conditions);
            },
        }
        s
    }

    /// Adds an `INNER JOIN`.
    pub fn inner_join(self, join: JoinData) -> (s: Select)
        ensures
            s@ == self@.join(JoinView::Inner(join@)),
    {
        let mut s = self;
        push_join(&mut s.joins, Join::Inner(join));
        s
    }

    /// Adds a `LEFT JOIN`.
    pub fn left_join(self, join: JoinData) -> (s: Select)
        ensures
            s@ == self@.join(JoinView::Left(join@)),
    {
        let mut s = self;
        push_join(&mut s.joins, Join::Left(join));
        s
    }

    /// Adds a `RIGHT JOIN`.
    pub fn right_join(self, join: JoinData) -> (s: Select)
        ensures
            s@ == self@.join(JoinView::Right(join@)),
    {
        let mut s = self;
        push_join(&mut s.joins, Join::Right(join));
        s
    }

    /// Adds a `FULL JOIN`.
    pub fn full_join(self, join: JoinData) -> (s: Select)
        ensures
            s@ == self@.join(JoinView::Full(join@)),
    {
        let mut s = self;
        push_join(&mut s.joins, Join::Full(join));
        s
    }

    /// Adds an ordering.
    pub fn order_by(self, definition: OrderDefinition) -> (s: Select)
        ensures
            s@ == self@.order_by(definition@),
    {
        let mut s = self;
        push_order_definition(&mut s.ordering, definition);
        s
    }

    /// Adds a grouping.
    pub fn group_by(self, e: Expression) -> (s: Select)
        ensures
            s@ == self@.group_by(e@),
    {
        let mut s = self;
        push_expression(&mut s.grouping, e);
        s
    }

    /// Sets the `HAVING` condition.
    pub fn having(self, conditions: ConditionTree) -> (s: Select)
        ensures
            s@ == self@.having(conditions@),
    {
        let mut s = self;
        s.having = Some(conditions);
        s
    }

    /// Sets the greatest number of rows to select.
    pub fn limit(self, limit: usize) -> (s: Select)
        requires
            limit <= i64::MAX,
        ensures
            s@ == self@.limit(limit as int),
    {
        let mut s = self;
        s.limit = Some(Value::I64(Some(limit as i64)));
        s
    }

    /// Sets the number of rows to leave out.
    pub fn offset(self, offset: usize) -> (s: Select)
        requires
            offset <= i64::MAX,
        ensures
            s@ == self@.offset(offset as int),
    {
        let mut s = self;
        s.offset = Some(Value::I64(Some(offset as i64)));
        s
    }

    /// Adds a common table expression.
    pub fn with(self, cte: CommonTableExpression) -> (s: Select)
        ensures
            s@ == self@.with(cte@),
    {
        let mut s = self;
        push_common_table_expression(&mut s.ctes, cte);
        s
    }

    /// The select as a common table expression.
    pub fn into_cte(self, identifier: &str) -> (c: CommonTableExpression)
        ensures
            c@ == self@.into_cte(identifier@),
    {
        let c = CommonTableExpression {
            identifier: String::from_str(identifier),
            columns: Vec::new(),
            selection: SelectQuery::Select(Box::new(self)),
        };
        assert(string_views(c.columns@) =~= Seq::empty());
        c
    }

    /// The select as a statement.
    pub fn into_query(self) -> (q: Query)
        ensures
            q@ == QueryView::Select(Box::new(self@)),
    {
        Query::Select(Box::new(self))
    }
}

impl SelectQuery {
    /// The selection as a common table expression.
    pub fn into_cte(self, identifier: &str) -> (c: CommonTableExpression)
        ensures
            c@ == self@.into_cte(identifier@),
    {
        let c = CommonTableExpression {
            identifier: String::from_str(identifier),
            columns: Vec::new(),
            selection: self,
        };
        assert(string_views(c.columns@) =~= Seq::empty());
        c
    }

    /// The selection as a statement.
    pub fn into_query(self) -> (q: Query)
        ensures
            q@ == self@.into_query(),
    {
        match self {
            SelectQuery::Select(s) => Query::Select(s),
            SelectQuery::Union(u) => Query::Union(u),
        }
    }
}

impl Union {
    /// The union of one select.
    pub fn new(select: Select) -> (u: Union)
        ensures
            u@ == UnionView::of(select@),
    {
        let mut u = Union { selects: Vec::new(), types: Vec::new(), ctes: Vec::new() };
        assert(select_views(u.selects@) =~= Seq::empty());
        assert(common_table_expression_views(u.ctes@) =~= Seq::empty());
        push_select(&mut u.selects, select);
        assert(u@.selects =~= seq![select@]);
        assert(u@.types =~= Seq::empty());
        u
    }

    /// Adds a select united in the given way.
    pub fn unite(self, how: UnionType, select: Select) -> (u: Union)
        ensures
            u@ == self@.united(how, select@),
    {
        let mut u = self;
        push_select(&mut u.selects, select);
        u.types.push(how);
        u
    }

    /// Adds a select by `UNION ALL`.
    pub fn all(self, select: Select) -> (u: Union)
        ensures
            u@ == self@.united(UnionType::All, select@),
    {
        self.unite(UnionType::All, select)
    }

    /// Adds a select by `UNION`.
    pub fn distinct(self, select: Select) -> (u: Union)
        ensures
            u@ == self@.united(UnionType::Distinct, select@),
    {
        self.unite(UnionType::Distinct, select)
    }

    /// The union as a statement.
    pub fn into_query(self) -> (q: Query)
        ensures
            q@ == QueryView::Union(Box::new(self@)),
    {
        Query::Union(Box::new(self))
    }
}

impl SingleRowInsert {
    /// Adds a column and its value.
    pub fn value(self, column: Column, e: Expression) -> (i: SingleRowInsert)
        ensures
            i@ == self@.value(column@, e@),
    {
        let mut i = self;
        push_column(&mut i.columns, column);
        i.values.push(e);
        i
    }

    /// The insert statement.
    pub fn build(self) -> (i: Insert)
        ensures
            i@ == self@.build(),
    {
        Insert {
            table: self.table,
            columns: self.columns,
            values: Expression::row(self.values),
            on_conflict: None,
            returning: None,
        }
    }
}

impl MultiRowInsert {
    /// Adds a row.
    pub fn values(self, row: Row) -> (i: MultiRowInsert)
        ensures
            i@ == self@.values(row@),
    {
        let mut i = self;
        push_row(&mut i.values, row);
        i
    }

    /// The insert statement.
    pub fn build(self) -> (i: Insert)
        ensures
            i@ == self@.build(),
    {
        Insert {
            table: self.table,
            columns: self.columns,
            values: Expression::values(Values::new(self.values)),
            on_conflict: None,
            returning: None,
        }
    }
}

impl Insert {
    /// The insert of one row into a table.
    pub fn single_into(table: Table) -> (i: SingleRowInsert)
        ensures
            i@ == SingleRowInsertView::into(Some(table@)),
    {
        let i = SingleRowInsert { table: Some(table), columns: Vec::new(), values: Row::new() };
        assert(column_views(i.columns@) =~= Seq::empty());
        assert(i@.values.values =~= Seq::empty());
        i
    }

    /// The insert of one row, without a table.
    pub fn single() -> (i: SingleRowInsert)
        ensures
            i@ == SingleRowInsertView::into(None),
    {
        let i = SingleRowInsert { table: None, columns: Vec::new(), values: Row::new() };
        assert(column_views(i.columns@) =~= Seq::empty());
        assert(i@.values.values =~= Seq::empty());
        i
    }

    /// The insert of several rows into the columns of a table.
    pub fn multi_into(table: Table, columns: Vec<Column>) -> (i: MultiRowInsert)
        ensures
            i@ == MultiRowInsertView::into(Some(table@), column_views(columns@)),
    {
        let i = MultiRowInsert { table: Some(table), columns, values: Vec::new() };
        assert(row_views(i.values@) =~= Seq::empty());
        i
    }

    /// The insert of several rows into columns, without a table.
    pub fn multi(columns: Vec<Column>) -> (i: MultiRowInsert)
        ensures
            i@ == MultiRowInsertView::into(None, column_views(columns@)),
    {
        let i = MultiRowInsert { table: None, columns, values: Vec::new() };
        assert(row_views(i.values@) =~= Seq::empty());
        i
    }

    /// The insert of what an expression yields.
    pub fn expression_into(table: Table, columns: Vec<Column>, e: Expression) -> (i: Insert)
        ensures
            i@ == InsertView::expression_into(table@, column_views(columns@), e@),
    {
        Insert { table: Some(table), columns, values: e, on_conflict: None, returning: None }
    }

    /// Sets what happens with a conflicting row.
    pub fn on_conflict(self, policy: OnConflict) -> (i: Insert)
        ensures
            i@ == self@.on_conflict(policy),
    {
        let mut i = self;
        i.on_conflict = Some(policy);
        i
    }

    /// Sets the columns that the insert returns.
    pub fn returning(self, columns: Vec<Column>) -> (i: Insert)
        ensures
            i@ == self@.returning(column_views(columns@)),
    {
        let mut i = self;
        i.returning = Some(columns);
        i
    }

    /// The insert as a statement.
    pub fn into_query(self) -> (q: Query)
        ensures
            q@ == QueryView::Insert(Box::new(self@)),
    {
        Query::Insert(Box::new(self))
    }
}

impl Update {
    /// Creates the basis for an `UPDATE` statement to the given table.
    pub fn table(table: Table) -> (u: Update)
        ensures
            u@ == UpdateView::table(table@),
    {
        let u = Update { table, columns: Vec::new(), values: Vec::new(), conditions: None };
        assert(column_views(u.columns@) =~= Seq::empty());
        assert(expression_views(u.values@) =~= Seq::empty());
        u
    }

    /// Add another column value assignment to the query.
    pub fn set(self, column: Column, value: Expression) -> (u: Update)
        ensures
            u@ == self@.set(column@, value@),
    {
        let mut u = self;
        push_column(&mut u.columns, column);
        push_expression(&mut u.values, value);
        u
    }

    /// Adds `WHERE` conditions to the query.
    pub fn so_that(self, conditions: ConditionTree) -> (u: Update)
        ensures
            u@ == self@.so_that(conditions@),
    {
        let mut u = self;
        u.conditions = Some(conditions);
        u
    }

    /// The update as a statement.
    pub fn into_query(self) -> (q: Query)
        ensures
            q@ == QueryView::Update(Box::new(self@)),
    {
        Query::Update(Box::new(self))
    }
}

impl Delete {
    /// The deletion of all rows of a table.
    pub fn from_table(table: Table) -> (d: Delete)
        ensures
            d@ == DeleteView::from_table(table@),
    {
        Delete { table, conditions: None }
    }

    /// Adds `WHERE` conditions to the query.
    pub fn so_that(self, conditions: ConditionTree) -> (d: Delete)
        ensures
            d@ == self@.so_that(conditions@),
    {
        let mut d = self;
        d.conditions = Some(conditions);
        d
    }

    /// The deletion as a statement.
    pub fn into_query(self) -> (q: Query)
        ensures
            q@ == QueryView::Delete(Box::new(self@)),
    {
        Query::Delete(Box::new(self))
    }
}

impl Using {
    /// The source of a merge, not yet joined to its target.
    pub fn new(base_query: Query, as_table: Table, columns: Vec<Column>) -> (u: Using)
        ensures
            u@ == UsingView::of(base_query@, as_table@, column_views(columns@)),
    {
        Using { base_query, columns, as_table, on_conditions: ConditionTree::NoCondition }
    }

    /// Sets the condition that joins the source to its target.
    pub fn on(self, conditions: ConditionTree) -> (u: Using)
        ensures
            u@ == self@.on(conditions@),
    {
        let mut u = self;
        u.on_conditions = conditions;
        u
    }
}

impl Query {
    /// The query as the source of a merge, under a table name.
    pub fn into_using(self, alias: Table, columns: Vec<Column>) -> (u: Using)
        ensures
            u@ == UsingView::of(self@, alias@, column_views(columns@)),
    {
        Using::new(self, alias, columns)
    }

    /// A statement given as text.
    pub fn raw(text: &str) -> (q: Query)
        ensures
            q@ == QueryView::Raw(text@),
    {
        Query::Raw(String::from_str(text))
    }
}

impl Merge {
    /// The merge into a table from a source.
    pub fn new(table: Table, using: Using) -> (m: Merge)
        ensures
            m@ == MergeView::of(table@, using@),
    {
        Merge { table, using, when_not_matched: None, returning: None }
    }

    /// Sets the query that runs for what does not match.
    pub fn when_not_matched(self, query: Query) -> (m: Merge)
        ensures
            m@ == self@.when_not_matched(query@),
    {
        let mut m = self;
        m.when_not_matched = Some(query);
        m
    }

    /// Sets the columns that the merge returns.
    pub fn returning(self, columns: Vec<Column>) -> (m: Merge)
        ensures
            m@ == self@.returning(column_views(columns@)),
    {
        let mut m = self;
        m.returning = Some(columns);
        m
    }

    /// The merge as a statement.
    pub fn into_query(self) -> (q: Query)
        ensures
            q@ == QueryView::Merge(Box::new(self@)),
    {
        Query::Merge(Box::new(self))
    }
}

impl JsonPath {
    /// A JSON path in string notation.
    pub fn string(string: &str) -> (p: JsonPath)
        ensures
            p@ == JsonPathView::String(string@),
    {
        JsonPath::String(String::from_str(string))
    }

    /// A path as a list of keys.
    pub fn array(array: Vec<String>) -> (p: JsonPath)
        ensures
            p@ == JsonPathView::Array(string_views(array@)),
    {
        JsonPath::Array(array)
    }
}

impl Function {
    /// The function call of a type, without an alias.
    pub fn new(typ_: FunctionType) -> (f: Function)
        ensures
            f@ == FunctionView::of(typ_@),
    {
        Function { typ_, alias: None }
    }

    /// The function call under an alias.
    pub fn alias(self, alias: &str) -> (f: Function)
        ensures
            f@ == self@.aliased(alias@),
    {
        let mut f = self;
        f.alias = Some(String::from_str(alias));
        f
    }

    /// The function call as an expression.
    pub fn into_expression(self) -> (e: Expression)
        ensures
            e@ == ExpressionView::function(self@),
    {
        Expression::function(self)
    }
}

/// Extracts a subset of a JSON blob given a path.
///
/// A path in string notation is read by MySQL only, a path as a list of
/// keys by PostgreSQL only.
pub fn json_extract(column: Expression, path: JsonPath, extract_as_string: bool) -> (f: Function)
    ensures
        f@ == FunctionView::of(
            FunctionTypeView::JsonExtract(
                JsonExtractView { column: Box::new(column@), path: path@, extract_as_string },
            ),
        ),
{
    Function::new(
        FunctionType::JsonExtract(JsonExtract { column: Box::new(column), path, extract_as_string }),
    )
}

/// Return the given table in `JSON` format. Only PostgreSQL has it.
pub fn row_to_json(expr: Table, pretty_print: bool) -> (f: Function)
    ensures
        f@ == FunctionView::of(
            FunctionTypeView::RowToJson(RowToJsonView { expr: expr@, pretty_print }),
        ),
{
    Function::new(FunctionType::RowToJson(RowToJson { expr, pretty_print }))
}

/// Performs a full-text search. Use it in combination with `matches`.
pub fn text_search(columns: Vec<Column>) -> (f: Function)
    ensures
        f@ == FunctionView::of(
            FunctionTypeView::TextSearch(TextSearchView { columns: column_views(columns@) }),
        ),
{
    Function::new(FunctionType::TextSearch(TextSearch { columns }))
}

/// `COUNT` of the expressions; `COUNT(*)` without any.
pub fn count(exprs: Vec<Expression>) -> (f: Function)
    ensures
        f@ == FunctionView::of(FunctionTypeView::Count(expression_views(exprs@))),
{
    Function::new(FunctionType::Count(exprs))
}

/// `COALESCE` of the expressions.
pub fn coalesce(exprs: Vec<Expression>) -> (f: Function)
    ensures
        f@ == FunctionView::of(FunctionTypeView::Coalesce(expression_views(exprs@))),
{
    Function::new(FunctionType::Coalesce(exprs))
}

/// The values of the expression joined into one string.
pub fn aggregate_to_string(expr: Expression) -> (f: Function)
    ensures
        f@ == FunctionView::of(FunctionTypeView::AggregateToString(Box::new(expr@))),
{
    Function::new(FunctionType::AggregateToString(Box::new(expr)))
}

/// `SUM` of the expression.
pub fn sum(expr: Expression) -> (f: Function)
    ensures
        f@ == FunctionView::of(FunctionTypeView::Sum(Box::new(expr@))),
{
    Function::new(FunctionType::Sum(Box::new(expr)))
}

/// `LOWER` of the expression.
pub fn lower(expr: Expression) -> (f: Function)
    ensures
        f@ == FunctionView::of(FunctionTypeView::Lower(Box::new(expr@))),
{
    Function::new(FunctionType::Lower(Box::new(expr)))
}

/// `UPPER` of the expression.
pub fn upper(expr: Expression) -> (f: Function)
    ensures
        f@ == FunctionView::of(FunctionTypeView::Upper(Box::new(expr@))),
{
    Function::new(FunctionType::Upper(Box::new(expr)))
}

/// `AVG` of the column.
pub fn avg(column: Column) -> (f: Function)
    ensures
        f@ == FunctionView::of(FunctionTypeView::Average(column@)),
{
    Function::new(FunctionType::Average(column))
}

/// `MIN` of the column.
pub fn min(column: Column) -> (f: Function)
    ensures
        f@ == FunctionView::of(FunctionTypeView::Minimum(column@)),
{
    Function::new(FunctionType::Minimum(column))
}

/// `MAX` of the column.
pub fn max(column: Column) -> (f: Function)
    ensures
        f@ == FunctionView::of(FunctionTypeView::Maximum(column@)),
{
    Function::new(FunctionType::Maximum(column))
}

/// `ROW_NUMBER()` over a window.
pub fn row_number(over: Over) -> (f: Function)
    ensures
        f@ == FunctionView::of(FunctionTypeView::RowNumber(over@)),
{
    Function::new(FunctionType::RowNumber(over))
}

impl Over {
    /// The window without partitions or order.
    pub fn new() -> (o: Over)
        ensures
            o@ == (OverView { ordering: Seq::empty(), partitioning: Seq::empty() }),
    {
        let o = Over { ordering: Vec::new(), partitioning: Vec::new() };
        assert(order_definition_views(o.ordering@) =~= Seq::empty());
        assert(column_views(o.partitioning@) =~= Seq::empty());
        o
    }

    /// Adds an ordering.
    pub fn order_by(self, definition: OrderDefinition) -> (o: Over)
        ensures
            o@ == (OverView { ordering: self@.ordering.push(definition@), ..self@ }),
    {
        let mut o = self;
        push_order_definition(&mut o.ordering, definition);
        o
    }

    /// Adds a column to partition by.
    pub fn partition_by(self, column: Column) -> (o: Over)
        ensures
            o@ == (OverView { partitioning: self@.partitioning.push(column@), ..self@ }),
    {
        let mut o = self;
        push_column(&mut o.partitioning, column);
        o
    }
}

} // verus!
