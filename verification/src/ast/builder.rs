//! The builders of the syntax tree.

use vstd::prelude::*;
use crate::ast::model::{
    ColumnView,
    CommonTableExpressionView,
    CompareView,
    ConditionTreeView,
    DefaultValueView,
    DeleteView,
    ExpressionKindView,
    ExpressionView,
    FunctionTypeView,
    FunctionView,
    IndexDefinitionView,
    InsertView,
    JoinDataView,
    JoinView,
    JsonExtractView,
    JsonPathView,
    MergeView,
    MultiRowInsertView,
    OrderDefinitionView,
    OverView,
    QueryView,
    RowToJsonView,
    RowView,
    SelectQueryView,
    SelectView,
    SingleRowInsertView,
    TableTypeView,
    TableView,
    TextSearchView,
    UnionView,
    UpdateView,
    UsingView,
    ValuesView,
};
use crate::ast::node::{
    Column,
    CommonTableExpression,
    Compare,
    Comparison,
    ConditionTree,
    DefaultValue,
    Delete,
    Expression,
    ExpressionKind,
    Function,
    FunctionType,
    IndexDefinition,
    Insert,
    Join,
    JoinData,
    JsonArrayTest,
    JsonExtract,
    JsonPath,
    JsonType,
    Merge,
    MultiRowInsert,
    OnConflict,
    Operator,
    Order,
    OrderDefinition,
    Over,
    Pattern,
    Query,
    Row,
    RowToJson,
    Select,
    SelectQuery,
    SingleRowInsert,
    Table,
    TableType,
    TextSearch,
    TypeFamily,
    Union,
    UnionType,
    Update,
    Using,
    Values,
};
use crate::ast::value::{text_view, Raw, Value, ValueView};
use crate::ast::view::{
    column_views,
    common_table_expression_views,
    expression_views,
    index_definition_views,
    join_views,
    order_definition_views,
    row_views,
    select_views,
    string_views,
    table_views,
};

verus! {

broadcast use {vstd::seq::group_seq_axioms, vstd::std_specs::vec::group_vec_axioms};

/// Appends a node; the views follow.
pub fn push_expression(v: &mut Vec<Expression>, item: Expression)
    ensures
        expression_views(final(v)@) == expression_views(old(v)@).push(item@),
{
    v.push(item);
    assert(expression_views(v@) =~= expression_views(old(v)@).push(item@));
}

/// Appends a node; the views follow.
pub fn push_column(v: &mut Vec<Column>, item: Column)
    ensures
        column_views(final(v)@) == column_views(old(v)@).push(item@),
{
    v.push(item);
    assert(column_views(v@) =~= column_views(old(v)@).push(item@));
}

/// Appends a node; the views follow.
pub fn push_table(v: &mut Vec<Table>, item: Table)
    ensures
        table_views(final(v)@) == table_views(old(v)@).push(item@),
{
    v.push(item);
    assert(table_views(v@) =~= table_views(old(v)@).push(item@));
}

/// Appends a node; the views follow.
pub fn push_join(v: &mut Vec<Join>, item: Join)
    ensures
        join_views(final(v)@) == join_views(old(v)@).push(item@),
{
    v.push(item);
    assert(join_views(v@) =~= join_views(old(v)@).push(item@));
}

/// Appends a node; the views follow.
pub fn push_order_definition(v: &mut Vec<OrderDefinition>, item: OrderDefinition)
    ensures
        order_definition_views(final(v)@) == order_definition_views(old(v)@).push(item@),
{
    v.push(item);
    assert(order_definition_views(v@) =~= order_definition_views(old(v)@).push(item@));
}

/// Appends a node; the views follow.
pub fn push_row(v: &mut Vec<Row>, item: Row)
    ensures
        row_views(final(v)@) == row_views(old(v)@).push(item@),
{
    v.push(item);
    assert(row_views(v@) =~= row_views(old(v)@).push(item@));
}

/// Appends a node; the views follow.
pub fn push_select(v: &mut Vec<Select>, item: Select)
    ensures
        select_views(final(v)@) == select_views(old(v)@).push(item@),
{
    v.push(item);
    assert(select_views(v@) =~= select_views(old(v)@).push(item@));
}

/// Appends a node; the views follow.
pub fn push_common_table_expression(v: &mut Vec<CommonTableExpression>, item: CommonTableExpression)
    ensures
        common_table_expression_views(final(v)@) == common_table_expression_views(old(v)@).push(item@),
{
    v.push(item);
    assert(common_table_expression_views(v@) =~= common_table_expression_views(old(v)@).push(item@));
}

/// Appends a node; the views follow.
pub fn push_index_definition(v: &mut Vec<IndexDefinition>, item: IndexDefinition)
    ensures
        index_definition_views(final(v)@) == index_definition_views(old(v)@).push(item@),
{
    v.push(item);
    assert(index_definition_views(v@) =~= index_definition_views(old(v)@).push(item@));
}

/// Appends a string; the views follow.
pub fn push_string(v: &mut Vec<String>, item: String)
    ensures
        string_views(final(v)@) == string_views(old(v)@).push(item@),
{
    v.push(item);
    assert(string_views(v@) =~= string_views(old(v)@).push(item@));
}

/// A vector of one node.
pub fn single_expression(e: Expression) -> (v: Vec<Expression>)
    ensures
        expression_views(v@) == seq![e@],
{
    let mut v: Vec<Expression> = Vec::new();
    v.push(e);
    assert(expression_views(v@) =~= seq![e@]);
    v
}

/// A vector of two nodes.
pub fn pair_of_expressions(a: Expression, b: Expression) -> (v: Vec<Expression>)
    ensures
        expression_views(v@) == seq![a@, b@],
{
    let mut v: Vec<Expression> = Vec::new();
    v.push(a);
    v.push(b);
    assert(expression_views(v@) =~= seq![a@, b@]);
    v
}

/// The columns as expressions, in order.
pub fn expressions_of_columns(columns: Vec<Column>) -> (v: Vec<Expression>)
    ensures
        expression_views(v@) == RowView::of_columns(column_views(columns@)).values,
{
    let mut columns = columns;
    let ghost all = column_views(columns@);
    let mut reversed: Vec<Expression> = Vec::new();
    while columns.len() > 0
        invariant
            columns@.len() + reversed@.len() == all.len(),
            column_views(columns@) == all.take(columns@.len() as int),
            forall|j: int|
                0 <= j < reversed@.len() ==> (#[trigger] reversed@[j])@ == ExpressionView::column(
                    all[all.len() - 1 - j],
                ),
        decreases columns.len(),
    {
        let ghost before = columns@;
        let c = columns.pop().unwrap();
        assert(c@ == column_views(before)[before.len() - 1]);
        assert(column_views(columns@) =~= all.take(columns@.len() as int));
        reversed.push(Expression { kind: ExpressionKind::Column(Box::new(c)), alias: None });
    }
    let mut v: Vec<Expression> = Vec::new();
    while reversed.len() > 0
        invariant
            v@.len() + reversed@.len() == all.len(),
            forall|j: int|
                0 <= j < reversed@.len() ==> (#[trigger] reversed@[j])@ == ExpressionView::column(
                    all[all.len() - 1 - j],
                ),
            forall|j: int| 0 <= j < v@.len() ==> (#[trigger] v@[j])@ == ExpressionView::column(all[j]),
        decreases reversed.len(),
    {
        let e = reversed.pop().unwrap();
        v.push(e);
    }
    assert(expression_views(v@) =~= RowView::of_columns(all).values);
    v
}

impl Table {
    /// The table of the given name.
    pub fn new(name: &str) -> (t: Table)
        ensures
            t@ == TableView::named(name@),
    {
        let t = Table {
            typ: TableType::Table(String::from_str(name)),
            alias: None,
            database: None,
            index_definitions: Vec::new(),
        };
        assert(index_definition_views(t.index_definitions@) =~= Seq::empty());
        t
    }

    /// The table derived from a select.
    pub fn from_select(select: Select) -> (t: Table)
        ensures
            t@ == TableView::of_select(select@),
    {
        let t = Table {
            typ: TableType::Query(Box::new(select)),
            alias: None,
            database: None,
            index_definitions: Vec::new(),
        };
        assert(index_definition_views(t.index_definitions@) =~= Seq::empty());
        t
    }

    /// The in-memory table of the values.
    pub fn from_values(values: Values) -> (t: Table)
        ensures
            t@ == TableView::of_values(values@),
    {
        let t = Table {
            typ: TableType::Values(values),
            alias: None,
            database: None,
            index_definitions: Vec::new(),
        };
        assert(index_definition_views(t.index_definitions@) =~= Seq::empty());
        t
    }

    /// The table under an alias.
    pub fn alias(self, alias: &str) -> (t: Table)
        ensures
            t@ == self@.aliased(alias@),
    {
        let mut t = self;
        t.alias = Some(String::from_str(alias));
        t
    }

    /// The table in a database.
    pub fn database(self, database: &str) -> (t: Table)
        ensures
            t@ == self@.in_database(database@),
    {
        let mut t = self;
        t.database = Some(String::from_str(database));
        t
    }

    /// Adds a unique index; its columns belong to the table as it was
    /// before.
    pub fn add_unique_index(self, index: IndexDefinition) -> (t: Table)
        ensures
            t@ == self@.with_unique_index(index@),
    {
        let owner = self.duplicate();
        let mut t = self;
        push_index_definition(&mut t.index_definitions, index.set_table(owner));
        t
    }

    /// `table.*`
    pub fn asterisk(self) -> (e: Expression)
        ensures
            e@ == ExpressionView::of(ExpressionKindView::Asterisk(Some(Box::new(self@)))),
    {
        Expression { kind: ExpressionKind::Asterisk(Some(Box::new(self))), alias: None }
    }

    /// The table joined on a condition.
    pub fn on(self, conditions: ConditionTree) -> (j: JoinData)
        ensures
            j@ == self@.on(conditions@),
    {
        JoinData { table: self, conditions }
    }

    /// Adds a join to a named table.
    pub fn join(self, join: Join) -> (t: Table)
        requires
            self@.joinable(),
        ensures
            t@ == self@.joined(join@),
    {
        let Table { typ, alias, database, index_definitions } = self;
        let ghost before = typ@;
        let typ = match typ {
            TableType::Table(name) => {
                let mut joins: Vec<Join> = Vec::new();
                joins.push(join);
                assert(join_views(joins@) =~= seq![join@]);
                TableType::JoinedTable(name, joins)
            },
            TableType::JoinedTable(name, joins) => {
                let mut joins = joins;
                push_join(&mut joins, join);
                TableType::JoinedTable(name, joins)
            },
            other => other,
        };
        Table { typ, alias, database, index_definitions }
    }

    /// Adds an `INNER JOIN` to a named table.
    pub fn inner_join(self, join: JoinData) -> (t: Table)
        requires
            self@.joinable(),
        ensures
            t@ == self@.joined(JoinView::Inner(join@)),
    {
        self.join(Join::Inner(join))
    }

    /// Adds a `LEFT JOIN` to a named table.
    pub fn left_join(self, join: JoinData) -> (t: Table)
        requires
            self@.joinable(),
        ensures
            t@ == self@.joined(JoinView::Left(join@)),
    {
        self.join(Join::Left(join))
    }

    /// Adds a `RIGHT JOIN` to a named table.
    pub fn right_join(self, join: JoinData) -> (t: Table)
        requires
            self@.joinable(),
        ensures
            t@ == self@.joined(JoinView::Right(join@)),
    {
        self.join(Join::Right(join))
    }

    /// Adds a `FULL JOIN` to a named table.
    pub fn full_join(self, join: JoinData) -> (t: Table)
        requires
            self@.joinable(),
        ensures
            t@ == self@.joined(JoinView::Full(join@)),
    {
        self.join(Join::Full(join))
    }

    /// Tells whether two tables are the same for the purpose of telling
    /// columns apart.
    pub fn same_as(&self, other: &Table) -> (b: bool)
        ensures
            b == self@.same(other@),
    {
        let databases = match (&self.database, &other.database) {
            (None, None) => true,
            (Some(a), Some(b)) => *a == *b,
            _ => false,
        };
        assert(databases == (self@.database == other@.database));
        if !databases {
            return false;
        }
        match (&self.typ, &other.typ) {
            (TableType::Table(a), TableType::Table(b)) => *a == *b,
            (TableType::JoinedTable(a, _), TableType::JoinedTable(b, _)) => *a == *b,
            _ => false,
        }
    }
}

impl JoinData {
    /// The join of a table without a condition.
    pub fn new(table: Table) -> (j: JoinData)
        ensures
            j@ == (JoinDataView { table: table@, conditions: ConditionTreeView::NoCondition }),
    {
        JoinData { table, conditions: ConditionTree::NoCondition }
    }

    /// Adds a condition: the first one stands alone, the following ones
    /// are joined by `AND`.
    pub fn on(self, conditions: ConditionTree) -> (j: JoinData)
        ensures
            j@ == self@.on(conditions@),
    {
        let JoinData { table, conditions: previous } = self;
        let conditions = match previous {
            ConditionTree::NoCondition => conditions,
            previous => previous.and(Expression::tree(conditions)),
        };
        JoinData { table, conditions }
    }
}

impl IndexDefinition {
    /// The unique index on one column.
    pub fn single(column: Column) -> (i: IndexDefinition)
        ensures
            i@ == IndexDefinitionView::Single(Box::new(column@)),
    {
        IndexDefinition::Single(Box::new(column))
    }

    /// The unique index on several columns.
    pub fn compound(columns: Vec<Column>) -> (i: IndexDefinition)
        ensures
            i@ == IndexDefinitionView::Compound(column_views(columns@)),
    {
        IndexDefinition::Compound(columns)
    }

    /// The index with its columns in the table.
    pub fn set_table(self, table: Table) -> (i: IndexDefinition)
        ensures
            i@ == self@.of_table(table@),
    {
        match self {
            IndexDefinition::Single(column) => IndexDefinition::Single(
                Box::new((*column).table(table)),
            ),
            IndexDefinition::Compound(columns) => {
                let mut out: Vec<Column> = Vec::new();
                let mut i: usize = 0;
                while i < columns.len()
                    invariant
                        i <= columns.len(),
                        out@.len() == i,
                        forall|j: int|
                            0 <= j < i ==> (#[trigger] out@[j])@ == columns@[j]@.of_table(table@),
                    decreases columns.len() - i,
                {
                    let c = columns[i].duplicate().table(table.duplicate());
                    out.push(c);
                    i += 1;
                }
                let r = IndexDefinition::Compound(out);
                assert(r@ == self@.of_table(table@)) by {
                    assert(column_views(out@) =~= Seq::new(
                        column_views(columns@).len(),
                        |i: int| column_views(columns@)[i].of_table(table@),
                    ));
                }
                r
            },
        }
    }
}

impl Column {
    /// The column of the given name, without a table.
    pub fn new(name: &str) -> (c: Column)
        ensures
            c@ == ColumnView::named(name@),
    {
        Column {
            name: String::from_str(name),
            table: None,
            alias: None,
            default: None,
            type_family: None,
        }
    }

    /// The column of the given name in the table of the given name.
    pub fn of(table: &str, name: &str) -> (c: Column)
        ensures
            c@ == ColumnView::named(name@).of_table(TableView::named(table@)),
    {
        Column::new(name).table(Table::new(table))
    }

    /// The column in a table.
    pub fn table(self, table: Table) -> (c: Column)
        ensures
            c@ == self@.of_table(table@),
    {
        let mut c = self;
        c.table = Some(table);
        c
    }

    /// The column under an alias.
    pub fn alias(self, alias: &str) -> (c: Column)
        ensures
            c@ == self@.aliased(alias@),
    {
        let mut c = self;
        c.alias = Some(String::from_str(alias));
        c
    }

    /// The column with a default value.
    pub fn default(self, default: DefaultValue) -> (c: Column)
        ensures
            c@ == self@.with_default(default@),
    {
        let mut c = self;
        c.default = Some(default);
        c
    }

    /// The column with a type family.
    pub fn type_family(self, type_family: TypeFamily) -> (c: Column)
        ensures
            c@ == self@.with_type_family(type_family),
    {
        let mut c = self;
        c.type_family = Some(type_family);
        c
    }

    /// The column with nothing but its name.
    pub fn into_bare(self) -> (c: Column)
        ensures
            c@ == self@.bare(),
    {
        Column { name: self.name, table: None, alias: None, default: None, type_family: None }
    }

    /// The column as an expression.
    pub fn into_expression(self) -> (e: Expression)
        ensures
            e@ == ExpressionView::column(self@),
    {
        Expression { kind: ExpressionKind::Column(Box::new(self)), alias: None }
    }

    /// The column in an ordering without a direction.
    pub fn order(self, order: Option<Order>) -> (o: OrderDefinition)
        ensures
            o@ == ExpressionView::column(self@).ordered(order),
    {
        OrderDefinition { expression: self.into_expression(), order }
    }

    /// The column in ascending order.
    pub fn ascend(self) -> (o: OrderDefinition)
        ensures
            o@ == ExpressionView::column(self@).ordered(Some(Order::Asc)),
    {
        self.order(Some(Order::Asc))
    }

    /// The column in descending order.
    pub fn descend(self) -> (o: OrderDefinition)
        ensures
            o@ == ExpressionView::column(self@).ordered(Some(Order::Desc)),
    {
        self.order(Some(Order::Desc))
    }

    /// Tells whether two columns are the same: one name, and both without
    /// a table or in the same table.
    pub fn same_as(&self, other: &Column) -> (b: bool)
        ensures
            b == self@.same(other@),
    {
        if !(self.name == other.name) {
            return false;
        }
        match (&self.table, &other.table) {
            (None, None) => true,
            (Some(a), Some(b)) => a.same_as(b),
            _ => false,
        }
    }

    /// Tells whether one of the columns is the same as this one.
    pub fn is_among(&self, columns: &Vec<Column>) -> (b: bool)
        ensures
            b == self@.among(column_views(columns@)),
    {
        let mut i: usize = 0;
        while i < columns.len()
            invariant
                i <= columns.len(),
                forall|j: int| 0 <= j < i ==> !self@.same(#[trigger] column_views(columns@)[j]),
            decreases columns.len() - i,
        {
            if self.same_as(&columns[i]) {
                assert(self@.same(column_views(columns@)[i as int]));
                return true;
            }
            i += 1;
        }
        false
    }
}

impl Raw {
    /// The literal as an expression.
    pub fn into_expression(self) -> (e: Expression)
        ensures
            e@ == ExpressionView::raw(self.value@),
    {
        Expression { kind: ExpressionKind::RawValue(self), alias: None }
    }
}

impl Expression {
    /// A value bound as a parameter.
    pub fn value(v: Value) -> (e: Expression)
        ensures
            e@ == ExpressionView::value(v@),
    {
        Expression { kind: ExpressionKind::Parameterized(v), alias: None }
    }

    /// A value written as a literal.
    pub fn raw(v: Value) -> (e: Expression)
        ensures
            e@ == ExpressionView::raw(v@),
    {
        Expression { kind: ExpressionKind::RawValue(Raw { value: v }), alias: None }
    }

    /// A column.
    pub fn column(c: Column) -> (e: Expression)
        ensures
            e@ == ExpressionView::column(c@),
    {
        Expression { kind: ExpressionKind::Column(Box::new(c)), alias: None }
    }

    /// A tuple.
    pub fn row(r: Row) -> (e: Expression)
        ensures
            e@ == ExpressionView::row(r@),
    {
        Expression { kind: ExpressionKind::Row(r), alias: None }
    }

    /// An in-memory table of rows.
    pub fn values(v: Values) -> (e: Expression)
        ensures
            e@ == ExpressionView::values(v@),
    {
        Expression { kind: ExpressionKind::Values(Box::new(v)), alias: None }
    }

    /// A sub-select.
    pub fn select(s: Select) -> (e: Expression)
        ensures
            e@ == ExpressionView::select(s@),
    {
        let query = SelectQuery::Select(Box::new(s));
        assert(query@ == SelectQueryView::Select(Box::new(s@)));
        Expression::selection(query)
    }

    /// A sub-query.
    pub fn selection(s: SelectQuery) -> (e: Expression)
        ensures
            e@ == ExpressionView::selection(s@),
    {
        Expression { kind: ExpressionKind::Selection(s), alias: None }
    }

    /// A function call.
    pub fn function(f: Function) -> (e: Expression)
        ensures
            e@ == ExpressionView::function(f@),
    {
        Expression { kind: ExpressionKind::Function(Box::new(f)), alias: None }
    }

    /// A comparison.
    pub fn comparison(c: Compare) -> (e: Expression)
        ensures
            e@ == ExpressionView::comparison(c@),
    {
        Expression { kind: ExpressionKind::Compare(c), alias: None }
    }

    /// A condition tree.
    pub fn tree(t: ConditionTree) -> (e: Expression)
        ensures
            e@ == ExpressionView::tree(t@),
    {
        Expression { kind: ExpressionKind::ConditionTree(t), alias: None }
    }

    /// `*`
    pub fn asterisk() -> (e: Expression)
        ensures
            e@ == ExpressionView::of(ExpressionKindView::Asterisk(None)),
    {
        Expression { kind: ExpressionKind::Asterisk(None), alias: None }
    }

    /// The keyword `DEFAULT`.
    pub fn default_value() -> (e: Expression)
        ensures
            e@ == ExpressionView::of(ExpressionKindView::Default),
    {
        Expression { kind: ExpressionKind::Default, alias: None }
    }

    /// An arithmetic operation.
    pub fn operation(self, op: Operator, other: Expression) -> (e: Expression)
        ensures
            e@ == ExpressionView::of(ExpressionKindView::Op(Box::new(self@), op, Box::new(other@))),
    {
        Expression { kind: ExpressionKind::Op(Box::new(self), op, Box::new(other)), alias: None }
    }

    /// The expression under an alias.
    pub fn alias(self, alias: &str) -> (e: Expression)
        ensures
            e@ == self@.aliased(alias@),
    {
        let mut e = self;
        e.alias = Some(String::from_str(alias));
        e
    }

    /// The comparison of this expression with another one.
    pub fn compare(self, comparison: Comparison, other: Expression) -> (c: Compare)
        ensures
            c@ == self@.compared(comparison, other@),
    {
        Compare::Binary(Box::new(self), comparison, Box::new(other))
    }

    /// `self = other`
    pub fn equals(self, other: Expression) -> (c: Compare)
        ensures
            c@ == self@.compared(Comparison::Equals, other@),
    {
        self.compare(Comparison::Equals, other)
    }

    /// `self <> other`
    pub fn not_equals(self, other: Expression) -> (c: Compare)
        ensures
            c@ == self@.compared(Comparison::NotEquals, other@),
    {
        self.compare(Comparison::NotEquals, other)
    }

    /// `self < other`
    pub fn less_than(self, other: Expression) -> (c: Compare)
        ensures
            c@ == self@.compared(Comparison::LessThan, other@),
    {
        self.compare(Comparison::LessThan, other)
    }

    /// `self <= other`
    pub fn less_than_or_equals(self, other: Expression) -> (c: Compare)
        ensures
            c@ == self@.compared(Comparison::LessThanOrEquals, other@),
    {
        self.compare(Comparison::LessThanOrEquals, other)
    }

    /// `self > other`
    pub fn greater_than(self, other: Expression) -> (c: Compare)
        ensures
            c@ == self@.compared(Comparison::GreaterThan, other@),
    {
        self.compare(Comparison::GreaterThan, other)
    }

    /// `self >= other`
    pub fn greater_than_or_equals(self, other: Expression) -> (c: Compare)
        ensures
            c@ == self@.compared(Comparison::GreaterThanOrEquals, other@),
    {
        self.compare(Comparison::GreaterThanOrEquals, other)
    }

    /// `self IN other`
    pub fn in_selection(self, other: Expression) -> (c: Compare)
        ensures
            c@ == self@.compared(Comparison::In, other@),
    {
        self.compare(Comparison::In, other)
    }

    /// `self NOT IN other`
    pub fn not_in_selection(self, other: Expression) -> (c: Compare)
        ensures
            c@ == self@.compared(Comparison::NotIn, other@),
    {
        self.compare(Comparison::NotIn, other)
    }

    /// The comparison of this expression with a pattern.
    pub fn pattern(self, pattern: Pattern, text: &str) -> (c: Compare)
        ensures
            c@ == self@.matching(pattern, text@),
    {
        Compare::Pattern(Box::new(self), pattern, String::from_str(text))
    }

    /// `self LIKE '%text%'`
    pub fn like(self, text: &str) -> (c: Compare)
        ensures
            c@ == self@.matching(Pattern::Like, text@),
    {
        self.pattern(Pattern::Like, text)
    }

    /// `self NOT LIKE '%text%'`
    pub fn not_like(self, text: &str) -> (c: Compare)
        ensures
            c@ == self@.matching(Pattern::NotLike, text@),
    {
        self.pattern(Pattern::NotLike, text)
    }

    /// `self LIKE 'text%'`
    pub fn begins_with(self, text: &str) -> (c: Compare)
        ensures
            c@ == self@.matching(Pattern::BeginsWith, text@),
    {
        self.pattern(Pattern::BeginsWith, text)
    }

    /// `self NOT LIKE 'text%'`
    pub fn not_begins_with(self, text: &str) -> (c: Compare)
        ensures
            c@ == self@.matching(Pattern::NotBeginsWith, text@),
    {
        self.pattern(Pattern::NotBeginsWith, text)
    }

    /// `self LIKE '%text'`
    pub fn ends_into(self, text: &str) -> (c: Compare)
        ensures
            c@ == self@.matching(Pattern::EndsInto, text@),
    {
        self.pattern(Pattern::EndsInto, text)
    }

    /// `self NOT LIKE '%text'`
    pub fn not_ends_into(self, text: &str) -> (c: Compare)
        ensures
            c@ == self@.matching(Pattern::NotEndsInto, text@),
    {
        self.pattern(Pattern::NotEndsInto, text)
    }

    /// `self IS NULL`
    pub fn is_null(self) -> (c: Compare)
        ensures
            c@ == CompareView::Null(Box::new(self@)),
    {
        Compare::Null(Box::new(self))
    }

    /// `self IS NOT NULL`
    pub fn is_not_null(self) -> (c: Compare)
        ensures
            c@ == CompareView::NotNull(Box::new(self@)),
    {
        Compare::NotNull(Box::new(self))
    }

    /// `self BETWEEN low AND high`
    pub fn between(self, low: Expression, high: Expression) -> (c: Compare)
        ensures
            c@ == CompareView::Between(Box::new(self@), Box::new(low@), Box::new(high@)),
    {
        Compare::Between(Box::new(self), Box::new(low), Box::new(high))
    }

    /// `self NOT BETWEEN low AND high`
    pub fn not_between(self, low: Expression, high: Expression) -> (c: Compare)
        ensures
            c@ == CompareView::NotBetween(Box::new(self@), Box::new(low@), Box::new(high@)),
    {
        Compare::NotBetween(Box::new(self), Box::new(low), Box::new(high))
    }

    /// `self <comparator> other`, with the comparator given as text.
    pub fn compare_raw(self, comparator: &str, other: Expression) -> (c: Compare)
        ensures
            c@ == CompareView::Raw(Box::new(self@), comparator@, Box::new(other@)),
    {
        Compare::Raw(Box::new(self), String::from_str(comparator), Box::new(other))
    }

    /// A test on a JSON array; `negated` negates it.
    pub fn json_array(self, test: JsonArrayTest, negated: bool, other: Expression) -> (c: Compare)
        ensures
            c@ == CompareView::JsonArray(Box::new(self@), test, negated, Box::new(other@)),
    {
        Compare::JsonArray(Box::new(self), test, negated, Box::new(other))
    }

    /// A test of the type of a JSON value.
    pub fn json_type_equals(self, json_type: JsonType) -> (c: Compare)
        ensures
            c@ == CompareView::JsonType(Box::new(self@), json_type),
    {
        Compare::JsonType(Box::new(self), json_type)
    }

    /// A full-text search match.
    pub fn matches(self, query: &str) -> (c: Compare)
        ensures
            c@ == CompareView::Matches(Box::new(self@), query@, false),
    {
        Compare::Matches(Box::new(self), String::from_str(query), false)
    }

    /// The negation of a full-text search match.
    pub fn not_matches(self, query: &str) -> (c: Compare)
        ensures
            c@ == CompareView::Matches(Box::new(self@), query@, true),
    {
        Compare::Matches(Box::new(self), String::from_str(query), true)
    }

    /// This expression and another one, joined by `AND`.
    pub fn and(self, other: Expression) -> (t: ConditionTree)
        ensures
            t@ == self@.and(other@),
    {
        ConditionTree::And(pair_of_expressions(self, other))
    }

    /// This expression and another one, joined by `OR`.
    pub fn or(self, other: Expression) -> (t: ConditionTree)
        ensures
            t@ == self@.or(other@),
    {
        ConditionTree::Or(pair_of_expressions(self, other))
    }

    /// The negation of this expression.
    pub fn not(self) -> (t: ConditionTree)
        ensures
            t@ == self@.not(),
    {
        ConditionTree::Not(Box::new(self))
    }

    /// The expression in an ordering.
    pub fn order(self, order: Option<Order>) -> (o: OrderDefinition)
        ensures
            o@ == self@.ordered(order),
    {
        OrderDefinition { expression: self, order }
    }
}

impl Compare {
    /// The comparison as an expression.
    pub fn into_expression(self) -> (e: Expression)
        ensures
            e@ == self@.into_expression(),
    {
        Expression::comparison(self)
    }

    /// The comparison as the only condition of a tree.
    pub fn into_tree(self) -> (t: ConditionTree)
        ensures
            t@ == self@.into_tree(),
    {
        ConditionTree::Single(Box::new(Expression::comparison(self)))
    }

    /// This comparison and an expression, joined by `AND`.
    pub fn and(self, other: Expression) -> (t: ConditionTree)
        ensures
            t@ == self@.into_expression().and(other@),
    {
        self.into_expression().and(other)
    }

    /// This comparison and an expression, joined by `OR`.
    pub fn or(self, other: Expression) -> (t: ConditionTree)
        ensures
            t@ == self@.into_expression().or(other@),
    {
        self.into_expression().or(other)
    }

    /// The negation of this comparison.
    pub fn not(self) -> (t: ConditionTree)
        ensures
            t@ == self@.into_expression().not(),
    {
        self.into_expression().not()
    }
}

impl ConditionTree {
    /// The tree of one condition.
    pub fn single(e: Expression) -> (t: ConditionTree)
        ensures
            t@ == e@.single(),
    {
        ConditionTree::Single(Box::new(e))
    }

    /// The tree as an expression.
    pub fn into_expression(self) -> (e: Expression)
        ensures
            e@ == self@.into_expression(),
    {
        Expression::tree(self)
    }

    /// Adds a condition joined by `AND`.
    pub fn and(self, other: Expression) -> (t: ConditionTree)
        ensures
            t@ == self@.and(other@),
    {
        match self {
            ConditionTree::And(items) => {
                let mut items = items;
                push_expression(&mut items, other);
                ConditionTree::And(items)
            },
            ConditionTree::Single(e) => ConditionTree::And(pair_of_expressions(*e, other)),
            tree => ConditionTree::And(pair_of_expressions(Expression::tree(tree), other)),
        }
    }

    /// Adds a condition joined by `OR`.
    pub fn or(self, other: Expression) -> (t: ConditionTree)
        ensures
            t@ == self@.or(other@),
    {
        match self {
            ConditionTree::Or(items) => {
                let mut items = items;
                push_expression(&mut items, other);
                ConditionTree::Or(items)
            },
            ConditionTree::Single(e) => ConditionTree::Or(pair_of_expressions(*e, other)),
            tree => ConditionTree::Or(pair_of_expressions(Expression::tree(tree), other)),
        }
    }

    /// The negation of the tree.
    pub fn not(self) -> (t: ConditionTree)
        ensures
            t@ == self@.into_expression().not(),
    {
        ConditionTree::Not(Box::new(Expression::tree(self)))
    }
}

impl Row {
    /// The empty tuple.
    pub fn new() -> (r: Row)
        ensures
            r@ == (RowView { values: Seq::empty() }),
    {
        let r = Row { values: Vec::new() };
        assert(r@.values =~= Seq::empty());
        r
    }

    /// The empty tuple with room for `capacity` items.
    pub fn with_capacity(capacity: usize) -> (r: Row)
        ensures
            r@ == (RowView { values: Seq::empty() }),
    {
        let r = Row { values: Vec::with_capacity(capacity) };
        assert(r@.values =~= Seq::empty());
        r
    }

    /// The tuple of the columns.
    pub fn from_columns(columns: Vec<Column>) -> (r: Row)
        ensures
            r@ == RowView::of_columns(column_views(columns@)),
    {
        Row { values: expressions_of_columns(columns) }
    }

    /// The tuple of the expressions.
    pub fn from_expressions(values: Vec<Expression>) -> (r: Row)
        ensures
            r@.values == expression_views(values@),
    {
        Row { values }
    }

    /// Adds an item.
    pub fn push(&mut self, e: Expression)
        ensures
            final(self)@ == old(self)@.with(e@),
    {
        push_expression(&mut self.values, e);
    }

    /// Removes the last item.
    pub fn pop(&mut self) -> (e: Option<Expression>)
        ensures
            match e {
                Some(e) => old(self)@.values.len() > 0 && e@ == old(self)@.values.last()
                    && final(self)@.values == old(self)@.values.drop_last(),
                None => old(self)@.values.len() == 0 && final(self)@ == old(self)@,
            },
    {
        let ghost before = self.values@;
        let e = self.values.pop();
        proof {
            if before.len() > 0 {
                assert(expression_views(self.values@) =~= expression_views(before).drop_last());
            }
        }
        e
    }

    /// The number of items.
    pub fn len(&self) -> (n: usize)
        ensures
            n == self@.values.len(),
    {
        self.values.len()
    }

    /// True for the empty tuple.
    pub fn is_empty(&self) -> (b: bool)
        ensures
            b == (self@.values.len() == 0),
    {
        self.values.len() == 0
    }
}

impl Values {
    /// Create a new empty in-memory set of values.
    pub fn empty() -> (v: Values)
        ensures
            v@ == (ValuesView { rows: Seq::empty() }),
    {
        let v = Values { rows: Vec::new() };
        assert(v@.rows =~= Seq::empty());
        v
    }

    /// Create a new in-memory set of values.
    pub fn new(rows: Vec<Row>) -> (v: Values)
        ensures
            v@.rows == row_views(rows@),
    {
        Values { rows }
    }

    /// Create a new in-memory set of values with an allocated capacity.
    pub fn with_capacity(capacity: usize) -> (v: Values)
        ensures
            v@ == (ValuesView { rows: Seq::empty() }),
    {
        let v = Values { rows: Vec::with_capacity(capacity) };
        assert(v@.rows =~= Seq::empty());
        v
    }

    /// Add value to the temporary table.
    pub fn push(&mut self, row: Row)
        ensures
            final(self)@ == old(self)@.with(row@),
    {
        push_row(&mut self.rows, row);
    }

    /// The number of rows in the in-memory table.
    pub fn len(&self) -> (n: usize)
        ensures
            n == self@.rows.len(),
    {
        self.rows.len()
    }

    /// True if has no rows.
    pub fn is_empty(&self) -> (b: bool)
        ensures
            b == (self@.rows.len() == 0),
    {
        self.len() == 0
    }

    /// The number of columns of the first row; zero without rows.
    pub fn row_len(&self) -> (n: usize)
        ensures
            n == crate::visitors::syntax::row_len(self@),
    {
        if self.rows.len() == 0 {
            0
        } else {
            self.rows[0].values.len()
        }
    }

    /// Tells whether all rows have as many items as the first, as the
    /// rows of a table must.
    pub fn is_uniform(&self) -> (b: bool)
        ensures
            b == self@.uniform(),
    {
        let mut i: usize = 0;
        while i < self.rows.len()
            invariant
                i <= self.rows.len(),
                forall|j: int|
                    0 <= j < i ==> (#[trigger] self@.rows[j]).values.len()
                        == self@.rows[0].values.len(),
            decreases self.rows.len() - i,
        {
            assert(self@.rows[i as int].values.len() == self.rows@[i as int].values@.len());
            assert(self@.rows[0].values.len() == self.rows@[0].values@.len());
            if self.rows[i].values.len() != self.rows[0].values.len() {
                return false;
            }
            i += 1;
        }
        true
    }

    /// The last item of every row as one tuple, where every row has one.
    pub fn flatten_row(self) -> (r: Option<Row>)
        ensures
            match r {
                Some(row) => self@.flattened() == Some(row@),
                None => self@.flattened() is None,
            },
    {
        let mut result: Vec<Expression> = Vec::new();
        let mut i: usize = 0;
        while i < self.rows.len()
            invariant
                i <= self.rows.len(),
                result@.len() == i,
                forall|j: int| 0 <= j < i ==> (#[trigger] self@.rows[j]).values.len() > 0,
                forall|j: int| 0 <= j < i ==> (#[trigger] result@[j])@ == self@.rows[j].values.last(),
            decreases self.rows.len() - i,
        {
            let n = self.rows[i].values.len();
            assert(self@.rows[i as int].values.len() == n);
            if n == 0 {
                return None;
            }
            let e = self.rows[i].values[n - 1].duplicate();
            assert(e@ == self@.rows[i as int].values.last());
            result.push(e);
            i += 1;
        }
        let row = Row { values: result };
        assert(row@.values =~= self@.flattened().unwrap().values);
        Some(row)
    }
}

} // verus!
